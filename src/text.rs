//! String helpers with exact specifications: ASCII lowercasing, decimal rendering,
//! joining and membership.
use vstd::prelude::*;
use vstd::string::*;

verus! {

/// ASCII lowercase of one character; every other character is kept.
pub open spec fn lower_char(c: char) -> char {
    if 'A' <= c && c <= 'Z' {
        (((c as u8) + 32) as u8) as char
    } else {
        c
    }
}

/// ASCII lowercase of a whole string, character by character.
pub open spec fn ascii_lower(s: Seq<char>) -> Seq<char> {
    Seq::new(s.len(), |i: int| lower_char(s[i]))
}

/// The ASCII lowercase of `s`: letters `A`..`Z` become `a`..`z`, all else is kept.
pub fn to_ascii_lower(s: &str) -> (r: String)
    ensures
        r@ == ascii_lower(s@),
{
    let letters = "abcdefghijklmnopqrstuvwxyz";
    proof {
        reveal_strlit("abcdefghijklmnopqrstuvwxyz");
    }
    let n = s.unicode_len();
    let mut out = String::new();
    let mut i: usize = 0;
    while i < n
        invariant
            n == s@.len(),
            0 <= i <= n,
            letters@ == "abcdefghijklmnopqrstuvwxyz"@,
            letters@.len() == 26,
            forall|k: int| 0 <= k < 26 ==> #[trigger] letters@[k] == ((97 + k) as u8) as char,
            out@ == ascii_lower(s@.take(i as int)),
        decreases n - i,
    {
        let c = s.get_char(i);
        let piece = if 'A' <= c && c <= 'Z' {
            let k = (c as u32 - 65) as usize;
            let p = letters.substring_char(k, k + 1);
            assert(p@ =~= seq![lower_char(c)]) by {
                assert(p@[0] == letters@[k as int]);
            }
            p
        } else {
            let p = s.substring_char(i, i + 1);
            assert(p@ =~= seq![lower_char(c)]) by {
                assert(p@[0] == s@[i as int]);
            }
            p
        };
        out.append(piece);
        i = i + 1;
        assert(out@ =~= ascii_lower(s@.take(i as int)));
    }
    assert(s@.take(n as int) =~= s@);
    out
}

/// The decimal digit for `d < 10`.
pub open spec fn digit_char(d: nat) -> char {
    seq!['0', '1', '2', '3', '4', '5', '6', '7', '8', '9'][d as int]
}

/// Decimal notation of a natural number, without leading zeros.
pub open spec fn decimal(n: nat) -> Seq<char>
    decreases n,
{
    if n < 10 {
        seq![digit_char(n)]
    } else {
        decimal(n / 10).push(digit_char(n % 10))
    }
}

/// The one-character string of the decimal digit `d`.
fn digit_str(d: u128) -> (r: &'static str)
    requires
        d < 10,
    ensures
        r@ == seq![digit_char(d as nat)],
{
    proof {
        reveal_strlit("0");
        reveal_strlit("1");
        reveal_strlit("2");
        reveal_strlit("3");
        reveal_strlit("4");
        reveal_strlit("5");
        reveal_strlit("6");
        reveal_strlit("7");
        reveal_strlit("8");
        reveal_strlit("9");
    }
    let r = if d == 0 {
        "0"
    } else if d == 1 {
        "1"
    } else if d == 2 {
        "2"
    } else if d == 3 {
        "3"
    } else if d == 4 {
        "4"
    } else if d == 5 {
        "5"
    } else if d == 6 {
        "6"
    } else if d == 7 {
        "7"
    } else if d == 8 {
        "8"
    } else {
        "9"
    };
    assert(r@ =~= seq![digit_char(d as nat)]);
    r
}

/// Decimal notation of `n`: most significant digit first, no sign, no leading zeros.
pub fn decimal_string(n: u128) -> (r: String)
    ensures
        r@ == decimal(n as nat),
    decreases n,
{
    if n < 10 {
        String::from_str(digit_str(n))
    } else {
        let mut out = decimal_string(n / 10);
        out.append(digit_str(n % 10));
        assert(out@ =~= decimal(n as nat));
        out
    }
}

/// The entries of `parts` with a `sep` between each two neighbours.
pub open spec fn joined(parts: Seq<Seq<char>>, sep: Seq<char>) -> Seq<char>
    decreases parts.len(),
{
    if parts.len() == 0 {
        Seq::empty()
    } else if parts.len() == 1 {
        parts[0]
    } else {
        joined(parts.drop_last(), sep) + sep + parts.last()
    }
}

/// The character views of a slice of string slices.
pub open spec fn views_of(items: Seq<&str>) -> Seq<Seq<char>> {
    Seq::new(items.len(), |i: int| items[i]@)
}

/// Joins `parts` with `|` between neighbours.
pub fn join_bar(parts: &[&str]) -> (r: String)
    ensures
        r@ == joined(views_of(parts@), seq!['|']),
{
    let mut out = String::new();
    let mut i: usize = 0;
    let bar = "|";
    proof {
        reveal_strlit("|");
    }
    while i < parts.len()
        invariant
            0 <= i <= parts@.len(),
            bar@ == seq!['|'],
            out@ == joined(views_of(parts@.take(i as int)), seq!['|']),
        decreases parts@.len() - i,
    {
        let ghost prev = views_of(parts@.take(i as int));
        let ghost next = views_of(parts@.take(i as int + 1));
        assert(next.drop_last() =~= prev);
        if i > 0 {
            out.append(bar);
        }
        out.append(parts[i]);
        i = i + 1;
        assert(out@ =~= joined(next, seq!['|']));
    }
    assert(parts@.take(parts@.len() as int) =~= parts@);
    out
}

/// Whether `s` is byte-equal to one of `items`.
pub open spec fn listed(items: Seq<&str>, s: Seq<char>) -> bool {
    exists|i: int| 0 <= i < items.len() && (#[trigger] items[i])@ == s
}

/// Tests whether `s` equals one of the entries of `items`.
pub fn contains_str(items: &[&str], s: &String) -> (r: bool)
    ensures
        r == listed(items@, s@),
{
    let mut i: usize = 0;
    while i < items.len()
        invariant
            0 <= i <= items@.len(),
            forall|j: int| 0 <= j < i ==> (#[trigger] items@[j])@ != s@,
        decreases items@.len() - i,
    {
        let entry = String::from_str(items[i]);
        if entry == *s {
            return true;
        }
        i = i + 1;
    }
    false
}

} // verus!
