//! The kind of a fungible asset: a native coin by denom, or a CW20 token by contract address.
use vstd::prelude::*;
use vstd::string::*;

use crate::error::AssetError;
use crate::payload::{cw20_balance_query_json, encode_balance_query};
use crate::text::{ascii_lower, contains_str, join_bar, joined, listed, to_ascii_lower, views_of};

verus! {

/// A validated, canonical address. Outside of tests it is only obtained from the host's
/// address validation.
#[derive(Debug, Clone)]
pub struct Addr {
    text: String,
}

impl View for Addr {
    type V = Seq<char>;

    closed spec fn view(&self) -> Seq<char> {
        self.text@
    }
}

impl Addr {
    /// Wraps `s` as an address without validating it.
    pub fn unchecked(s: &str) -> (r: Addr)
        ensures
            r@ == s@,
    {
        Addr { text: String::from_str(s) }
    }

    /// The address as text.
    pub fn as_str(&self) -> (r: &str)
        ensures
            r@ == self@,
    {
        self.text.as_str()
    }

    /// The address as an owned string.
    pub fn into_string(self) -> (r: String)
        ensures
            r == addr_text(self),
            r@ == self@,
    {
        self.text
    }
}

/// The text that an address holds.
pub closed spec fn addr_text(a: Addr) -> String {
    a.text
}

impl PartialEq for Addr {
    fn eq(&self, other: &Addr) -> (r: bool) {
        self.text == other.text
    }
}

impl vstd::std_specs::cmp::PartialEqSpecImpl for Addr {
    open spec fn obeys_eq_spec() -> bool {
        true
    }

    open spec fn eq_spec(&self, other: &Addr) -> bool {
        self@ == other@
    }
}

/// What an asset info denotes: the variant and its text.
pub enum InfoModel {
    Cw20(Seq<char>),
    Native(Seq<char>),
}

/// The type of a fungible asset, over the representation `T` of a token's contract address:
/// `String` before validation, `Addr` after.
#[derive(Debug, Clone)]
pub enum AssetInfoBase<T> {
    Cw20(T),
    Native(String),
}

/// An asset info that may hold unvalidated data, as received in messages.
pub type AssetInfoUnchecked = AssetInfoBase<String>;

/// An asset info that holds only validated data.
pub type AssetInfo = AssetInfoBase<Addr>;

impl<T: View<V = Seq<char>>> View for AssetInfoBase<T> {
    type V = InfoModel;

    open spec fn view(&self) -> InfoModel {
        match self {
            AssetInfoBase::Cw20(a) => InfoModel::Cw20(a@),
            AssetInfoBase::Native(d) => InfoModel::Native(d@),
        }
    }
}

impl<T> AssetInfoBase<T> {
    /// An asset info of the CW20 variant, for the given contract address.
    pub fn cw20(contract_addr: T) -> (r: Self)
        ensures
            r == AssetInfoBase::<T>::Cw20(contract_addr),
    {
        AssetInfoBase::Cw20(contract_addr)
    }

    /// An asset info of the native variant, for the given denom.
    pub fn native(denom: &str) -> (r: Self)
        ensures
            r matches AssetInfoBase::Native(d) && d@ == denom@,
    {
        AssetInfoBase::Native(String::from_str(denom))
    }
}

impl PartialEq for AssetInfoBase<Addr> {
    fn eq(&self, other: &Self) -> (r: bool) {
        match (self, other) {
            (AssetInfoBase::Cw20(a), AssetInfoBase::Cw20(b)) => a.eq(b),
            (AssetInfoBase::Native(a), AssetInfoBase::Native(b)) => a.eq(b),
            _ => false,
        }
    }
}

impl vstd::std_specs::cmp::PartialEqSpecImpl for AssetInfoBase<Addr> {
    open spec fn obeys_eq_spec() -> bool {
        true
    }

    open spec fn eq_spec(&self, other: &Self) -> bool {
        self@ == other@
    }
}

impl PartialEq for AssetInfoBase<String> {
    fn eq(&self, other: &Self) -> (r: bool) {
        match (self, other) {
            (AssetInfoBase::Cw20(a), AssetInfoBase::Cw20(b)) => a.eq(b),
            (AssetInfoBase::Native(a), AssetInfoBase::Native(b)) => a.eq(b),
            _ => false,
        }
    }
}

impl vstd::std_specs::cmp::PartialEqSpecImpl for AssetInfoBase<String> {
    open spec fn obeys_eq_spec() -> bool {
        true
    }

    open spec fn eq_spec(&self, other: &Self) -> bool {
        self@ == other@
    }
}

/// The tag of the CW20 variant in the textual form.
pub open spec fn cw20_tag() -> Seq<char> {
    seq!['c', 'w', '2', '0']
}

/// The tag of the native variant in the textual form.
pub open spec fn native_tag() -> Seq<char> {
    seq!['n', 'a', 't', 'i', 'v', 'e']
}

/// The textual form `kind:body` of an asset info.
pub open spec fn info_text(m: InfoModel) -> Seq<char> {
    match m {
        InfoModel::Cw20(a) => cw20_tag() + seq![':'] + a,
        InfoModel::Native(d) => native_tag() + seq![':'] + d,
    }
}

impl AssetInfoBase<Addr> {
    /// The textual form: `native:<denom>` or `cw20:<contract address>`.
    pub fn to_string(&self) -> (r: String)
        ensures
            r@ == info_text(self@),
    {
        let tag = "cw20:";
        let ntag = "native:";
        proof {
            reveal_strlit("cw20:");
            reveal_strlit("native:");
        }
        match self {
            AssetInfoBase::Cw20(a) => {
                let mut out = String::from_str(tag);
                out.append(a.as_str());
                assert(out@ =~= info_text(self@));
                out
            },
            AssetInfoBase::Native(d) => {
                let mut out = String::from_str(ntag);
                out.append(d.as_str());
                assert(out@ =~= info_text(self@));
                out
            },
        }
    }
}

/// No character of `t` is a colon.
pub open spec fn colon_free(t: Seq<char>) -> bool {
    forall|j: int| 0 <= j < t.len() ==> t[j] != ':'
}

/// `s` has a colon at `i` and none elsewhere.
pub open spec fn sole_colon_at(s: Seq<char>, i: int) -> bool {
    0 <= i < s.len() && s[i] == ':' && colon_free(s.take(i)) && colon_free(s.skip(i + 1))
}

/// What reading a textual form gives.
pub enum ParseModel {
    Parsed(InfoModel),
    BadFormat,
    UnknownKind(Seq<char>),
}

/// Reading `kind:body`: exactly one colon, both parts non-empty, and the kind `native` or
/// `cw20`, matched case-sensitively; the body is taken verbatim.
pub open spec fn parse_text(s: Seq<char>) -> ParseModel {
    if exists|i: int| sole_colon_at(s, i) {
        let i = choose|i: int| sole_colon_at(s, i);
        let kind = s.take(i);
        let body = s.skip(i + 1);
        if kind.len() == 0 || body.len() == 0 {
            ParseModel::BadFormat
        } else if kind == native_tag() {
            ParseModel::Parsed(InfoModel::Native(body))
        } else if kind == cw20_tag() {
            ParseModel::Parsed(InfoModel::Cw20(body))
        } else {
            ParseModel::UnknownKind(kind)
        }
    } else {
        ParseModel::BadFormat
    }
}

/// The message of a malformed textual form.
pub open spec fn format_message(s: Seq<char>) -> Seq<char> {
    "invalid asset info format `"@ + s
        + "`; must be in format `native:{denom}` or `cw20:{contract_addr}`"@
}

/// The message of an unknown kind in the textual form.
pub open spec fn kind_message(kind: Seq<char>) -> Seq<char> {
    "invalid asset type `"@ + kind + "`; must be `native` or `cw20`"@
}

/// The message of a denom missing from a whitelist.
pub open spec fn whitelist_message(denom: Seq<char>, allowed: Seq<Seq<char>>) -> Seq<char> {
    "invalid denom "@ + denom + "; must be "@ + joined(allowed, seq!['|'])
}

/// `r` is what the validator `validate` may hand back for the text `input`, put in the
/// library's terms: the address as a CW20 asset info, or its error as an address error.
pub open spec fn validated_as<F: Fn(String) -> Result<Addr, String>>(
    validate: F,
    input: Seq<char>,
    r: Result<AssetInfo, AssetError>,
) -> bool {
    exists|s: String, out: Result<Addr, String>|
        s@ == input && #[trigger] call_ensures(validate, (s,), out) && r == match out {
            Ok(a) => Ok(AssetInfoBase::<Addr>::Cw20(a)),
            Err(m) => Err(AssetError::Address(m)),
        }
}

/// The outcome of validating a native denom against an optional whitelist.
pub open spec fn native_checked(
    denom: Seq<char>,
    whitelist: Option<&[&str]>,
    r: Result<AssetInfo, AssetError>,
) -> bool {
    match whitelist {
        Some(w) if !listed(w@, denom) => r matches Err(AssetError::Whitelist(m)) && m@
            == whitelist_message(denom, views_of(w@)),
        _ => r matches Ok(info) && info@ == InfoModel::Native(denom),
    }
}

/// The outcome of validating `info`: see `AssetInfoUnchecked::check`.
pub open spec fn info_checked<F: Fn(String) -> Result<Addr, String>>(
    info: AssetInfoUnchecked,
    validate: F,
    whitelist: Option<&[&str]>,
    r: Result<AssetInfo, AssetError>,
) -> bool {
    match info {
        AssetInfoBase::Cw20(raw) => validated_as(validate, ascii_lower(raw@), r),
        AssetInfoBase::Native(denom) => native_checked(denom@, whitelist, r),
    }
}

/// Builds the error message for a malformed textual form.
fn format_error(s: &str) -> (r: AssetError)
    ensures
        r matches AssetError::Format(m) && m@ == format_message(s@),
{
    let mut m = String::from_str("invalid asset info format `");
    m.append(s);
    m.append("`; must be in format `native:{denom}` or `cw20:{contract_addr}`");
    AssetError::Format(m)
}

impl AssetInfoBase<String> {
    /// Reads the textual form `native:<denom>` or `cw20:<contract address>`.
    pub fn from_str(s: &str) -> (r: Result<AssetInfoUnchecked, AssetError>)
        ensures
            match parse_text(s@) {
                ParseModel::Parsed(m) => r matches Ok(info) && info@ == m,
                ParseModel::BadFormat => r matches Err(AssetError::Format(msg)) && msg@
                    == format_message(s@),
                ParseModel::UnknownKind(k) => r matches Err(AssetError::UnknownKind(msg))
                    && msg@ == kind_message(k),
            },
    {
        let n = s.unicode_len();
        let mut i: usize = 0;
        let mut colons: usize = 0;
        let mut at: usize = 0;
        let mut second: usize = 0;
        while i < n && colons < 2
            invariant
                n == s@.len(),
                0 <= i <= n,
                colons <= 2,
                colons == 0 ==> colon_free(s@.take(i as int)),
                colons >= 1 ==> at < i && s@[at as int] == ':' && colon_free(s@.take(at as int)),
                colons == 1 ==> forall|j: int| at < j < i ==> s@[j] != ':',
                colons == 2 ==> at < second < i && s@[second as int] == ':',
            decreases n - i,
        {
            let c = s.get_char(i);
            if c == ':' {
                if colons == 0 {
                    at = i;
                } else {
                    second = i;
                }
                colons = colons + 1;
            }
            i = i + 1;
        }
        if colons != 1 {
            assert forall|k: int| !sole_colon_at(s@, k) by {
                if sole_colon_at(s@, k) {
                    if colons == 0 {
                        assert(s@.take(i as int)[k] == s@[k]);
                    } else if k < at {
                        assert(s@.skip(k + 1)[at - k - 1] == s@[at as int]);
                    } else if k == at {
                        assert(s@.skip(k + 1)[second - k - 1] == s@[second as int]);
                    } else {
                        assert(s@.take(k)[at as int] == s@[at as int]);
                    }
                }
            }
            return Err(format_error(s));
        }
        assert(sole_colon_at(s@, at as int)) by {
            assert forall|j: int| 0 <= j < s@.skip(at + 1).len() implies #[trigger] s@.skip(at + 1)[j]
                != ':' by {
                assert(s@.skip(at + 1)[j] == s@[at + 1 + j]);
            }
        }
        assert forall|k: int| sole_colon_at(s@, k) implies k == at by {
            if k < at {
                assert(s@.skip(k + 1)[at - k - 1] == s@[at as int]);
            } else if k > at {
                assert(s@.take(k)[at as int] == s@[at as int]);
            }
        }
        let kind = s.substring_char(0, at);
        let body = s.substring_char(at + 1, n);
        assert(kind@ =~= s@.take(at as int));
        assert(body@ =~= s@.skip(at + 1));
        if at == 0 || at + 1 == n {
            return Err(format_error(s));
        }
        let kind_text = String::from_str(kind);
        let native = String::from_str("native");
        let cw20 = String::from_str("cw20");
        proof {
            reveal_strlit("native");
            reveal_strlit("cw20");
            assert(native@ =~= native_tag());
            assert(cw20@ =~= cw20_tag());
        }
        if kind_text == native {
            Ok(AssetInfoBase::Native(String::from_str(body)))
        } else if kind_text == cw20 {
            Ok(AssetInfoBase::Cw20(String::from_str(body)))
        } else {
            let mut m = String::from_str("invalid asset type `");
            m.append(kind);
            m.append("`; must be `native` or `cw20`");
            Err(AssetError::UnknownKind(m))
        }
    }

    /// Validates an unchecked asset info. A CW20 address is lowercased (ASCII only) and handed
    /// to `validate`, whose address is kept or whose error becomes an address error. A native
    /// denom is kept as it is, unless a whitelist is given that does not hold it.
    pub fn check<F: Fn(String) -> Result<Addr, String>>(
        &self,
        validate: F,
        whitelist: Option<&[&str]>,
    ) -> (r: Result<AssetInfo, AssetError>)
        requires
            forall|s: String| call_requires(validate, (s,)),
        ensures
            info_checked(*self, validate, whitelist, r),
    {
        match self {
            AssetInfoBase::Cw20(raw) => {
                let lower = to_ascii_lower(raw.as_str());
                let ghost input = lower;
                let out = validate(lower);
                let r = match out {
                    Ok(a) => Ok(AssetInfoBase::Cw20(a)),
                    Err(m) => Err(AssetError::Address(m)),
                };
                assert(call_ensures(validate, (input,), out));
                r
            },
            AssetInfoBase::Native(denom) => {
                if let Some(w) = whitelist {
                    if !contains_str(w, denom) {
                        let mut m = String::from_str("invalid denom ");
                        m.append(denom.as_str());
                        m.append("; must be ");
                        let allowed = join_bar(w);
                        m.append(allowed.as_str());
                        return Err(AssetError::Whitelist(m));
                    }
                }
                Ok(AssetInfoBase::Native(denom.clone()))
            },
        }
    }
}

/// A balance query as the host querier takes it.
#[derive(Debug, Clone, PartialEq, Eq)]
pub enum BalanceQuery {
    /// The bank module's balance of `address` in `denom`.
    Bank { address: String, denom: String },
    /// A smart query of the token contract, with an encoded CW20 `Balance` request.
    Wasm { contract_addr: String, msg: Vec<u8> },
}

impl AssetInfoBase<Addr> {
    /// The same asset info with the address widened to a plain string.
    pub fn to_unchecked(&self) -> (r: AssetInfoUnchecked)
        ensures
            r@ == self@,
    {
        match self {
            AssetInfoBase::Cw20(a) => AssetInfoBase::Cw20(String::from_str(a.as_str())),
            AssetInfoBase::Native(d) => AssetInfoBase::Native(d.clone()),
        }
    }

    /// The query that reads the balance of `address` in this asset: a bank query for a native
    /// coin, a CW20 `Balance` smart query to the token contract otherwise.
    pub fn balance_query(&self, address: &str) -> (r: BalanceQuery)
        ensures
            match self {
                AssetInfoBase::Native(d) => r matches BalanceQuery::Bank { address: a, denom }
                    && a@ == address@ && denom@ == d@,
                AssetInfoBase::Cw20(c) => r matches BalanceQuery::Wasm { contract_addr, msg }
                    && contract_addr@ == c@ && msg@ == cw20_balance_query_json(address@),
            },
    {
        match self {
            AssetInfoBase::Native(d) => BalanceQuery::Bank {
                address: String::from_str(address),
                denom: d.clone(),
            },
            AssetInfoBase::Cw20(c) => {
                let msg = encode_balance_query(address).unwrap();
                BalanceQuery::Wasm { contract_addr: String::from_str(c.as_str()), msg }
            },
        }
    }
}

/// A checked asset info widened to an unchecked one: the address becomes its text, a denom
/// stays as it is.
pub open spec fn widened(info: AssetInfo) -> AssetInfoUnchecked {
    match info {
        AssetInfoBase::Cw20(a) => AssetInfoBase::Cw20(addr_text(a)),
        AssetInfoBase::Native(d) => AssetInfoBase::Native(d),
    }
}

impl From<AssetInfo> for AssetInfoUnchecked {
    fn from(info: AssetInfo) -> (r: AssetInfoUnchecked) {
        match info {
            AssetInfoBase::Cw20(a) => AssetInfoBase::Cw20(a.into_string()),
            AssetInfoBase::Native(d) => AssetInfoBase::Native(d),
        }
    }
}

impl vstd::std_specs::convert::FromSpecImpl<AssetInfo> for AssetInfoUnchecked {
    open spec fn obeys_from_spec() -> bool {
        true
    }

    open spec fn from_spec(info: AssetInfo) -> AssetInfoUnchecked {
        widened(info)
    }
}

} // verus!
