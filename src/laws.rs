//! General properties of asset infos and assets, proved over their models.
use vstd::prelude::*;
use vstd::std_specs::cmp::PartialEqSpec;

use crate::asset::Asset;
use crate::asset_info::{
    colon_free, cw20_tag, info_checked, info_text, native_tag, parse_text, sole_colon_at, Addr,
    AssetInfo, AssetInfoBase, AssetInfoUnchecked, InfoModel, ParseModel,
};
use crate::error::AssetError;
use crate::text::{ascii_lower, lower_char};

verus! {

/// The text that an asset info carries: its denom or its contract address.
pub open spec fn payload(m: InfoModel) -> Seq<char> {
    match m {
        InfoModel::Cw20(a) => a,
        InfoModel::Native(d) => d,
    }
}

/// `validate` accepts the lowercased text `input` and only as the address `addr`.
pub open spec fn accepts_as<F: Fn(String) -> Result<Addr, String>>(
    validate: F,
    input: Seq<char>,
    addr: Seq<char>,
) -> bool {
    forall|s: String, out: Result<Addr, String>|
        s@ == input && #[trigger] call_ensures(validate, (s,), out) ==> (out matches Ok(b) && b@
            == addr)
}

/// `validate` is canonical: each address that it hands back is accepted again, from its
/// lowercased text, as that same address.
pub open spec fn canonical_validator<F: Fn(String) -> Result<Addr, String>>(validate: F) -> bool {
    forall|s: String, a: Addr|
        #[trigger] call_ensures(validate, (s,), Ok::<Addr, String>(a)) ==> accepts_as(
            validate,
            ascii_lower(a@),
            a@,
        )
}

/// Reading the textual form of an asset info gives it back, when its payload is non-empty and
/// holds no colon.
pub proof fn lemma_text_round_trip(m: InfoModel)
    requires
        payload(m).len() > 0,
        colon_free(payload(m)),
    ensures
        parse_text(info_text(m)) == ParseModel::Parsed(m),
{
    let s = info_text(m);
    let tag = match m {
        InfoModel::Cw20(_) => cw20_tag(),
        InfoModel::Native(_) => native_tag(),
    };
    let p = payload(m);
    let i = tag.len() as int;
    assert(s =~= tag + seq![':'] + p);
    assert(s.take(i) =~= tag);
    assert(s.skip(i + 1) =~= p);
    assert(sole_colon_at(s, i));
    assert forall|k: int| sole_colon_at(s, k) implies k == i by {
        if k < i {
            assert(s[k] == tag[k]);
        } else if k > i {
            assert(s.skip(i + 1)[k - i - 1] == s[k]);
        }
    }
    assert(native_tag() != cw20_tag()) by {
        assert(native_tag().len() != cw20_tag().len());
    }
}

/// Displaying a checked asset info, reading the text back and validating it again without a
/// whitelist gives the same asset info, when its payload is non-empty and holds no colon and
/// the validator accepts a token's lowercased address as that address.
pub proof fn lemma_round_trip<F: Fn(String) -> Result<Addr, String>>(
    x: AssetInfo,
    u: AssetInfoUnchecked,
    validate: F,
    r: Result<AssetInfo, AssetError>,
)
    requires
        payload(x@).len() > 0,
        colon_free(payload(x@)),
        parse_text(info_text(x@)) == ParseModel::Parsed(u@),
        x matches AssetInfoBase::Cw20(a) ==> accepts_as(validate, ascii_lower(a@), a@),
        info_checked(u, validate, None, r),
    ensures
        r matches Ok(y) && y@ == x@,
{
    lemma_text_round_trip(x@);
}

/// Validating a checked asset info again, after widening it, gives what the first validation
/// gave, under the same whitelist and a canonical validator.
pub proof fn lemma_check_idempotent<F: Fn(String) -> Result<Addr, String>>(
    u: AssetInfoUnchecked,
    w: AssetInfoUnchecked,
    validate: F,
    whitelist: Option<&[&str]>,
    c: AssetInfo,
    r: Result<AssetInfo, AssetError>,
)
    requires
        canonical_validator(validate),
        info_checked(u, validate, whitelist, Ok(c)),
        w@ == c@,
        info_checked(w, validate, whitelist, r),
    ensures
        r matches Ok(y) && y@ == c@,
{
}

/// ASCII lowercasing twice is lowercasing once.
pub proof fn lemma_lower_idempotent(s: Seq<char>)
    ensures
        ascii_lower(ascii_lower(s)) == ascii_lower(s),
{
    assert forall|i: int| 0 <= i < s.len() implies lower_char(lower_char(s[i])) == lower_char(
        s[i],
    ) by {
        let c = s[i];
        if 'A' <= c && c <= 'Z' {
            assert((((c as u8) + 32) as u8) as char >= 'a');
        }
    }
    assert(ascii_lower(ascii_lower(s)) =~= ascii_lower(s));
}

/// A token address is validated as its ASCII-lowercased form would be: both have the same
/// possible outcomes.
pub proof fn lemma_address_canonical<F: Fn(String) -> Result<Addr, String>>(
    raw: AssetInfoUnchecked,
    lowered: AssetInfoUnchecked,
    validate: F,
    whitelist: Option<&[&str]>,
    r: Result<AssetInfo, AssetError>,
)
    requires
        raw matches AssetInfoBase::Cw20(a) && lowered matches AssetInfoBase::Cw20(b) && b@
            == ascii_lower(a@),
    ensures
        info_checked(raw, validate, whitelist, r) == info_checked(lowered, validate, whitelist, r),
{
    if let AssetInfoBase::Cw20(a) = raw {
        lemma_lower_idempotent(a@);
    }
}

/// A native asset info never equals a token one.
pub proof fn lemma_variants_disjoint(n: AssetInfo, t: AssetInfo)
    requires
        n is Native,
        t is Cw20,
    ensures
        !n.eq_spec(&t),
        !t.eq_spec(&n),
{
}

/// Equality of checked asset infos is reflexive and symmetric.
pub proof fn lemma_info_eq_reflexive_symmetric(x: AssetInfo, y: AssetInfo)
    ensures
        x.eq_spec(&x),
        x.eq_spec(&y) == y.eq_spec(&x),
{
}

/// Equality of checked assets is reflexive and symmetric, and is equality of kind and amount.
pub proof fn lemma_asset_eq_reflexive_symmetric(x: Asset, y: Asset)
    ensures
        x.eq_spec(&x),
        x.eq_spec(&y) == y.eq_spec(&x),
        x.eq_spec(&y) == (x.info@ == y.info@ && x.amount == y.amount),
{
}

} // verus!
