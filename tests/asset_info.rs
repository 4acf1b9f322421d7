use cosmwasm_std::testing::MockApi;
use cosmwasm_std::Api;
use cw_asset::{Addr, AssetError, AssetInfo, AssetInfoUnchecked, BalanceQuery};

fn mock_validator(s: String) -> Result<Addr, String> {
    let api = MockApi::default();
    api.addr_validate(&s)
        .map(|a| Addr::unchecked(a.as_str()))
        .map_err(|e| e.to_string())
}

#[test]
fn asset_info_creating_instances() {
    let info = AssetInfo::cw20(Addr::unchecked("mock_token"));
    assert_eq!(info, AssetInfo::Cw20(Addr::unchecked("mock_token")));

    let info = AssetInfo::native("uusd");
    assert_eq!(info, AssetInfo::Native(String::from("uusd")));
}

#[test]
fn asset_info_comparing() {
    let uluna = AssetInfo::native("uluna");
    let uusd = AssetInfo::native("uusd");
    let astro = AssetInfo::cw20(Addr::unchecked("astro_token"));
    let mars = AssetInfo::cw20(Addr::unchecked("mars_token"));

    assert_eq!(uluna == uusd, false);
    assert_eq!(uluna == astro, false);
    assert_eq!(astro == mars, false);
    assert_eq!(uluna == uluna.clone(), true);
    assert_eq!(astro == astro.clone(), true);
}

#[test]
fn from_string() {
    let s = "native:uusd:12345";
    assert_eq!(
        AssetInfoUnchecked::from_str(s),
        Err(AssetError::Format(String::from("invalid asset info format `native:uusd:12345`; must be in format `native:{denom}` or `cw20:{contract_addr}`"))),
    );

    let s = "cw721:galactic_punk";
    assert_eq!(
        AssetInfoUnchecked::from_str(s),
        Err(AssetError::UnknownKind(String::from("invalid asset type `cw721`; must be `native` or `cw20`"))),
    );

    let s = "native:uusd";
    assert_eq!(AssetInfoUnchecked::from_str(s).unwrap(), AssetInfoUnchecked::native("uusd"));

    let s = "cw20:mock_token";
    assert_eq!(
        AssetInfoUnchecked::from_str(s).unwrap(),
        AssetInfoUnchecked::cw20(String::from("mock_token")),
    );
}

#[test]
fn to_string() {
    let info = AssetInfo::native("uusd");
    assert_eq!(info.to_string(), String::from("native:uusd"));

    let info = AssetInfo::cw20(Addr::unchecked("mock_token"));
    assert_eq!(info.to_string(), String::from("cw20:mock_token"));
}

#[test]
fn asset_info_checking() {
    let checked = AssetInfo::cw20(Addr::unchecked("mock_token"));
    let unchecked: AssetInfoUnchecked = checked.clone().into();
    assert_eq!(unchecked.check(mock_validator, None).unwrap(), checked);

    let checked = AssetInfo::native("uusd");
    let unchecked: AssetInfoUnchecked = checked.clone().into();
    assert_eq!(
        unchecked.check(mock_validator, Some(&["uusd", "uluna", "uosmo"])).unwrap(),
        checked
    );

    let unchecked = AssetInfoUnchecked::native("uatom");
    assert_eq!(
        unchecked.check(mock_validator, Some(&["uusd", "uluna", "uosmo"])),
        Err(AssetError::Whitelist(String::from("invalid denom uatom; must be uusd|uluna|uosmo"))),
    );
}

#[test]
fn checking_uppercase() {
    let checked = AssetInfo::cw20(Addr::unchecked("terra1234abcd"));
    let unchecked = AssetInfoUnchecked::cw20(String::from("TERRA1234ABCD"));

    assert_eq!(unchecked.check(mock_validator, None).unwrap(), checked);
}

#[test]
fn querying_balance() {
    let info1 = AssetInfo::native("uusd");
    assert_eq!(
        info1.balance_query("alice"),
        BalanceQuery::Bank { address: String::from("alice"), denom: String::from("uusd") }
    );

    let info2 = AssetInfo::cw20(Addr::unchecked("mock_token"));
    let expected = cosmwasm_std::to_binary(&cw20::Cw20QueryMsg::Balance {
        address: String::from("bob"),
    })
    .unwrap();
    assert_eq!(
        info2.balance_query("bob"),
        BalanceQuery::Wasm { contract_addr: String::from("mock_token"), msg: expected.0 }
    );
}

#[test]
fn parse_rejects_empty_parts() {
    for s in ["native:", ":uusd", ":", "", "uusd"] {
        assert!(matches!(AssetInfoUnchecked::from_str(s), Err(AssetError::Format(_))), "{}", s);
    }
}

#[test]
fn parse_kind_is_case_sensitive() {
    assert_eq!(
        AssetInfoUnchecked::from_str("NATIVE:uusd"),
        Err(AssetError::UnknownKind(String::from(
            "invalid asset type `NATIVE`; must be `native` or `cw20`"
        ))),
    );
    assert_eq!(
        AssetInfoUnchecked::from_str("cw20:MixedCase"),
        Ok(AssetInfoUnchecked::Cw20(String::from("MixedCase")))
    );
}

#[test]
fn text_round_trip_through_check() {
    for info in [AssetInfo::native("uusd"), AssetInfo::cw20(Addr::unchecked("mock_token"))] {
        let parsed = AssetInfoUnchecked::from_str(&info.to_string()).unwrap();
        assert_eq!(parsed.check(mock_validator, None).unwrap(), info);
    }
}

#[test]
fn check_is_idempotent() {
    let unchecked = AssetInfoUnchecked::cw20(String::from("Terra1XYZ"));
    let once = unchecked.check(mock_validator, None).unwrap();
    let twice = once.to_unchecked().check(mock_validator, None).unwrap();
    assert_eq!(once, twice);
    assert_eq!(once, AssetInfo::cw20(Addr::unchecked("terra1xyz")));
}

#[test]
fn check_reports_address_error() {
    let unchecked = AssetInfoUnchecked::cw20(String::from("AB"));
    assert!(matches!(unchecked.check(mock_validator, None), Err(AssetError::Address(_))));
}

#[test]
fn check_keeps_denom_bytes() {
    let unchecked = AssetInfoUnchecked::native("UUSD");
    assert_eq!(unchecked.check(mock_validator, None).unwrap(), AssetInfo::native("UUSD"));
    assert_eq!(
        unchecked.check(mock_validator, Some(&["uusd"])),
        Err(AssetError::Whitelist(String::from("invalid denom UUSD; must be uusd")))
    );
    assert_eq!(
        unchecked.check(mock_validator, Some(&[])),
        Err(AssetError::Whitelist(String::from("invalid denom UUSD; must be ")))
    );
}

#[test]
fn variants_never_equal() {
    let n = AssetInfo::native("mock_token");
    let t = AssetInfo::cw20(Addr::unchecked("mock_token"));
    assert!(n != t);
    assert!(t != n);
}

#[test]
fn widening_keeps_text() {
    let checked = AssetInfo::cw20(Addr::unchecked("mock_token"));
    assert_eq!(AssetInfoUnchecked::from(checked), AssetInfoUnchecked::Cw20(String::from("mock_token")));
    let checked = AssetInfo::native("UUSD");
    assert_eq!(AssetInfoUnchecked::from(checked), AssetInfoUnchecked::Native(String::from("UUSD")));
}

#[test]
fn lowercasing_is_ascii_only() {
    let captured = std::cell::RefCell::new(String::new());
    let validate = |s: String| {
        *captured.borrow_mut() = s.clone();
        Ok(Addr::unchecked(&s))
    };
    let unchecked = AssetInfoUnchecked::cw20(String::from("ÄbC-Ω:Z9"));
    let checked = unchecked.check(validate, None).unwrap();
    assert_eq!(captured.borrow().as_str(), "Äbc-Ω:z9");
    assert_eq!(checked, AssetInfo::cw20(Addr::unchecked("Äbc-Ω:z9")));
}
