use cosmwasm_std::testing::MockApi;
use cosmwasm_std::{to_binary, Api, Binary, Uint128};
use cw20::Cw20ExecuteMsg;
use cw_asset::{
    Addr, Asset, AssetError, AssetInfo, AssetInfoUnchecked, AssetMsg, AssetUnchecked, Coin,
};

fn mock_validator(s: String) -> Result<Addr, String> {
    let api = MockApi::default();
    api.addr_validate(&s)
        .map(|a| Addr::unchecked(a.as_str()))
        .map_err(|e| e.to_string())
}

fn mock_command() -> Binary {
    Binary::from(br#"{"MockCommand":{}}"#.to_vec())
}

#[test]
fn asset_creating_instances() {
    let info = AssetInfo::native("uusd");
    let asset = Asset::new(info, 123456u128);
    assert_eq!(
        asset,
        Asset { info: AssetInfo::Native(String::from("uusd")), amount: 123456u128 }
    );

    let asset = Asset::cw20(Addr::unchecked("mock_token"), 123456u128);
    assert_eq!(
        asset,
        Asset { info: AssetInfo::Cw20(Addr::unchecked("mock_token")), amount: 123456u128 }
    );

    let asset = Asset::native("uusd", 123456u128);
    assert_eq!(
        asset,
        Asset { info: AssetInfo::Native(String::from("uusd")), amount: 123456u128 }
    )
}

#[test]
fn asset_comparing() {
    let uluna1 = Asset::native("uluna", 69u128);
    let uluna2 = Asset::native("uluna", 420u128);
    let uusd = Asset::native("uusd", 69u128);
    let astro = Asset::cw20(Addr::unchecked("astro_token"), 69u128);

    assert_eq!(uluna1 == uluna2, false);
    assert_eq!(uluna1 == uusd, false);
    assert_eq!(astro == astro.clone(), true);
}

#[test]
fn displaying() {
    let asset = Asset::native("uusd", 69420u128);
    assert_eq!(asset.to_string(), String::from("native:uusd:69420"));

    let asset = Asset::cw20(Addr::unchecked("mock_token"), 88888u128);
    assert_eq!(asset.to_string(), String::from("cw20:mock_token:88888"));
}

#[test]
fn asset_checking() {
    let checked = Asset::cw20(Addr::unchecked("mock_token"), 12345u128);
    let unchecked: AssetUnchecked = checked.clone().into();
    assert_eq!(unchecked.check(mock_validator).unwrap(), checked);

    let checked = Asset::native("uusd", 12345u128);
    let unchecked: AssetUnchecked = checked.clone().into();
    assert_eq!(
        unchecked.check_whitelist(mock_validator, &["uusd", "uluna", "uosmo"]).unwrap(),
        checked
    );

    let unchecked = AssetUnchecked::new(AssetInfoUnchecked::native("uatom"), 12345u128);
    assert_eq!(
        unchecked.check_whitelist(mock_validator, &["uusd", "uluna", "uosmo"]),
        Err(AssetError::Whitelist(String::from("invalid denom uatom; must be uusd|uluna|uosmo"))),
    );
}

#[test]
fn creating_messages() {
    let token = Asset::cw20(Addr::unchecked("mock_token"), 123456u128);
    let coin = Asset::native("uusd", 123456u128);

    let bin_msg = mock_command();
    let msg = token.send_msg("mock_contract", bin_msg.0.clone()).unwrap();
    assert_eq!(
        msg,
        AssetMsg::WasmExecute {
            contract_addr: String::from("mock_token"),
            msg: to_binary(&Cw20ExecuteMsg::Send {
                contract: String::from("mock_contract"),
                amount: Uint128::new(123456),
                msg: mock_command(),
            })
            .unwrap()
            .0,
            funds: vec![]
        }
    );

    let err = coin.send_msg("mock_contract", bin_msg.0);
    assert_eq!(
        err,
        Err(AssetError::Unsupported(String::from("native coins do not have `send` method")))
    );

    let msg = token.transfer_msg("alice").unwrap();
    assert_eq!(
        msg,
        AssetMsg::WasmExecute {
            contract_addr: String::from("mock_token"),
            msg: to_binary(&Cw20ExecuteMsg::Transfer {
                recipient: String::from("alice"),
                amount: Uint128::new(123456)
            })
            .unwrap()
            .0,
            funds: vec![]
        }
    );

    let msg = coin.transfer_msg("alice").unwrap();
    assert_eq!(
        msg,
        AssetMsg::BankSend {
            to_address: String::from("alice"),
            amount: vec![Coin { denom: String::from("uusd"), amount: 123456 }]
        }
    );

    let msg = token.transfer_from_msg("bob", "charlie").unwrap();
    assert_eq!(
        msg,
        AssetMsg::WasmExecute {
            contract_addr: String::from("mock_token"),
            msg: to_binary(&Cw20ExecuteMsg::TransferFrom {
                owner: String::from("bob"),
                recipient: String::from("charlie"),
                amount: Uint128::new(123456)
            })
            .unwrap()
            .0,
            funds: vec![]
        }
    );

    let err = coin.transfer_from_msg("bob", "charlie");
    assert_eq!(
        err,
        Err(AssetError::Unsupported(String::from(
            "native coins do not have `transfer_from` method"
        )))
    );
}

#[test]
fn transfer_payload_is_json() {
    let token = Asset::cw20(Addr::unchecked("mock_token"), 123456u128);
    match token.transfer_msg("alice").unwrap() {
        AssetMsg::WasmExecute { msg, .. } => assert_eq!(
            String::from_utf8(msg).unwrap(),
            r#"{"transfer":{"recipient":"alice","amount":"123456"}}"#
        ),
        other => panic!("unexpected message {:?}", other),
    }
}

#[test]
fn zero_amount_messages_are_emitted() {
    let coin = Asset::native("uusd", 0u128);
    assert_eq!(
        coin.transfer_msg("alice").unwrap(),
        AssetMsg::BankSend {
            to_address: String::from("alice"),
            amount: vec![Coin { denom: String::from("uusd"), amount: 0 }]
        }
    );
}

#[test]
fn displaying_extreme_amounts() {
    assert_eq!(Asset::native("uusd", 0u128).to_string(), "native:uusd:0");
    assert_eq!(
        Asset::native("uusd", u128::MAX).to_string(),
        "native:uusd:340282366920938463463374607431768211455"
    );
}

#[test]
fn coin_conversion() {
    let coin = Coin { denom: String::from("uluna"), amount: 42 };
    let asset = Asset::from(coin.clone());
    assert_eq!(asset, Asset::native("uluna", 42u128));
    assert!(asset.eq_coin(&coin));
    assert!(!asset.eq_coin(&Coin { denom: String::from("uluna"), amount: 43 }));
    assert!(!Asset::cw20(Addr::unchecked("uluna"), 42u128).eq_coin(&coin));
}

#[test]
fn checking_keeps_amount_and_reports_address_error() {
    let unchecked = AssetUnchecked::cw20(String::from("MOCK_TOKEN"), 7u128);
    assert_eq!(
        unchecked.check(mock_validator).unwrap(),
        Asset::cw20(Addr::unchecked("mock_token"), 7u128)
    );
    let bad = AssetUnchecked::cw20(String::from("x"), 7u128);
    assert!(matches!(bad.check(mock_validator), Err(AssetError::Address(_))));
}

#[test]
fn widening_asset_keeps_info_and_amount() {
    let checked = Asset::cw20(Addr::unchecked("mock_token"), 5u128);
    assert_eq!(
        AssetUnchecked::from(checked),
        AssetUnchecked::cw20(String::from("mock_token"), 5u128)
    );
}

#[test]
fn token_messages_never_fail() {
    let token = Asset::cw20(Addr::unchecked("mock_token"), 0u128);
    assert!(token.transfer_msg("\"quoted\" \u{1}").is_ok());
    assert!(token.transfer_from_msg("", "").is_ok());
    assert!(token.send_msg("x", vec![0, 255, 1]).is_ok());
}
