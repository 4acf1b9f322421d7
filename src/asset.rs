//! A fungible asset with an amount, and the messages that move it.
use vstd::prelude::*;
use vstd::string::*;

use crate::asset_info::{
    info_checked, info_text, widened, Addr, AssetInfo, AssetInfoBase, AssetInfoUnchecked, InfoModel,
};
use crate::error::AssetError;
use crate::payload::{
    cw20_send_json, cw20_transfer_from_json, cw20_transfer_json, encode_send, encode_transfer,
    encode_transfer_from,
};
use crate::text::{decimal, decimal_string};

verus! {

/// A native coin as the bank module holds it: a denom and an amount.
#[derive(Debug, Clone)]
pub struct Coin {
    pub denom: String,
    pub amount: u128,
}

impl View for Coin {
    type V = (Seq<char>, u128);

    open spec fn view(&self) -> (Seq<char>, u128) {
        (self.denom@, self.amount)
    }
}

impl PartialEq for Coin {
    fn eq(&self, other: &Coin) -> (r: bool) {
        self.denom == other.denom && self.amount == other.amount
    }
}

impl vstd::std_specs::cmp::PartialEqSpecImpl for Coin {
    open spec fn obeys_eq_spec() -> bool {
        true
    }

    open spec fn eq_spec(&self, other: &Coin) -> bool {
        self@ == other@
    }
}

/// What an asset denotes: its kind and its amount.
pub struct AssetModel {
    pub info: InfoModel,
    pub amount: u128,
}

/// A fungible asset: its kind and an amount, over the representation `T` of a token's address.
#[derive(Debug, Clone)]
pub struct AssetBase<T> {
    /// The asset's kind (CW20 or native).
    pub info: AssetInfoBase<T>,
    /// The asset's amount.
    pub amount: u128,
}

/// An asset that may hold unvalidated data, as received in messages.
pub type AssetUnchecked = AssetBase<String>;

/// An asset that holds only validated data.
pub type Asset = AssetBase<Addr>;

impl<T: View<V = Seq<char>>> View for AssetBase<T> {
    type V = AssetModel;

    open spec fn view(&self) -> AssetModel {
        AssetModel { info: self.info@, amount: self.amount }
    }
}

impl<T> AssetBase<T> {
    /// An asset of the given kind and amount.
    pub fn new(info: AssetInfoBase<T>, amount: u128) -> (r: Self)
        ensures
            r.info == info,
            r.amount == amount,
    {
        AssetBase { info, amount }
    }

    /// A CW20 token asset of the given contract address and amount.
    pub fn cw20(contract_addr: T, amount: u128) -> (r: Self)
        ensures
            r.info == AssetInfoBase::<T>::Cw20(contract_addr),
            r.amount == amount,
    {
        AssetBase { info: AssetInfoBase::cw20(contract_addr), amount }
    }

    /// A native coin asset of the given denom and amount.
    pub fn native(denom: &str, amount: u128) -> (r: Self)
        ensures
            r.info matches AssetInfoBase::Native(d) && d@ == denom@,
            r.amount == amount,
    {
        AssetBase { info: AssetInfoBase::native(denom), amount }
    }
}

impl PartialEq for AssetBase<Addr> {
    fn eq(&self, other: &Self) -> (r: bool) {
        self.info.eq(&other.info) && self.amount == other.amount
    }
}

impl vstd::std_specs::cmp::PartialEqSpecImpl for AssetBase<Addr> {
    open spec fn obeys_eq_spec() -> bool {
        true
    }

    open spec fn eq_spec(&self, other: &Self) -> bool {
        self@ == other@
    }
}

impl PartialEq for AssetBase<String> {
    fn eq(&self, other: &Self) -> (r: bool) {
        self.info.eq(&other.info) && self.amount == other.amount
    }
}

impl vstd::std_specs::cmp::PartialEqSpecImpl for AssetBase<String> {
    open spec fn obeys_eq_spec() -> bool {
        true
    }

    open spec fn eq_spec(&self, other: &Self) -> bool {
        self@ == other@
    }
}

/// The outcome of validating an asset: that of its kind, with the amount kept.
pub open spec fn asset_checked<F: Fn(String) -> Result<Addr, String>>(
    asset: AssetUnchecked,
    validate: F,
    whitelist: Option<&[&str]>,
    r: Result<Asset, AssetError>,
) -> bool {
    match r {
        Ok(a) => a.amount == asset.amount && info_checked(asset.info, validate, whitelist, Ok(a.info)),
        Err(e) => info_checked(asset.info, validate, whitelist, Err(e)),
    }
}

impl AssetBase<String> {
    /// Validates the asset's kind (see `AssetInfoUnchecked::check`), accepting any native denom.
    pub fn check<F: Fn(String) -> Result<Addr, String>>(&self, validate: F) -> (r: Result<
        Asset,
        AssetError,
    >)
        requires
            forall|s: String| call_requires(validate, (s,)),
        ensures
            asset_checked(*self, validate, None, r),
    {
        match self.info.check(validate, None) {
            Ok(info) => Ok(AssetBase { info, amount: self.amount }),
            Err(e) => Err(e),
        }
    }

    /// Validates the asset's kind, accepting a native denom only if `whitelist` holds it.
    pub fn check_whitelist<F: Fn(String) -> Result<Addr, String>>(
        &self,
        validate: F,
        whitelist: &[&str],
    ) -> (r: Result<Asset, AssetError>)
        requires
            forall|s: String| call_requires(validate, (s,)),
        ensures
            asset_checked(*self, validate, Some(whitelist), r),
    {
        match self.info.check(validate, Some(whitelist)) {
            Ok(info) => Ok(AssetBase { info, amount: self.amount }),
            Err(e) => Err(e),
        }
    }
}

/// The textual form of an asset: its kind's form, a colon and the amount in decimal.
pub open spec fn asset_text(a: AssetModel) -> Seq<char> {
    info_text(a.info) + seq![':'] + decimal(a.amount as nat)
}

/// An outbound chain message.
#[derive(Debug, Clone)]
pub enum AssetMsg {
    /// A bank transfer of native coins.
    BankSend { to_address: String, amount: Vec<Coin> },
    /// A call of a contract with an encoded message and attached native funds.
    WasmExecute { contract_addr: String, msg: Vec<u8>, funds: Vec<Coin> },
}

/// What an outbound message denotes.
pub enum MsgModel {
    BankSend { to: Seq<char>, coins: Seq<(Seq<char>, u128)> },
    WasmExecute { contract: Seq<char>, msg: Seq<u8>, funds: Seq<(Seq<char>, u128)> },
}

/// The views of a list of coins.
pub open spec fn coins_view(coins: Seq<Coin>) -> Seq<(Seq<char>, u128)> {
    Seq::new(coins.len(), |i: int| coins[i]@)
}

impl View for AssetMsg {
    type V = MsgModel;

    open spec fn view(&self) -> MsgModel {
        match self {
            AssetMsg::BankSend { to_address, amount } => MsgModel::BankSend {
                to: to_address@,
                coins: coins_view(amount@),
            },
            AssetMsg::WasmExecute { contract_addr, msg, funds } => MsgModel::WasmExecute {
                contract: contract_addr@,
                msg: msg@,
                funds: coins_view(funds@),
            },
        }
    }
}

impl PartialEq for AssetMsg {
    fn eq(&self, other: &AssetMsg) -> (r: bool) {
        match (self, other) {
            (
                AssetMsg::BankSend { to_address: t1, amount: c1 },
                AssetMsg::BankSend { to_address: t2, amount: c2 },
            ) => t1.eq(t2) && coins_eq(c1, c2),
            (
                AssetMsg::WasmExecute { contract_addr: a1, msg: m1, funds: f1 },
                AssetMsg::WasmExecute { contract_addr: a2, msg: m2, funds: f2 },
            ) => a1.eq(a2) && bytes_eq(m1, m2) && coins_eq(f1, f2),
            _ => false,
        }
    }
}

impl vstd::std_specs::cmp::PartialEqSpecImpl for AssetMsg {
    open spec fn obeys_eq_spec() -> bool {
        true
    }

    open spec fn eq_spec(&self, other: &AssetMsg) -> bool {
        self@ == other@
    }
}

/// Compares two lists of coins element by element.
fn coins_eq(a: &Vec<Coin>, b: &Vec<Coin>) -> (r: bool)
    ensures
        r == (coins_view(a@) == coins_view(b@)),
{
    if a.len() != b.len() {
        assert(coins_view(a@).len() != coins_view(b@).len());
        return false;
    }
    let mut i: usize = 0;
    while i < a.len()
        invariant
            a@.len() == b@.len(),
            0 <= i <= a@.len(),
            forall|j: int| 0 <= j < i ==> (#[trigger] a@[j])@ == b@[j]@,
        decreases a@.len() - i,
    {
        if !a[i].eq(&b[i]) {
            assert(coins_view(a@)[i as int] != coins_view(b@)[i as int]);
            return false;
        }
        i = i + 1;
    }
    assert(coins_view(a@) =~= coins_view(b@));
    true
}

/// Compares two byte strings.
fn bytes_eq(a: &Vec<u8>, b: &Vec<u8>) -> (r: bool)
    ensures
        r == (a@ == b@),
{
    if a.len() != b.len() {
        return false;
    }
    let mut i: usize = 0;
    while i < a.len()
        invariant
            a@.len() == b@.len(),
            0 <= i <= a@.len(),
            forall|j: int| 0 <= j < i ==> a@[j] == b@[j],
        decreases a@.len() - i,
    {
        if a[i] != b[i] {
            return false;
        }
        i = i + 1;
    }
    assert(a@ =~= b@);
    true
}

/// The message of an operation that native coins do not have.
pub open spec fn unsupported_message(method: Seq<char>) -> Seq<char> {
    "native coins do not have `"@ + method + "` method"@
}

/// Builds the error for an operation that native coins do not have.
fn unsupported(method: &str) -> (r: AssetError)
    ensures
        r matches AssetError::Unsupported(m) && m@ == unsupported_message(method@),
{
    let mut m = String::from_str("native coins do not have `");
    m.append(method);
    m.append("` method");
    AssetError::Unsupported(m)
}

/// A call of `contract_addr` with the encoded message `msg` and no funds attached.
pub fn execute_msg(contract_addr: String, msg: Vec<u8>) -> (r: AssetMsg)
    ensures
        r@ == (MsgModel::WasmExecute { contract: contract_addr@, msg: msg@, funds: Seq::empty() }),
{
    let r = AssetMsg::WasmExecute { contract_addr, msg, funds: Vec::new() };
    assert(coins_view(Seq::<Coin>::empty()) =~= Seq::empty());
    r
}

/// The call of the token contract `contract` with the payload `payload` and no funds.
pub open spec fn token_call(contract: Seq<char>, payload: Seq<u8>) -> MsgModel {
    MsgModel::WasmExecute { contract, msg: payload, funds: Seq::empty() }
}

impl AssetBase<Addr> {
    /// The textual form `<kind>:<body>:<amount>`.
    pub fn to_string(&self) -> (r: String)
        ensures
            r@ == asset_text(self@),
    {
        let mut out = self.info.to_string();
        let sep = ":";
        proof {
            reveal_strlit(":");
        }
        out.append(sep);
        let amount = decimal_string(self.amount);
        out.append(amount.as_str());
        out
    }

    /// The asset with the address widened to a plain string.
    pub fn to_unchecked(&self) -> (r: AssetUnchecked)
        ensures
            r@ == self@,
    {
        AssetBase { info: self.info.to_unchecked(), amount: self.amount }
    }

    /// A message that sends a CW20 token to contract `to` with the payload `msg`. Native coins
    /// have no such operation.
    pub fn send_msg(&self, to: &str, msg: Vec<u8>) -> (r: Result<AssetMsg, AssetError>)
        ensures
            match self.info {
                AssetInfoBase::Native(_) => r matches Err(AssetError::Unsupported(m)) && m@
                    == unsupported_message("send"@),
                AssetInfoBase::Cw20(a) => r matches Ok(m) && m@ == token_call(
                    a@,
                    cw20_send_json(to@, self.amount, msg@),
                ),
            },
    {
        match &self.info {
            AssetInfoBase::Cw20(a) => {
                let encoded = encode_send(to, self.amount, msg.as_slice()).unwrap();
                Ok(execute_msg(String::from_str(a.as_str()), encoded))
            },
            AssetInfoBase::Native(_) => Err(unsupported("send")),
        }
    }

    /// A message that transfers the asset to `to`: a bank transfer of one coin for a native
    /// coin, a CW20 `Transfer` call of the token contract otherwise.
    pub fn transfer_msg(&self, to: &str) -> (r: Result<AssetMsg, AssetError>)
        ensures
            match self.info {
                AssetInfoBase::Native(d) => r matches Ok(m) && m@ == (MsgModel::BankSend {
                    to: to@,
                    coins: seq![(d@, self.amount)],
                }),
                AssetInfoBase::Cw20(a) => r matches Ok(m) && m@ == token_call(
                    a@,
                    cw20_transfer_json(to@, self.amount),
                ),
            },
    {
        match &self.info {
            AssetInfoBase::Cw20(a) => {
                let encoded = encode_transfer(to, self.amount).unwrap();
                Ok(execute_msg(String::from_str(a.as_str()), encoded))
            },
            AssetInfoBase::Native(d) => {
                let mut coins: Vec<Coin> = Vec::new();
                coins.push(Coin { denom: d.clone(), amount: self.amount });
                let r = AssetMsg::BankSend { to_address: String::from_str(to), amount: coins };
                assert(coins_view(coins@) =~= seq![(d@, self.amount)]);
                Ok(r)
            },
        }
    }

    /// A message that draws the asset from `from` to `to` with a CW20 `TransferFrom` call.
    /// Native coins have no such operation.
    pub fn transfer_from_msg(&self, from: &str, to: &str) -> (r: Result<AssetMsg, AssetError>)
        ensures
            match self.info {
                AssetInfoBase::Native(_) => r matches Err(AssetError::Unsupported(m)) && m@
                    == unsupported_message("transfer_from"@),
                AssetInfoBase::Cw20(a) => r matches Ok(m) && m@ == token_call(
                    a@,
                    cw20_transfer_from_json(from@, to@, self.amount),
                ),
            },
    {
        match &self.info {
            AssetInfoBase::Cw20(a) => {
                let encoded = encode_transfer_from(from, to, self.amount).unwrap();
                Ok(execute_msg(String::from_str(a.as_str()), encoded))
            },
            AssetInfoBase::Native(_) => Err(unsupported("transfer_from")),
        }
    }
}

impl From<Coin> for Asset {
    fn from(coin: Coin) -> (r: Asset) {
        AssetBase { info: AssetInfoBase::Native(coin.denom), amount: coin.amount }
    }
}

impl vstd::std_specs::convert::FromSpecImpl<Coin> for Asset {
    open spec fn obeys_from_spec() -> bool {
        true
    }

    open spec fn from_spec(coin: Coin) -> Asset {
        AssetBase { info: AssetInfoBase::Native(coin.denom), amount: coin.amount }
    }
}

impl From<Asset> for AssetUnchecked {
    fn from(asset: Asset) -> (r: AssetUnchecked) {
        AssetBase { info: AssetInfoUnchecked::from(asset.info), amount: asset.amount }
    }
}

impl vstd::std_specs::convert::FromSpecImpl<Asset> for AssetUnchecked {
    open spec fn obeys_from_spec() -> bool {
        true
    }

    open spec fn from_spec(asset: Asset) -> AssetUnchecked {
        AssetBase { info: widened(asset.info), amount: asset.amount }
    }
}

impl AssetBase<Addr> {
    /// Whether this asset is the native coin `coin`: same denom, same amount.
    pub fn eq_coin(&self, coin: &Coin) -> (r: bool)
        ensures
            r == (self@ == AssetModel { info: InfoModel::Native(coin.denom@), amount: coin.amount }),
    {
        match &self.info {
            AssetInfoBase::Native(d) => d.eq(&coin.denom) && self.amount == coin.amount,
            AssetInfoBase::Cw20(_) => false,
        }
    }
}

} // verus!
