//! A unified representation of fungible assets on a CosmWasm chain (native coins and CW20
//! tokens), with validation, a textual form and the messages that move them.

pub mod asset;
pub mod asset_info;
pub mod error;
pub mod laws;
pub mod payload;
pub mod text;

pub use asset::{Asset, AssetBase, AssetModel, AssetMsg, AssetUnchecked, Coin, MsgModel};
pub use asset_info::{
    Addr, AssetInfo, AssetInfoBase, AssetInfoUnchecked, BalanceQuery, InfoModel, ParseModel,
};
pub use error::AssetError;
