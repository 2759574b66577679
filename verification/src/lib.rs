//! Typed actions for the Hyperliquid exchange API, with verified wire encoding.
use vstd::prelude::*;

pub mod text;
pub mod primitives;
pub mod error;
pub mod abi_value;
pub mod sorting;
pub mod json;
pub mod wire;
pub mod signature;
pub mod signed;
pub mod responses;
pub mod actions;

pub use actions::{
    AgentEnableDexAbstraction, CreateSubAccount, NoOp, SetReferrer, SubAccountSpotTransfer,
    ToggleBigBlocks, ToggleBigBlocksBuilder, VaultTransfer,
};
pub use actions::{
    BatchModify, BatchOrder, BuilderInfo, Grouping, LimitOrderType, ModifyWire, OrderType,
    OrderWire, ScheduleCancel, Tif, TpSl, TriggerOrderType, UpdateIsolatedMargin, UpdateLeverage,
};
pub use actions::{
    InsertMarginTable, MarginTable, MarginTier, SetFeeRecipient, SetFundingMultipliers,
    SetGrowthModes, SetMarginTableIds, SetOpenInterestCaps, SetOracle, ToggleTrading,
};
pub use actions::{
    Genesis, RegisterHyperliquidity, RegisterSpot, RegisterToken, SetDeployerFees, TokenSpec,
    UserGenesis,
};
pub use actions::{
    ApproveAgent, ApproveBuilderFee, ConvertToMultiSigUser, DexId, MultiSigSigners, SendAsset,
    SpotTransfer, TokenDelegate, UsdClassTransfer, UsdSend, UserDexAbstraction, Withdraw,
};

pub use actions::{Action, ActionMeta};
pub use abi_value::{AbiResult, ToAbiValue};
pub use error::{ApiError, Error};
pub use wire::SigningChain;

verus! {

} // verus!
