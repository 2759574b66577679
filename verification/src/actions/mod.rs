//! The exchange actions, their metadata and their wire encoding.
use vstd::prelude::*;

pub mod l1;
pub mod trading;
pub mod perp_deploy;
pub mod spot_deploy;
pub mod user_signed;
pub mod kind;
pub mod kind_laws;

pub use l1::{
    AgentEnableDexAbstraction, CreateSubAccount, NoOp, SetReferrer, SubAccountSpotTransfer,
    ToggleBigBlocks, ToggleBigBlocksBuilder, VaultTransfer,
};
pub use trading::{
    BatchModify, BatchOrder, BuilderInfo, Grouping, LimitOrderType, ModifyWire, OrderType,
    OrderWire, ScheduleCancel, Tif, TpSl, TriggerOrderType, UpdateIsolatedMargin, UpdateLeverage,
};
pub use perp_deploy::{
    InsertMarginTable, MarginTable, MarginTier, SetFeeRecipient, SetFundingMultipliers,
    SetGrowthModes, SetMarginTableIds, SetOpenInterestCaps, SetOracle, ToggleTrading,
};
pub use spot_deploy::{
    Genesis, RegisterHyperliquidity, RegisterSpot, RegisterToken, SetDeployerFees, TokenSpec,
    UserGenesis,
};
pub use kind::{ActionKind, ActionKindReading, ActionType, kind_type, type_meta};
pub use user_signed::{
    ApproveAgent, ApproveBuilderFee, ConvertToMultiSigUser, DexId, MultiSigSigners, SendAsset,
    SpotTransfer, TokenDelegate, UsdClassTransfer, UsdSend, UserDexAbstraction, Withdraw,
};

verus! {

/// The static description of an action kind.
#[derive(Clone, Debug)]
pub struct ActionMeta {
    /// The value of the `"type"` field on the wire.
    pub action_type: String,
    /// The key under which the payload is nested; equal to `action_type` when the payload
    /// fields sit next to `"type"`.
    pub payload_key: String,
    /// Signed by the user directly (EIP-712) rather than as an L1 action.
    pub user_signed: bool,
    /// The nonce travels as the `"time"` field.
    pub uses_time: bool,
}

/// The plain-value view of an [`ActionMeta`].
pub struct ActionMetaV {
    pub action_type: Seq<char>,
    pub payload_key: Seq<char>,
    pub user_signed: bool,
    pub uses_time: bool,
}

impl ActionMeta {
    pub open spec fn view(&self) -> ActionMetaV {
        ActionMetaV {
            action_type: self.action_type@,
            payload_key: self.payload_key@,
            user_signed: self.user_signed,
            uses_time: self.uses_time,
        }
    }
}

/// The metadata of an action whose payload is nested under `payload_key`.
pub fn nested_meta(action_type: &str, payload_key: &str, user_signed: bool, uses_time: bool) -> (m:
    ActionMeta)
    ensures
        m@ == (ActionMetaV {
            action_type: action_type@,
            payload_key: payload_key@,
            user_signed,
            uses_time,
        }),
{
    ActionMeta {
        action_type: action_type.to_owned(),
        payload_key: payload_key.to_owned(),
        user_signed,
        uses_time,
    }
}

/// The metadata of an action whose payload fields sit next to `"type"`.
pub fn flat_meta(action_type: &str, user_signed: bool, uses_time: bool) -> (m: ActionMeta)
    ensures
        m@ == (ActionMetaV {
            action_type: action_type@,
            payload_key: action_type@,
            user_signed,
            uses_time,
        }),
{
    nested_meta(action_type, action_type, user_signed, uses_time)
}

/// An exchange action: its static metadata and its optional nonce.
pub trait Action: Sized {
    spec fn spec_meta() -> ActionMetaV;

    spec fn spec_nonce(&self) -> Option<u64>;

    /// The same action with its nonce set.
    spec fn spec_with_nonce(self, nonce: u64) -> Self;

    fn meta() -> (m: ActionMeta)
        ensures
            m@ == Self::spec_meta(),
    ;

    fn nonce(&self) -> (n: Option<u64>)
        ensures
            n == self.spec_nonce(),
    ;

    fn with_nonce(self, nonce: u64) -> (r: Self)
        ensures
            r == self.spec_with_nonce(nonce),
            r.spec_nonce() == Some(nonce),
    ;

    /// The action as the variant of [`ActionKind`] for its type.
    spec fn spec_kind(self) -> ActionKind;

    /// Wraps the action in its variant of [`ActionKind`].
    fn into_kind(self) -> (k: ActionKind)
        ensures
            k == self.spec_kind(),
    ;
}

} // verus!
