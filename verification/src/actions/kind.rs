//! Actions known only at run time: the action type an `"action"` object names, and
//! every action of the library in one enum.
use vstd::prelude::*;
use super::{Action, ActionMeta, ActionMetaV};
use super::{AgentEnableDexAbstraction, CreateSubAccount, NoOp, SetReferrer, SubAccountSpotTransfer, ToggleBigBlocks, VaultTransfer, BatchOrder, BatchModify, ScheduleCancel, UpdateIsolatedMargin, UpdateLeverage, InsertMarginTable, SetFeeRecipient, SetFundingMultipliers, SetGrowthModes, SetMarginTableIds, SetOpenInterestCaps, SetOracle, ToggleTrading, Genesis, RegisterHyperliquidity, RegisterSpot, RegisterToken, SetDeployerFees, UserGenesis, ApproveAgent, ApproveBuilderFee, ConvertToMultiSigUser, SendAsset, SpotTransfer, TokenDelegate, UsdClassTransfer, UsdSend, UserDexAbstraction, Withdraw};
use crate::json::{Json, JsonValue, get_member, members_view, obj_has};
use crate::wire::{
    action_type_from_obj, action_type_spec, deserialize_action_spec, extract_action_payload_for,
    extract_payload_spec,
};

verus! {

/// The action types of this library, one for each action.
#[derive(Clone, Copy, Debug, PartialEq, Eq, Structural)]
pub enum ActionType {
    AgentEnableDexAbstraction,
    CreateSubAccount,
    NoOp,
    SetReferrer,
    SubAccountSpotTransfer,
    ToggleBigBlocks,
    VaultTransfer,
    BatchOrder,
    BatchModify,
    ScheduleCancel,
    UpdateIsolatedMargin,
    UpdateLeverage,
    InsertMarginTable,
    SetFeeRecipient,
    SetFundingMultipliers,
    SetGrowthModes,
    SetMarginTableIds,
    SetOpenInterestCaps,
    SetOracle,
    ToggleTrading,
    Genesis,
    RegisterHyperliquidity,
    RegisterSpot,
    RegisterToken,
    SetDeployerFees,
    UserGenesis,
    ApproveAgent,
    ApproveBuilderFee,
    ConvertToMultiSigUser,
    SendAsset,
    SpotTransfer,
    TokenDelegate,
    UsdClassTransfer,
    UsdSend,
    UserDexAbstraction,
    Withdraw,
}

/// The metadata of an action type.
pub open spec fn type_meta(t: ActionType) -> ActionMetaV {
    match t {
        ActionType::AgentEnableDexAbstraction => AgentEnableDexAbstraction::spec_meta(),
        ActionType::CreateSubAccount => CreateSubAccount::spec_meta(),
        ActionType::NoOp => NoOp::spec_meta(),
        ActionType::SetReferrer => SetReferrer::spec_meta(),
        ActionType::SubAccountSpotTransfer => SubAccountSpotTransfer::spec_meta(),
        ActionType::ToggleBigBlocks => ToggleBigBlocks::spec_meta(),
        ActionType::VaultTransfer => VaultTransfer::spec_meta(),
        ActionType::BatchOrder => BatchOrder::spec_meta(),
        ActionType::BatchModify => BatchModify::spec_meta(),
        ActionType::ScheduleCancel => ScheduleCancel::spec_meta(),
        ActionType::UpdateIsolatedMargin => UpdateIsolatedMargin::spec_meta(),
        ActionType::UpdateLeverage => UpdateLeverage::spec_meta(),
        ActionType::InsertMarginTable => InsertMarginTable::spec_meta(),
        ActionType::SetFeeRecipient => SetFeeRecipient::spec_meta(),
        ActionType::SetFundingMultipliers => SetFundingMultipliers::spec_meta(),
        ActionType::SetGrowthModes => SetGrowthModes::spec_meta(),
        ActionType::SetMarginTableIds => SetMarginTableIds::spec_meta(),
        ActionType::SetOpenInterestCaps => SetOpenInterestCaps::spec_meta(),
        ActionType::SetOracle => SetOracle::spec_meta(),
        ActionType::ToggleTrading => ToggleTrading::spec_meta(),
        ActionType::Genesis => Genesis::spec_meta(),
        ActionType::RegisterHyperliquidity => RegisterHyperliquidity::spec_meta(),
        ActionType::RegisterSpot => RegisterSpot::spec_meta(),
        ActionType::RegisterToken => RegisterToken::spec_meta(),
        ActionType::SetDeployerFees => SetDeployerFees::spec_meta(),
        ActionType::UserGenesis => UserGenesis::spec_meta(),
        ActionType::ApproveAgent => ApproveAgent::spec_meta(),
        ActionType::ApproveBuilderFee => ApproveBuilderFee::spec_meta(),
        ActionType::ConvertToMultiSigUser => ConvertToMultiSigUser::spec_meta(),
        ActionType::SendAsset => SendAsset::spec_meta(),
        ActionType::SpotTransfer => SpotTransfer::spec_meta(),
        ActionType::TokenDelegate => TokenDelegate::spec_meta(),
        ActionType::UsdClassTransfer => UsdClassTransfer::spec_meta(),
        ActionType::UsdSend => UsdSend::spec_meta(),
        ActionType::UserDexAbstraction => UserDexAbstraction::spec_meta(),
        ActionType::Withdraw => Withdraw::spec_meta(),
    }
}

impl ActionType {
    /// The metadata of this action type.
    pub fn meta(self) -> (m: ActionMeta)
        ensures
            m@ == type_meta(self),
    {
        match self {
            ActionType::AgentEnableDexAbstraction => AgentEnableDexAbstraction::meta(),
            ActionType::CreateSubAccount => CreateSubAccount::meta(),
            ActionType::NoOp => NoOp::meta(),
            ActionType::SetReferrer => SetReferrer::meta(),
            ActionType::SubAccountSpotTransfer => SubAccountSpotTransfer::meta(),
            ActionType::ToggleBigBlocks => ToggleBigBlocks::meta(),
            ActionType::VaultTransfer => VaultTransfer::meta(),
            ActionType::BatchOrder => BatchOrder::meta(),
            ActionType::BatchModify => BatchModify::meta(),
            ActionType::ScheduleCancel => ScheduleCancel::meta(),
            ActionType::UpdateIsolatedMargin => UpdateIsolatedMargin::meta(),
            ActionType::UpdateLeverage => UpdateLeverage::meta(),
            ActionType::InsertMarginTable => InsertMarginTable::meta(),
            ActionType::SetFeeRecipient => SetFeeRecipient::meta(),
            ActionType::SetFundingMultipliers => SetFundingMultipliers::meta(),
            ActionType::SetGrowthModes => SetGrowthModes::meta(),
            ActionType::SetMarginTableIds => SetMarginTableIds::meta(),
            ActionType::SetOpenInterestCaps => SetOpenInterestCaps::meta(),
            ActionType::SetOracle => SetOracle::meta(),
            ActionType::ToggleTrading => ToggleTrading::meta(),
            ActionType::Genesis => Genesis::meta(),
            ActionType::RegisterHyperliquidity => RegisterHyperliquidity::meta(),
            ActionType::RegisterSpot => RegisterSpot::meta(),
            ActionType::RegisterToken => RegisterToken::meta(),
            ActionType::SetDeployerFees => SetDeployerFees::meta(),
            ActionType::UserGenesis => UserGenesis::meta(),
            ActionType::ApproveAgent => ApproveAgent::meta(),
            ActionType::ApproveBuilderFee => ApproveBuilderFee::meta(),
            ActionType::ConvertToMultiSigUser => ConvertToMultiSigUser::meta(),
            ActionType::SendAsset => SendAsset::meta(),
            ActionType::SpotTransfer => SpotTransfer::meta(),
            ActionType::TokenDelegate => TokenDelegate::meta(),
            ActionType::UsdClassTransfer => UsdClassTransfer::meta(),
            ActionType::UsdSend => UsdSend::meta(),
            ActionType::UserDexAbstraction => UserDexAbstraction::meta(),
            ActionType::Withdraw => Withdraw::meta(),
        }
    }
}

/// Every action type, in the order in which they are tried when reading an action.
pub open spec fn all_action_types() -> Seq<ActionType> {
    seq![
        ActionType::AgentEnableDexAbstraction,
        ActionType::CreateSubAccount,
        ActionType::NoOp,
        ActionType::SetReferrer,
        ActionType::SubAccountSpotTransfer,
        ActionType::ToggleBigBlocks,
        ActionType::VaultTransfer,
        ActionType::BatchOrder,
        ActionType::BatchModify,
        ActionType::ScheduleCancel,
        ActionType::UpdateIsolatedMargin,
        ActionType::UpdateLeverage,
        ActionType::InsertMarginTable,
        ActionType::SetFeeRecipient,
        ActionType::SetFundingMultipliers,
        ActionType::SetGrowthModes,
        ActionType::SetMarginTableIds,
        ActionType::SetOpenInterestCaps,
        ActionType::SetOracle,
        ActionType::ToggleTrading,
        ActionType::Genesis,
        ActionType::RegisterHyperliquidity,
        ActionType::RegisterSpot,
        ActionType::RegisterToken,
        ActionType::SetDeployerFees,
        ActionType::UserGenesis,
        ActionType::ApproveAgent,
        ActionType::ApproveBuilderFee,
        ActionType::ConvertToMultiSigUser,
        ActionType::SendAsset,
        ActionType::SpotTransfer,
        ActionType::TokenDelegate,
        ActionType::UsdClassTransfer,
        ActionType::UsdSend,
        ActionType::UserDexAbstraction,
        ActionType::Withdraw,
    ]
}

/// The action types, in the order of [`all_action_types`].
pub fn action_types() -> (v: Vec<ActionType>)
    ensures
        v@ == all_action_types(),
{
    let mut v: Vec<ActionType> = Vec::new();
    v.push(ActionType::AgentEnableDexAbstraction);
    v.push(ActionType::CreateSubAccount);
    v.push(ActionType::NoOp);
    v.push(ActionType::SetReferrer);
    v.push(ActionType::SubAccountSpotTransfer);
    v.push(ActionType::ToggleBigBlocks);
    v.push(ActionType::VaultTransfer);
    v.push(ActionType::BatchOrder);
    v.push(ActionType::BatchModify);
    v.push(ActionType::ScheduleCancel);
    v.push(ActionType::UpdateIsolatedMargin);
    v.push(ActionType::UpdateLeverage);
    v.push(ActionType::InsertMarginTable);
    v.push(ActionType::SetFeeRecipient);
    v.push(ActionType::SetFundingMultipliers);
    v.push(ActionType::SetGrowthModes);
    v.push(ActionType::SetMarginTableIds);
    v.push(ActionType::SetOpenInterestCaps);
    v.push(ActionType::SetOracle);
    v.push(ActionType::ToggleTrading);
    v.push(ActionType::Genesis);
    v.push(ActionType::RegisterHyperliquidity);
    v.push(ActionType::RegisterSpot);
    v.push(ActionType::RegisterToken);
    v.push(ActionType::SetDeployerFees);
    v.push(ActionType::UserGenesis);
    v.push(ActionType::ApproveAgent);
    v.push(ActionType::ApproveBuilderFee);
    v.push(ActionType::ConvertToMultiSigUser);
    v.push(ActionType::SendAsset);
    v.push(ActionType::SpotTransfer);
    v.push(ActionType::TokenDelegate);
    v.push(ActionType::UsdClassTransfer);
    v.push(ActionType::UsdSend);
    v.push(ActionType::UserDexAbstraction);
    v.push(ActionType::Withdraw);
    assert(v@ =~= all_action_types());
    v
}

/// Any action of this library, or an action of a type it does not know, kept as the raw
/// `"action"` object together with its `"type"`.
#[derive(Debug)]
pub enum ActionKind {
    AgentEnableDexAbstraction(AgentEnableDexAbstraction),
    CreateSubAccount(CreateSubAccount),
    NoOp(NoOp),
    SetReferrer(SetReferrer),
    SubAccountSpotTransfer(SubAccountSpotTransfer),
    ToggleBigBlocks(ToggleBigBlocks),
    VaultTransfer(VaultTransfer),
    BatchOrder(BatchOrder),
    BatchModify(BatchModify),
    ScheduleCancel(ScheduleCancel),
    UpdateIsolatedMargin(UpdateIsolatedMargin),
    UpdateLeverage(UpdateLeverage),
    InsertMarginTable(InsertMarginTable),
    SetFeeRecipient(SetFeeRecipient),
    SetFundingMultipliers(SetFundingMultipliers),
    SetGrowthModes(SetGrowthModes),
    SetMarginTableIds(SetMarginTableIds),
    SetOpenInterestCaps(SetOpenInterestCaps),
    SetOracle(SetOracle),
    ToggleTrading(ToggleTrading),
    Genesis(Genesis),
    RegisterHyperliquidity(RegisterHyperliquidity),
    RegisterSpot(RegisterSpot),
    RegisterToken(RegisterToken),
    SetDeployerFees(SetDeployerFees),
    UserGenesis(UserGenesis),
    ApproveAgent(ApproveAgent),
    ApproveBuilderFee(ApproveBuilderFee),
    ConvertToMultiSigUser(ConvertToMultiSigUser),
    SendAsset(SendAsset),
    SpotTransfer(SpotTransfer),
    TokenDelegate(TokenDelegate),
    UsdClassTransfer(UsdClassTransfer),
    UsdSend(UsdSend),
    UserDexAbstraction(UserDexAbstraction),
    Withdraw(Withdraw),
    Unknown { action_type: String, raw: JsonValue },
}

/// The action type of a kind; none for an unknown action.
pub open spec fn kind_type(k: ActionKind) -> Option<ActionType> {
    match k {
        ActionKind::AgentEnableDexAbstraction(_) => Some(ActionType::AgentEnableDexAbstraction),
        ActionKind::CreateSubAccount(_) => Some(ActionType::CreateSubAccount),
        ActionKind::NoOp(_) => Some(ActionType::NoOp),
        ActionKind::SetReferrer(_) => Some(ActionType::SetReferrer),
        ActionKind::SubAccountSpotTransfer(_) => Some(ActionType::SubAccountSpotTransfer),
        ActionKind::ToggleBigBlocks(_) => Some(ActionType::ToggleBigBlocks),
        ActionKind::VaultTransfer(_) => Some(ActionType::VaultTransfer),
        ActionKind::BatchOrder(_) => Some(ActionType::BatchOrder),
        ActionKind::BatchModify(_) => Some(ActionType::BatchModify),
        ActionKind::ScheduleCancel(_) => Some(ActionType::ScheduleCancel),
        ActionKind::UpdateIsolatedMargin(_) => Some(ActionType::UpdateIsolatedMargin),
        ActionKind::UpdateLeverage(_) => Some(ActionType::UpdateLeverage),
        ActionKind::InsertMarginTable(_) => Some(ActionType::InsertMarginTable),
        ActionKind::SetFeeRecipient(_) => Some(ActionType::SetFeeRecipient),
        ActionKind::SetFundingMultipliers(_) => Some(ActionType::SetFundingMultipliers),
        ActionKind::SetGrowthModes(_) => Some(ActionType::SetGrowthModes),
        ActionKind::SetMarginTableIds(_) => Some(ActionType::SetMarginTableIds),
        ActionKind::SetOpenInterestCaps(_) => Some(ActionType::SetOpenInterestCaps),
        ActionKind::SetOracle(_) => Some(ActionType::SetOracle),
        ActionKind::ToggleTrading(_) => Some(ActionType::ToggleTrading),
        ActionKind::Genesis(_) => Some(ActionType::Genesis),
        ActionKind::RegisterHyperliquidity(_) => Some(ActionType::RegisterHyperliquidity),
        ActionKind::RegisterSpot(_) => Some(ActionType::RegisterSpot),
        ActionKind::RegisterToken(_) => Some(ActionType::RegisterToken),
        ActionKind::SetDeployerFees(_) => Some(ActionType::SetDeployerFees),
        ActionKind::UserGenesis(_) => Some(ActionType::UserGenesis),
        ActionKind::ApproveAgent(_) => Some(ActionType::ApproveAgent),
        ActionKind::ApproveBuilderFee(_) => Some(ActionType::ApproveBuilderFee),
        ActionKind::ConvertToMultiSigUser(_) => Some(ActionType::ConvertToMultiSigUser),
        ActionKind::SendAsset(_) => Some(ActionType::SendAsset),
        ActionKind::SpotTransfer(_) => Some(ActionType::SpotTransfer),
        ActionKind::TokenDelegate(_) => Some(ActionType::TokenDelegate),
        ActionKind::UsdClassTransfer(_) => Some(ActionType::UsdClassTransfer),
        ActionKind::UsdSend(_) => Some(ActionType::UsdSend),
        ActionKind::UserDexAbstraction(_) => Some(ActionType::UserDexAbstraction),
        ActionKind::Withdraw(_) => Some(ActionType::Withdraw),
        ActionKind::Unknown { .. } => None,
    }
}

/// Whether the object `obj`, whose `"type"` is `t`, holds an action of type `ty`: `ty` has
/// that type, and when its payload is nested under a key other than the type, the object
/// has that key. This tells apart the actions that share a type, such as the perp deploy
/// actions, by their payload key.
pub open spec fn type_selected(ty: ActionType, t: Seq<char>, obj: Seq<(Seq<char>, Json)>) -> bool {
    let meta = type_meta(ty);
    meta.action_type == t && (meta.payload_key == meta.action_type || obj_has(obj, meta.payload_key))
}

/// The first action type from position `i` on that the object holds.
pub open spec fn first_selected(
    types: Seq<ActionType>,
    i: int,
    t: Seq<char>,
    obj: Seq<(Seq<char>, Json)>,
) -> Option<ActionType>
    decreases types.len() - i,
{
    if i < 0 || i >= types.len() {
        None
    } else if type_selected(types[i], t, obj) {
        Some(types[i])
    } else {
        first_selected(types, i + 1, t, obj)
    }
}

/// Whether some action type from position `i` on has the type `t`.
pub open spec fn any_named(types: Seq<ActionType>, i: int, t: Seq<char>) -> bool
    decreases types.len() - i,
{
    if i < 0 || i >= types.len() {
        false
    } else if type_meta(types[i]).action_type == t {
        true
    } else {
        any_named(types, i + 1, t)
    }
}

/// How each action is signed: exactly the ten actions with an EIP-712 type of their own
/// are user-signed, and of those exactly `usdSend`, `spotSend` and `withdraw3` (whose type
/// ends in `uint64 time`) send their nonce as `time`; every other action is an L1 action.
pub proof fn lemma_signing_schemes(ty: ActionType)
    ensures
        type_meta(ty).user_signed == (ty == ActionType::ApproveAgent
            || ty == ActionType::ApproveBuilderFee
            || ty == ActionType::ConvertToMultiSigUser
            || ty == ActionType::SendAsset
            || ty == ActionType::SpotTransfer
            || ty == ActionType::TokenDelegate
            || ty == ActionType::UsdClassTransfer
            || ty == ActionType::UsdSend
            || ty == ActionType::UserDexAbstraction
            || ty == ActionType::Withdraw),
        type_meta(ty).uses_time == (ty == ActionType::UsdSend
            || ty == ActionType::SpotTransfer
            || ty == ActionType::Withdraw),
{
}

/// Every action type is in [`all_action_types`].
pub proof fn lemma_type_listed(ty: ActionType)
    ensures
        exists|i: int| 0 <= i < all_action_types().len() && #[trigger] all_action_types()[i] == ty,
{
    match ty {
        ActionType::AgentEnableDexAbstraction => assert(all_action_types()[0] == ty),
        ActionType::CreateSubAccount => assert(all_action_types()[1] == ty),
        ActionType::NoOp => assert(all_action_types()[2] == ty),
        ActionType::SetReferrer => assert(all_action_types()[3] == ty),
        ActionType::SubAccountSpotTransfer => assert(all_action_types()[4] == ty),
        ActionType::ToggleBigBlocks => assert(all_action_types()[5] == ty),
        ActionType::VaultTransfer => assert(all_action_types()[6] == ty),
        ActionType::BatchOrder => assert(all_action_types()[7] == ty),
        ActionType::BatchModify => assert(all_action_types()[8] == ty),
        ActionType::ScheduleCancel => assert(all_action_types()[9] == ty),
        ActionType::UpdateIsolatedMargin => assert(all_action_types()[10] == ty),
        ActionType::UpdateLeverage => assert(all_action_types()[11] == ty),
        ActionType::InsertMarginTable => assert(all_action_types()[12] == ty),
        ActionType::SetFeeRecipient => assert(all_action_types()[13] == ty),
        ActionType::SetFundingMultipliers => assert(all_action_types()[14] == ty),
        ActionType::SetGrowthModes => assert(all_action_types()[15] == ty),
        ActionType::SetMarginTableIds => assert(all_action_types()[16] == ty),
        ActionType::SetOpenInterestCaps => assert(all_action_types()[17] == ty),
        ActionType::SetOracle => assert(all_action_types()[18] == ty),
        ActionType::ToggleTrading => assert(all_action_types()[19] == ty),
        ActionType::Genesis => assert(all_action_types()[20] == ty),
        ActionType::RegisterHyperliquidity => assert(all_action_types()[21] == ty),
        ActionType::RegisterSpot => assert(all_action_types()[22] == ty),
        ActionType::RegisterToken => assert(all_action_types()[23] == ty),
        ActionType::SetDeployerFees => assert(all_action_types()[24] == ty),
        ActionType::UserGenesis => assert(all_action_types()[25] == ty),
        ActionType::ApproveAgent => assert(all_action_types()[26] == ty),
        ActionType::ApproveBuilderFee => assert(all_action_types()[27] == ty),
        ActionType::ConvertToMultiSigUser => assert(all_action_types()[28] == ty),
        ActionType::SendAsset => assert(all_action_types()[29] == ty),
        ActionType::SpotTransfer => assert(all_action_types()[30] == ty),
        ActionType::TokenDelegate => assert(all_action_types()[31] == ty),
        ActionType::UsdClassTransfer => assert(all_action_types()[32] == ty),
        ActionType::UsdSend => assert(all_action_types()[33] == ty),
        ActionType::UserDexAbstraction => assert(all_action_types()[34] == ty),
        ActionType::Withdraw => assert(all_action_types()[35] == ty),
    }
}

/// The type chosen for an object is one the object holds.
proof fn lemma_first_selected(types: Seq<ActionType>, i: int, t: Seq<char>, obj: Seq<(Seq<char>, Json)>)
    ensures
        first_selected(types, i, t, obj) matches Some(ty) ==> type_selected(ty, t, obj),
    decreases types.len() - i,
{
    if 0 <= i < types.len() && !type_selected(types[i], t, obj) {
        lemma_first_selected(types, i + 1, t, obj);
    }
}

/// When no type from position `i` on has the type `t`, none of them has it.
proof fn lemma_none_named(types: Seq<ActionType>, i: int, t: Seq<char>, j: int)
    requires
        0 <= i <= j < types.len(),
        !any_named(types, i, t),
    ensures
        type_meta(types[j]).action_type != t,
    decreases j - i,
{
    if i < j {
        lemma_none_named(types, i + 1, t, j);
    }
}

/// Reading an action without knowing its type agrees with reading it as the type chosen:
/// a known kind's payload is what reading the value as that type gives, and an unknown
/// type keeps the whole value and is refused by the reader of every action type.
pub proof fn lemma_kind_reading_agrees(value: Json, ty: ActionType)
    ensures
        read_action_kind_spec(value) matches Ok(KindReadingV::Known(k, p)) ==> deserialize_action_spec(
            type_meta(k),
            value,
        ) == Ok::<Json, Seq<char>>(p),
        read_action_kind_spec(value) matches Ok(KindReadingV::Unknown(t, raw)) ==> raw == value
            && deserialize_action_spec(type_meta(ty), value) == Err::<Json, Seq<char>>(
            "invalid action type: "@ + t,
        ),
{
    if let Json::Object(obj) = value {
        if let Ok(t) = action_type_spec(obj) {
            lemma_first_selected(all_action_types(), 0, t, obj);
            if first_selected(all_action_types(), 0, t, obj) is None && !any_named(all_action_types(), 0, t) {
                lemma_type_listed(ty);
                let i = choose|i: int| 0 <= i < all_action_types().len() && #[trigger] all_action_types()[i] == ty;
                lemma_none_named(all_action_types(), 0, t, i);
            }
        }
    }
}

/// What reading an `"action"` value without knowing its type gives, as plain values.
pub enum KindReadingV {
    Known(ActionType, Json),
    Unknown(Seq<char>, Json),
}

/// Reading an `"action"` value without knowing its type: it must be an object with a string
/// `"type"`. The first action type (in the order of [`all_action_types`]) that the object
/// holds is chosen, and its payload is extracted as for that type. A type that no action
/// of the library has is kept as unknown, with the whole value; a type that some action
/// has, but whose payload key the object lacks, is refused.
pub open spec fn read_action_kind_spec(value: Json) -> Result<KindReadingV, Seq<char>> {
    match value {
        Json::Object(obj) => match action_type_spec(obj) {
            Err(e) => Err(e),
            Ok(t) => match first_selected(all_action_types(), 0, t, obj) {
                Some(ty) => match extract_payload_spec(type_meta(ty), obj) {
                    Ok(p) => Ok(KindReadingV::Known(ty, p)),
                    Err(e) => Err(e),
                },
                None => if any_named(all_action_types(), 0, t) {
                    Err("missing action payload"@)
                } else {
                    Ok(KindReadingV::Unknown(t, value))
                },
            },
        },
        _ => Err("action must be object"@),
    }
}

/// An `"action"` value read without knowing its type: a known action type with its
/// payload, or an unknown type with the raw value.
#[derive(Debug)]
pub enum ActionKindReading {
    Known { kind: ActionType, payload: JsonValue },
    Unknown { action_type: String, raw: JsonValue },
}

impl ActionKindReading {
    pub open spec fn view(&self) -> KindReadingV {
        match self {
            ActionKindReading::Known { kind, payload } => KindReadingV::Known(*kind, payload@),
            ActionKindReading::Unknown { action_type, raw } => KindReadingV::Unknown(
                action_type@,
                raw@,
            ),
        }
    }
}

pub open spec fn kind_reading_view(r: Result<ActionKindReading, String>) -> Result<KindReadingV, Seq<char>> {
    match r {
        Ok(k) => Ok(k.view()),
        Err(e) => Err(e@),
    }
}

/// Reads an `"action"` value whose type is known only at run time.
pub fn read_action_kind(value: &JsonValue) -> (r: Result<ActionKindReading, String>)
    ensures
        kind_reading_view(r) == read_action_kind_spec(value@),
{
    let obj = match value {
        JsonValue::Object(obj) => obj,
        _ => {
            return Err("action must be object".to_owned());
        },
    };
    let t = match action_type_from_obj(obj) {
        Ok(t) => t,
        Err(e) => {
            return Err(e);
        },
    };
    let t_owned = t.to_owned();
    let ghost m = members_view(obj@);
    assert(value@ == Json::Object(m));
    let types = action_types();
    let mut i: usize = 0;
    let mut named = false;
    while i < types.len()
        invariant
            i <= types.len(),
            types@ == all_action_types(),
            m == members_view(obj@),
            value@ == Json::Object(m),
            t_owned@ == t@,
            action_type_spec(m) == Ok::<Seq<char>, Seq<char>>(t@),
            first_selected(all_action_types(), 0, t@, m) == first_selected(all_action_types(), i as int, t@, m),
            any_named(all_action_types(), 0, t@) == (named || any_named(all_action_types(), i as int, t@)),
        decreases types.len() - i,
    {
        let ty = types[i];
        let meta = ty.meta();
        if meta.action_type == t_owned {
            named = true;
            let nested_present = get_member(obj, meta.payload_key.as_str()).is_some();
            if meta.payload_key == meta.action_type || nested_present {
                proof {
                    assert(type_selected(ty, t@, m));
                }
                let payload = match extract_action_payload_for(&meta, obj) {
                    Ok(p) => p,
                    Err(e) => {
                        return Err(e);
                    },
                };
                return Ok(ActionKindReading::Known { kind: ty, payload });
            }
        }
        i = i + 1;
    }
    if named {
        Err("missing action payload".to_owned())
    } else {
        Ok(ActionKindReading::Unknown { action_type: t_owned, raw: value.duplicate() })
    }
}

} // verus!
