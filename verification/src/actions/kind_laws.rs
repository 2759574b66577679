//! Reading a built action object without knowing its type finds the action's own type.
//! The proof goes type by type: every action type listed before it either names another
//! action type or, sharing the type, nests its payload under a key the object lacks.
use vstd::prelude::*;
use super::kind::{ActionType, KindReadingV, all_action_types, first_selected, read_action_kind_spec, type_meta, type_selected};
use crate::json::{Json, keys_distinct, lemma_obj_find, lemma_obj_get_insert, obj_has, obj_insert};
use crate::wire::{SigningChain, build_action_spec, extract_payload_spec, lemma_built_action_names_type, lemma_obj_find_single};

verus! {

/// A built [`AgentEnableDexAbstraction`] object is read back as a [`AgentEnableDexAbstraction`].
proof fn lemma_built_selects_agent_enable_dex_abstraction(payload: Json, chain: Option<SigningChain>)
    requires
        payload matches Json::Object(p) && keys_distinct(p) && !obj_has(p, "type"@),
        build_action_spec(type_meta(ActionType::AgentEnableDexAbstraction), payload, chain) is Ok,
    ensures
        first_selected(
            all_action_types(),
            0,
            type_meta(ActionType::AgentEnableDexAbstraction).action_type,
            build_action_spec(type_meta(ActionType::AgentEnableDexAbstraction), payload, chain)->Ok_0->Object_0,
        ) == Some(ActionType::AgentEnableDexAbstraction),
{
    reveal_strlit("agentEnableDexAbstraction");
    reveal_strlit("type");
    let meta = type_meta(ActionType::AgentEnableDexAbstraction);
    let obj = build_action_spec(meta, payload, chain)->Ok_0->Object_0;
    let t = meta.action_type;
    assert(all_action_types()[0] == ActionType::AgentEnableDexAbstraction);
    assert(type_selected(ActionType::AgentEnableDexAbstraction, t, obj));
    assert(first_selected(all_action_types(), 0, t, obj) == Some(ActionType::AgentEnableDexAbstraction));
}

/// A built [`CreateSubAccount`] object is read back as a [`CreateSubAccount`].
proof fn lemma_built_selects_create_sub_account(payload: Json, chain: Option<SigningChain>)
    requires
        payload matches Json::Object(p) && keys_distinct(p) && !obj_has(p, "type"@),
        build_action_spec(type_meta(ActionType::CreateSubAccount), payload, chain) is Ok,
    ensures
        first_selected(
            all_action_types(),
            0,
            type_meta(ActionType::CreateSubAccount).action_type,
            build_action_spec(type_meta(ActionType::CreateSubAccount), payload, chain)->Ok_0->Object_0,
        ) == Some(ActionType::CreateSubAccount),
{
    reveal_strlit("agentEnableDexAbstraction");
    reveal_strlit("createSubAccount");
    reveal_strlit("type");
    let meta = type_meta(ActionType::CreateSubAccount);
    let obj = build_action_spec(meta, payload, chain)->Ok_0->Object_0;
    let t = meta.action_type;
    assert(all_action_types()[1] == ActionType::CreateSubAccount);
    assert(type_selected(ActionType::CreateSubAccount, t, obj));
    assert(first_selected(all_action_types(), 1, t, obj) == Some(ActionType::CreateSubAccount));
    assert(all_action_types()[0] == ActionType::AgentEnableDexAbstraction);
    assert("agentEnableDexAbstraction"@.len() != "createSubAccount"@.len());
    assert(!type_selected(ActionType::AgentEnableDexAbstraction, t, obj));
    assert(first_selected(all_action_types(), 0, t, obj) == Some(ActionType::CreateSubAccount));
}

/// A built [`NoOp`] object is read back as a [`NoOp`].
proof fn lemma_built_selects_no_op(payload: Json, chain: Option<SigningChain>)
    requires
        payload matches Json::Object(p) && keys_distinct(p) && !obj_has(p, "type"@),
        build_action_spec(type_meta(ActionType::NoOp), payload, chain) is Ok,
    ensures
        first_selected(
            all_action_types(),
            0,
            type_meta(ActionType::NoOp).action_type,
            build_action_spec(type_meta(ActionType::NoOp), payload, chain)->Ok_0->Object_0,
        ) == Some(ActionType::NoOp),
{
    reveal_strlit("agentEnableDexAbstraction");
    reveal_strlit("createSubAccount");
    reveal_strlit("noop");
    reveal_strlit("type");
    let meta = type_meta(ActionType::NoOp);
    let obj = build_action_spec(meta, payload, chain)->Ok_0->Object_0;
    let t = meta.action_type;
    assert(all_action_types()[2] == ActionType::NoOp);
    assert(type_selected(ActionType::NoOp, t, obj));
    assert(first_selected(all_action_types(), 2, t, obj) == Some(ActionType::NoOp));
    assert(all_action_types()[1] == ActionType::CreateSubAccount);
    assert("createSubAccount"@.len() != "noop"@.len());
    assert(!type_selected(ActionType::CreateSubAccount, t, obj));
    assert(first_selected(all_action_types(), 1, t, obj) == Some(ActionType::NoOp));
    assert(all_action_types()[0] == ActionType::AgentEnableDexAbstraction);
    assert("agentEnableDexAbstraction"@.len() != "noop"@.len());
    assert(!type_selected(ActionType::AgentEnableDexAbstraction, t, obj));
    assert(first_selected(all_action_types(), 0, t, obj) == Some(ActionType::NoOp));
}

/// A built [`SetReferrer`] object is read back as a [`SetReferrer`].
proof fn lemma_built_selects_set_referrer(payload: Json, chain: Option<SigningChain>)
    requires
        payload matches Json::Object(p) && keys_distinct(p) && !obj_has(p, "type"@),
        build_action_spec(type_meta(ActionType::SetReferrer), payload, chain) is Ok,
    ensures
        first_selected(
            all_action_types(),
            0,
            type_meta(ActionType::SetReferrer).action_type,
            build_action_spec(type_meta(ActionType::SetReferrer), payload, chain)->Ok_0->Object_0,
        ) == Some(ActionType::SetReferrer),
{
    reveal_strlit("agentEnableDexAbstraction");
    reveal_strlit("createSubAccount");
    reveal_strlit("noop");
    reveal_strlit("setReferrer");
    reveal_strlit("type");
    let meta = type_meta(ActionType::SetReferrer);
    let obj = build_action_spec(meta, payload, chain)->Ok_0->Object_0;
    let t = meta.action_type;
    assert(all_action_types()[3] == ActionType::SetReferrer);
    assert(type_selected(ActionType::SetReferrer, t, obj));
    assert(first_selected(all_action_types(), 3, t, obj) == Some(ActionType::SetReferrer));
    assert(all_action_types()[2] == ActionType::NoOp);
    assert("noop"@.len() != "setReferrer"@.len());
    assert(!type_selected(ActionType::NoOp, t, obj));
    assert(first_selected(all_action_types(), 2, t, obj) == Some(ActionType::SetReferrer));
    assert(all_action_types()[1] == ActionType::CreateSubAccount);
    assert("createSubAccount"@.len() != "setReferrer"@.len());
    assert(!type_selected(ActionType::CreateSubAccount, t, obj));
    assert(first_selected(all_action_types(), 1, t, obj) == Some(ActionType::SetReferrer));
    assert(all_action_types()[0] == ActionType::AgentEnableDexAbstraction);
    assert("agentEnableDexAbstraction"@.len() != "setReferrer"@.len());
    assert(!type_selected(ActionType::AgentEnableDexAbstraction, t, obj));
    assert(first_selected(all_action_types(), 0, t, obj) == Some(ActionType::SetReferrer));
}

/// A built [`SubAccountSpotTransfer`] object is read back as a [`SubAccountSpotTransfer`].
proof fn lemma_built_selects_sub_account_spot_transfer(payload: Json, chain: Option<SigningChain>)
    requires
        payload matches Json::Object(p) && keys_distinct(p) && !obj_has(p, "type"@),
        build_action_spec(type_meta(ActionType::SubAccountSpotTransfer), payload, chain) is Ok,
    ensures
        first_selected(
            all_action_types(),
            0,
            type_meta(ActionType::SubAccountSpotTransfer).action_type,
            build_action_spec(type_meta(ActionType::SubAccountSpotTransfer), payload, chain)->Ok_0->Object_0,
        ) == Some(ActionType::SubAccountSpotTransfer),
{
    reveal_strlit("agentEnableDexAbstraction");
    reveal_strlit("createSubAccount");
    reveal_strlit("noop");
    reveal_strlit("setReferrer");
    reveal_strlit("subAccountSpotTransfer");
    reveal_strlit("type");
    let meta = type_meta(ActionType::SubAccountSpotTransfer);
    let obj = build_action_spec(meta, payload, chain)->Ok_0->Object_0;
    let t = meta.action_type;
    assert(all_action_types()[4] == ActionType::SubAccountSpotTransfer);
    assert(type_selected(ActionType::SubAccountSpotTransfer, t, obj));
    assert(first_selected(all_action_types(), 4, t, obj) == Some(ActionType::SubAccountSpotTransfer));
    assert(all_action_types()[3] == ActionType::SetReferrer);
    assert("setReferrer"@.len() != "subAccountSpotTransfer"@.len());
    assert(!type_selected(ActionType::SetReferrer, t, obj));
    assert(first_selected(all_action_types(), 3, t, obj) == Some(ActionType::SubAccountSpotTransfer));
    assert(all_action_types()[2] == ActionType::NoOp);
    assert("noop"@.len() != "subAccountSpotTransfer"@.len());
    assert(!type_selected(ActionType::NoOp, t, obj));
    assert(first_selected(all_action_types(), 2, t, obj) == Some(ActionType::SubAccountSpotTransfer));
    assert(all_action_types()[1] == ActionType::CreateSubAccount);
    assert("createSubAccount"@.len() != "subAccountSpotTransfer"@.len());
    assert(!type_selected(ActionType::CreateSubAccount, t, obj));
    assert(first_selected(all_action_types(), 1, t, obj) == Some(ActionType::SubAccountSpotTransfer));
    assert(all_action_types()[0] == ActionType::AgentEnableDexAbstraction);
    assert("agentEnableDexAbstraction"@.len() != "subAccountSpotTransfer"@.len());
    assert(!type_selected(ActionType::AgentEnableDexAbstraction, t, obj));
    assert(first_selected(all_action_types(), 0, t, obj) == Some(ActionType::SubAccountSpotTransfer));
}

/// A built [`ToggleBigBlocks`] object is read back as a [`ToggleBigBlocks`].
proof fn lemma_built_selects_toggle_big_blocks(payload: Json, chain: Option<SigningChain>)
    requires
        payload matches Json::Object(p) && keys_distinct(p) && !obj_has(p, "type"@),
        build_action_spec(type_meta(ActionType::ToggleBigBlocks), payload, chain) is Ok,
    ensures
        first_selected(
            all_action_types(),
            0,
            type_meta(ActionType::ToggleBigBlocks).action_type,
            build_action_spec(type_meta(ActionType::ToggleBigBlocks), payload, chain)->Ok_0->Object_0,
        ) == Some(ActionType::ToggleBigBlocks),
{
    reveal_strlit("agentEnableDexAbstraction");
    reveal_strlit("createSubAccount");
    reveal_strlit("evmUserModify");
    reveal_strlit("noop");
    reveal_strlit("setReferrer");
    reveal_strlit("subAccountSpotTransfer");
    reveal_strlit("type");
    let meta = type_meta(ActionType::ToggleBigBlocks);
    let obj = build_action_spec(meta, payload, chain)->Ok_0->Object_0;
    let t = meta.action_type;
    assert(all_action_types()[5] == ActionType::ToggleBigBlocks);
    assert(type_selected(ActionType::ToggleBigBlocks, t, obj));
    assert(first_selected(all_action_types(), 5, t, obj) == Some(ActionType::ToggleBigBlocks));
    assert(all_action_types()[4] == ActionType::SubAccountSpotTransfer);
    assert("subAccountSpotTransfer"@.len() != "evmUserModify"@.len());
    assert(!type_selected(ActionType::SubAccountSpotTransfer, t, obj));
    assert(first_selected(all_action_types(), 4, t, obj) == Some(ActionType::ToggleBigBlocks));
    assert(all_action_types()[3] == ActionType::SetReferrer);
    assert("setReferrer"@.len() != "evmUserModify"@.len());
    assert(!type_selected(ActionType::SetReferrer, t, obj));
    assert(first_selected(all_action_types(), 3, t, obj) == Some(ActionType::ToggleBigBlocks));
    assert(all_action_types()[2] == ActionType::NoOp);
    assert("noop"@.len() != "evmUserModify"@.len());
    assert(!type_selected(ActionType::NoOp, t, obj));
    assert(first_selected(all_action_types(), 2, t, obj) == Some(ActionType::ToggleBigBlocks));
    assert(all_action_types()[1] == ActionType::CreateSubAccount);
    assert("createSubAccount"@.len() != "evmUserModify"@.len());
    assert(!type_selected(ActionType::CreateSubAccount, t, obj));
    assert(first_selected(all_action_types(), 1, t, obj) == Some(ActionType::ToggleBigBlocks));
    assert(all_action_types()[0] == ActionType::AgentEnableDexAbstraction);
    assert("agentEnableDexAbstraction"@.len() != "evmUserModify"@.len());
    assert(!type_selected(ActionType::AgentEnableDexAbstraction, t, obj));
    assert(first_selected(all_action_types(), 0, t, obj) == Some(ActionType::ToggleBigBlocks));
}

/// A built [`VaultTransfer`] object is read back as a [`VaultTransfer`].
proof fn lemma_built_selects_vault_transfer(payload: Json, chain: Option<SigningChain>)
    requires
        payload matches Json::Object(p) && keys_distinct(p) && !obj_has(p, "type"@),
        build_action_spec(type_meta(ActionType::VaultTransfer), payload, chain) is Ok,
    ensures
        first_selected(
            all_action_types(),
            0,
            type_meta(ActionType::VaultTransfer).action_type,
            build_action_spec(type_meta(ActionType::VaultTransfer), payload, chain)->Ok_0->Object_0,
        ) == Some(ActionType::VaultTransfer),
{
    reveal_strlit("agentEnableDexAbstraction");
    reveal_strlit("createSubAccount");
    reveal_strlit("evmUserModify");
    reveal_strlit("noop");
    reveal_strlit("setReferrer");
    reveal_strlit("subAccountSpotTransfer");
    reveal_strlit("type");
    reveal_strlit("vaultTransfer");
    let meta = type_meta(ActionType::VaultTransfer);
    let obj = build_action_spec(meta, payload, chain)->Ok_0->Object_0;
    let t = meta.action_type;
    assert(all_action_types()[6] == ActionType::VaultTransfer);
    assert(type_selected(ActionType::VaultTransfer, t, obj));
    assert(first_selected(all_action_types(), 6, t, obj) == Some(ActionType::VaultTransfer));
    assert(all_action_types()[5] == ActionType::ToggleBigBlocks);
    assert("evmUserModify"@[0] != "vaultTransfer"@[0]);
    assert(!type_selected(ActionType::ToggleBigBlocks, t, obj));
    assert(first_selected(all_action_types(), 5, t, obj) == Some(ActionType::VaultTransfer));
    assert(all_action_types()[4] == ActionType::SubAccountSpotTransfer);
    assert("subAccountSpotTransfer"@.len() != "vaultTransfer"@.len());
    assert(!type_selected(ActionType::SubAccountSpotTransfer, t, obj));
    assert(first_selected(all_action_types(), 4, t, obj) == Some(ActionType::VaultTransfer));
    assert(all_action_types()[3] == ActionType::SetReferrer);
    assert("setReferrer"@.len() != "vaultTransfer"@.len());
    assert(!type_selected(ActionType::SetReferrer, t, obj));
    assert(first_selected(all_action_types(), 3, t, obj) == Some(ActionType::VaultTransfer));
    assert(all_action_types()[2] == ActionType::NoOp);
    assert("noop"@.len() != "vaultTransfer"@.len());
    assert(!type_selected(ActionType::NoOp, t, obj));
    assert(first_selected(all_action_types(), 2, t, obj) == Some(ActionType::VaultTransfer));
    assert(all_action_types()[1] == ActionType::CreateSubAccount);
    assert("createSubAccount"@.len() != "vaultTransfer"@.len());
    assert(!type_selected(ActionType::CreateSubAccount, t, obj));
    assert(first_selected(all_action_types(), 1, t, obj) == Some(ActionType::VaultTransfer));
    assert(all_action_types()[0] == ActionType::AgentEnableDexAbstraction);
    assert("agentEnableDexAbstraction"@.len() != "vaultTransfer"@.len());
    assert(!type_selected(ActionType::AgentEnableDexAbstraction, t, obj));
    assert(first_selected(all_action_types(), 0, t, obj) == Some(ActionType::VaultTransfer));
}

/// A built [`BatchOrder`] object is read back as a [`BatchOrder`].
proof fn lemma_built_selects_batch_order(payload: Json, chain: Option<SigningChain>)
    requires
        build_action_spec(type_meta(ActionType::BatchOrder), payload, chain) is Ok,
    ensures
        first_selected(
            all_action_types(),
            0,
            type_meta(ActionType::BatchOrder).action_type,
            build_action_spec(type_meta(ActionType::BatchOrder), payload, chain)->Ok_0->Object_0,
        ) == Some(ActionType::BatchOrder),
{
    reveal_strlit("agentEnableDexAbstraction");
    reveal_strlit("createSubAccount");
    reveal_strlit("evmUserModify");
    reveal_strlit("noop");
    reveal_strlit("order");
    reveal_strlit("orders");
    reveal_strlit("setReferrer");
    reveal_strlit("subAccountSpotTransfer");
    reveal_strlit("type");
    reveal_strlit("vaultTransfer");
    let meta = type_meta(ActionType::BatchOrder);
    let obj = build_action_spec(meta, payload, chain)->Ok_0->Object_0;
    let t = meta.action_type;
    assert("order"@.len() != "orders"@.len());
    let base = seq![("type"@, Json::Str(t))];
    assert(obj == obj_insert(base, meta.payload_key, payload));
    assert(all_action_types()[7] == ActionType::BatchOrder);
    lemma_obj_get_insert(base, meta.payload_key, payload, meta.payload_key);
    assert(type_selected(ActionType::BatchOrder, t, obj));
    assert(first_selected(all_action_types(), 7, t, obj) == Some(ActionType::BatchOrder));
    assert(all_action_types()[6] == ActionType::VaultTransfer);
    assert("vaultTransfer"@.len() != "order"@.len());
    assert(!type_selected(ActionType::VaultTransfer, t, obj));
    assert(first_selected(all_action_types(), 6, t, obj) == Some(ActionType::BatchOrder));
    assert(all_action_types()[5] == ActionType::ToggleBigBlocks);
    assert("evmUserModify"@.len() != "order"@.len());
    assert(!type_selected(ActionType::ToggleBigBlocks, t, obj));
    assert(first_selected(all_action_types(), 5, t, obj) == Some(ActionType::BatchOrder));
    assert(all_action_types()[4] == ActionType::SubAccountSpotTransfer);
    assert("subAccountSpotTransfer"@.len() != "order"@.len());
    assert(!type_selected(ActionType::SubAccountSpotTransfer, t, obj));
    assert(first_selected(all_action_types(), 4, t, obj) == Some(ActionType::BatchOrder));
    assert(all_action_types()[3] == ActionType::SetReferrer);
    assert("setReferrer"@.len() != "order"@.len());
    assert(!type_selected(ActionType::SetReferrer, t, obj));
    assert(first_selected(all_action_types(), 3, t, obj) == Some(ActionType::BatchOrder));
    assert(all_action_types()[2] == ActionType::NoOp);
    assert("noop"@.len() != "order"@.len());
    assert(!type_selected(ActionType::NoOp, t, obj));
    assert(first_selected(all_action_types(), 2, t, obj) == Some(ActionType::BatchOrder));
    assert(all_action_types()[1] == ActionType::CreateSubAccount);
    assert("createSubAccount"@.len() != "order"@.len());
    assert(!type_selected(ActionType::CreateSubAccount, t, obj));
    assert(first_selected(all_action_types(), 1, t, obj) == Some(ActionType::BatchOrder));
    assert(all_action_types()[0] == ActionType::AgentEnableDexAbstraction);
    assert("agentEnableDexAbstraction"@.len() != "order"@.len());
    assert(!type_selected(ActionType::AgentEnableDexAbstraction, t, obj));
    assert(first_selected(all_action_types(), 0, t, obj) == Some(ActionType::BatchOrder));
}

/// A built [`BatchModify`] object is read back as a [`BatchModify`].
proof fn lemma_built_selects_batch_modify(payload: Json, chain: Option<SigningChain>)
    requires
        build_action_spec(type_meta(ActionType::BatchModify), payload, chain) is Ok,
    ensures
        first_selected(
            all_action_types(),
            0,
            type_meta(ActionType::BatchModify).action_type,
            build_action_spec(type_meta(ActionType::BatchModify), payload, chain)->Ok_0->Object_0,
        ) == Some(ActionType::BatchModify),
{
    reveal_strlit("agentEnableDexAbstraction");
    reveal_strlit("batchModify");
    reveal_strlit("createSubAccount");
    reveal_strlit("evmUserModify");
    reveal_strlit("modifies");
    reveal_strlit("noop");
    reveal_strlit("order");
    reveal_strlit("orders");
    reveal_strlit("setReferrer");
    reveal_strlit("subAccountSpotTransfer");
    reveal_strlit("type");
    reveal_strlit("vaultTransfer");
    let meta = type_meta(ActionType::BatchModify);
    let obj = build_action_spec(meta, payload, chain)->Ok_0->Object_0;
    let t = meta.action_type;
    assert("batchModify"@.len() != "modifies"@.len());
    let base = seq![("type"@, Json::Str(t))];
    assert(obj == obj_insert(base, meta.payload_key, payload));
    assert(all_action_types()[8] == ActionType::BatchModify);
    lemma_obj_get_insert(base, meta.payload_key, payload, meta.payload_key);
    assert(type_selected(ActionType::BatchModify, t, obj));
    assert(first_selected(all_action_types(), 8, t, obj) == Some(ActionType::BatchModify));
    assert(all_action_types()[7] == ActionType::BatchOrder);
    assert("order"@.len() != "batchModify"@.len());
    assert(!type_selected(ActionType::BatchOrder, t, obj));
    assert(first_selected(all_action_types(), 7, t, obj) == Some(ActionType::BatchModify));
    assert(all_action_types()[6] == ActionType::VaultTransfer);
    assert("vaultTransfer"@.len() != "batchModify"@.len());
    assert(!type_selected(ActionType::VaultTransfer, t, obj));
    assert(first_selected(all_action_types(), 6, t, obj) == Some(ActionType::BatchModify));
    assert(all_action_types()[5] == ActionType::ToggleBigBlocks);
    assert("evmUserModify"@.len() != "batchModify"@.len());
    assert(!type_selected(ActionType::ToggleBigBlocks, t, obj));
    assert(first_selected(all_action_types(), 5, t, obj) == Some(ActionType::BatchModify));
    assert(all_action_types()[4] == ActionType::SubAccountSpotTransfer);
    assert("subAccountSpotTransfer"@.len() != "batchModify"@.len());
    assert(!type_selected(ActionType::SubAccountSpotTransfer, t, obj));
    assert(first_selected(all_action_types(), 4, t, obj) == Some(ActionType::BatchModify));
    assert(all_action_types()[3] == ActionType::SetReferrer);
    assert("setReferrer"@[0] != "batchModify"@[0]);
    assert(!type_selected(ActionType::SetReferrer, t, obj));
    assert(first_selected(all_action_types(), 3, t, obj) == Some(ActionType::BatchModify));
    assert(all_action_types()[2] == ActionType::NoOp);
    assert("noop"@.len() != "batchModify"@.len());
    assert(!type_selected(ActionType::NoOp, t, obj));
    assert(first_selected(all_action_types(), 2, t, obj) == Some(ActionType::BatchModify));
    assert(all_action_types()[1] == ActionType::CreateSubAccount);
    assert("createSubAccount"@.len() != "batchModify"@.len());
    assert(!type_selected(ActionType::CreateSubAccount, t, obj));
    assert(first_selected(all_action_types(), 1, t, obj) == Some(ActionType::BatchModify));
    assert(all_action_types()[0] == ActionType::AgentEnableDexAbstraction);
    assert("agentEnableDexAbstraction"@.len() != "batchModify"@.len());
    assert(!type_selected(ActionType::AgentEnableDexAbstraction, t, obj));
    assert(first_selected(all_action_types(), 0, t, obj) == Some(ActionType::BatchModify));
}

/// A built [`ScheduleCancel`] object is read back as a [`ScheduleCancel`].
proof fn lemma_built_selects_schedule_cancel(payload: Json, chain: Option<SigningChain>)
    requires
        payload matches Json::Object(p) && keys_distinct(p) && !obj_has(p, "type"@),
        build_action_spec(type_meta(ActionType::ScheduleCancel), payload, chain) is Ok,
    ensures
        first_selected(
            all_action_types(),
            0,
            type_meta(ActionType::ScheduleCancel).action_type,
            build_action_spec(type_meta(ActionType::ScheduleCancel), payload, chain)->Ok_0->Object_0,
        ) == Some(ActionType::ScheduleCancel),
{
    reveal_strlit("agentEnableDexAbstraction");
    reveal_strlit("batchModify");
    reveal_strlit("createSubAccount");
    reveal_strlit("evmUserModify");
    reveal_strlit("modifies");
    reveal_strlit("noop");
    reveal_strlit("order");
    reveal_strlit("orders");
    reveal_strlit("scheduleCancel");
    reveal_strlit("setReferrer");
    reveal_strlit("subAccountSpotTransfer");
    reveal_strlit("type");
    reveal_strlit("vaultTransfer");
    let meta = type_meta(ActionType::ScheduleCancel);
    let obj = build_action_spec(meta, payload, chain)->Ok_0->Object_0;
    let t = meta.action_type;
    assert(all_action_types()[9] == ActionType::ScheduleCancel);
    assert(type_selected(ActionType::ScheduleCancel, t, obj));
    assert(first_selected(all_action_types(), 9, t, obj) == Some(ActionType::ScheduleCancel));
    assert(all_action_types()[8] == ActionType::BatchModify);
    assert("batchModify"@.len() != "scheduleCancel"@.len());
    assert(!type_selected(ActionType::BatchModify, t, obj));
    assert(first_selected(all_action_types(), 8, t, obj) == Some(ActionType::ScheduleCancel));
    assert(all_action_types()[7] == ActionType::BatchOrder);
    assert("order"@.len() != "scheduleCancel"@.len());
    assert(!type_selected(ActionType::BatchOrder, t, obj));
    assert(first_selected(all_action_types(), 7, t, obj) == Some(ActionType::ScheduleCancel));
    assert(all_action_types()[6] == ActionType::VaultTransfer);
    assert("vaultTransfer"@.len() != "scheduleCancel"@.len());
    assert(!type_selected(ActionType::VaultTransfer, t, obj));
    assert(first_selected(all_action_types(), 6, t, obj) == Some(ActionType::ScheduleCancel));
    assert(all_action_types()[5] == ActionType::ToggleBigBlocks);
    assert("evmUserModify"@.len() != "scheduleCancel"@.len());
    assert(!type_selected(ActionType::ToggleBigBlocks, t, obj));
    assert(first_selected(all_action_types(), 5, t, obj) == Some(ActionType::ScheduleCancel));
    assert(all_action_types()[4] == ActionType::SubAccountSpotTransfer);
    assert("subAccountSpotTransfer"@.len() != "scheduleCancel"@.len());
    assert(!type_selected(ActionType::SubAccountSpotTransfer, t, obj));
    assert(first_selected(all_action_types(), 4, t, obj) == Some(ActionType::ScheduleCancel));
    assert(all_action_types()[3] == ActionType::SetReferrer);
    assert("setReferrer"@.len() != "scheduleCancel"@.len());
    assert(!type_selected(ActionType::SetReferrer, t, obj));
    assert(first_selected(all_action_types(), 3, t, obj) == Some(ActionType::ScheduleCancel));
    assert(all_action_types()[2] == ActionType::NoOp);
    assert("noop"@.len() != "scheduleCancel"@.len());
    assert(!type_selected(ActionType::NoOp, t, obj));
    assert(first_selected(all_action_types(), 2, t, obj) == Some(ActionType::ScheduleCancel));
    assert(all_action_types()[1] == ActionType::CreateSubAccount);
    assert("createSubAccount"@.len() != "scheduleCancel"@.len());
    assert(!type_selected(ActionType::CreateSubAccount, t, obj));
    assert(first_selected(all_action_types(), 1, t, obj) == Some(ActionType::ScheduleCancel));
    assert(all_action_types()[0] == ActionType::AgentEnableDexAbstraction);
    assert("agentEnableDexAbstraction"@.len() != "scheduleCancel"@.len());
    assert(!type_selected(ActionType::AgentEnableDexAbstraction, t, obj));
    assert(first_selected(all_action_types(), 0, t, obj) == Some(ActionType::ScheduleCancel));
}

/// A built [`UpdateIsolatedMargin`] object is read back as a [`UpdateIsolatedMargin`].
proof fn lemma_built_selects_update_isolated_margin(payload: Json, chain: Option<SigningChain>)
    requires
        payload matches Json::Object(p) && keys_distinct(p) && !obj_has(p, "type"@),
        build_action_spec(type_meta(ActionType::UpdateIsolatedMargin), payload, chain) is Ok,
    ensures
        first_selected(
            all_action_types(),
            0,
            type_meta(ActionType::UpdateIsolatedMargin).action_type,
            build_action_spec(type_meta(ActionType::UpdateIsolatedMargin), payload, chain)->Ok_0->Object_0,
        ) == Some(ActionType::UpdateIsolatedMargin),
{
    reveal_strlit("agentEnableDexAbstraction");
    reveal_strlit("batchModify");
    reveal_strlit("createSubAccount");
    reveal_strlit("evmUserModify");
    reveal_strlit("modifies");
    reveal_strlit("noop");
    reveal_strlit("order");
    reveal_strlit("orders");
    reveal_strlit("scheduleCancel");
    reveal_strlit("setReferrer");
    reveal_strlit("subAccountSpotTransfer");
    reveal_strlit("type");
    reveal_strlit("updateIsolatedMargin");
    reveal_strlit("vaultTransfer");
    let meta = type_meta(ActionType::UpdateIsolatedMargin);
    let obj = build_action_spec(meta, payload, chain)->Ok_0->Object_0;
    let t = meta.action_type;
    assert(all_action_types()[10] == ActionType::UpdateIsolatedMargin);
    assert(type_selected(ActionType::UpdateIsolatedMargin, t, obj));
    assert(first_selected(all_action_types(), 10, t, obj) == Some(ActionType::UpdateIsolatedMargin));
    assert(all_action_types()[9] == ActionType::ScheduleCancel);
    assert("scheduleCancel"@.len() != "updateIsolatedMargin"@.len());
    assert(!type_selected(ActionType::ScheduleCancel, t, obj));
    assert(first_selected(all_action_types(), 9, t, obj) == Some(ActionType::UpdateIsolatedMargin));
    assert(all_action_types()[8] == ActionType::BatchModify);
    assert("batchModify"@.len() != "updateIsolatedMargin"@.len());
    assert(!type_selected(ActionType::BatchModify, t, obj));
    assert(first_selected(all_action_types(), 8, t, obj) == Some(ActionType::UpdateIsolatedMargin));
    assert(all_action_types()[7] == ActionType::BatchOrder);
    assert("order"@.len() != "updateIsolatedMargin"@.len());
    assert(!type_selected(ActionType::BatchOrder, t, obj));
    assert(first_selected(all_action_types(), 7, t, obj) == Some(ActionType::UpdateIsolatedMargin));
    assert(all_action_types()[6] == ActionType::VaultTransfer);
    assert("vaultTransfer"@.len() != "updateIsolatedMargin"@.len());
    assert(!type_selected(ActionType::VaultTransfer, t, obj));
    assert(first_selected(all_action_types(), 6, t, obj) == Some(ActionType::UpdateIsolatedMargin));
    assert(all_action_types()[5] == ActionType::ToggleBigBlocks);
    assert("evmUserModify"@.len() != "updateIsolatedMargin"@.len());
    assert(!type_selected(ActionType::ToggleBigBlocks, t, obj));
    assert(first_selected(all_action_types(), 5, t, obj) == Some(ActionType::UpdateIsolatedMargin));
    assert(all_action_types()[4] == ActionType::SubAccountSpotTransfer);
    assert("subAccountSpotTransfer"@.len() != "updateIsolatedMargin"@.len());
    assert(!type_selected(ActionType::SubAccountSpotTransfer, t, obj));
    assert(first_selected(all_action_types(), 4, t, obj) == Some(ActionType::UpdateIsolatedMargin));
    assert(all_action_types()[3] == ActionType::SetReferrer);
    assert("setReferrer"@.len() != "updateIsolatedMargin"@.len());
    assert(!type_selected(ActionType::SetReferrer, t, obj));
    assert(first_selected(all_action_types(), 3, t, obj) == Some(ActionType::UpdateIsolatedMargin));
    assert(all_action_types()[2] == ActionType::NoOp);
    assert("noop"@.len() != "updateIsolatedMargin"@.len());
    assert(!type_selected(ActionType::NoOp, t, obj));
    assert(first_selected(all_action_types(), 2, t, obj) == Some(ActionType::UpdateIsolatedMargin));
    assert(all_action_types()[1] == ActionType::CreateSubAccount);
    assert("createSubAccount"@.len() != "updateIsolatedMargin"@.len());
    assert(!type_selected(ActionType::CreateSubAccount, t, obj));
    assert(first_selected(all_action_types(), 1, t, obj) == Some(ActionType::UpdateIsolatedMargin));
    assert(all_action_types()[0] == ActionType::AgentEnableDexAbstraction);
    assert("agentEnableDexAbstraction"@.len() != "updateIsolatedMargin"@.len());
    assert(!type_selected(ActionType::AgentEnableDexAbstraction, t, obj));
    assert(first_selected(all_action_types(), 0, t, obj) == Some(ActionType::UpdateIsolatedMargin));
}

/// A built [`UpdateLeverage`] object is read back as a [`UpdateLeverage`].
proof fn lemma_built_selects_update_leverage(payload: Json, chain: Option<SigningChain>)
    requires
        payload matches Json::Object(p) && keys_distinct(p) && !obj_has(p, "type"@),
        build_action_spec(type_meta(ActionType::UpdateLeverage), payload, chain) is Ok,
    ensures
        first_selected(
            all_action_types(),
            0,
            type_meta(ActionType::UpdateLeverage).action_type,
            build_action_spec(type_meta(ActionType::UpdateLeverage), payload, chain)->Ok_0->Object_0,
        ) == Some(ActionType::UpdateLeverage),
{
    reveal_strlit("agentEnableDexAbstraction");
    reveal_strlit("batchModify");
    reveal_strlit("createSubAccount");
    reveal_strlit("evmUserModify");
    reveal_strlit("modifies");
    reveal_strlit("noop");
    reveal_strlit("order");
    reveal_strlit("orders");
    reveal_strlit("scheduleCancel");
    reveal_strlit("setReferrer");
    reveal_strlit("subAccountSpotTransfer");
    reveal_strlit("type");
    reveal_strlit("updateIsolatedMargin");
    reveal_strlit("updateLeverage");
    reveal_strlit("vaultTransfer");
    let meta = type_meta(ActionType::UpdateLeverage);
    let obj = build_action_spec(meta, payload, chain)->Ok_0->Object_0;
    let t = meta.action_type;
    assert(all_action_types()[11] == ActionType::UpdateLeverage);
    assert(type_selected(ActionType::UpdateLeverage, t, obj));
    assert(first_selected(all_action_types(), 11, t, obj) == Some(ActionType::UpdateLeverage));
    assert(all_action_types()[10] == ActionType::UpdateIsolatedMargin);
    assert("updateIsolatedMargin"@.len() != "updateLeverage"@.len());
    assert(!type_selected(ActionType::UpdateIsolatedMargin, t, obj));
    assert(first_selected(all_action_types(), 10, t, obj) == Some(ActionType::UpdateLeverage));
    assert(all_action_types()[9] == ActionType::ScheduleCancel);
    assert("scheduleCancel"@[0] != "updateLeverage"@[0]);
    assert(!type_selected(ActionType::ScheduleCancel, t, obj));
    assert(first_selected(all_action_types(), 9, t, obj) == Some(ActionType::UpdateLeverage));
    assert(all_action_types()[8] == ActionType::BatchModify);
    assert("batchModify"@.len() != "updateLeverage"@.len());
    assert(!type_selected(ActionType::BatchModify, t, obj));
    assert(first_selected(all_action_types(), 8, t, obj) == Some(ActionType::UpdateLeverage));
    assert(all_action_types()[7] == ActionType::BatchOrder);
    assert("order"@.len() != "updateLeverage"@.len());
    assert(!type_selected(ActionType::BatchOrder, t, obj));
    assert(first_selected(all_action_types(), 7, t, obj) == Some(ActionType::UpdateLeverage));
    assert(all_action_types()[6] == ActionType::VaultTransfer);
    assert("vaultTransfer"@.len() != "updateLeverage"@.len());
    assert(!type_selected(ActionType::VaultTransfer, t, obj));
    assert(first_selected(all_action_types(), 6, t, obj) == Some(ActionType::UpdateLeverage));
    assert(all_action_types()[5] == ActionType::ToggleBigBlocks);
    assert("evmUserModify"@.len() != "updateLeverage"@.len());
    assert(!type_selected(ActionType::ToggleBigBlocks, t, obj));
    assert(first_selected(all_action_types(), 5, t, obj) == Some(ActionType::UpdateLeverage));
    assert(all_action_types()[4] == ActionType::SubAccountSpotTransfer);
    assert("subAccountSpotTransfer"@.len() != "updateLeverage"@.len());
    assert(!type_selected(ActionType::SubAccountSpotTransfer, t, obj));
    assert(first_selected(all_action_types(), 4, t, obj) == Some(ActionType::UpdateLeverage));
    assert(all_action_types()[3] == ActionType::SetReferrer);
    assert("setReferrer"@.len() != "updateLeverage"@.len());
    assert(!type_selected(ActionType::SetReferrer, t, obj));
    assert(first_selected(all_action_types(), 3, t, obj) == Some(ActionType::UpdateLeverage));
    assert(all_action_types()[2] == ActionType::NoOp);
    assert("noop"@.len() != "updateLeverage"@.len());
    assert(!type_selected(ActionType::NoOp, t, obj));
    assert(first_selected(all_action_types(), 2, t, obj) == Some(ActionType::UpdateLeverage));
    assert(all_action_types()[1] == ActionType::CreateSubAccount);
    assert("createSubAccount"@.len() != "updateLeverage"@.len());
    assert(!type_selected(ActionType::CreateSubAccount, t, obj));
    assert(first_selected(all_action_types(), 1, t, obj) == Some(ActionType::UpdateLeverage));
    assert(all_action_types()[0] == ActionType::AgentEnableDexAbstraction);
    assert("agentEnableDexAbstraction"@.len() != "updateLeverage"@.len());
    assert(!type_selected(ActionType::AgentEnableDexAbstraction, t, obj));
    assert(first_selected(all_action_types(), 0, t, obj) == Some(ActionType::UpdateLeverage));
}

/// A built [`InsertMarginTable`] object is read back as a [`InsertMarginTable`].
proof fn lemma_built_selects_insert_margin_table(payload: Json, chain: Option<SigningChain>)
    requires
        build_action_spec(type_meta(ActionType::InsertMarginTable), payload, chain) is Ok,
    ensures
        first_selected(
            all_action_types(),
            0,
            type_meta(ActionType::InsertMarginTable).action_type,
            build_action_spec(type_meta(ActionType::InsertMarginTable), payload, chain)->Ok_0->Object_0,
        ) == Some(ActionType::InsertMarginTable),
{
    reveal_strlit("agentEnableDexAbstraction");
    reveal_strlit("batchModify");
    reveal_strlit("createSubAccount");
    reveal_strlit("evmUserModify");
    reveal_strlit("insertMarginTable");
    reveal_strlit("modifies");
    reveal_strlit("noop");
    reveal_strlit("order");
    reveal_strlit("orders");
    reveal_strlit("perpDeploy");
    reveal_strlit("scheduleCancel");
    reveal_strlit("setReferrer");
    reveal_strlit("subAccountSpotTransfer");
    reveal_strlit("type");
    reveal_strlit("updateIsolatedMargin");
    reveal_strlit("updateLeverage");
    reveal_strlit("vaultTransfer");
    let meta = type_meta(ActionType::InsertMarginTable);
    let obj = build_action_spec(meta, payload, chain)->Ok_0->Object_0;
    let t = meta.action_type;
    assert("perpDeploy"@.len() != "insertMarginTable"@.len());
    let base = seq![("type"@, Json::Str(t))];
    assert(obj == obj_insert(base, meta.payload_key, payload));
    assert(all_action_types()[12] == ActionType::InsertMarginTable);
    lemma_obj_get_insert(base, meta.payload_key, payload, meta.payload_key);
    assert(type_selected(ActionType::InsertMarginTable, t, obj));
    assert(first_selected(all_action_types(), 12, t, obj) == Some(ActionType::InsertMarginTable));
    assert(all_action_types()[11] == ActionType::UpdateLeverage);
    assert("updateLeverage"@.len() != "perpDeploy"@.len());
    assert(!type_selected(ActionType::UpdateLeverage, t, obj));
    assert(first_selected(all_action_types(), 11, t, obj) == Some(ActionType::InsertMarginTable));
    assert(all_action_types()[10] == ActionType::UpdateIsolatedMargin);
    assert("updateIsolatedMargin"@.len() != "perpDeploy"@.len());
    assert(!type_selected(ActionType::UpdateIsolatedMargin, t, obj));
    assert(first_selected(all_action_types(), 10, t, obj) == Some(ActionType::InsertMarginTable));
    assert(all_action_types()[9] == ActionType::ScheduleCancel);
    assert("scheduleCancel"@.len() != "perpDeploy"@.len());
    assert(!type_selected(ActionType::ScheduleCancel, t, obj));
    assert(first_selected(all_action_types(), 9, t, obj) == Some(ActionType::InsertMarginTable));
    assert(all_action_types()[8] == ActionType::BatchModify);
    assert("batchModify"@.len() != "perpDeploy"@.len());
    assert(!type_selected(ActionType::BatchModify, t, obj));
    assert(first_selected(all_action_types(), 8, t, obj) == Some(ActionType::InsertMarginTable));
    assert(all_action_types()[7] == ActionType::BatchOrder);
    assert("order"@.len() != "perpDeploy"@.len());
    assert(!type_selected(ActionType::BatchOrder, t, obj));
    assert(first_selected(all_action_types(), 7, t, obj) == Some(ActionType::InsertMarginTable));
    assert(all_action_types()[6] == ActionType::VaultTransfer);
    assert("vaultTransfer"@.len() != "perpDeploy"@.len());
    assert(!type_selected(ActionType::VaultTransfer, t, obj));
    assert(first_selected(all_action_types(), 6, t, obj) == Some(ActionType::InsertMarginTable));
    assert(all_action_types()[5] == ActionType::ToggleBigBlocks);
    assert("evmUserModify"@.len() != "perpDeploy"@.len());
    assert(!type_selected(ActionType::ToggleBigBlocks, t, obj));
    assert(first_selected(all_action_types(), 5, t, obj) == Some(ActionType::InsertMarginTable));
    assert(all_action_types()[4] == ActionType::SubAccountSpotTransfer);
    assert("subAccountSpotTransfer"@.len() != "perpDeploy"@.len());
    assert(!type_selected(ActionType::SubAccountSpotTransfer, t, obj));
    assert(first_selected(all_action_types(), 4, t, obj) == Some(ActionType::InsertMarginTable));
    assert(all_action_types()[3] == ActionType::SetReferrer);
    assert("setReferrer"@.len() != "perpDeploy"@.len());
    assert(!type_selected(ActionType::SetReferrer, t, obj));
    assert(first_selected(all_action_types(), 3, t, obj) == Some(ActionType::InsertMarginTable));
    assert(all_action_types()[2] == ActionType::NoOp);
    assert("noop"@.len() != "perpDeploy"@.len());
    assert(!type_selected(ActionType::NoOp, t, obj));
    assert(first_selected(all_action_types(), 2, t, obj) == Some(ActionType::InsertMarginTable));
    assert(all_action_types()[1] == ActionType::CreateSubAccount);
    assert("createSubAccount"@.len() != "perpDeploy"@.len());
    assert(!type_selected(ActionType::CreateSubAccount, t, obj));
    assert(first_selected(all_action_types(), 1, t, obj) == Some(ActionType::InsertMarginTable));
    assert(all_action_types()[0] == ActionType::AgentEnableDexAbstraction);
    assert("agentEnableDexAbstraction"@.len() != "perpDeploy"@.len());
    assert(!type_selected(ActionType::AgentEnableDexAbstraction, t, obj));
    assert(first_selected(all_action_types(), 0, t, obj) == Some(ActionType::InsertMarginTable));
}

/// A built [`SetFeeRecipient`] object is read back as a [`SetFeeRecipient`].
proof fn lemma_built_selects_set_fee_recipient(payload: Json, chain: Option<SigningChain>)
    requires
        build_action_spec(type_meta(ActionType::SetFeeRecipient), payload, chain) is Ok,
    ensures
        first_selected(
            all_action_types(),
            0,
            type_meta(ActionType::SetFeeRecipient).action_type,
            build_action_spec(type_meta(ActionType::SetFeeRecipient), payload, chain)->Ok_0->Object_0,
        ) == Some(ActionType::SetFeeRecipient),
{
    reveal_strlit("agentEnableDexAbstraction");
    reveal_strlit("batchModify");
    reveal_strlit("createSubAccount");
    reveal_strlit("evmUserModify");
    reveal_strlit("insertMarginTable");
    reveal_strlit("modifies");
    reveal_strlit("noop");
    reveal_strlit("order");
    reveal_strlit("orders");
    reveal_strlit("perpDeploy");
    reveal_strlit("scheduleCancel");
    reveal_strlit("setFeeRecipient");
    reveal_strlit("setReferrer");
    reveal_strlit("subAccountSpotTransfer");
    reveal_strlit("type");
    reveal_strlit("updateIsolatedMargin");
    reveal_strlit("updateLeverage");
    reveal_strlit("vaultTransfer");
    let meta = type_meta(ActionType::SetFeeRecipient);
    let obj = build_action_spec(meta, payload, chain)->Ok_0->Object_0;
    let t = meta.action_type;
    assert("perpDeploy"@.len() != "setFeeRecipient"@.len());
    let base = seq![("type"@, Json::Str(t))];
    assert(obj == obj_insert(base, meta.payload_key, payload));
    assert(all_action_types()[13] == ActionType::SetFeeRecipient);
    lemma_obj_get_insert(base, meta.payload_key, payload, meta.payload_key);
    assert(type_selected(ActionType::SetFeeRecipient, t, obj));
    assert(first_selected(all_action_types(), 13, t, obj) == Some(ActionType::SetFeeRecipient));
    assert(all_action_types()[12] == ActionType::InsertMarginTable);
    assert("insertMarginTable"@.len() != "setFeeRecipient"@.len());
    assert("insertMarginTable"@.len() != "type"@.len());
    lemma_obj_get_insert(base, meta.payload_key, payload, "insertMarginTable"@);
    lemma_obj_find_single("type"@, Json::Str(t), "insertMarginTable"@);
    lemma_obj_find(obj, "insertMarginTable"@);
    assert(!type_selected(ActionType::InsertMarginTable, t, obj));
    assert(first_selected(all_action_types(), 12, t, obj) == Some(ActionType::SetFeeRecipient));
    assert(all_action_types()[11] == ActionType::UpdateLeverage);
    assert("updateLeverage"@.len() != "perpDeploy"@.len());
    assert(!type_selected(ActionType::UpdateLeverage, t, obj));
    assert(first_selected(all_action_types(), 11, t, obj) == Some(ActionType::SetFeeRecipient));
    assert(all_action_types()[10] == ActionType::UpdateIsolatedMargin);
    assert("updateIsolatedMargin"@.len() != "perpDeploy"@.len());
    assert(!type_selected(ActionType::UpdateIsolatedMargin, t, obj));
    assert(first_selected(all_action_types(), 10, t, obj) == Some(ActionType::SetFeeRecipient));
    assert(all_action_types()[9] == ActionType::ScheduleCancel);
    assert("scheduleCancel"@.len() != "perpDeploy"@.len());
    assert(!type_selected(ActionType::ScheduleCancel, t, obj));
    assert(first_selected(all_action_types(), 9, t, obj) == Some(ActionType::SetFeeRecipient));
    assert(all_action_types()[8] == ActionType::BatchModify);
    assert("batchModify"@.len() != "perpDeploy"@.len());
    assert(!type_selected(ActionType::BatchModify, t, obj));
    assert(first_selected(all_action_types(), 8, t, obj) == Some(ActionType::SetFeeRecipient));
    assert(all_action_types()[7] == ActionType::BatchOrder);
    assert("order"@.len() != "perpDeploy"@.len());
    assert(!type_selected(ActionType::BatchOrder, t, obj));
    assert(first_selected(all_action_types(), 7, t, obj) == Some(ActionType::SetFeeRecipient));
    assert(all_action_types()[6] == ActionType::VaultTransfer);
    assert("vaultTransfer"@.len() != "perpDeploy"@.len());
    assert(!type_selected(ActionType::VaultTransfer, t, obj));
    assert(first_selected(all_action_types(), 6, t, obj) == Some(ActionType::SetFeeRecipient));
    assert(all_action_types()[5] == ActionType::ToggleBigBlocks);
    assert("evmUserModify"@.len() != "perpDeploy"@.len());
    assert(!type_selected(ActionType::ToggleBigBlocks, t, obj));
    assert(first_selected(all_action_types(), 5, t, obj) == Some(ActionType::SetFeeRecipient));
    assert(all_action_types()[4] == ActionType::SubAccountSpotTransfer);
    assert("subAccountSpotTransfer"@.len() != "perpDeploy"@.len());
    assert(!type_selected(ActionType::SubAccountSpotTransfer, t, obj));
    assert(first_selected(all_action_types(), 4, t, obj) == Some(ActionType::SetFeeRecipient));
    assert(all_action_types()[3] == ActionType::SetReferrer);
    assert("setReferrer"@.len() != "perpDeploy"@.len());
    assert(!type_selected(ActionType::SetReferrer, t, obj));
    assert(first_selected(all_action_types(), 3, t, obj) == Some(ActionType::SetFeeRecipient));
    assert(all_action_types()[2] == ActionType::NoOp);
    assert("noop"@.len() != "perpDeploy"@.len());
    assert(!type_selected(ActionType::NoOp, t, obj));
    assert(first_selected(all_action_types(), 2, t, obj) == Some(ActionType::SetFeeRecipient));
    assert(all_action_types()[1] == ActionType::CreateSubAccount);
    assert("createSubAccount"@.len() != "perpDeploy"@.len());
    assert(!type_selected(ActionType::CreateSubAccount, t, obj));
    assert(first_selected(all_action_types(), 1, t, obj) == Some(ActionType::SetFeeRecipient));
    assert(all_action_types()[0] == ActionType::AgentEnableDexAbstraction);
    assert("agentEnableDexAbstraction"@.len() != "perpDeploy"@.len());
    assert(!type_selected(ActionType::AgentEnableDexAbstraction, t, obj));
    assert(first_selected(all_action_types(), 0, t, obj) == Some(ActionType::SetFeeRecipient));
}

/// A built [`SetFundingMultipliers`] object is read back as a [`SetFundingMultipliers`].
proof fn lemma_built_selects_set_funding_multipliers(payload: Json, chain: Option<SigningChain>)
    requires
        build_action_spec(type_meta(ActionType::SetFundingMultipliers), payload, chain) is Ok,
    ensures
        first_selected(
            all_action_types(),
            0,
            type_meta(ActionType::SetFundingMultipliers).action_type,
            build_action_spec(type_meta(ActionType::SetFundingMultipliers), payload, chain)->Ok_0->Object_0,
        ) == Some(ActionType::SetFundingMultipliers),
{
    reveal_strlit("agentEnableDexAbstraction");
    reveal_strlit("batchModify");
    reveal_strlit("createSubAccount");
    reveal_strlit("evmUserModify");
    reveal_strlit("insertMarginTable");
    reveal_strlit("modifies");
    reveal_strlit("noop");
    reveal_strlit("order");
    reveal_strlit("orders");
    reveal_strlit("perpDeploy");
    reveal_strlit("scheduleCancel");
    reveal_strlit("setFeeRecipient");
    reveal_strlit("setFundingMultipliers");
    reveal_strlit("setReferrer");
    reveal_strlit("subAccountSpotTransfer");
    reveal_strlit("type");
    reveal_strlit("updateIsolatedMargin");
    reveal_strlit("updateLeverage");
    reveal_strlit("vaultTransfer");
    let meta = type_meta(ActionType::SetFundingMultipliers);
    let obj = build_action_spec(meta, payload, chain)->Ok_0->Object_0;
    let t = meta.action_type;
    assert("perpDeploy"@.len() != "setFundingMultipliers"@.len());
    let base = seq![("type"@, Json::Str(t))];
    assert(obj == obj_insert(base, meta.payload_key, payload));
    assert(all_action_types()[14] == ActionType::SetFundingMultipliers);
    lemma_obj_get_insert(base, meta.payload_key, payload, meta.payload_key);
    assert(type_selected(ActionType::SetFundingMultipliers, t, obj));
    assert(first_selected(all_action_types(), 14, t, obj) == Some(ActionType::SetFundingMultipliers));
    assert(all_action_types()[13] == ActionType::SetFeeRecipient);
    assert("setFeeRecipient"@.len() != "setFundingMultipliers"@.len());
    assert("setFeeRecipient"@.len() != "type"@.len());
    lemma_obj_get_insert(base, meta.payload_key, payload, "setFeeRecipient"@);
    lemma_obj_find_single("type"@, Json::Str(t), "setFeeRecipient"@);
    lemma_obj_find(obj, "setFeeRecipient"@);
    assert(!type_selected(ActionType::SetFeeRecipient, t, obj));
    assert(first_selected(all_action_types(), 13, t, obj) == Some(ActionType::SetFundingMultipliers));
    assert(all_action_types()[12] == ActionType::InsertMarginTable);
    assert("insertMarginTable"@.len() != "setFundingMultipliers"@.len());
    assert("insertMarginTable"@.len() != "type"@.len());
    lemma_obj_get_insert(base, meta.payload_key, payload, "insertMarginTable"@);
    lemma_obj_find_single("type"@, Json::Str(t), "insertMarginTable"@);
    lemma_obj_find(obj, "insertMarginTable"@);
    assert(!type_selected(ActionType::InsertMarginTable, t, obj));
    assert(first_selected(all_action_types(), 12, t, obj) == Some(ActionType::SetFundingMultipliers));
    assert(all_action_types()[11] == ActionType::UpdateLeverage);
    assert("updateLeverage"@.len() != "perpDeploy"@.len());
    assert(!type_selected(ActionType::UpdateLeverage, t, obj));
    assert(first_selected(all_action_types(), 11, t, obj) == Some(ActionType::SetFundingMultipliers));
    assert(all_action_types()[10] == ActionType::UpdateIsolatedMargin);
    assert("updateIsolatedMargin"@.len() != "perpDeploy"@.len());
    assert(!type_selected(ActionType::UpdateIsolatedMargin, t, obj));
    assert(first_selected(all_action_types(), 10, t, obj) == Some(ActionType::SetFundingMultipliers));
    assert(all_action_types()[9] == ActionType::ScheduleCancel);
    assert("scheduleCancel"@.len() != "perpDeploy"@.len());
    assert(!type_selected(ActionType::ScheduleCancel, t, obj));
    assert(first_selected(all_action_types(), 9, t, obj) == Some(ActionType::SetFundingMultipliers));
    assert(all_action_types()[8] == ActionType::BatchModify);
    assert("batchModify"@.len() != "perpDeploy"@.len());
    assert(!type_selected(ActionType::BatchModify, t, obj));
    assert(first_selected(all_action_types(), 8, t, obj) == Some(ActionType::SetFundingMultipliers));
    assert(all_action_types()[7] == ActionType::BatchOrder);
    assert("order"@.len() != "perpDeploy"@.len());
    assert(!type_selected(ActionType::BatchOrder, t, obj));
    assert(first_selected(all_action_types(), 7, t, obj) == Some(ActionType::SetFundingMultipliers));
    assert(all_action_types()[6] == ActionType::VaultTransfer);
    assert("vaultTransfer"@.len() != "perpDeploy"@.len());
    assert(!type_selected(ActionType::VaultTransfer, t, obj));
    assert(first_selected(all_action_types(), 6, t, obj) == Some(ActionType::SetFundingMultipliers));
    assert(all_action_types()[5] == ActionType::ToggleBigBlocks);
    assert("evmUserModify"@.len() != "perpDeploy"@.len());
    assert(!type_selected(ActionType::ToggleBigBlocks, t, obj));
    assert(first_selected(all_action_types(), 5, t, obj) == Some(ActionType::SetFundingMultipliers));
    assert(all_action_types()[4] == ActionType::SubAccountSpotTransfer);
    assert("subAccountSpotTransfer"@.len() != "perpDeploy"@.len());
    assert(!type_selected(ActionType::SubAccountSpotTransfer, t, obj));
    assert(first_selected(all_action_types(), 4, t, obj) == Some(ActionType::SetFundingMultipliers));
    assert(all_action_types()[3] == ActionType::SetReferrer);
    assert("setReferrer"@.len() != "perpDeploy"@.len());
    assert(!type_selected(ActionType::SetReferrer, t, obj));
    assert(first_selected(all_action_types(), 3, t, obj) == Some(ActionType::SetFundingMultipliers));
    assert(all_action_types()[2] == ActionType::NoOp);
    assert("noop"@.len() != "perpDeploy"@.len());
    assert(!type_selected(ActionType::NoOp, t, obj));
    assert(first_selected(all_action_types(), 2, t, obj) == Some(ActionType::SetFundingMultipliers));
    assert(all_action_types()[1] == ActionType::CreateSubAccount);
    assert("createSubAccount"@.len() != "perpDeploy"@.len());
    assert(!type_selected(ActionType::CreateSubAccount, t, obj));
    assert(first_selected(all_action_types(), 1, t, obj) == Some(ActionType::SetFundingMultipliers));
    assert(all_action_types()[0] == ActionType::AgentEnableDexAbstraction);
    assert("agentEnableDexAbstraction"@.len() != "perpDeploy"@.len());
    assert(!type_selected(ActionType::AgentEnableDexAbstraction, t, obj));
    assert(first_selected(all_action_types(), 0, t, obj) == Some(ActionType::SetFundingMultipliers));
}

/// A built [`SetGrowthModes`] object is read back as a [`SetGrowthModes`].
proof fn lemma_built_selects_set_growth_modes(payload: Json, chain: Option<SigningChain>)
    requires
        build_action_spec(type_meta(ActionType::SetGrowthModes), payload, chain) is Ok,
    ensures
        first_selected(
            all_action_types(),
            0,
            type_meta(ActionType::SetGrowthModes).action_type,
            build_action_spec(type_meta(ActionType::SetGrowthModes), payload, chain)->Ok_0->Object_0,
        ) == Some(ActionType::SetGrowthModes),
{
    reveal_strlit("agentEnableDexAbstraction");
    reveal_strlit("batchModify");
    reveal_strlit("createSubAccount");
    reveal_strlit("evmUserModify");
    reveal_strlit("insertMarginTable");
    reveal_strlit("modifies");
    reveal_strlit("noop");
    reveal_strlit("order");
    reveal_strlit("orders");
    reveal_strlit("perpDeploy");
    reveal_strlit("scheduleCancel");
    reveal_strlit("setFeeRecipient");
    reveal_strlit("setFundingMultipliers");
    reveal_strlit("setGrowthModes");
    reveal_strlit("setReferrer");
    reveal_strlit("subAccountSpotTransfer");
    reveal_strlit("type");
    reveal_strlit("updateIsolatedMargin");
    reveal_strlit("updateLeverage");
    reveal_strlit("vaultTransfer");
    let meta = type_meta(ActionType::SetGrowthModes);
    let obj = build_action_spec(meta, payload, chain)->Ok_0->Object_0;
    let t = meta.action_type;
    assert("perpDeploy"@.len() != "setGrowthModes"@.len());
    let base = seq![("type"@, Json::Str(t))];
    assert(obj == obj_insert(base, meta.payload_key, payload));
    assert(all_action_types()[15] == ActionType::SetGrowthModes);
    lemma_obj_get_insert(base, meta.payload_key, payload, meta.payload_key);
    assert(type_selected(ActionType::SetGrowthModes, t, obj));
    assert(first_selected(all_action_types(), 15, t, obj) == Some(ActionType::SetGrowthModes));
    assert(all_action_types()[14] == ActionType::SetFundingMultipliers);
    assert("setFundingMultipliers"@.len() != "setGrowthModes"@.len());
    assert("setFundingMultipliers"@.len() != "type"@.len());
    lemma_obj_get_insert(base, meta.payload_key, payload, "setFundingMultipliers"@);
    lemma_obj_find_single("type"@, Json::Str(t), "setFundingMultipliers"@);
    lemma_obj_find(obj, "setFundingMultipliers"@);
    assert(!type_selected(ActionType::SetFundingMultipliers, t, obj));
    assert(first_selected(all_action_types(), 14, t, obj) == Some(ActionType::SetGrowthModes));
    assert(all_action_types()[13] == ActionType::SetFeeRecipient);
    assert("setFeeRecipient"@.len() != "setGrowthModes"@.len());
    assert("setFeeRecipient"@.len() != "type"@.len());
    lemma_obj_get_insert(base, meta.payload_key, payload, "setFeeRecipient"@);
    lemma_obj_find_single("type"@, Json::Str(t), "setFeeRecipient"@);
    lemma_obj_find(obj, "setFeeRecipient"@);
    assert(!type_selected(ActionType::SetFeeRecipient, t, obj));
    assert(first_selected(all_action_types(), 13, t, obj) == Some(ActionType::SetGrowthModes));
    assert(all_action_types()[12] == ActionType::InsertMarginTable);
    assert("insertMarginTable"@.len() != "setGrowthModes"@.len());
    assert("insertMarginTable"@.len() != "type"@.len());
    lemma_obj_get_insert(base, meta.payload_key, payload, "insertMarginTable"@);
    lemma_obj_find_single("type"@, Json::Str(t), "insertMarginTable"@);
    lemma_obj_find(obj, "insertMarginTable"@);
    assert(!type_selected(ActionType::InsertMarginTable, t, obj));
    assert(first_selected(all_action_types(), 12, t, obj) == Some(ActionType::SetGrowthModes));
    assert(all_action_types()[11] == ActionType::UpdateLeverage);
    assert("updateLeverage"@.len() != "perpDeploy"@.len());
    assert(!type_selected(ActionType::UpdateLeverage, t, obj));
    assert(first_selected(all_action_types(), 11, t, obj) == Some(ActionType::SetGrowthModes));
    assert(all_action_types()[10] == ActionType::UpdateIsolatedMargin);
    assert("updateIsolatedMargin"@.len() != "perpDeploy"@.len());
    assert(!type_selected(ActionType::UpdateIsolatedMargin, t, obj));
    assert(first_selected(all_action_types(), 10, t, obj) == Some(ActionType::SetGrowthModes));
    assert(all_action_types()[9] == ActionType::ScheduleCancel);
    assert("scheduleCancel"@.len() != "perpDeploy"@.len());
    assert(!type_selected(ActionType::ScheduleCancel, t, obj));
    assert(first_selected(all_action_types(), 9, t, obj) == Some(ActionType::SetGrowthModes));
    assert(all_action_types()[8] == ActionType::BatchModify);
    assert("batchModify"@.len() != "perpDeploy"@.len());
    assert(!type_selected(ActionType::BatchModify, t, obj));
    assert(first_selected(all_action_types(), 8, t, obj) == Some(ActionType::SetGrowthModes));
    assert(all_action_types()[7] == ActionType::BatchOrder);
    assert("order"@.len() != "perpDeploy"@.len());
    assert(!type_selected(ActionType::BatchOrder, t, obj));
    assert(first_selected(all_action_types(), 7, t, obj) == Some(ActionType::SetGrowthModes));
    assert(all_action_types()[6] == ActionType::VaultTransfer);
    assert("vaultTransfer"@.len() != "perpDeploy"@.len());
    assert(!type_selected(ActionType::VaultTransfer, t, obj));
    assert(first_selected(all_action_types(), 6, t, obj) == Some(ActionType::SetGrowthModes));
    assert(all_action_types()[5] == ActionType::ToggleBigBlocks);
    assert("evmUserModify"@.len() != "perpDeploy"@.len());
    assert(!type_selected(ActionType::ToggleBigBlocks, t, obj));
    assert(first_selected(all_action_types(), 5, t, obj) == Some(ActionType::SetGrowthModes));
    assert(all_action_types()[4] == ActionType::SubAccountSpotTransfer);
    assert("subAccountSpotTransfer"@.len() != "perpDeploy"@.len());
    assert(!type_selected(ActionType::SubAccountSpotTransfer, t, obj));
    assert(first_selected(all_action_types(), 4, t, obj) == Some(ActionType::SetGrowthModes));
    assert(all_action_types()[3] == ActionType::SetReferrer);
    assert("setReferrer"@.len() != "perpDeploy"@.len());
    assert(!type_selected(ActionType::SetReferrer, t, obj));
    assert(first_selected(all_action_types(), 3, t, obj) == Some(ActionType::SetGrowthModes));
    assert(all_action_types()[2] == ActionType::NoOp);
    assert("noop"@.len() != "perpDeploy"@.len());
    assert(!type_selected(ActionType::NoOp, t, obj));
    assert(first_selected(all_action_types(), 2, t, obj) == Some(ActionType::SetGrowthModes));
    assert(all_action_types()[1] == ActionType::CreateSubAccount);
    assert("createSubAccount"@.len() != "perpDeploy"@.len());
    assert(!type_selected(ActionType::CreateSubAccount, t, obj));
    assert(first_selected(all_action_types(), 1, t, obj) == Some(ActionType::SetGrowthModes));
    assert(all_action_types()[0] == ActionType::AgentEnableDexAbstraction);
    assert("agentEnableDexAbstraction"@.len() != "perpDeploy"@.len());
    assert(!type_selected(ActionType::AgentEnableDexAbstraction, t, obj));
    assert(first_selected(all_action_types(), 0, t, obj) == Some(ActionType::SetGrowthModes));
}

/// A built [`SetMarginTableIds`] object is read back as a [`SetMarginTableIds`].
proof fn lemma_built_selects_set_margin_table_ids(payload: Json, chain: Option<SigningChain>)
    requires
        build_action_spec(type_meta(ActionType::SetMarginTableIds), payload, chain) is Ok,
    ensures
        first_selected(
            all_action_types(),
            0,
            type_meta(ActionType::SetMarginTableIds).action_type,
            build_action_spec(type_meta(ActionType::SetMarginTableIds), payload, chain)->Ok_0->Object_0,
        ) == Some(ActionType::SetMarginTableIds),
{
    reveal_strlit("agentEnableDexAbstraction");
    reveal_strlit("batchModify");
    reveal_strlit("createSubAccount");
    reveal_strlit("evmUserModify");
    reveal_strlit("insertMarginTable");
    reveal_strlit("modifies");
    reveal_strlit("noop");
    reveal_strlit("order");
    reveal_strlit("orders");
    reveal_strlit("perpDeploy");
    reveal_strlit("scheduleCancel");
    reveal_strlit("setFeeRecipient");
    reveal_strlit("setFundingMultipliers");
    reveal_strlit("setGrowthModes");
    reveal_strlit("setMarginTableIds");
    reveal_strlit("setReferrer");
    reveal_strlit("subAccountSpotTransfer");
    reveal_strlit("type");
    reveal_strlit("updateIsolatedMargin");
    reveal_strlit("updateLeverage");
    reveal_strlit("vaultTransfer");
    let meta = type_meta(ActionType::SetMarginTableIds);
    let obj = build_action_spec(meta, payload, chain)->Ok_0->Object_0;
    let t = meta.action_type;
    assert("perpDeploy"@.len() != "setMarginTableIds"@.len());
    let base = seq![("type"@, Json::Str(t))];
    assert(obj == obj_insert(base, meta.payload_key, payload));
    assert(all_action_types()[16] == ActionType::SetMarginTableIds);
    lemma_obj_get_insert(base, meta.payload_key, payload, meta.payload_key);
    assert(type_selected(ActionType::SetMarginTableIds, t, obj));
    assert(first_selected(all_action_types(), 16, t, obj) == Some(ActionType::SetMarginTableIds));
    assert(all_action_types()[15] == ActionType::SetGrowthModes);
    assert("setGrowthModes"@.len() != "setMarginTableIds"@.len());
    assert("setGrowthModes"@.len() != "type"@.len());
    lemma_obj_get_insert(base, meta.payload_key, payload, "setGrowthModes"@);
    lemma_obj_find_single("type"@, Json::Str(t), "setGrowthModes"@);
    lemma_obj_find(obj, "setGrowthModes"@);
    assert(!type_selected(ActionType::SetGrowthModes, t, obj));
    assert(first_selected(all_action_types(), 15, t, obj) == Some(ActionType::SetMarginTableIds));
    assert(all_action_types()[14] == ActionType::SetFundingMultipliers);
    assert("setFundingMultipliers"@.len() != "setMarginTableIds"@.len());
    assert("setFundingMultipliers"@.len() != "type"@.len());
    lemma_obj_get_insert(base, meta.payload_key, payload, "setFundingMultipliers"@);
    lemma_obj_find_single("type"@, Json::Str(t), "setFundingMultipliers"@);
    lemma_obj_find(obj, "setFundingMultipliers"@);
    assert(!type_selected(ActionType::SetFundingMultipliers, t, obj));
    assert(first_selected(all_action_types(), 14, t, obj) == Some(ActionType::SetMarginTableIds));
    assert(all_action_types()[13] == ActionType::SetFeeRecipient);
    assert("setFeeRecipient"@.len() != "setMarginTableIds"@.len());
    assert("setFeeRecipient"@.len() != "type"@.len());
    lemma_obj_get_insert(base, meta.payload_key, payload, "setFeeRecipient"@);
    lemma_obj_find_single("type"@, Json::Str(t), "setFeeRecipient"@);
    lemma_obj_find(obj, "setFeeRecipient"@);
    assert(!type_selected(ActionType::SetFeeRecipient, t, obj));
    assert(first_selected(all_action_types(), 13, t, obj) == Some(ActionType::SetMarginTableIds));
    assert(all_action_types()[12] == ActionType::InsertMarginTable);
    assert("insertMarginTable"@[0] != "setMarginTableIds"@[0]);
    assert("insertMarginTable"@.len() != "type"@.len());
    lemma_obj_get_insert(base, meta.payload_key, payload, "insertMarginTable"@);
    lemma_obj_find_single("type"@, Json::Str(t), "insertMarginTable"@);
    lemma_obj_find(obj, "insertMarginTable"@);
    assert(!type_selected(ActionType::InsertMarginTable, t, obj));
    assert(first_selected(all_action_types(), 12, t, obj) == Some(ActionType::SetMarginTableIds));
    assert(all_action_types()[11] == ActionType::UpdateLeverage);
    assert("updateLeverage"@.len() != "perpDeploy"@.len());
    assert(!type_selected(ActionType::UpdateLeverage, t, obj));
    assert(first_selected(all_action_types(), 11, t, obj) == Some(ActionType::SetMarginTableIds));
    assert(all_action_types()[10] == ActionType::UpdateIsolatedMargin);
    assert("updateIsolatedMargin"@.len() != "perpDeploy"@.len());
    assert(!type_selected(ActionType::UpdateIsolatedMargin, t, obj));
    assert(first_selected(all_action_types(), 10, t, obj) == Some(ActionType::SetMarginTableIds));
    assert(all_action_types()[9] == ActionType::ScheduleCancel);
    assert("scheduleCancel"@.len() != "perpDeploy"@.len());
    assert(!type_selected(ActionType::ScheduleCancel, t, obj));
    assert(first_selected(all_action_types(), 9, t, obj) == Some(ActionType::SetMarginTableIds));
    assert(all_action_types()[8] == ActionType::BatchModify);
    assert("batchModify"@.len() != "perpDeploy"@.len());
    assert(!type_selected(ActionType::BatchModify, t, obj));
    assert(first_selected(all_action_types(), 8, t, obj) == Some(ActionType::SetMarginTableIds));
    assert(all_action_types()[7] == ActionType::BatchOrder);
    assert("order"@.len() != "perpDeploy"@.len());
    assert(!type_selected(ActionType::BatchOrder, t, obj));
    assert(first_selected(all_action_types(), 7, t, obj) == Some(ActionType::SetMarginTableIds));
    assert(all_action_types()[6] == ActionType::VaultTransfer);
    assert("vaultTransfer"@.len() != "perpDeploy"@.len());
    assert(!type_selected(ActionType::VaultTransfer, t, obj));
    assert(first_selected(all_action_types(), 6, t, obj) == Some(ActionType::SetMarginTableIds));
    assert(all_action_types()[5] == ActionType::ToggleBigBlocks);
    assert("evmUserModify"@.len() != "perpDeploy"@.len());
    assert(!type_selected(ActionType::ToggleBigBlocks, t, obj));
    assert(first_selected(all_action_types(), 5, t, obj) == Some(ActionType::SetMarginTableIds));
    assert(all_action_types()[4] == ActionType::SubAccountSpotTransfer);
    assert("subAccountSpotTransfer"@.len() != "perpDeploy"@.len());
    assert(!type_selected(ActionType::SubAccountSpotTransfer, t, obj));
    assert(first_selected(all_action_types(), 4, t, obj) == Some(ActionType::SetMarginTableIds));
    assert(all_action_types()[3] == ActionType::SetReferrer);
    assert("setReferrer"@.len() != "perpDeploy"@.len());
    assert(!type_selected(ActionType::SetReferrer, t, obj));
    assert(first_selected(all_action_types(), 3, t, obj) == Some(ActionType::SetMarginTableIds));
    assert(all_action_types()[2] == ActionType::NoOp);
    assert("noop"@.len() != "perpDeploy"@.len());
    assert(!type_selected(ActionType::NoOp, t, obj));
    assert(first_selected(all_action_types(), 2, t, obj) == Some(ActionType::SetMarginTableIds));
    assert(all_action_types()[1] == ActionType::CreateSubAccount);
    assert("createSubAccount"@.len() != "perpDeploy"@.len());
    assert(!type_selected(ActionType::CreateSubAccount, t, obj));
    assert(first_selected(all_action_types(), 1, t, obj) == Some(ActionType::SetMarginTableIds));
    assert(all_action_types()[0] == ActionType::AgentEnableDexAbstraction);
    assert("agentEnableDexAbstraction"@.len() != "perpDeploy"@.len());
    assert(!type_selected(ActionType::AgentEnableDexAbstraction, t, obj));
    assert(first_selected(all_action_types(), 0, t, obj) == Some(ActionType::SetMarginTableIds));
}

/// A built [`SetOpenInterestCaps`] object is read back as a [`SetOpenInterestCaps`].
proof fn lemma_built_selects_set_open_interest_caps(payload: Json, chain: Option<SigningChain>)
    requires
        build_action_spec(type_meta(ActionType::SetOpenInterestCaps), payload, chain) is Ok,
    ensures
        first_selected(
            all_action_types(),
            0,
            type_meta(ActionType::SetOpenInterestCaps).action_type,
            build_action_spec(type_meta(ActionType::SetOpenInterestCaps), payload, chain)->Ok_0->Object_0,
        ) == Some(ActionType::SetOpenInterestCaps),
{
    reveal_strlit("agentEnableDexAbstraction");
    reveal_strlit("batchModify");
    reveal_strlit("createSubAccount");
    reveal_strlit("evmUserModify");
    reveal_strlit("insertMarginTable");
    reveal_strlit("modifies");
    reveal_strlit("noop");
    reveal_strlit("order");
    reveal_strlit("orders");
    reveal_strlit("perpDeploy");
    reveal_strlit("scheduleCancel");
    reveal_strlit("setFeeRecipient");
    reveal_strlit("setFundingMultipliers");
    reveal_strlit("setGrowthModes");
    reveal_strlit("setMarginTableIds");
    reveal_strlit("setOpenInterestCaps");
    reveal_strlit("setReferrer");
    reveal_strlit("subAccountSpotTransfer");
    reveal_strlit("type");
    reveal_strlit("updateIsolatedMargin");
    reveal_strlit("updateLeverage");
    reveal_strlit("vaultTransfer");
    let meta = type_meta(ActionType::SetOpenInterestCaps);
    let obj = build_action_spec(meta, payload, chain)->Ok_0->Object_0;
    let t = meta.action_type;
    assert("perpDeploy"@.len() != "setOpenInterestCaps"@.len());
    let base = seq![("type"@, Json::Str(t))];
    assert(obj == obj_insert(base, meta.payload_key, payload));
    assert(all_action_types()[17] == ActionType::SetOpenInterestCaps);
    lemma_obj_get_insert(base, meta.payload_key, payload, meta.payload_key);
    assert(type_selected(ActionType::SetOpenInterestCaps, t, obj));
    assert(first_selected(all_action_types(), 17, t, obj) == Some(ActionType::SetOpenInterestCaps));
    assert(all_action_types()[16] == ActionType::SetMarginTableIds);
    assert("setMarginTableIds"@.len() != "setOpenInterestCaps"@.len());
    assert("setMarginTableIds"@.len() != "type"@.len());
    lemma_obj_get_insert(base, meta.payload_key, payload, "setMarginTableIds"@);
    lemma_obj_find_single("type"@, Json::Str(t), "setMarginTableIds"@);
    lemma_obj_find(obj, "setMarginTableIds"@);
    assert(!type_selected(ActionType::SetMarginTableIds, t, obj));
    assert(first_selected(all_action_types(), 16, t, obj) == Some(ActionType::SetOpenInterestCaps));
    assert(all_action_types()[15] == ActionType::SetGrowthModes);
    assert("setGrowthModes"@.len() != "setOpenInterestCaps"@.len());
    assert("setGrowthModes"@.len() != "type"@.len());
    lemma_obj_get_insert(base, meta.payload_key, payload, "setGrowthModes"@);
    lemma_obj_find_single("type"@, Json::Str(t), "setGrowthModes"@);
    lemma_obj_find(obj, "setGrowthModes"@);
    assert(!type_selected(ActionType::SetGrowthModes, t, obj));
    assert(first_selected(all_action_types(), 15, t, obj) == Some(ActionType::SetOpenInterestCaps));
    assert(all_action_types()[14] == ActionType::SetFundingMultipliers);
    assert("setFundingMultipliers"@.len() != "setOpenInterestCaps"@.len());
    assert("setFundingMultipliers"@.len() != "type"@.len());
    lemma_obj_get_insert(base, meta.payload_key, payload, "setFundingMultipliers"@);
    lemma_obj_find_single("type"@, Json::Str(t), "setFundingMultipliers"@);
    lemma_obj_find(obj, "setFundingMultipliers"@);
    assert(!type_selected(ActionType::SetFundingMultipliers, t, obj));
    assert(first_selected(all_action_types(), 14, t, obj) == Some(ActionType::SetOpenInterestCaps));
    assert(all_action_types()[13] == ActionType::SetFeeRecipient);
    assert("setFeeRecipient"@.len() != "setOpenInterestCaps"@.len());
    assert("setFeeRecipient"@.len() != "type"@.len());
    lemma_obj_get_insert(base, meta.payload_key, payload, "setFeeRecipient"@);
    lemma_obj_find_single("type"@, Json::Str(t), "setFeeRecipient"@);
    lemma_obj_find(obj, "setFeeRecipient"@);
    assert(!type_selected(ActionType::SetFeeRecipient, t, obj));
    assert(first_selected(all_action_types(), 13, t, obj) == Some(ActionType::SetOpenInterestCaps));
    assert(all_action_types()[12] == ActionType::InsertMarginTable);
    assert("insertMarginTable"@.len() != "setOpenInterestCaps"@.len());
    assert("insertMarginTable"@.len() != "type"@.len());
    lemma_obj_get_insert(base, meta.payload_key, payload, "insertMarginTable"@);
    lemma_obj_find_single("type"@, Json::Str(t), "insertMarginTable"@);
    lemma_obj_find(obj, "insertMarginTable"@);
    assert(!type_selected(ActionType::InsertMarginTable, t, obj));
    assert(first_selected(all_action_types(), 12, t, obj) == Some(ActionType::SetOpenInterestCaps));
    assert(all_action_types()[11] == ActionType::UpdateLeverage);
    assert("updateLeverage"@.len() != "perpDeploy"@.len());
    assert(!type_selected(ActionType::UpdateLeverage, t, obj));
    assert(first_selected(all_action_types(), 11, t, obj) == Some(ActionType::SetOpenInterestCaps));
    assert(all_action_types()[10] == ActionType::UpdateIsolatedMargin);
    assert("updateIsolatedMargin"@.len() != "perpDeploy"@.len());
    assert(!type_selected(ActionType::UpdateIsolatedMargin, t, obj));
    assert(first_selected(all_action_types(), 10, t, obj) == Some(ActionType::SetOpenInterestCaps));
    assert(all_action_types()[9] == ActionType::ScheduleCancel);
    assert("scheduleCancel"@.len() != "perpDeploy"@.len());
    assert(!type_selected(ActionType::ScheduleCancel, t, obj));
    assert(first_selected(all_action_types(), 9, t, obj) == Some(ActionType::SetOpenInterestCaps));
    assert(all_action_types()[8] == ActionType::BatchModify);
    assert("batchModify"@.len() != "perpDeploy"@.len());
    assert(!type_selected(ActionType::BatchModify, t, obj));
    assert(first_selected(all_action_types(), 8, t, obj) == Some(ActionType::SetOpenInterestCaps));
    assert(all_action_types()[7] == ActionType::BatchOrder);
    assert("order"@.len() != "perpDeploy"@.len());
    assert(!type_selected(ActionType::BatchOrder, t, obj));
    assert(first_selected(all_action_types(), 7, t, obj) == Some(ActionType::SetOpenInterestCaps));
    assert(all_action_types()[6] == ActionType::VaultTransfer);
    assert("vaultTransfer"@.len() != "perpDeploy"@.len());
    assert(!type_selected(ActionType::VaultTransfer, t, obj));
    assert(first_selected(all_action_types(), 6, t, obj) == Some(ActionType::SetOpenInterestCaps));
    assert(all_action_types()[5] == ActionType::ToggleBigBlocks);
    assert("evmUserModify"@.len() != "perpDeploy"@.len());
    assert(!type_selected(ActionType::ToggleBigBlocks, t, obj));
    assert(first_selected(all_action_types(), 5, t, obj) == Some(ActionType::SetOpenInterestCaps));
    assert(all_action_types()[4] == ActionType::SubAccountSpotTransfer);
    assert("subAccountSpotTransfer"@.len() != "perpDeploy"@.len());
    assert(!type_selected(ActionType::SubAccountSpotTransfer, t, obj));
    assert(first_selected(all_action_types(), 4, t, obj) == Some(ActionType::SetOpenInterestCaps));
    assert(all_action_types()[3] == ActionType::SetReferrer);
    assert("setReferrer"@.len() != "perpDeploy"@.len());
    assert(!type_selected(ActionType::SetReferrer, t, obj));
    assert(first_selected(all_action_types(), 3, t, obj) == Some(ActionType::SetOpenInterestCaps));
    assert(all_action_types()[2] == ActionType::NoOp);
    assert("noop"@.len() != "perpDeploy"@.len());
    assert(!type_selected(ActionType::NoOp, t, obj));
    assert(first_selected(all_action_types(), 2, t, obj) == Some(ActionType::SetOpenInterestCaps));
    assert(all_action_types()[1] == ActionType::CreateSubAccount);
    assert("createSubAccount"@.len() != "perpDeploy"@.len());
    assert(!type_selected(ActionType::CreateSubAccount, t, obj));
    assert(first_selected(all_action_types(), 1, t, obj) == Some(ActionType::SetOpenInterestCaps));
    assert(all_action_types()[0] == ActionType::AgentEnableDexAbstraction);
    assert("agentEnableDexAbstraction"@.len() != "perpDeploy"@.len());
    assert(!type_selected(ActionType::AgentEnableDexAbstraction, t, obj));
    assert(first_selected(all_action_types(), 0, t, obj) == Some(ActionType::SetOpenInterestCaps));
}

/// A built [`SetOracle`] object is read back as a [`SetOracle`].
proof fn lemma_built_selects_set_oracle(payload: Json, chain: Option<SigningChain>)
    requires
        build_action_spec(type_meta(ActionType::SetOracle), payload, chain) is Ok,
    ensures
        first_selected(
            all_action_types(),
            0,
            type_meta(ActionType::SetOracle).action_type,
            build_action_spec(type_meta(ActionType::SetOracle), payload, chain)->Ok_0->Object_0,
        ) == Some(ActionType::SetOracle),
{
    reveal_strlit("agentEnableDexAbstraction");
    reveal_strlit("batchModify");
    reveal_strlit("createSubAccount");
    reveal_strlit("evmUserModify");
    reveal_strlit("insertMarginTable");
    reveal_strlit("modifies");
    reveal_strlit("noop");
    reveal_strlit("order");
    reveal_strlit("orders");
    reveal_strlit("perpDeploy");
    reveal_strlit("scheduleCancel");
    reveal_strlit("setFeeRecipient");
    reveal_strlit("setFundingMultipliers");
    reveal_strlit("setGrowthModes");
    reveal_strlit("setMarginTableIds");
    reveal_strlit("setOpenInterestCaps");
    reveal_strlit("setOracle");
    reveal_strlit("setReferrer");
    reveal_strlit("subAccountSpotTransfer");
    reveal_strlit("type");
    reveal_strlit("updateIsolatedMargin");
    reveal_strlit("updateLeverage");
    reveal_strlit("vaultTransfer");
    let meta = type_meta(ActionType::SetOracle);
    let obj = build_action_spec(meta, payload, chain)->Ok_0->Object_0;
    let t = meta.action_type;
    assert("perpDeploy"@.len() != "setOracle"@.len());
    let base = seq![("type"@, Json::Str(t))];
    assert(obj == obj_insert(base, meta.payload_key, payload));
    assert(all_action_types()[18] == ActionType::SetOracle);
    lemma_obj_get_insert(base, meta.payload_key, payload, meta.payload_key);
    assert(type_selected(ActionType::SetOracle, t, obj));
    assert(first_selected(all_action_types(), 18, t, obj) == Some(ActionType::SetOracle));
    assert(all_action_types()[17] == ActionType::SetOpenInterestCaps);
    assert("setOpenInterestCaps"@.len() != "setOracle"@.len());
    assert("setOpenInterestCaps"@.len() != "type"@.len());
    lemma_obj_get_insert(base, meta.payload_key, payload, "setOpenInterestCaps"@);
    lemma_obj_find_single("type"@, Json::Str(t), "setOpenInterestCaps"@);
    lemma_obj_find(obj, "setOpenInterestCaps"@);
    assert(!type_selected(ActionType::SetOpenInterestCaps, t, obj));
    assert(first_selected(all_action_types(), 17, t, obj) == Some(ActionType::SetOracle));
    assert(all_action_types()[16] == ActionType::SetMarginTableIds);
    assert("setMarginTableIds"@.len() != "setOracle"@.len());
    assert("setMarginTableIds"@.len() != "type"@.len());
    lemma_obj_get_insert(base, meta.payload_key, payload, "setMarginTableIds"@);
    lemma_obj_find_single("type"@, Json::Str(t), "setMarginTableIds"@);
    lemma_obj_find(obj, "setMarginTableIds"@);
    assert(!type_selected(ActionType::SetMarginTableIds, t, obj));
    assert(first_selected(all_action_types(), 16, t, obj) == Some(ActionType::SetOracle));
    assert(all_action_types()[15] == ActionType::SetGrowthModes);
    assert("setGrowthModes"@.len() != "setOracle"@.len());
    assert("setGrowthModes"@.len() != "type"@.len());
    lemma_obj_get_insert(base, meta.payload_key, payload, "setGrowthModes"@);
    lemma_obj_find_single("type"@, Json::Str(t), "setGrowthModes"@);
    lemma_obj_find(obj, "setGrowthModes"@);
    assert(!type_selected(ActionType::SetGrowthModes, t, obj));
    assert(first_selected(all_action_types(), 15, t, obj) == Some(ActionType::SetOracle));
    assert(all_action_types()[14] == ActionType::SetFundingMultipliers);
    assert("setFundingMultipliers"@.len() != "setOracle"@.len());
    assert("setFundingMultipliers"@.len() != "type"@.len());
    lemma_obj_get_insert(base, meta.payload_key, payload, "setFundingMultipliers"@);
    lemma_obj_find_single("type"@, Json::Str(t), "setFundingMultipliers"@);
    lemma_obj_find(obj, "setFundingMultipliers"@);
    assert(!type_selected(ActionType::SetFundingMultipliers, t, obj));
    assert(first_selected(all_action_types(), 14, t, obj) == Some(ActionType::SetOracle));
    assert(all_action_types()[13] == ActionType::SetFeeRecipient);
    assert("setFeeRecipient"@.len() != "setOracle"@.len());
    assert("setFeeRecipient"@.len() != "type"@.len());
    lemma_obj_get_insert(base, meta.payload_key, payload, "setFeeRecipient"@);
    lemma_obj_find_single("type"@, Json::Str(t), "setFeeRecipient"@);
    lemma_obj_find(obj, "setFeeRecipient"@);
    assert(!type_selected(ActionType::SetFeeRecipient, t, obj));
    assert(first_selected(all_action_types(), 13, t, obj) == Some(ActionType::SetOracle));
    assert(all_action_types()[12] == ActionType::InsertMarginTable);
    assert("insertMarginTable"@.len() != "setOracle"@.len());
    assert("insertMarginTable"@.len() != "type"@.len());
    lemma_obj_get_insert(base, meta.payload_key, payload, "insertMarginTable"@);
    lemma_obj_find_single("type"@, Json::Str(t), "insertMarginTable"@);
    lemma_obj_find(obj, "insertMarginTable"@);
    assert(!type_selected(ActionType::InsertMarginTable, t, obj));
    assert(first_selected(all_action_types(), 12, t, obj) == Some(ActionType::SetOracle));
    assert(all_action_types()[11] == ActionType::UpdateLeverage);
    assert("updateLeverage"@.len() != "perpDeploy"@.len());
    assert(!type_selected(ActionType::UpdateLeverage, t, obj));
    assert(first_selected(all_action_types(), 11, t, obj) == Some(ActionType::SetOracle));
    assert(all_action_types()[10] == ActionType::UpdateIsolatedMargin);
    assert("updateIsolatedMargin"@.len() != "perpDeploy"@.len());
    assert(!type_selected(ActionType::UpdateIsolatedMargin, t, obj));
    assert(first_selected(all_action_types(), 10, t, obj) == Some(ActionType::SetOracle));
    assert(all_action_types()[9] == ActionType::ScheduleCancel);
    assert("scheduleCancel"@.len() != "perpDeploy"@.len());
    assert(!type_selected(ActionType::ScheduleCancel, t, obj));
    assert(first_selected(all_action_types(), 9, t, obj) == Some(ActionType::SetOracle));
    assert(all_action_types()[8] == ActionType::BatchModify);
    assert("batchModify"@.len() != "perpDeploy"@.len());
    assert(!type_selected(ActionType::BatchModify, t, obj));
    assert(first_selected(all_action_types(), 8, t, obj) == Some(ActionType::SetOracle));
    assert(all_action_types()[7] == ActionType::BatchOrder);
    assert("order"@.len() != "perpDeploy"@.len());
    assert(!type_selected(ActionType::BatchOrder, t, obj));
    assert(first_selected(all_action_types(), 7, t, obj) == Some(ActionType::SetOracle));
    assert(all_action_types()[6] == ActionType::VaultTransfer);
    assert("vaultTransfer"@.len() != "perpDeploy"@.len());
    assert(!type_selected(ActionType::VaultTransfer, t, obj));
    assert(first_selected(all_action_types(), 6, t, obj) == Some(ActionType::SetOracle));
    assert(all_action_types()[5] == ActionType::ToggleBigBlocks);
    assert("evmUserModify"@.len() != "perpDeploy"@.len());
    assert(!type_selected(ActionType::ToggleBigBlocks, t, obj));
    assert(first_selected(all_action_types(), 5, t, obj) == Some(ActionType::SetOracle));
    assert(all_action_types()[4] == ActionType::SubAccountSpotTransfer);
    assert("subAccountSpotTransfer"@.len() != "perpDeploy"@.len());
    assert(!type_selected(ActionType::SubAccountSpotTransfer, t, obj));
    assert(first_selected(all_action_types(), 4, t, obj) == Some(ActionType::SetOracle));
    assert(all_action_types()[3] == ActionType::SetReferrer);
    assert("setReferrer"@.len() != "perpDeploy"@.len());
    assert(!type_selected(ActionType::SetReferrer, t, obj));
    assert(first_selected(all_action_types(), 3, t, obj) == Some(ActionType::SetOracle));
    assert(all_action_types()[2] == ActionType::NoOp);
    assert("noop"@.len() != "perpDeploy"@.len());
    assert(!type_selected(ActionType::NoOp, t, obj));
    assert(first_selected(all_action_types(), 2, t, obj) == Some(ActionType::SetOracle));
    assert(all_action_types()[1] == ActionType::CreateSubAccount);
    assert("createSubAccount"@.len() != "perpDeploy"@.len());
    assert(!type_selected(ActionType::CreateSubAccount, t, obj));
    assert(first_selected(all_action_types(), 1, t, obj) == Some(ActionType::SetOracle));
    assert(all_action_types()[0] == ActionType::AgentEnableDexAbstraction);
    assert("agentEnableDexAbstraction"@.len() != "perpDeploy"@.len());
    assert(!type_selected(ActionType::AgentEnableDexAbstraction, t, obj));
    assert(first_selected(all_action_types(), 0, t, obj) == Some(ActionType::SetOracle));
}

/// A built [`ToggleTrading`] object is read back as a [`ToggleTrading`].
proof fn lemma_built_selects_toggle_trading(payload: Json, chain: Option<SigningChain>)
    requires
        build_action_spec(type_meta(ActionType::ToggleTrading), payload, chain) is Ok,
    ensures
        first_selected(
            all_action_types(),
            0,
            type_meta(ActionType::ToggleTrading).action_type,
            build_action_spec(type_meta(ActionType::ToggleTrading), payload, chain)->Ok_0->Object_0,
        ) == Some(ActionType::ToggleTrading),
{
    reveal_strlit("agentEnableDexAbstraction");
    reveal_strlit("batchModify");
    reveal_strlit("createSubAccount");
    reveal_strlit("evmUserModify");
    reveal_strlit("haltTrading");
    reveal_strlit("insertMarginTable");
    reveal_strlit("modifies");
    reveal_strlit("noop");
    reveal_strlit("order");
    reveal_strlit("orders");
    reveal_strlit("perpDeploy");
    reveal_strlit("scheduleCancel");
    reveal_strlit("setFeeRecipient");
    reveal_strlit("setFundingMultipliers");
    reveal_strlit("setGrowthModes");
    reveal_strlit("setMarginTableIds");
    reveal_strlit("setOpenInterestCaps");
    reveal_strlit("setOracle");
    reveal_strlit("setReferrer");
    reveal_strlit("subAccountSpotTransfer");
    reveal_strlit("type");
    reveal_strlit("updateIsolatedMargin");
    reveal_strlit("updateLeverage");
    reveal_strlit("vaultTransfer");
    let meta = type_meta(ActionType::ToggleTrading);
    let obj = build_action_spec(meta, payload, chain)->Ok_0->Object_0;
    let t = meta.action_type;
    assert("perpDeploy"@.len() != "haltTrading"@.len());
    let base = seq![("type"@, Json::Str(t))];
    assert(obj == obj_insert(base, meta.payload_key, payload));
    assert(all_action_types()[19] == ActionType::ToggleTrading);
    lemma_obj_get_insert(base, meta.payload_key, payload, meta.payload_key);
    assert(type_selected(ActionType::ToggleTrading, t, obj));
    assert(first_selected(all_action_types(), 19, t, obj) == Some(ActionType::ToggleTrading));
    assert(all_action_types()[18] == ActionType::SetOracle);
    assert("setOracle"@.len() != "haltTrading"@.len());
    assert("setOracle"@.len() != "type"@.len());
    lemma_obj_get_insert(base, meta.payload_key, payload, "setOracle"@);
    lemma_obj_find_single("type"@, Json::Str(t), "setOracle"@);
    lemma_obj_find(obj, "setOracle"@);
    assert(!type_selected(ActionType::SetOracle, t, obj));
    assert(first_selected(all_action_types(), 18, t, obj) == Some(ActionType::ToggleTrading));
    assert(all_action_types()[17] == ActionType::SetOpenInterestCaps);
    assert("setOpenInterestCaps"@.len() != "haltTrading"@.len());
    assert("setOpenInterestCaps"@.len() != "type"@.len());
    lemma_obj_get_insert(base, meta.payload_key, payload, "setOpenInterestCaps"@);
    lemma_obj_find_single("type"@, Json::Str(t), "setOpenInterestCaps"@);
    lemma_obj_find(obj, "setOpenInterestCaps"@);
    assert(!type_selected(ActionType::SetOpenInterestCaps, t, obj));
    assert(first_selected(all_action_types(), 17, t, obj) == Some(ActionType::ToggleTrading));
    assert(all_action_types()[16] == ActionType::SetMarginTableIds);
    assert("setMarginTableIds"@.len() != "haltTrading"@.len());
    assert("setMarginTableIds"@.len() != "type"@.len());
    lemma_obj_get_insert(base, meta.payload_key, payload, "setMarginTableIds"@);
    lemma_obj_find_single("type"@, Json::Str(t), "setMarginTableIds"@);
    lemma_obj_find(obj, "setMarginTableIds"@);
    assert(!type_selected(ActionType::SetMarginTableIds, t, obj));
    assert(first_selected(all_action_types(), 16, t, obj) == Some(ActionType::ToggleTrading));
    assert(all_action_types()[15] == ActionType::SetGrowthModes);
    assert("setGrowthModes"@.len() != "haltTrading"@.len());
    assert("setGrowthModes"@.len() != "type"@.len());
    lemma_obj_get_insert(base, meta.payload_key, payload, "setGrowthModes"@);
    lemma_obj_find_single("type"@, Json::Str(t), "setGrowthModes"@);
    lemma_obj_find(obj, "setGrowthModes"@);
    assert(!type_selected(ActionType::SetGrowthModes, t, obj));
    assert(first_selected(all_action_types(), 15, t, obj) == Some(ActionType::ToggleTrading));
    assert(all_action_types()[14] == ActionType::SetFundingMultipliers);
    assert("setFundingMultipliers"@.len() != "haltTrading"@.len());
    assert("setFundingMultipliers"@.len() != "type"@.len());
    lemma_obj_get_insert(base, meta.payload_key, payload, "setFundingMultipliers"@);
    lemma_obj_find_single("type"@, Json::Str(t), "setFundingMultipliers"@);
    lemma_obj_find(obj, "setFundingMultipliers"@);
    assert(!type_selected(ActionType::SetFundingMultipliers, t, obj));
    assert(first_selected(all_action_types(), 14, t, obj) == Some(ActionType::ToggleTrading));
    assert(all_action_types()[13] == ActionType::SetFeeRecipient);
    assert("setFeeRecipient"@.len() != "haltTrading"@.len());
    assert("setFeeRecipient"@.len() != "type"@.len());
    lemma_obj_get_insert(base, meta.payload_key, payload, "setFeeRecipient"@);
    lemma_obj_find_single("type"@, Json::Str(t), "setFeeRecipient"@);
    lemma_obj_find(obj, "setFeeRecipient"@);
    assert(!type_selected(ActionType::SetFeeRecipient, t, obj));
    assert(first_selected(all_action_types(), 13, t, obj) == Some(ActionType::ToggleTrading));
    assert(all_action_types()[12] == ActionType::InsertMarginTable);
    assert("insertMarginTable"@.len() != "haltTrading"@.len());
    assert("insertMarginTable"@.len() != "type"@.len());
    lemma_obj_get_insert(base, meta.payload_key, payload, "insertMarginTable"@);
    lemma_obj_find_single("type"@, Json::Str(t), "insertMarginTable"@);
    lemma_obj_find(obj, "insertMarginTable"@);
    assert(!type_selected(ActionType::InsertMarginTable, t, obj));
    assert(first_selected(all_action_types(), 12, t, obj) == Some(ActionType::ToggleTrading));
    assert(all_action_types()[11] == ActionType::UpdateLeverage);
    assert("updateLeverage"@.len() != "perpDeploy"@.len());
    assert(!type_selected(ActionType::UpdateLeverage, t, obj));
    assert(first_selected(all_action_types(), 11, t, obj) == Some(ActionType::ToggleTrading));
    assert(all_action_types()[10] == ActionType::UpdateIsolatedMargin);
    assert("updateIsolatedMargin"@.len() != "perpDeploy"@.len());
    assert(!type_selected(ActionType::UpdateIsolatedMargin, t, obj));
    assert(first_selected(all_action_types(), 10, t, obj) == Some(ActionType::ToggleTrading));
    assert(all_action_types()[9] == ActionType::ScheduleCancel);
    assert("scheduleCancel"@.len() != "perpDeploy"@.len());
    assert(!type_selected(ActionType::ScheduleCancel, t, obj));
    assert(first_selected(all_action_types(), 9, t, obj) == Some(ActionType::ToggleTrading));
    assert(all_action_types()[8] == ActionType::BatchModify);
    assert("batchModify"@.len() != "perpDeploy"@.len());
    assert(!type_selected(ActionType::BatchModify, t, obj));
    assert(first_selected(all_action_types(), 8, t, obj) == Some(ActionType::ToggleTrading));
    assert(all_action_types()[7] == ActionType::BatchOrder);
    assert("order"@.len() != "perpDeploy"@.len());
    assert(!type_selected(ActionType::BatchOrder, t, obj));
    assert(first_selected(all_action_types(), 7, t, obj) == Some(ActionType::ToggleTrading));
    assert(all_action_types()[6] == ActionType::VaultTransfer);
    assert("vaultTransfer"@.len() != "perpDeploy"@.len());
    assert(!type_selected(ActionType::VaultTransfer, t, obj));
    assert(first_selected(all_action_types(), 6, t, obj) == Some(ActionType::ToggleTrading));
    assert(all_action_types()[5] == ActionType::ToggleBigBlocks);
    assert("evmUserModify"@.len() != "perpDeploy"@.len());
    assert(!type_selected(ActionType::ToggleBigBlocks, t, obj));
    assert(first_selected(all_action_types(), 5, t, obj) == Some(ActionType::ToggleTrading));
    assert(all_action_types()[4] == ActionType::SubAccountSpotTransfer);
    assert("subAccountSpotTransfer"@.len() != "perpDeploy"@.len());
    assert(!type_selected(ActionType::SubAccountSpotTransfer, t, obj));
    assert(first_selected(all_action_types(), 4, t, obj) == Some(ActionType::ToggleTrading));
    assert(all_action_types()[3] == ActionType::SetReferrer);
    assert("setReferrer"@.len() != "perpDeploy"@.len());
    assert(!type_selected(ActionType::SetReferrer, t, obj));
    assert(first_selected(all_action_types(), 3, t, obj) == Some(ActionType::ToggleTrading));
    assert(all_action_types()[2] == ActionType::NoOp);
    assert("noop"@.len() != "perpDeploy"@.len());
    assert(!type_selected(ActionType::NoOp, t, obj));
    assert(first_selected(all_action_types(), 2, t, obj) == Some(ActionType::ToggleTrading));
    assert(all_action_types()[1] == ActionType::CreateSubAccount);
    assert("createSubAccount"@.len() != "perpDeploy"@.len());
    assert(!type_selected(ActionType::CreateSubAccount, t, obj));
    assert(first_selected(all_action_types(), 1, t, obj) == Some(ActionType::ToggleTrading));
    assert(all_action_types()[0] == ActionType::AgentEnableDexAbstraction);
    assert("agentEnableDexAbstraction"@.len() != "perpDeploy"@.len());
    assert(!type_selected(ActionType::AgentEnableDexAbstraction, t, obj));
    assert(first_selected(all_action_types(), 0, t, obj) == Some(ActionType::ToggleTrading));
}

/// A built [`Genesis`] object is read back as a [`Genesis`].
proof fn lemma_built_selects_genesis(payload: Json, chain: Option<SigningChain>)
    requires
        build_action_spec(type_meta(ActionType::Genesis), payload, chain) is Ok,
    ensures
        first_selected(
            all_action_types(),
            0,
            type_meta(ActionType::Genesis).action_type,
            build_action_spec(type_meta(ActionType::Genesis), payload, chain)->Ok_0->Object_0,
        ) == Some(ActionType::Genesis),
{
    reveal_strlit("agentEnableDexAbstraction");
    reveal_strlit("batchModify");
    reveal_strlit("createSubAccount");
    reveal_strlit("evmUserModify");
    reveal_strlit("genesis");
    reveal_strlit("haltTrading");
    reveal_strlit("insertMarginTable");
    reveal_strlit("modifies");
    reveal_strlit("noop");
    reveal_strlit("order");
    reveal_strlit("orders");
    reveal_strlit("perpDeploy");
    reveal_strlit("scheduleCancel");
    reveal_strlit("setFeeRecipient");
    reveal_strlit("setFundingMultipliers");
    reveal_strlit("setGrowthModes");
    reveal_strlit("setMarginTableIds");
    reveal_strlit("setOpenInterestCaps");
    reveal_strlit("setOracle");
    reveal_strlit("setReferrer");
    reveal_strlit("spotDeploy");
    reveal_strlit("subAccountSpotTransfer");
    reveal_strlit("type");
    reveal_strlit("updateIsolatedMargin");
    reveal_strlit("updateLeverage");
    reveal_strlit("vaultTransfer");
    let meta = type_meta(ActionType::Genesis);
    let obj = build_action_spec(meta, payload, chain)->Ok_0->Object_0;
    let t = meta.action_type;
    assert("spotDeploy"@.len() != "genesis"@.len());
    let base = seq![("type"@, Json::Str(t))];
    assert(obj == obj_insert(base, meta.payload_key, payload));
    assert(all_action_types()[20] == ActionType::Genesis);
    lemma_obj_get_insert(base, meta.payload_key, payload, meta.payload_key);
    assert(type_selected(ActionType::Genesis, t, obj));
    assert(first_selected(all_action_types(), 20, t, obj) == Some(ActionType::Genesis));
    assert(all_action_types()[19] == ActionType::ToggleTrading);
    assert("perpDeploy"@[0] != "spotDeploy"@[0]);
    assert(!type_selected(ActionType::ToggleTrading, t, obj));
    assert(first_selected(all_action_types(), 19, t, obj) == Some(ActionType::Genesis));
    assert(all_action_types()[18] == ActionType::SetOracle);
    assert("perpDeploy"@[0] != "spotDeploy"@[0]);
    assert(!type_selected(ActionType::SetOracle, t, obj));
    assert(first_selected(all_action_types(), 18, t, obj) == Some(ActionType::Genesis));
    assert(all_action_types()[17] == ActionType::SetOpenInterestCaps);
    assert("perpDeploy"@[0] != "spotDeploy"@[0]);
    assert(!type_selected(ActionType::SetOpenInterestCaps, t, obj));
    assert(first_selected(all_action_types(), 17, t, obj) == Some(ActionType::Genesis));
    assert(all_action_types()[16] == ActionType::SetMarginTableIds);
    assert("perpDeploy"@[0] != "spotDeploy"@[0]);
    assert(!type_selected(ActionType::SetMarginTableIds, t, obj));
    assert(first_selected(all_action_types(), 16, t, obj) == Some(ActionType::Genesis));
    assert(all_action_types()[15] == ActionType::SetGrowthModes);
    assert("perpDeploy"@[0] != "spotDeploy"@[0]);
    assert(!type_selected(ActionType::SetGrowthModes, t, obj));
    assert(first_selected(all_action_types(), 15, t, obj) == Some(ActionType::Genesis));
    assert(all_action_types()[14] == ActionType::SetFundingMultipliers);
    assert("perpDeploy"@[0] != "spotDeploy"@[0]);
    assert(!type_selected(ActionType::SetFundingMultipliers, t, obj));
    assert(first_selected(all_action_types(), 14, t, obj) == Some(ActionType::Genesis));
    assert(all_action_types()[13] == ActionType::SetFeeRecipient);
    assert("perpDeploy"@[0] != "spotDeploy"@[0]);
    assert(!type_selected(ActionType::SetFeeRecipient, t, obj));
    assert(first_selected(all_action_types(), 13, t, obj) == Some(ActionType::Genesis));
    assert(all_action_types()[12] == ActionType::InsertMarginTable);
    assert("perpDeploy"@[0] != "spotDeploy"@[0]);
    assert(!type_selected(ActionType::InsertMarginTable, t, obj));
    assert(first_selected(all_action_types(), 12, t, obj) == Some(ActionType::Genesis));
    assert(all_action_types()[11] == ActionType::UpdateLeverage);
    assert("updateLeverage"@.len() != "spotDeploy"@.len());
    assert(!type_selected(ActionType::UpdateLeverage, t, obj));
    assert(first_selected(all_action_types(), 11, t, obj) == Some(ActionType::Genesis));
    assert(all_action_types()[10] == ActionType::UpdateIsolatedMargin);
    assert("updateIsolatedMargin"@.len() != "spotDeploy"@.len());
    assert(!type_selected(ActionType::UpdateIsolatedMargin, t, obj));
    assert(first_selected(all_action_types(), 10, t, obj) == Some(ActionType::Genesis));
    assert(all_action_types()[9] == ActionType::ScheduleCancel);
    assert("scheduleCancel"@.len() != "spotDeploy"@.len());
    assert(!type_selected(ActionType::ScheduleCancel, t, obj));
    assert(first_selected(all_action_types(), 9, t, obj) == Some(ActionType::Genesis));
    assert(all_action_types()[8] == ActionType::BatchModify);
    assert("batchModify"@.len() != "spotDeploy"@.len());
    assert(!type_selected(ActionType::BatchModify, t, obj));
    assert(first_selected(all_action_types(), 8, t, obj) == Some(ActionType::Genesis));
    assert(all_action_types()[7] == ActionType::BatchOrder);
    assert("order"@.len() != "spotDeploy"@.len());
    assert(!type_selected(ActionType::BatchOrder, t, obj));
    assert(first_selected(all_action_types(), 7, t, obj) == Some(ActionType::Genesis));
    assert(all_action_types()[6] == ActionType::VaultTransfer);
    assert("vaultTransfer"@.len() != "spotDeploy"@.len());
    assert(!type_selected(ActionType::VaultTransfer, t, obj));
    assert(first_selected(all_action_types(), 6, t, obj) == Some(ActionType::Genesis));
    assert(all_action_types()[5] == ActionType::ToggleBigBlocks);
    assert("evmUserModify"@.len() != "spotDeploy"@.len());
    assert(!type_selected(ActionType::ToggleBigBlocks, t, obj));
    assert(first_selected(all_action_types(), 5, t, obj) == Some(ActionType::Genesis));
    assert(all_action_types()[4] == ActionType::SubAccountSpotTransfer);
    assert("subAccountSpotTransfer"@.len() != "spotDeploy"@.len());
    assert(!type_selected(ActionType::SubAccountSpotTransfer, t, obj));
    assert(first_selected(all_action_types(), 4, t, obj) == Some(ActionType::Genesis));
    assert(all_action_types()[3] == ActionType::SetReferrer);
    assert("setReferrer"@.len() != "spotDeploy"@.len());
    assert(!type_selected(ActionType::SetReferrer, t, obj));
    assert(first_selected(all_action_types(), 3, t, obj) == Some(ActionType::Genesis));
    assert(all_action_types()[2] == ActionType::NoOp);
    assert("noop"@.len() != "spotDeploy"@.len());
    assert(!type_selected(ActionType::NoOp, t, obj));
    assert(first_selected(all_action_types(), 2, t, obj) == Some(ActionType::Genesis));
    assert(all_action_types()[1] == ActionType::CreateSubAccount);
    assert("createSubAccount"@.len() != "spotDeploy"@.len());
    assert(!type_selected(ActionType::CreateSubAccount, t, obj));
    assert(first_selected(all_action_types(), 1, t, obj) == Some(ActionType::Genesis));
    assert(all_action_types()[0] == ActionType::AgentEnableDexAbstraction);
    assert("agentEnableDexAbstraction"@.len() != "spotDeploy"@.len());
    assert(!type_selected(ActionType::AgentEnableDexAbstraction, t, obj));
    assert(first_selected(all_action_types(), 0, t, obj) == Some(ActionType::Genesis));
}

/// A built [`RegisterHyperliquidity`] object is read back as a [`RegisterHyperliquidity`].
proof fn lemma_built_selects_register_hyperliquidity(payload: Json, chain: Option<SigningChain>)
    requires
        build_action_spec(type_meta(ActionType::RegisterHyperliquidity), payload, chain) is Ok,
    ensures
        first_selected(
            all_action_types(),
            0,
            type_meta(ActionType::RegisterHyperliquidity).action_type,
            build_action_spec(type_meta(ActionType::RegisterHyperliquidity), payload, chain)->Ok_0->Object_0,
        ) == Some(ActionType::RegisterHyperliquidity),
{
    reveal_strlit("agentEnableDexAbstraction");
    reveal_strlit("batchModify");
    reveal_strlit("createSubAccount");
    reveal_strlit("evmUserModify");
    reveal_strlit("genesis");
    reveal_strlit("haltTrading");
    reveal_strlit("insertMarginTable");
    reveal_strlit("modifies");
    reveal_strlit("noop");
    reveal_strlit("order");
    reveal_strlit("orders");
    reveal_strlit("perpDeploy");
    reveal_strlit("registerHyperliquidity");
    reveal_strlit("scheduleCancel");
    reveal_strlit("setFeeRecipient");
    reveal_strlit("setFundingMultipliers");
    reveal_strlit("setGrowthModes");
    reveal_strlit("setMarginTableIds");
    reveal_strlit("setOpenInterestCaps");
    reveal_strlit("setOracle");
    reveal_strlit("setReferrer");
    reveal_strlit("spotDeploy");
    reveal_strlit("subAccountSpotTransfer");
    reveal_strlit("type");
    reveal_strlit("updateIsolatedMargin");
    reveal_strlit("updateLeverage");
    reveal_strlit("vaultTransfer");
    let meta = type_meta(ActionType::RegisterHyperliquidity);
    let obj = build_action_spec(meta, payload, chain)->Ok_0->Object_0;
    let t = meta.action_type;
    assert("spotDeploy"@.len() != "registerHyperliquidity"@.len());
    let base = seq![("type"@, Json::Str(t))];
    assert(obj == obj_insert(base, meta.payload_key, payload));
    assert(all_action_types()[21] == ActionType::RegisterHyperliquidity);
    lemma_obj_get_insert(base, meta.payload_key, payload, meta.payload_key);
    assert(type_selected(ActionType::RegisterHyperliquidity, t, obj));
    assert(first_selected(all_action_types(), 21, t, obj) == Some(ActionType::RegisterHyperliquidity));
    assert(all_action_types()[20] == ActionType::Genesis);
    assert("genesis"@.len() != "registerHyperliquidity"@.len());
    assert("genesis"@.len() != "type"@.len());
    lemma_obj_get_insert(base, meta.payload_key, payload, "genesis"@);
    lemma_obj_find_single("type"@, Json::Str(t), "genesis"@);
    lemma_obj_find(obj, "genesis"@);
    assert(!type_selected(ActionType::Genesis, t, obj));
    assert(first_selected(all_action_types(), 20, t, obj) == Some(ActionType::RegisterHyperliquidity));
    assert(all_action_types()[19] == ActionType::ToggleTrading);
    assert("perpDeploy"@[0] != "spotDeploy"@[0]);
    assert(!type_selected(ActionType::ToggleTrading, t, obj));
    assert(first_selected(all_action_types(), 19, t, obj) == Some(ActionType::RegisterHyperliquidity));
    assert(all_action_types()[18] == ActionType::SetOracle);
    assert("perpDeploy"@[0] != "spotDeploy"@[0]);
    assert(!type_selected(ActionType::SetOracle, t, obj));
    assert(first_selected(all_action_types(), 18, t, obj) == Some(ActionType::RegisterHyperliquidity));
    assert(all_action_types()[17] == ActionType::SetOpenInterestCaps);
    assert("perpDeploy"@[0] != "spotDeploy"@[0]);
    assert(!type_selected(ActionType::SetOpenInterestCaps, t, obj));
    assert(first_selected(all_action_types(), 17, t, obj) == Some(ActionType::RegisterHyperliquidity));
    assert(all_action_types()[16] == ActionType::SetMarginTableIds);
    assert("perpDeploy"@[0] != "spotDeploy"@[0]);
    assert(!type_selected(ActionType::SetMarginTableIds, t, obj));
    assert(first_selected(all_action_types(), 16, t, obj) == Some(ActionType::RegisterHyperliquidity));
    assert(all_action_types()[15] == ActionType::SetGrowthModes);
    assert("perpDeploy"@[0] != "spotDeploy"@[0]);
    assert(!type_selected(ActionType::SetGrowthModes, t, obj));
    assert(first_selected(all_action_types(), 15, t, obj) == Some(ActionType::RegisterHyperliquidity));
    assert(all_action_types()[14] == ActionType::SetFundingMultipliers);
    assert("perpDeploy"@[0] != "spotDeploy"@[0]);
    assert(!type_selected(ActionType::SetFundingMultipliers, t, obj));
    assert(first_selected(all_action_types(), 14, t, obj) == Some(ActionType::RegisterHyperliquidity));
    assert(all_action_types()[13] == ActionType::SetFeeRecipient);
    assert("perpDeploy"@[0] != "spotDeploy"@[0]);
    assert(!type_selected(ActionType::SetFeeRecipient, t, obj));
    assert(first_selected(all_action_types(), 13, t, obj) == Some(ActionType::RegisterHyperliquidity));
    assert(all_action_types()[12] == ActionType::InsertMarginTable);
    assert("perpDeploy"@[0] != "spotDeploy"@[0]);
    assert(!type_selected(ActionType::InsertMarginTable, t, obj));
    assert(first_selected(all_action_types(), 12, t, obj) == Some(ActionType::RegisterHyperliquidity));
    assert(all_action_types()[11] == ActionType::UpdateLeverage);
    assert("updateLeverage"@.len() != "spotDeploy"@.len());
    assert(!type_selected(ActionType::UpdateLeverage, t, obj));
    assert(first_selected(all_action_types(), 11, t, obj) == Some(ActionType::RegisterHyperliquidity));
    assert(all_action_types()[10] == ActionType::UpdateIsolatedMargin);
    assert("updateIsolatedMargin"@.len() != "spotDeploy"@.len());
    assert(!type_selected(ActionType::UpdateIsolatedMargin, t, obj));
    assert(first_selected(all_action_types(), 10, t, obj) == Some(ActionType::RegisterHyperliquidity));
    assert(all_action_types()[9] == ActionType::ScheduleCancel);
    assert("scheduleCancel"@.len() != "spotDeploy"@.len());
    assert(!type_selected(ActionType::ScheduleCancel, t, obj));
    assert(first_selected(all_action_types(), 9, t, obj) == Some(ActionType::RegisterHyperliquidity));
    assert(all_action_types()[8] == ActionType::BatchModify);
    assert("batchModify"@.len() != "spotDeploy"@.len());
    assert(!type_selected(ActionType::BatchModify, t, obj));
    assert(first_selected(all_action_types(), 8, t, obj) == Some(ActionType::RegisterHyperliquidity));
    assert(all_action_types()[7] == ActionType::BatchOrder);
    assert("order"@.len() != "spotDeploy"@.len());
    assert(!type_selected(ActionType::BatchOrder, t, obj));
    assert(first_selected(all_action_types(), 7, t, obj) == Some(ActionType::RegisterHyperliquidity));
    assert(all_action_types()[6] == ActionType::VaultTransfer);
    assert("vaultTransfer"@.len() != "spotDeploy"@.len());
    assert(!type_selected(ActionType::VaultTransfer, t, obj));
    assert(first_selected(all_action_types(), 6, t, obj) == Some(ActionType::RegisterHyperliquidity));
    assert(all_action_types()[5] == ActionType::ToggleBigBlocks);
    assert("evmUserModify"@.len() != "spotDeploy"@.len());
    assert(!type_selected(ActionType::ToggleBigBlocks, t, obj));
    assert(first_selected(all_action_types(), 5, t, obj) == Some(ActionType::RegisterHyperliquidity));
    assert(all_action_types()[4] == ActionType::SubAccountSpotTransfer);
    assert("subAccountSpotTransfer"@.len() != "spotDeploy"@.len());
    assert(!type_selected(ActionType::SubAccountSpotTransfer, t, obj));
    assert(first_selected(all_action_types(), 4, t, obj) == Some(ActionType::RegisterHyperliquidity));
    assert(all_action_types()[3] == ActionType::SetReferrer);
    assert("setReferrer"@.len() != "spotDeploy"@.len());
    assert(!type_selected(ActionType::SetReferrer, t, obj));
    assert(first_selected(all_action_types(), 3, t, obj) == Some(ActionType::RegisterHyperliquidity));
    assert(all_action_types()[2] == ActionType::NoOp);
    assert("noop"@.len() != "spotDeploy"@.len());
    assert(!type_selected(ActionType::NoOp, t, obj));
    assert(first_selected(all_action_types(), 2, t, obj) == Some(ActionType::RegisterHyperliquidity));
    assert(all_action_types()[1] == ActionType::CreateSubAccount);
    assert("createSubAccount"@.len() != "spotDeploy"@.len());
    assert(!type_selected(ActionType::CreateSubAccount, t, obj));
    assert(first_selected(all_action_types(), 1, t, obj) == Some(ActionType::RegisterHyperliquidity));
    assert(all_action_types()[0] == ActionType::AgentEnableDexAbstraction);
    assert("agentEnableDexAbstraction"@.len() != "spotDeploy"@.len());
    assert(!type_selected(ActionType::AgentEnableDexAbstraction, t, obj));
    assert(first_selected(all_action_types(), 0, t, obj) == Some(ActionType::RegisterHyperliquidity));
}

/// A built [`RegisterSpot`] object is read back as a [`RegisterSpot`].
proof fn lemma_built_selects_register_spot(payload: Json, chain: Option<SigningChain>)
    requires
        build_action_spec(type_meta(ActionType::RegisterSpot), payload, chain) is Ok,
    ensures
        first_selected(
            all_action_types(),
            0,
            type_meta(ActionType::RegisterSpot).action_type,
            build_action_spec(type_meta(ActionType::RegisterSpot), payload, chain)->Ok_0->Object_0,
        ) == Some(ActionType::RegisterSpot),
{
    reveal_strlit("agentEnableDexAbstraction");
    reveal_strlit("batchModify");
    reveal_strlit("createSubAccount");
    reveal_strlit("evmUserModify");
    reveal_strlit("genesis");
    reveal_strlit("haltTrading");
    reveal_strlit("insertMarginTable");
    reveal_strlit("modifies");
    reveal_strlit("noop");
    reveal_strlit("order");
    reveal_strlit("orders");
    reveal_strlit("perpDeploy");
    reveal_strlit("registerHyperliquidity");
    reveal_strlit("registerSpot");
    reveal_strlit("scheduleCancel");
    reveal_strlit("setFeeRecipient");
    reveal_strlit("setFundingMultipliers");
    reveal_strlit("setGrowthModes");
    reveal_strlit("setMarginTableIds");
    reveal_strlit("setOpenInterestCaps");
    reveal_strlit("setOracle");
    reveal_strlit("setReferrer");
    reveal_strlit("spotDeploy");
    reveal_strlit("subAccountSpotTransfer");
    reveal_strlit("type");
    reveal_strlit("updateIsolatedMargin");
    reveal_strlit("updateLeverage");
    reveal_strlit("vaultTransfer");
    let meta = type_meta(ActionType::RegisterSpot);
    let obj = build_action_spec(meta, payload, chain)->Ok_0->Object_0;
    let t = meta.action_type;
    assert("spotDeploy"@.len() != "registerSpot"@.len());
    let base = seq![("type"@, Json::Str(t))];
    assert(obj == obj_insert(base, meta.payload_key, payload));
    assert(all_action_types()[22] == ActionType::RegisterSpot);
    lemma_obj_get_insert(base, meta.payload_key, payload, meta.payload_key);
    assert(type_selected(ActionType::RegisterSpot, t, obj));
    assert(first_selected(all_action_types(), 22, t, obj) == Some(ActionType::RegisterSpot));
    assert(all_action_types()[21] == ActionType::RegisterHyperliquidity);
    assert("registerHyperliquidity"@.len() != "registerSpot"@.len());
    assert("registerHyperliquidity"@.len() != "type"@.len());
    lemma_obj_get_insert(base, meta.payload_key, payload, "registerHyperliquidity"@);
    lemma_obj_find_single("type"@, Json::Str(t), "registerHyperliquidity"@);
    lemma_obj_find(obj, "registerHyperliquidity"@);
    assert(!type_selected(ActionType::RegisterHyperliquidity, t, obj));
    assert(first_selected(all_action_types(), 21, t, obj) == Some(ActionType::RegisterSpot));
    assert(all_action_types()[20] == ActionType::Genesis);
    assert("genesis"@.len() != "registerSpot"@.len());
    assert("genesis"@.len() != "type"@.len());
    lemma_obj_get_insert(base, meta.payload_key, payload, "genesis"@);
    lemma_obj_find_single("type"@, Json::Str(t), "genesis"@);
    lemma_obj_find(obj, "genesis"@);
    assert(!type_selected(ActionType::Genesis, t, obj));
    assert(first_selected(all_action_types(), 20, t, obj) == Some(ActionType::RegisterSpot));
    assert(all_action_types()[19] == ActionType::ToggleTrading);
    assert("perpDeploy"@[0] != "spotDeploy"@[0]);
    assert(!type_selected(ActionType::ToggleTrading, t, obj));
    assert(first_selected(all_action_types(), 19, t, obj) == Some(ActionType::RegisterSpot));
    assert(all_action_types()[18] == ActionType::SetOracle);
    assert("perpDeploy"@[0] != "spotDeploy"@[0]);
    assert(!type_selected(ActionType::SetOracle, t, obj));
    assert(first_selected(all_action_types(), 18, t, obj) == Some(ActionType::RegisterSpot));
    assert(all_action_types()[17] == ActionType::SetOpenInterestCaps);
    assert("perpDeploy"@[0] != "spotDeploy"@[0]);
    assert(!type_selected(ActionType::SetOpenInterestCaps, t, obj));
    assert(first_selected(all_action_types(), 17, t, obj) == Some(ActionType::RegisterSpot));
    assert(all_action_types()[16] == ActionType::SetMarginTableIds);
    assert("perpDeploy"@[0] != "spotDeploy"@[0]);
    assert(!type_selected(ActionType::SetMarginTableIds, t, obj));
    assert(first_selected(all_action_types(), 16, t, obj) == Some(ActionType::RegisterSpot));
    assert(all_action_types()[15] == ActionType::SetGrowthModes);
    assert("perpDeploy"@[0] != "spotDeploy"@[0]);
    assert(!type_selected(ActionType::SetGrowthModes, t, obj));
    assert(first_selected(all_action_types(), 15, t, obj) == Some(ActionType::RegisterSpot));
    assert(all_action_types()[14] == ActionType::SetFundingMultipliers);
    assert("perpDeploy"@[0] != "spotDeploy"@[0]);
    assert(!type_selected(ActionType::SetFundingMultipliers, t, obj));
    assert(first_selected(all_action_types(), 14, t, obj) == Some(ActionType::RegisterSpot));
    assert(all_action_types()[13] == ActionType::SetFeeRecipient);
    assert("perpDeploy"@[0] != "spotDeploy"@[0]);
    assert(!type_selected(ActionType::SetFeeRecipient, t, obj));
    assert(first_selected(all_action_types(), 13, t, obj) == Some(ActionType::RegisterSpot));
    assert(all_action_types()[12] == ActionType::InsertMarginTable);
    assert("perpDeploy"@[0] != "spotDeploy"@[0]);
    assert(!type_selected(ActionType::InsertMarginTable, t, obj));
    assert(first_selected(all_action_types(), 12, t, obj) == Some(ActionType::RegisterSpot));
    assert(all_action_types()[11] == ActionType::UpdateLeverage);
    assert("updateLeverage"@.len() != "spotDeploy"@.len());
    assert(!type_selected(ActionType::UpdateLeverage, t, obj));
    assert(first_selected(all_action_types(), 11, t, obj) == Some(ActionType::RegisterSpot));
    assert(all_action_types()[10] == ActionType::UpdateIsolatedMargin);
    assert("updateIsolatedMargin"@.len() != "spotDeploy"@.len());
    assert(!type_selected(ActionType::UpdateIsolatedMargin, t, obj));
    assert(first_selected(all_action_types(), 10, t, obj) == Some(ActionType::RegisterSpot));
    assert(all_action_types()[9] == ActionType::ScheduleCancel);
    assert("scheduleCancel"@.len() != "spotDeploy"@.len());
    assert(!type_selected(ActionType::ScheduleCancel, t, obj));
    assert(first_selected(all_action_types(), 9, t, obj) == Some(ActionType::RegisterSpot));
    assert(all_action_types()[8] == ActionType::BatchModify);
    assert("batchModify"@.len() != "spotDeploy"@.len());
    assert(!type_selected(ActionType::BatchModify, t, obj));
    assert(first_selected(all_action_types(), 8, t, obj) == Some(ActionType::RegisterSpot));
    assert(all_action_types()[7] == ActionType::BatchOrder);
    assert("order"@.len() != "spotDeploy"@.len());
    assert(!type_selected(ActionType::BatchOrder, t, obj));
    assert(first_selected(all_action_types(), 7, t, obj) == Some(ActionType::RegisterSpot));
    assert(all_action_types()[6] == ActionType::VaultTransfer);
    assert("vaultTransfer"@.len() != "spotDeploy"@.len());
    assert(!type_selected(ActionType::VaultTransfer, t, obj));
    assert(first_selected(all_action_types(), 6, t, obj) == Some(ActionType::RegisterSpot));
    assert(all_action_types()[5] == ActionType::ToggleBigBlocks);
    assert("evmUserModify"@.len() != "spotDeploy"@.len());
    assert(!type_selected(ActionType::ToggleBigBlocks, t, obj));
    assert(first_selected(all_action_types(), 5, t, obj) == Some(ActionType::RegisterSpot));
    assert(all_action_types()[4] == ActionType::SubAccountSpotTransfer);
    assert("subAccountSpotTransfer"@.len() != "spotDeploy"@.len());
    assert(!type_selected(ActionType::SubAccountSpotTransfer, t, obj));
    assert(first_selected(all_action_types(), 4, t, obj) == Some(ActionType::RegisterSpot));
    assert(all_action_types()[3] == ActionType::SetReferrer);
    assert("setReferrer"@.len() != "spotDeploy"@.len());
    assert(!type_selected(ActionType::SetReferrer, t, obj));
    assert(first_selected(all_action_types(), 3, t, obj) == Some(ActionType::RegisterSpot));
    assert(all_action_types()[2] == ActionType::NoOp);
    assert("noop"@.len() != "spotDeploy"@.len());
    assert(!type_selected(ActionType::NoOp, t, obj));
    assert(first_selected(all_action_types(), 2, t, obj) == Some(ActionType::RegisterSpot));
    assert(all_action_types()[1] == ActionType::CreateSubAccount);
    assert("createSubAccount"@.len() != "spotDeploy"@.len());
    assert(!type_selected(ActionType::CreateSubAccount, t, obj));
    assert(first_selected(all_action_types(), 1, t, obj) == Some(ActionType::RegisterSpot));
    assert(all_action_types()[0] == ActionType::AgentEnableDexAbstraction);
    assert("agentEnableDexAbstraction"@.len() != "spotDeploy"@.len());
    assert(!type_selected(ActionType::AgentEnableDexAbstraction, t, obj));
    assert(first_selected(all_action_types(), 0, t, obj) == Some(ActionType::RegisterSpot));
}

/// A built [`RegisterToken`] object is read back as a [`RegisterToken`].
proof fn lemma_built_selects_register_token(payload: Json, chain: Option<SigningChain>)
    requires
        build_action_spec(type_meta(ActionType::RegisterToken), payload, chain) is Ok,
    ensures
        first_selected(
            all_action_types(),
            0,
            type_meta(ActionType::RegisterToken).action_type,
            build_action_spec(type_meta(ActionType::RegisterToken), payload, chain)->Ok_0->Object_0,
        ) == Some(ActionType::RegisterToken),
{
    reveal_strlit("agentEnableDexAbstraction");
    reveal_strlit("batchModify");
    reveal_strlit("createSubAccount");
    reveal_strlit("evmUserModify");
    reveal_strlit("genesis");
    reveal_strlit("haltTrading");
    reveal_strlit("insertMarginTable");
    reveal_strlit("modifies");
    reveal_strlit("noop");
    reveal_strlit("order");
    reveal_strlit("orders");
    reveal_strlit("perpDeploy");
    reveal_strlit("registerHyperliquidity");
    reveal_strlit("registerSpot");
    reveal_strlit("registerToken2");
    reveal_strlit("scheduleCancel");
    reveal_strlit("setFeeRecipient");
    reveal_strlit("setFundingMultipliers");
    reveal_strlit("setGrowthModes");
    reveal_strlit("setMarginTableIds");
    reveal_strlit("setOpenInterestCaps");
    reveal_strlit("setOracle");
    reveal_strlit("setReferrer");
    reveal_strlit("spotDeploy");
    reveal_strlit("subAccountSpotTransfer");
    reveal_strlit("type");
    reveal_strlit("updateIsolatedMargin");
    reveal_strlit("updateLeverage");
    reveal_strlit("vaultTransfer");
    let meta = type_meta(ActionType::RegisterToken);
    let obj = build_action_spec(meta, payload, chain)->Ok_0->Object_0;
    let t = meta.action_type;
    assert("spotDeploy"@.len() != "registerToken2"@.len());
    let base = seq![("type"@, Json::Str(t))];
    assert(obj == obj_insert(base, meta.payload_key, payload));
    assert(all_action_types()[23] == ActionType::RegisterToken);
    lemma_obj_get_insert(base, meta.payload_key, payload, meta.payload_key);
    assert(type_selected(ActionType::RegisterToken, t, obj));
    assert(first_selected(all_action_types(), 23, t, obj) == Some(ActionType::RegisterToken));
    assert(all_action_types()[22] == ActionType::RegisterSpot);
    assert("registerSpot"@.len() != "registerToken2"@.len());
    assert("registerSpot"@.len() != "type"@.len());
    lemma_obj_get_insert(base, meta.payload_key, payload, "registerSpot"@);
    lemma_obj_find_single("type"@, Json::Str(t), "registerSpot"@);
    lemma_obj_find(obj, "registerSpot"@);
    assert(!type_selected(ActionType::RegisterSpot, t, obj));
    assert(first_selected(all_action_types(), 22, t, obj) == Some(ActionType::RegisterToken));
    assert(all_action_types()[21] == ActionType::RegisterHyperliquidity);
    assert("registerHyperliquidity"@.len() != "registerToken2"@.len());
    assert("registerHyperliquidity"@.len() != "type"@.len());
    lemma_obj_get_insert(base, meta.payload_key, payload, "registerHyperliquidity"@);
    lemma_obj_find_single("type"@, Json::Str(t), "registerHyperliquidity"@);
    lemma_obj_find(obj, "registerHyperliquidity"@);
    assert(!type_selected(ActionType::RegisterHyperliquidity, t, obj));
    assert(first_selected(all_action_types(), 21, t, obj) == Some(ActionType::RegisterToken));
    assert(all_action_types()[20] == ActionType::Genesis);
    assert("genesis"@.len() != "registerToken2"@.len());
    assert("genesis"@.len() != "type"@.len());
    lemma_obj_get_insert(base, meta.payload_key, payload, "genesis"@);
    lemma_obj_find_single("type"@, Json::Str(t), "genesis"@);
    lemma_obj_find(obj, "genesis"@);
    assert(!type_selected(ActionType::Genesis, t, obj));
    assert(first_selected(all_action_types(), 20, t, obj) == Some(ActionType::RegisterToken));
    assert(all_action_types()[19] == ActionType::ToggleTrading);
    assert("perpDeploy"@[0] != "spotDeploy"@[0]);
    assert(!type_selected(ActionType::ToggleTrading, t, obj));
    assert(first_selected(all_action_types(), 19, t, obj) == Some(ActionType::RegisterToken));
    assert(all_action_types()[18] == ActionType::SetOracle);
    assert("perpDeploy"@[0] != "spotDeploy"@[0]);
    assert(!type_selected(ActionType::SetOracle, t, obj));
    assert(first_selected(all_action_types(), 18, t, obj) == Some(ActionType::RegisterToken));
    assert(all_action_types()[17] == ActionType::SetOpenInterestCaps);
    assert("perpDeploy"@[0] != "spotDeploy"@[0]);
    assert(!type_selected(ActionType::SetOpenInterestCaps, t, obj));
    assert(first_selected(all_action_types(), 17, t, obj) == Some(ActionType::RegisterToken));
    assert(all_action_types()[16] == ActionType::SetMarginTableIds);
    assert("perpDeploy"@[0] != "spotDeploy"@[0]);
    assert(!type_selected(ActionType::SetMarginTableIds, t, obj));
    assert(first_selected(all_action_types(), 16, t, obj) == Some(ActionType::RegisterToken));
    assert(all_action_types()[15] == ActionType::SetGrowthModes);
    assert("perpDeploy"@[0] != "spotDeploy"@[0]);
    assert(!type_selected(ActionType::SetGrowthModes, t, obj));
    assert(first_selected(all_action_types(), 15, t, obj) == Some(ActionType::RegisterToken));
    assert(all_action_types()[14] == ActionType::SetFundingMultipliers);
    assert("perpDeploy"@[0] != "spotDeploy"@[0]);
    assert(!type_selected(ActionType::SetFundingMultipliers, t, obj));
    assert(first_selected(all_action_types(), 14, t, obj) == Some(ActionType::RegisterToken));
    assert(all_action_types()[13] == ActionType::SetFeeRecipient);
    assert("perpDeploy"@[0] != "spotDeploy"@[0]);
    assert(!type_selected(ActionType::SetFeeRecipient, t, obj));
    assert(first_selected(all_action_types(), 13, t, obj) == Some(ActionType::RegisterToken));
    assert(all_action_types()[12] == ActionType::InsertMarginTable);
    assert("perpDeploy"@[0] != "spotDeploy"@[0]);
    assert(!type_selected(ActionType::InsertMarginTable, t, obj));
    assert(first_selected(all_action_types(), 12, t, obj) == Some(ActionType::RegisterToken));
    assert(all_action_types()[11] == ActionType::UpdateLeverage);
    assert("updateLeverage"@.len() != "spotDeploy"@.len());
    assert(!type_selected(ActionType::UpdateLeverage, t, obj));
    assert(first_selected(all_action_types(), 11, t, obj) == Some(ActionType::RegisterToken));
    assert(all_action_types()[10] == ActionType::UpdateIsolatedMargin);
    assert("updateIsolatedMargin"@.len() != "spotDeploy"@.len());
    assert(!type_selected(ActionType::UpdateIsolatedMargin, t, obj));
    assert(first_selected(all_action_types(), 10, t, obj) == Some(ActionType::RegisterToken));
    assert(all_action_types()[9] == ActionType::ScheduleCancel);
    assert("scheduleCancel"@.len() != "spotDeploy"@.len());
    assert(!type_selected(ActionType::ScheduleCancel, t, obj));
    assert(first_selected(all_action_types(), 9, t, obj) == Some(ActionType::RegisterToken));
    assert(all_action_types()[8] == ActionType::BatchModify);
    assert("batchModify"@.len() != "spotDeploy"@.len());
    assert(!type_selected(ActionType::BatchModify, t, obj));
    assert(first_selected(all_action_types(), 8, t, obj) == Some(ActionType::RegisterToken));
    assert(all_action_types()[7] == ActionType::BatchOrder);
    assert("order"@.len() != "spotDeploy"@.len());
    assert(!type_selected(ActionType::BatchOrder, t, obj));
    assert(first_selected(all_action_types(), 7, t, obj) == Some(ActionType::RegisterToken));
    assert(all_action_types()[6] == ActionType::VaultTransfer);
    assert("vaultTransfer"@.len() != "spotDeploy"@.len());
    assert(!type_selected(ActionType::VaultTransfer, t, obj));
    assert(first_selected(all_action_types(), 6, t, obj) == Some(ActionType::RegisterToken));
    assert(all_action_types()[5] == ActionType::ToggleBigBlocks);
    assert("evmUserModify"@.len() != "spotDeploy"@.len());
    assert(!type_selected(ActionType::ToggleBigBlocks, t, obj));
    assert(first_selected(all_action_types(), 5, t, obj) == Some(ActionType::RegisterToken));
    assert(all_action_types()[4] == ActionType::SubAccountSpotTransfer);
    assert("subAccountSpotTransfer"@.len() != "spotDeploy"@.len());
    assert(!type_selected(ActionType::SubAccountSpotTransfer, t, obj));
    assert(first_selected(all_action_types(), 4, t, obj) == Some(ActionType::RegisterToken));
    assert(all_action_types()[3] == ActionType::SetReferrer);
    assert("setReferrer"@.len() != "spotDeploy"@.len());
    assert(!type_selected(ActionType::SetReferrer, t, obj));
    assert(first_selected(all_action_types(), 3, t, obj) == Some(ActionType::RegisterToken));
    assert(all_action_types()[2] == ActionType::NoOp);
    assert("noop"@.len() != "spotDeploy"@.len());
    assert(!type_selected(ActionType::NoOp, t, obj));
    assert(first_selected(all_action_types(), 2, t, obj) == Some(ActionType::RegisterToken));
    assert(all_action_types()[1] == ActionType::CreateSubAccount);
    assert("createSubAccount"@.len() != "spotDeploy"@.len());
    assert(!type_selected(ActionType::CreateSubAccount, t, obj));
    assert(first_selected(all_action_types(), 1, t, obj) == Some(ActionType::RegisterToken));
    assert(all_action_types()[0] == ActionType::AgentEnableDexAbstraction);
    assert("agentEnableDexAbstraction"@.len() != "spotDeploy"@.len());
    assert(!type_selected(ActionType::AgentEnableDexAbstraction, t, obj));
    assert(first_selected(all_action_types(), 0, t, obj) == Some(ActionType::RegisterToken));
}

/// A built [`SetDeployerFees`] object is read back as a [`SetDeployerFees`].
proof fn lemma_built_selects_set_deployer_fees(payload: Json, chain: Option<SigningChain>)
    requires
        build_action_spec(type_meta(ActionType::SetDeployerFees), payload, chain) is Ok,
    ensures
        first_selected(
            all_action_types(),
            0,
            type_meta(ActionType::SetDeployerFees).action_type,
            build_action_spec(type_meta(ActionType::SetDeployerFees), payload, chain)->Ok_0->Object_0,
        ) == Some(ActionType::SetDeployerFees),
{
    reveal_strlit("agentEnableDexAbstraction");
    reveal_strlit("batchModify");
    reveal_strlit("createSubAccount");
    reveal_strlit("evmUserModify");
    reveal_strlit("genesis");
    reveal_strlit("haltTrading");
    reveal_strlit("insertMarginTable");
    reveal_strlit("modifies");
    reveal_strlit("noop");
    reveal_strlit("order");
    reveal_strlit("orders");
    reveal_strlit("perpDeploy");
    reveal_strlit("registerHyperliquidity");
    reveal_strlit("registerSpot");
    reveal_strlit("registerToken2");
    reveal_strlit("scheduleCancel");
    reveal_strlit("setDeployerTradingFeeShare");
    reveal_strlit("setFeeRecipient");
    reveal_strlit("setFundingMultipliers");
    reveal_strlit("setGrowthModes");
    reveal_strlit("setMarginTableIds");
    reveal_strlit("setOpenInterestCaps");
    reveal_strlit("setOracle");
    reveal_strlit("setReferrer");
    reveal_strlit("spotDeploy");
    reveal_strlit("subAccountSpotTransfer");
    reveal_strlit("type");
    reveal_strlit("updateIsolatedMargin");
    reveal_strlit("updateLeverage");
    reveal_strlit("vaultTransfer");
    let meta = type_meta(ActionType::SetDeployerFees);
    let obj = build_action_spec(meta, payload, chain)->Ok_0->Object_0;
    let t = meta.action_type;
    assert("spotDeploy"@.len() != "setDeployerTradingFeeShare"@.len());
    let base = seq![("type"@, Json::Str(t))];
    assert(obj == obj_insert(base, meta.payload_key, payload));
    assert(all_action_types()[24] == ActionType::SetDeployerFees);
    lemma_obj_get_insert(base, meta.payload_key, payload, meta.payload_key);
    assert(type_selected(ActionType::SetDeployerFees, t, obj));
    assert(first_selected(all_action_types(), 24, t, obj) == Some(ActionType::SetDeployerFees));
    assert(all_action_types()[23] == ActionType::RegisterToken);
    assert("registerToken2"@.len() != "setDeployerTradingFeeShare"@.len());
    assert("registerToken2"@.len() != "type"@.len());
    lemma_obj_get_insert(base, meta.payload_key, payload, "registerToken2"@);
    lemma_obj_find_single("type"@, Json::Str(t), "registerToken2"@);
    lemma_obj_find(obj, "registerToken2"@);
    assert(!type_selected(ActionType::RegisterToken, t, obj));
    assert(first_selected(all_action_types(), 23, t, obj) == Some(ActionType::SetDeployerFees));
    assert(all_action_types()[22] == ActionType::RegisterSpot);
    assert("registerSpot"@.len() != "setDeployerTradingFeeShare"@.len());
    assert("registerSpot"@.len() != "type"@.len());
    lemma_obj_get_insert(base, meta.payload_key, payload, "registerSpot"@);
    lemma_obj_find_single("type"@, Json::Str(t), "registerSpot"@);
    lemma_obj_find(obj, "registerSpot"@);
    assert(!type_selected(ActionType::RegisterSpot, t, obj));
    assert(first_selected(all_action_types(), 22, t, obj) == Some(ActionType::SetDeployerFees));
    assert(all_action_types()[21] == ActionType::RegisterHyperliquidity);
    assert("registerHyperliquidity"@.len() != "setDeployerTradingFeeShare"@.len());
    assert("registerHyperliquidity"@.len() != "type"@.len());
    lemma_obj_get_insert(base, meta.payload_key, payload, "registerHyperliquidity"@);
    lemma_obj_find_single("type"@, Json::Str(t), "registerHyperliquidity"@);
    lemma_obj_find(obj, "registerHyperliquidity"@);
    assert(!type_selected(ActionType::RegisterHyperliquidity, t, obj));
    assert(first_selected(all_action_types(), 21, t, obj) == Some(ActionType::SetDeployerFees));
    assert(all_action_types()[20] == ActionType::Genesis);
    assert("genesis"@.len() != "setDeployerTradingFeeShare"@.len());
    assert("genesis"@.len() != "type"@.len());
    lemma_obj_get_insert(base, meta.payload_key, payload, "genesis"@);
    lemma_obj_find_single("type"@, Json::Str(t), "genesis"@);
    lemma_obj_find(obj, "genesis"@);
    assert(!type_selected(ActionType::Genesis, t, obj));
    assert(first_selected(all_action_types(), 20, t, obj) == Some(ActionType::SetDeployerFees));
    assert(all_action_types()[19] == ActionType::ToggleTrading);
    assert("perpDeploy"@[0] != "spotDeploy"@[0]);
    assert(!type_selected(ActionType::ToggleTrading, t, obj));
    assert(first_selected(all_action_types(), 19, t, obj) == Some(ActionType::SetDeployerFees));
    assert(all_action_types()[18] == ActionType::SetOracle);
    assert("perpDeploy"@[0] != "spotDeploy"@[0]);
    assert(!type_selected(ActionType::SetOracle, t, obj));
    assert(first_selected(all_action_types(), 18, t, obj) == Some(ActionType::SetDeployerFees));
    assert(all_action_types()[17] == ActionType::SetOpenInterestCaps);
    assert("perpDeploy"@[0] != "spotDeploy"@[0]);
    assert(!type_selected(ActionType::SetOpenInterestCaps, t, obj));
    assert(first_selected(all_action_types(), 17, t, obj) == Some(ActionType::SetDeployerFees));
    assert(all_action_types()[16] == ActionType::SetMarginTableIds);
    assert("perpDeploy"@[0] != "spotDeploy"@[0]);
    assert(!type_selected(ActionType::SetMarginTableIds, t, obj));
    assert(first_selected(all_action_types(), 16, t, obj) == Some(ActionType::SetDeployerFees));
    assert(all_action_types()[15] == ActionType::SetGrowthModes);
    assert("perpDeploy"@[0] != "spotDeploy"@[0]);
    assert(!type_selected(ActionType::SetGrowthModes, t, obj));
    assert(first_selected(all_action_types(), 15, t, obj) == Some(ActionType::SetDeployerFees));
    assert(all_action_types()[14] == ActionType::SetFundingMultipliers);
    assert("perpDeploy"@[0] != "spotDeploy"@[0]);
    assert(!type_selected(ActionType::SetFundingMultipliers, t, obj));
    assert(first_selected(all_action_types(), 14, t, obj) == Some(ActionType::SetDeployerFees));
    assert(all_action_types()[13] == ActionType::SetFeeRecipient);
    assert("perpDeploy"@[0] != "spotDeploy"@[0]);
    assert(!type_selected(ActionType::SetFeeRecipient, t, obj));
    assert(first_selected(all_action_types(), 13, t, obj) == Some(ActionType::SetDeployerFees));
    assert(all_action_types()[12] == ActionType::InsertMarginTable);
    assert("perpDeploy"@[0] != "spotDeploy"@[0]);
    assert(!type_selected(ActionType::InsertMarginTable, t, obj));
    assert(first_selected(all_action_types(), 12, t, obj) == Some(ActionType::SetDeployerFees));
    assert(all_action_types()[11] == ActionType::UpdateLeverage);
    assert("updateLeverage"@.len() != "spotDeploy"@.len());
    assert(!type_selected(ActionType::UpdateLeverage, t, obj));
    assert(first_selected(all_action_types(), 11, t, obj) == Some(ActionType::SetDeployerFees));
    assert(all_action_types()[10] == ActionType::UpdateIsolatedMargin);
    assert("updateIsolatedMargin"@.len() != "spotDeploy"@.len());
    assert(!type_selected(ActionType::UpdateIsolatedMargin, t, obj));
    assert(first_selected(all_action_types(), 10, t, obj) == Some(ActionType::SetDeployerFees));
    assert(all_action_types()[9] == ActionType::ScheduleCancel);
    assert("scheduleCancel"@.len() != "spotDeploy"@.len());
    assert(!type_selected(ActionType::ScheduleCancel, t, obj));
    assert(first_selected(all_action_types(), 9, t, obj) == Some(ActionType::SetDeployerFees));
    assert(all_action_types()[8] == ActionType::BatchModify);
    assert("batchModify"@.len() != "spotDeploy"@.len());
    assert(!type_selected(ActionType::BatchModify, t, obj));
    assert(first_selected(all_action_types(), 8, t, obj) == Some(ActionType::SetDeployerFees));
    assert(all_action_types()[7] == ActionType::BatchOrder);
    assert("order"@.len() != "spotDeploy"@.len());
    assert(!type_selected(ActionType::BatchOrder, t, obj));
    assert(first_selected(all_action_types(), 7, t, obj) == Some(ActionType::SetDeployerFees));
    assert(all_action_types()[6] == ActionType::VaultTransfer);
    assert("vaultTransfer"@.len() != "spotDeploy"@.len());
    assert(!type_selected(ActionType::VaultTransfer, t, obj));
    assert(first_selected(all_action_types(), 6, t, obj) == Some(ActionType::SetDeployerFees));
    assert(all_action_types()[5] == ActionType::ToggleBigBlocks);
    assert("evmUserModify"@.len() != "spotDeploy"@.len());
    assert(!type_selected(ActionType::ToggleBigBlocks, t, obj));
    assert(first_selected(all_action_types(), 5, t, obj) == Some(ActionType::SetDeployerFees));
    assert(all_action_types()[4] == ActionType::SubAccountSpotTransfer);
    assert("subAccountSpotTransfer"@.len() != "spotDeploy"@.len());
    assert(!type_selected(ActionType::SubAccountSpotTransfer, t, obj));
    assert(first_selected(all_action_types(), 4, t, obj) == Some(ActionType::SetDeployerFees));
    assert(all_action_types()[3] == ActionType::SetReferrer);
    assert("setReferrer"@.len() != "spotDeploy"@.len());
    assert(!type_selected(ActionType::SetReferrer, t, obj));
    assert(first_selected(all_action_types(), 3, t, obj) == Some(ActionType::SetDeployerFees));
    assert(all_action_types()[2] == ActionType::NoOp);
    assert("noop"@.len() != "spotDeploy"@.len());
    assert(!type_selected(ActionType::NoOp, t, obj));
    assert(first_selected(all_action_types(), 2, t, obj) == Some(ActionType::SetDeployerFees));
    assert(all_action_types()[1] == ActionType::CreateSubAccount);
    assert("createSubAccount"@.len() != "spotDeploy"@.len());
    assert(!type_selected(ActionType::CreateSubAccount, t, obj));
    assert(first_selected(all_action_types(), 1, t, obj) == Some(ActionType::SetDeployerFees));
    assert(all_action_types()[0] == ActionType::AgentEnableDexAbstraction);
    assert("agentEnableDexAbstraction"@.len() != "spotDeploy"@.len());
    assert(!type_selected(ActionType::AgentEnableDexAbstraction, t, obj));
    assert(first_selected(all_action_types(), 0, t, obj) == Some(ActionType::SetDeployerFees));
}

/// A built [`UserGenesis`] object is read back as a [`UserGenesis`].
proof fn lemma_built_selects_user_genesis(payload: Json, chain: Option<SigningChain>)
    requires
        build_action_spec(type_meta(ActionType::UserGenesis), payload, chain) is Ok,
    ensures
        first_selected(
            all_action_types(),
            0,
            type_meta(ActionType::UserGenesis).action_type,
            build_action_spec(type_meta(ActionType::UserGenesis), payload, chain)->Ok_0->Object_0,
        ) == Some(ActionType::UserGenesis),
{
    reveal_strlit("agentEnableDexAbstraction");
    reveal_strlit("batchModify");
    reveal_strlit("createSubAccount");
    reveal_strlit("evmUserModify");
    reveal_strlit("genesis");
    reveal_strlit("haltTrading");
    reveal_strlit("insertMarginTable");
    reveal_strlit("modifies");
    reveal_strlit("noop");
    reveal_strlit("order");
    reveal_strlit("orders");
    reveal_strlit("perpDeploy");
    reveal_strlit("registerHyperliquidity");
    reveal_strlit("registerSpot");
    reveal_strlit("registerToken2");
    reveal_strlit("scheduleCancel");
    reveal_strlit("setDeployerTradingFeeShare");
    reveal_strlit("setFeeRecipient");
    reveal_strlit("setFundingMultipliers");
    reveal_strlit("setGrowthModes");
    reveal_strlit("setMarginTableIds");
    reveal_strlit("setOpenInterestCaps");
    reveal_strlit("setOracle");
    reveal_strlit("setReferrer");
    reveal_strlit("spotDeploy");
    reveal_strlit("subAccountSpotTransfer");
    reveal_strlit("type");
    reveal_strlit("updateIsolatedMargin");
    reveal_strlit("updateLeverage");
    reveal_strlit("userGenesis");
    reveal_strlit("vaultTransfer");
    let meta = type_meta(ActionType::UserGenesis);
    let obj = build_action_spec(meta, payload, chain)->Ok_0->Object_0;
    let t = meta.action_type;
    assert("spotDeploy"@.len() != "userGenesis"@.len());
    let base = seq![("type"@, Json::Str(t))];
    assert(obj == obj_insert(base, meta.payload_key, payload));
    assert(all_action_types()[25] == ActionType::UserGenesis);
    lemma_obj_get_insert(base, meta.payload_key, payload, meta.payload_key);
    assert(type_selected(ActionType::UserGenesis, t, obj));
    assert(first_selected(all_action_types(), 25, t, obj) == Some(ActionType::UserGenesis));
    assert(all_action_types()[24] == ActionType::SetDeployerFees);
    assert("setDeployerTradingFeeShare"@.len() != "userGenesis"@.len());
    assert("setDeployerTradingFeeShare"@.len() != "type"@.len());
    lemma_obj_get_insert(base, meta.payload_key, payload, "setDeployerTradingFeeShare"@);
    lemma_obj_find_single("type"@, Json::Str(t), "setDeployerTradingFeeShare"@);
    lemma_obj_find(obj, "setDeployerTradingFeeShare"@);
    assert(!type_selected(ActionType::SetDeployerFees, t, obj));
    assert(first_selected(all_action_types(), 24, t, obj) == Some(ActionType::UserGenesis));
    assert(all_action_types()[23] == ActionType::RegisterToken);
    assert("registerToken2"@.len() != "userGenesis"@.len());
    assert("registerToken2"@.len() != "type"@.len());
    lemma_obj_get_insert(base, meta.payload_key, payload, "registerToken2"@);
    lemma_obj_find_single("type"@, Json::Str(t), "registerToken2"@);
    lemma_obj_find(obj, "registerToken2"@);
    assert(!type_selected(ActionType::RegisterToken, t, obj));
    assert(first_selected(all_action_types(), 23, t, obj) == Some(ActionType::UserGenesis));
    assert(all_action_types()[22] == ActionType::RegisterSpot);
    assert("registerSpot"@.len() != "userGenesis"@.len());
    assert("registerSpot"@.len() != "type"@.len());
    lemma_obj_get_insert(base, meta.payload_key, payload, "registerSpot"@);
    lemma_obj_find_single("type"@, Json::Str(t), "registerSpot"@);
    lemma_obj_find(obj, "registerSpot"@);
    assert(!type_selected(ActionType::RegisterSpot, t, obj));
    assert(first_selected(all_action_types(), 22, t, obj) == Some(ActionType::UserGenesis));
    assert(all_action_types()[21] == ActionType::RegisterHyperliquidity);
    assert("registerHyperliquidity"@.len() != "userGenesis"@.len());
    assert("registerHyperliquidity"@.len() != "type"@.len());
    lemma_obj_get_insert(base, meta.payload_key, payload, "registerHyperliquidity"@);
    lemma_obj_find_single("type"@, Json::Str(t), "registerHyperliquidity"@);
    lemma_obj_find(obj, "registerHyperliquidity"@);
    assert(!type_selected(ActionType::RegisterHyperliquidity, t, obj));
    assert(first_selected(all_action_types(), 21, t, obj) == Some(ActionType::UserGenesis));
    assert(all_action_types()[20] == ActionType::Genesis);
    assert("genesis"@.len() != "userGenesis"@.len());
    assert("genesis"@.len() != "type"@.len());
    lemma_obj_get_insert(base, meta.payload_key, payload, "genesis"@);
    lemma_obj_find_single("type"@, Json::Str(t), "genesis"@);
    lemma_obj_find(obj, "genesis"@);
    assert(!type_selected(ActionType::Genesis, t, obj));
    assert(first_selected(all_action_types(), 20, t, obj) == Some(ActionType::UserGenesis));
    assert(all_action_types()[19] == ActionType::ToggleTrading);
    assert("perpDeploy"@[0] != "spotDeploy"@[0]);
    assert(!type_selected(ActionType::ToggleTrading, t, obj));
    assert(first_selected(all_action_types(), 19, t, obj) == Some(ActionType::UserGenesis));
    assert(all_action_types()[18] == ActionType::SetOracle);
    assert("perpDeploy"@[0] != "spotDeploy"@[0]);
    assert(!type_selected(ActionType::SetOracle, t, obj));
    assert(first_selected(all_action_types(), 18, t, obj) == Some(ActionType::UserGenesis));
    assert(all_action_types()[17] == ActionType::SetOpenInterestCaps);
    assert("perpDeploy"@[0] != "spotDeploy"@[0]);
    assert(!type_selected(ActionType::SetOpenInterestCaps, t, obj));
    assert(first_selected(all_action_types(), 17, t, obj) == Some(ActionType::UserGenesis));
    assert(all_action_types()[16] == ActionType::SetMarginTableIds);
    assert("perpDeploy"@[0] != "spotDeploy"@[0]);
    assert(!type_selected(ActionType::SetMarginTableIds, t, obj));
    assert(first_selected(all_action_types(), 16, t, obj) == Some(ActionType::UserGenesis));
    assert(all_action_types()[15] == ActionType::SetGrowthModes);
    assert("perpDeploy"@[0] != "spotDeploy"@[0]);
    assert(!type_selected(ActionType::SetGrowthModes, t, obj));
    assert(first_selected(all_action_types(), 15, t, obj) == Some(ActionType::UserGenesis));
    assert(all_action_types()[14] == ActionType::SetFundingMultipliers);
    assert("perpDeploy"@[0] != "spotDeploy"@[0]);
    assert(!type_selected(ActionType::SetFundingMultipliers, t, obj));
    assert(first_selected(all_action_types(), 14, t, obj) == Some(ActionType::UserGenesis));
    assert(all_action_types()[13] == ActionType::SetFeeRecipient);
    assert("perpDeploy"@[0] != "spotDeploy"@[0]);
    assert(!type_selected(ActionType::SetFeeRecipient, t, obj));
    assert(first_selected(all_action_types(), 13, t, obj) == Some(ActionType::UserGenesis));
    assert(all_action_types()[12] == ActionType::InsertMarginTable);
    assert("perpDeploy"@[0] != "spotDeploy"@[0]);
    assert(!type_selected(ActionType::InsertMarginTable, t, obj));
    assert(first_selected(all_action_types(), 12, t, obj) == Some(ActionType::UserGenesis));
    assert(all_action_types()[11] == ActionType::UpdateLeverage);
    assert("updateLeverage"@.len() != "spotDeploy"@.len());
    assert(!type_selected(ActionType::UpdateLeverage, t, obj));
    assert(first_selected(all_action_types(), 11, t, obj) == Some(ActionType::UserGenesis));
    assert(all_action_types()[10] == ActionType::UpdateIsolatedMargin);
    assert("updateIsolatedMargin"@.len() != "spotDeploy"@.len());
    assert(!type_selected(ActionType::UpdateIsolatedMargin, t, obj));
    assert(first_selected(all_action_types(), 10, t, obj) == Some(ActionType::UserGenesis));
    assert(all_action_types()[9] == ActionType::ScheduleCancel);
    assert("scheduleCancel"@.len() != "spotDeploy"@.len());
    assert(!type_selected(ActionType::ScheduleCancel, t, obj));
    assert(first_selected(all_action_types(), 9, t, obj) == Some(ActionType::UserGenesis));
    assert(all_action_types()[8] == ActionType::BatchModify);
    assert("batchModify"@.len() != "spotDeploy"@.len());
    assert(!type_selected(ActionType::BatchModify, t, obj));
    assert(first_selected(all_action_types(), 8, t, obj) == Some(ActionType::UserGenesis));
    assert(all_action_types()[7] == ActionType::BatchOrder);
    assert("order"@.len() != "spotDeploy"@.len());
    assert(!type_selected(ActionType::BatchOrder, t, obj));
    assert(first_selected(all_action_types(), 7, t, obj) == Some(ActionType::UserGenesis));
    assert(all_action_types()[6] == ActionType::VaultTransfer);
    assert("vaultTransfer"@.len() != "spotDeploy"@.len());
    assert(!type_selected(ActionType::VaultTransfer, t, obj));
    assert(first_selected(all_action_types(), 6, t, obj) == Some(ActionType::UserGenesis));
    assert(all_action_types()[5] == ActionType::ToggleBigBlocks);
    assert("evmUserModify"@.len() != "spotDeploy"@.len());
    assert(!type_selected(ActionType::ToggleBigBlocks, t, obj));
    assert(first_selected(all_action_types(), 5, t, obj) == Some(ActionType::UserGenesis));
    assert(all_action_types()[4] == ActionType::SubAccountSpotTransfer);
    assert("subAccountSpotTransfer"@.len() != "spotDeploy"@.len());
    assert(!type_selected(ActionType::SubAccountSpotTransfer, t, obj));
    assert(first_selected(all_action_types(), 4, t, obj) == Some(ActionType::UserGenesis));
    assert(all_action_types()[3] == ActionType::SetReferrer);
    assert("setReferrer"@.len() != "spotDeploy"@.len());
    assert(!type_selected(ActionType::SetReferrer, t, obj));
    assert(first_selected(all_action_types(), 3, t, obj) == Some(ActionType::UserGenesis));
    assert(all_action_types()[2] == ActionType::NoOp);
    assert("noop"@.len() != "spotDeploy"@.len());
    assert(!type_selected(ActionType::NoOp, t, obj));
    assert(first_selected(all_action_types(), 2, t, obj) == Some(ActionType::UserGenesis));
    assert(all_action_types()[1] == ActionType::CreateSubAccount);
    assert("createSubAccount"@.len() != "spotDeploy"@.len());
    assert(!type_selected(ActionType::CreateSubAccount, t, obj));
    assert(first_selected(all_action_types(), 1, t, obj) == Some(ActionType::UserGenesis));
    assert(all_action_types()[0] == ActionType::AgentEnableDexAbstraction);
    assert("agentEnableDexAbstraction"@.len() != "spotDeploy"@.len());
    assert(!type_selected(ActionType::AgentEnableDexAbstraction, t, obj));
    assert(first_selected(all_action_types(), 0, t, obj) == Some(ActionType::UserGenesis));
}

/// A built [`ApproveAgent`] object is read back as a [`ApproveAgent`].
proof fn lemma_built_selects_approve_agent(payload: Json, chain: Option<SigningChain>)
    requires
        payload matches Json::Object(p) && keys_distinct(p) && !obj_has(p, "type"@),
        build_action_spec(type_meta(ActionType::ApproveAgent), payload, chain) is Ok,
    ensures
        first_selected(
            all_action_types(),
            0,
            type_meta(ActionType::ApproveAgent).action_type,
            build_action_spec(type_meta(ActionType::ApproveAgent), payload, chain)->Ok_0->Object_0,
        ) == Some(ActionType::ApproveAgent),
{
    reveal_strlit("agentEnableDexAbstraction");
    reveal_strlit("approveAgent");
    reveal_strlit("batchModify");
    reveal_strlit("createSubAccount");
    reveal_strlit("evmUserModify");
    reveal_strlit("genesis");
    reveal_strlit("haltTrading");
    reveal_strlit("insertMarginTable");
    reveal_strlit("modifies");
    reveal_strlit("noop");
    reveal_strlit("order");
    reveal_strlit("orders");
    reveal_strlit("perpDeploy");
    reveal_strlit("registerHyperliquidity");
    reveal_strlit("registerSpot");
    reveal_strlit("registerToken2");
    reveal_strlit("scheduleCancel");
    reveal_strlit("setDeployerTradingFeeShare");
    reveal_strlit("setFeeRecipient");
    reveal_strlit("setFundingMultipliers");
    reveal_strlit("setGrowthModes");
    reveal_strlit("setMarginTableIds");
    reveal_strlit("setOpenInterestCaps");
    reveal_strlit("setOracle");
    reveal_strlit("setReferrer");
    reveal_strlit("spotDeploy");
    reveal_strlit("subAccountSpotTransfer");
    reveal_strlit("type");
    reveal_strlit("updateIsolatedMargin");
    reveal_strlit("updateLeverage");
    reveal_strlit("userGenesis");
    reveal_strlit("vaultTransfer");
    let meta = type_meta(ActionType::ApproveAgent);
    let obj = build_action_spec(meta, payload, chain)->Ok_0->Object_0;
    let t = meta.action_type;
    assert(all_action_types()[26] == ActionType::ApproveAgent);
    assert(type_selected(ActionType::ApproveAgent, t, obj));
    assert(first_selected(all_action_types(), 26, t, obj) == Some(ActionType::ApproveAgent));
    assert(all_action_types()[25] == ActionType::UserGenesis);
    assert("spotDeploy"@.len() != "approveAgent"@.len());
    assert(!type_selected(ActionType::UserGenesis, t, obj));
    assert(first_selected(all_action_types(), 25, t, obj) == Some(ActionType::ApproveAgent));
    assert(all_action_types()[24] == ActionType::SetDeployerFees);
    assert("spotDeploy"@.len() != "approveAgent"@.len());
    assert(!type_selected(ActionType::SetDeployerFees, t, obj));
    assert(first_selected(all_action_types(), 24, t, obj) == Some(ActionType::ApproveAgent));
    assert(all_action_types()[23] == ActionType::RegisterToken);
    assert("spotDeploy"@.len() != "approveAgent"@.len());
    assert(!type_selected(ActionType::RegisterToken, t, obj));
    assert(first_selected(all_action_types(), 23, t, obj) == Some(ActionType::ApproveAgent));
    assert(all_action_types()[22] == ActionType::RegisterSpot);
    assert("spotDeploy"@.len() != "approveAgent"@.len());
    assert(!type_selected(ActionType::RegisterSpot, t, obj));
    assert(first_selected(all_action_types(), 22, t, obj) == Some(ActionType::ApproveAgent));
    assert(all_action_types()[21] == ActionType::RegisterHyperliquidity);
    assert("spotDeploy"@.len() != "approveAgent"@.len());
    assert(!type_selected(ActionType::RegisterHyperliquidity, t, obj));
    assert(first_selected(all_action_types(), 21, t, obj) == Some(ActionType::ApproveAgent));
    assert(all_action_types()[20] == ActionType::Genesis);
    assert("spotDeploy"@.len() != "approveAgent"@.len());
    assert(!type_selected(ActionType::Genesis, t, obj));
    assert(first_selected(all_action_types(), 20, t, obj) == Some(ActionType::ApproveAgent));
    assert(all_action_types()[19] == ActionType::ToggleTrading);
    assert("perpDeploy"@.len() != "approveAgent"@.len());
    assert(!type_selected(ActionType::ToggleTrading, t, obj));
    assert(first_selected(all_action_types(), 19, t, obj) == Some(ActionType::ApproveAgent));
    assert(all_action_types()[18] == ActionType::SetOracle);
    assert("perpDeploy"@.len() != "approveAgent"@.len());
    assert(!type_selected(ActionType::SetOracle, t, obj));
    assert(first_selected(all_action_types(), 18, t, obj) == Some(ActionType::ApproveAgent));
    assert(all_action_types()[17] == ActionType::SetOpenInterestCaps);
    assert("perpDeploy"@.len() != "approveAgent"@.len());
    assert(!type_selected(ActionType::SetOpenInterestCaps, t, obj));
    assert(first_selected(all_action_types(), 17, t, obj) == Some(ActionType::ApproveAgent));
    assert(all_action_types()[16] == ActionType::SetMarginTableIds);
    assert("perpDeploy"@.len() != "approveAgent"@.len());
    assert(!type_selected(ActionType::SetMarginTableIds, t, obj));
    assert(first_selected(all_action_types(), 16, t, obj) == Some(ActionType::ApproveAgent));
    assert(all_action_types()[15] == ActionType::SetGrowthModes);
    assert("perpDeploy"@.len() != "approveAgent"@.len());
    assert(!type_selected(ActionType::SetGrowthModes, t, obj));
    assert(first_selected(all_action_types(), 15, t, obj) == Some(ActionType::ApproveAgent));
    assert(all_action_types()[14] == ActionType::SetFundingMultipliers);
    assert("perpDeploy"@.len() != "approveAgent"@.len());
    assert(!type_selected(ActionType::SetFundingMultipliers, t, obj));
    assert(first_selected(all_action_types(), 14, t, obj) == Some(ActionType::ApproveAgent));
    assert(all_action_types()[13] == ActionType::SetFeeRecipient);
    assert("perpDeploy"@.len() != "approveAgent"@.len());
    assert(!type_selected(ActionType::SetFeeRecipient, t, obj));
    assert(first_selected(all_action_types(), 13, t, obj) == Some(ActionType::ApproveAgent));
    assert(all_action_types()[12] == ActionType::InsertMarginTable);
    assert("perpDeploy"@.len() != "approveAgent"@.len());
    assert(!type_selected(ActionType::InsertMarginTable, t, obj));
    assert(first_selected(all_action_types(), 12, t, obj) == Some(ActionType::ApproveAgent));
    assert(all_action_types()[11] == ActionType::UpdateLeverage);
    assert("updateLeverage"@.len() != "approveAgent"@.len());
    assert(!type_selected(ActionType::UpdateLeverage, t, obj));
    assert(first_selected(all_action_types(), 11, t, obj) == Some(ActionType::ApproveAgent));
    assert(all_action_types()[10] == ActionType::UpdateIsolatedMargin);
    assert("updateIsolatedMargin"@.len() != "approveAgent"@.len());
    assert(!type_selected(ActionType::UpdateIsolatedMargin, t, obj));
    assert(first_selected(all_action_types(), 10, t, obj) == Some(ActionType::ApproveAgent));
    assert(all_action_types()[9] == ActionType::ScheduleCancel);
    assert("scheduleCancel"@.len() != "approveAgent"@.len());
    assert(!type_selected(ActionType::ScheduleCancel, t, obj));
    assert(first_selected(all_action_types(), 9, t, obj) == Some(ActionType::ApproveAgent));
    assert(all_action_types()[8] == ActionType::BatchModify);
    assert("batchModify"@.len() != "approveAgent"@.len());
    assert(!type_selected(ActionType::BatchModify, t, obj));
    assert(first_selected(all_action_types(), 8, t, obj) == Some(ActionType::ApproveAgent));
    assert(all_action_types()[7] == ActionType::BatchOrder);
    assert("order"@.len() != "approveAgent"@.len());
    assert(!type_selected(ActionType::BatchOrder, t, obj));
    assert(first_selected(all_action_types(), 7, t, obj) == Some(ActionType::ApproveAgent));
    assert(all_action_types()[6] == ActionType::VaultTransfer);
    assert("vaultTransfer"@.len() != "approveAgent"@.len());
    assert(!type_selected(ActionType::VaultTransfer, t, obj));
    assert(first_selected(all_action_types(), 6, t, obj) == Some(ActionType::ApproveAgent));
    assert(all_action_types()[5] == ActionType::ToggleBigBlocks);
    assert("evmUserModify"@.len() != "approveAgent"@.len());
    assert(!type_selected(ActionType::ToggleBigBlocks, t, obj));
    assert(first_selected(all_action_types(), 5, t, obj) == Some(ActionType::ApproveAgent));
    assert(all_action_types()[4] == ActionType::SubAccountSpotTransfer);
    assert("subAccountSpotTransfer"@.len() != "approveAgent"@.len());
    assert(!type_selected(ActionType::SubAccountSpotTransfer, t, obj));
    assert(first_selected(all_action_types(), 4, t, obj) == Some(ActionType::ApproveAgent));
    assert(all_action_types()[3] == ActionType::SetReferrer);
    assert("setReferrer"@.len() != "approveAgent"@.len());
    assert(!type_selected(ActionType::SetReferrer, t, obj));
    assert(first_selected(all_action_types(), 3, t, obj) == Some(ActionType::ApproveAgent));
    assert(all_action_types()[2] == ActionType::NoOp);
    assert("noop"@.len() != "approveAgent"@.len());
    assert(!type_selected(ActionType::NoOp, t, obj));
    assert(first_selected(all_action_types(), 2, t, obj) == Some(ActionType::ApproveAgent));
    assert(all_action_types()[1] == ActionType::CreateSubAccount);
    assert("createSubAccount"@.len() != "approveAgent"@.len());
    assert(!type_selected(ActionType::CreateSubAccount, t, obj));
    assert(first_selected(all_action_types(), 1, t, obj) == Some(ActionType::ApproveAgent));
    assert(all_action_types()[0] == ActionType::AgentEnableDexAbstraction);
    assert("agentEnableDexAbstraction"@.len() != "approveAgent"@.len());
    assert(!type_selected(ActionType::AgentEnableDexAbstraction, t, obj));
    assert(first_selected(all_action_types(), 0, t, obj) == Some(ActionType::ApproveAgent));
}

/// A built [`ApproveBuilderFee`] object is read back as a [`ApproveBuilderFee`].
proof fn lemma_built_selects_approve_builder_fee(payload: Json, chain: Option<SigningChain>)
    requires
        payload matches Json::Object(p) && keys_distinct(p) && !obj_has(p, "type"@),
        build_action_spec(type_meta(ActionType::ApproveBuilderFee), payload, chain) is Ok,
    ensures
        first_selected(
            all_action_types(),
            0,
            type_meta(ActionType::ApproveBuilderFee).action_type,
            build_action_spec(type_meta(ActionType::ApproveBuilderFee), payload, chain)->Ok_0->Object_0,
        ) == Some(ActionType::ApproveBuilderFee),
{
    reveal_strlit("agentEnableDexAbstraction");
    reveal_strlit("approveAgent");
    reveal_strlit("approveBuilderFee");
    reveal_strlit("batchModify");
    reveal_strlit("createSubAccount");
    reveal_strlit("evmUserModify");
    reveal_strlit("genesis");
    reveal_strlit("haltTrading");
    reveal_strlit("insertMarginTable");
    reveal_strlit("modifies");
    reveal_strlit("noop");
    reveal_strlit("order");
    reveal_strlit("orders");
    reveal_strlit("perpDeploy");
    reveal_strlit("registerHyperliquidity");
    reveal_strlit("registerSpot");
    reveal_strlit("registerToken2");
    reveal_strlit("scheduleCancel");
    reveal_strlit("setDeployerTradingFeeShare");
    reveal_strlit("setFeeRecipient");
    reveal_strlit("setFundingMultipliers");
    reveal_strlit("setGrowthModes");
    reveal_strlit("setMarginTableIds");
    reveal_strlit("setOpenInterestCaps");
    reveal_strlit("setOracle");
    reveal_strlit("setReferrer");
    reveal_strlit("spotDeploy");
    reveal_strlit("subAccountSpotTransfer");
    reveal_strlit("type");
    reveal_strlit("updateIsolatedMargin");
    reveal_strlit("updateLeverage");
    reveal_strlit("userGenesis");
    reveal_strlit("vaultTransfer");
    let meta = type_meta(ActionType::ApproveBuilderFee);
    let obj = build_action_spec(meta, payload, chain)->Ok_0->Object_0;
    let t = meta.action_type;
    assert(all_action_types()[27] == ActionType::ApproveBuilderFee);
    assert(type_selected(ActionType::ApproveBuilderFee, t, obj));
    assert(first_selected(all_action_types(), 27, t, obj) == Some(ActionType::ApproveBuilderFee));
    assert(all_action_types()[26] == ActionType::ApproveAgent);
    assert("approveAgent"@.len() != "approveBuilderFee"@.len());
    assert(!type_selected(ActionType::ApproveAgent, t, obj));
    assert(first_selected(all_action_types(), 26, t, obj) == Some(ActionType::ApproveBuilderFee));
    assert(all_action_types()[25] == ActionType::UserGenesis);
    assert("spotDeploy"@.len() != "approveBuilderFee"@.len());
    assert(!type_selected(ActionType::UserGenesis, t, obj));
    assert(first_selected(all_action_types(), 25, t, obj) == Some(ActionType::ApproveBuilderFee));
    assert(all_action_types()[24] == ActionType::SetDeployerFees);
    assert("spotDeploy"@.len() != "approveBuilderFee"@.len());
    assert(!type_selected(ActionType::SetDeployerFees, t, obj));
    assert(first_selected(all_action_types(), 24, t, obj) == Some(ActionType::ApproveBuilderFee));
    assert(all_action_types()[23] == ActionType::RegisterToken);
    assert("spotDeploy"@.len() != "approveBuilderFee"@.len());
    assert(!type_selected(ActionType::RegisterToken, t, obj));
    assert(first_selected(all_action_types(), 23, t, obj) == Some(ActionType::ApproveBuilderFee));
    assert(all_action_types()[22] == ActionType::RegisterSpot);
    assert("spotDeploy"@.len() != "approveBuilderFee"@.len());
    assert(!type_selected(ActionType::RegisterSpot, t, obj));
    assert(first_selected(all_action_types(), 22, t, obj) == Some(ActionType::ApproveBuilderFee));
    assert(all_action_types()[21] == ActionType::RegisterHyperliquidity);
    assert("spotDeploy"@.len() != "approveBuilderFee"@.len());
    assert(!type_selected(ActionType::RegisterHyperliquidity, t, obj));
    assert(first_selected(all_action_types(), 21, t, obj) == Some(ActionType::ApproveBuilderFee));
    assert(all_action_types()[20] == ActionType::Genesis);
    assert("spotDeploy"@.len() != "approveBuilderFee"@.len());
    assert(!type_selected(ActionType::Genesis, t, obj));
    assert(first_selected(all_action_types(), 20, t, obj) == Some(ActionType::ApproveBuilderFee));
    assert(all_action_types()[19] == ActionType::ToggleTrading);
    assert("perpDeploy"@.len() != "approveBuilderFee"@.len());
    assert(!type_selected(ActionType::ToggleTrading, t, obj));
    assert(first_selected(all_action_types(), 19, t, obj) == Some(ActionType::ApproveBuilderFee));
    assert(all_action_types()[18] == ActionType::SetOracle);
    assert("perpDeploy"@.len() != "approveBuilderFee"@.len());
    assert(!type_selected(ActionType::SetOracle, t, obj));
    assert(first_selected(all_action_types(), 18, t, obj) == Some(ActionType::ApproveBuilderFee));
    assert(all_action_types()[17] == ActionType::SetOpenInterestCaps);
    assert("perpDeploy"@.len() != "approveBuilderFee"@.len());
    assert(!type_selected(ActionType::SetOpenInterestCaps, t, obj));
    assert(first_selected(all_action_types(), 17, t, obj) == Some(ActionType::ApproveBuilderFee));
    assert(all_action_types()[16] == ActionType::SetMarginTableIds);
    assert("perpDeploy"@.len() != "approveBuilderFee"@.len());
    assert(!type_selected(ActionType::SetMarginTableIds, t, obj));
    assert(first_selected(all_action_types(), 16, t, obj) == Some(ActionType::ApproveBuilderFee));
    assert(all_action_types()[15] == ActionType::SetGrowthModes);
    assert("perpDeploy"@.len() != "approveBuilderFee"@.len());
    assert(!type_selected(ActionType::SetGrowthModes, t, obj));
    assert(first_selected(all_action_types(), 15, t, obj) == Some(ActionType::ApproveBuilderFee));
    assert(all_action_types()[14] == ActionType::SetFundingMultipliers);
    assert("perpDeploy"@.len() != "approveBuilderFee"@.len());
    assert(!type_selected(ActionType::SetFundingMultipliers, t, obj));
    assert(first_selected(all_action_types(), 14, t, obj) == Some(ActionType::ApproveBuilderFee));
    assert(all_action_types()[13] == ActionType::SetFeeRecipient);
    assert("perpDeploy"@.len() != "approveBuilderFee"@.len());
    assert(!type_selected(ActionType::SetFeeRecipient, t, obj));
    assert(first_selected(all_action_types(), 13, t, obj) == Some(ActionType::ApproveBuilderFee));
    assert(all_action_types()[12] == ActionType::InsertMarginTable);
    assert("perpDeploy"@.len() != "approveBuilderFee"@.len());
    assert(!type_selected(ActionType::InsertMarginTable, t, obj));
    assert(first_selected(all_action_types(), 12, t, obj) == Some(ActionType::ApproveBuilderFee));
    assert(all_action_types()[11] == ActionType::UpdateLeverage);
    assert("updateLeverage"@.len() != "approveBuilderFee"@.len());
    assert(!type_selected(ActionType::UpdateLeverage, t, obj));
    assert(first_selected(all_action_types(), 11, t, obj) == Some(ActionType::ApproveBuilderFee));
    assert(all_action_types()[10] == ActionType::UpdateIsolatedMargin);
    assert("updateIsolatedMargin"@.len() != "approveBuilderFee"@.len());
    assert(!type_selected(ActionType::UpdateIsolatedMargin, t, obj));
    assert(first_selected(all_action_types(), 10, t, obj) == Some(ActionType::ApproveBuilderFee));
    assert(all_action_types()[9] == ActionType::ScheduleCancel);
    assert("scheduleCancel"@.len() != "approveBuilderFee"@.len());
    assert(!type_selected(ActionType::ScheduleCancel, t, obj));
    assert(first_selected(all_action_types(), 9, t, obj) == Some(ActionType::ApproveBuilderFee));
    assert(all_action_types()[8] == ActionType::BatchModify);
    assert("batchModify"@.len() != "approveBuilderFee"@.len());
    assert(!type_selected(ActionType::BatchModify, t, obj));
    assert(first_selected(all_action_types(), 8, t, obj) == Some(ActionType::ApproveBuilderFee));
    assert(all_action_types()[7] == ActionType::BatchOrder);
    assert("order"@.len() != "approveBuilderFee"@.len());
    assert(!type_selected(ActionType::BatchOrder, t, obj));
    assert(first_selected(all_action_types(), 7, t, obj) == Some(ActionType::ApproveBuilderFee));
    assert(all_action_types()[6] == ActionType::VaultTransfer);
    assert("vaultTransfer"@.len() != "approveBuilderFee"@.len());
    assert(!type_selected(ActionType::VaultTransfer, t, obj));
    assert(first_selected(all_action_types(), 6, t, obj) == Some(ActionType::ApproveBuilderFee));
    assert(all_action_types()[5] == ActionType::ToggleBigBlocks);
    assert("evmUserModify"@.len() != "approveBuilderFee"@.len());
    assert(!type_selected(ActionType::ToggleBigBlocks, t, obj));
    assert(first_selected(all_action_types(), 5, t, obj) == Some(ActionType::ApproveBuilderFee));
    assert(all_action_types()[4] == ActionType::SubAccountSpotTransfer);
    assert("subAccountSpotTransfer"@.len() != "approveBuilderFee"@.len());
    assert(!type_selected(ActionType::SubAccountSpotTransfer, t, obj));
    assert(first_selected(all_action_types(), 4, t, obj) == Some(ActionType::ApproveBuilderFee));
    assert(all_action_types()[3] == ActionType::SetReferrer);
    assert("setReferrer"@.len() != "approveBuilderFee"@.len());
    assert(!type_selected(ActionType::SetReferrer, t, obj));
    assert(first_selected(all_action_types(), 3, t, obj) == Some(ActionType::ApproveBuilderFee));
    assert(all_action_types()[2] == ActionType::NoOp);
    assert("noop"@.len() != "approveBuilderFee"@.len());
    assert(!type_selected(ActionType::NoOp, t, obj));
    assert(first_selected(all_action_types(), 2, t, obj) == Some(ActionType::ApproveBuilderFee));
    assert(all_action_types()[1] == ActionType::CreateSubAccount);
    assert("createSubAccount"@.len() != "approveBuilderFee"@.len());
    assert(!type_selected(ActionType::CreateSubAccount, t, obj));
    assert(first_selected(all_action_types(), 1, t, obj) == Some(ActionType::ApproveBuilderFee));
    assert(all_action_types()[0] == ActionType::AgentEnableDexAbstraction);
    assert("agentEnableDexAbstraction"@.len() != "approveBuilderFee"@.len());
    assert(!type_selected(ActionType::AgentEnableDexAbstraction, t, obj));
    assert(first_selected(all_action_types(), 0, t, obj) == Some(ActionType::ApproveBuilderFee));
}

/// A built [`ConvertToMultiSigUser`] object is read back as a [`ConvertToMultiSigUser`].
proof fn lemma_built_selects_convert_to_multi_sig_user(payload: Json, chain: Option<SigningChain>)
    requires
        payload matches Json::Object(p) && keys_distinct(p) && !obj_has(p, "type"@),
        build_action_spec(type_meta(ActionType::ConvertToMultiSigUser), payload, chain) is Ok,
    ensures
        first_selected(
            all_action_types(),
            0,
            type_meta(ActionType::ConvertToMultiSigUser).action_type,
            build_action_spec(type_meta(ActionType::ConvertToMultiSigUser), payload, chain)->Ok_0->Object_0,
        ) == Some(ActionType::ConvertToMultiSigUser),
{
    reveal_strlit("agentEnableDexAbstraction");
    reveal_strlit("approveAgent");
    reveal_strlit("approveBuilderFee");
    reveal_strlit("batchModify");
    reveal_strlit("convertToMultiSigUser");
    reveal_strlit("createSubAccount");
    reveal_strlit("evmUserModify");
    reveal_strlit("genesis");
    reveal_strlit("haltTrading");
    reveal_strlit("insertMarginTable");
    reveal_strlit("modifies");
    reveal_strlit("noop");
    reveal_strlit("order");
    reveal_strlit("orders");
    reveal_strlit("perpDeploy");
    reveal_strlit("registerHyperliquidity");
    reveal_strlit("registerSpot");
    reveal_strlit("registerToken2");
    reveal_strlit("scheduleCancel");
    reveal_strlit("setDeployerTradingFeeShare");
    reveal_strlit("setFeeRecipient");
    reveal_strlit("setFundingMultipliers");
    reveal_strlit("setGrowthModes");
    reveal_strlit("setMarginTableIds");
    reveal_strlit("setOpenInterestCaps");
    reveal_strlit("setOracle");
    reveal_strlit("setReferrer");
    reveal_strlit("spotDeploy");
    reveal_strlit("subAccountSpotTransfer");
    reveal_strlit("type");
    reveal_strlit("updateIsolatedMargin");
    reveal_strlit("updateLeverage");
    reveal_strlit("userGenesis");
    reveal_strlit("vaultTransfer");
    let meta = type_meta(ActionType::ConvertToMultiSigUser);
    let obj = build_action_spec(meta, payload, chain)->Ok_0->Object_0;
    let t = meta.action_type;
    assert(all_action_types()[28] == ActionType::ConvertToMultiSigUser);
    assert(type_selected(ActionType::ConvertToMultiSigUser, t, obj));
    assert(first_selected(all_action_types(), 28, t, obj) == Some(ActionType::ConvertToMultiSigUser));
    assert(all_action_types()[27] == ActionType::ApproveBuilderFee);
    assert("approveBuilderFee"@.len() != "convertToMultiSigUser"@.len());
    assert(!type_selected(ActionType::ApproveBuilderFee, t, obj));
    assert(first_selected(all_action_types(), 27, t, obj) == Some(ActionType::ConvertToMultiSigUser));
    assert(all_action_types()[26] == ActionType::ApproveAgent);
    assert("approveAgent"@.len() != "convertToMultiSigUser"@.len());
    assert(!type_selected(ActionType::ApproveAgent, t, obj));
    assert(first_selected(all_action_types(), 26, t, obj) == Some(ActionType::ConvertToMultiSigUser));
    assert(all_action_types()[25] == ActionType::UserGenesis);
    assert("spotDeploy"@.len() != "convertToMultiSigUser"@.len());
    assert(!type_selected(ActionType::UserGenesis, t, obj));
    assert(first_selected(all_action_types(), 25, t, obj) == Some(ActionType::ConvertToMultiSigUser));
    assert(all_action_types()[24] == ActionType::SetDeployerFees);
    assert("spotDeploy"@.len() != "convertToMultiSigUser"@.len());
    assert(!type_selected(ActionType::SetDeployerFees, t, obj));
    assert(first_selected(all_action_types(), 24, t, obj) == Some(ActionType::ConvertToMultiSigUser));
    assert(all_action_types()[23] == ActionType::RegisterToken);
    assert("spotDeploy"@.len() != "convertToMultiSigUser"@.len());
    assert(!type_selected(ActionType::RegisterToken, t, obj));
    assert(first_selected(all_action_types(), 23, t, obj) == Some(ActionType::ConvertToMultiSigUser));
    assert(all_action_types()[22] == ActionType::RegisterSpot);
    assert("spotDeploy"@.len() != "convertToMultiSigUser"@.len());
    assert(!type_selected(ActionType::RegisterSpot, t, obj));
    assert(first_selected(all_action_types(), 22, t, obj) == Some(ActionType::ConvertToMultiSigUser));
    assert(all_action_types()[21] == ActionType::RegisterHyperliquidity);
    assert("spotDeploy"@.len() != "convertToMultiSigUser"@.len());
    assert(!type_selected(ActionType::RegisterHyperliquidity, t, obj));
    assert(first_selected(all_action_types(), 21, t, obj) == Some(ActionType::ConvertToMultiSigUser));
    assert(all_action_types()[20] == ActionType::Genesis);
    assert("spotDeploy"@.len() != "convertToMultiSigUser"@.len());
    assert(!type_selected(ActionType::Genesis, t, obj));
    assert(first_selected(all_action_types(), 20, t, obj) == Some(ActionType::ConvertToMultiSigUser));
    assert(all_action_types()[19] == ActionType::ToggleTrading);
    assert("perpDeploy"@.len() != "convertToMultiSigUser"@.len());
    assert(!type_selected(ActionType::ToggleTrading, t, obj));
    assert(first_selected(all_action_types(), 19, t, obj) == Some(ActionType::ConvertToMultiSigUser));
    assert(all_action_types()[18] == ActionType::SetOracle);
    assert("perpDeploy"@.len() != "convertToMultiSigUser"@.len());
    assert(!type_selected(ActionType::SetOracle, t, obj));
    assert(first_selected(all_action_types(), 18, t, obj) == Some(ActionType::ConvertToMultiSigUser));
    assert(all_action_types()[17] == ActionType::SetOpenInterestCaps);
    assert("perpDeploy"@.len() != "convertToMultiSigUser"@.len());
    assert(!type_selected(ActionType::SetOpenInterestCaps, t, obj));
    assert(first_selected(all_action_types(), 17, t, obj) == Some(ActionType::ConvertToMultiSigUser));
    assert(all_action_types()[16] == ActionType::SetMarginTableIds);
    assert("perpDeploy"@.len() != "convertToMultiSigUser"@.len());
    assert(!type_selected(ActionType::SetMarginTableIds, t, obj));
    assert(first_selected(all_action_types(), 16, t, obj) == Some(ActionType::ConvertToMultiSigUser));
    assert(all_action_types()[15] == ActionType::SetGrowthModes);
    assert("perpDeploy"@.len() != "convertToMultiSigUser"@.len());
    assert(!type_selected(ActionType::SetGrowthModes, t, obj));
    assert(first_selected(all_action_types(), 15, t, obj) == Some(ActionType::ConvertToMultiSigUser));
    assert(all_action_types()[14] == ActionType::SetFundingMultipliers);
    assert("perpDeploy"@.len() != "convertToMultiSigUser"@.len());
    assert(!type_selected(ActionType::SetFundingMultipliers, t, obj));
    assert(first_selected(all_action_types(), 14, t, obj) == Some(ActionType::ConvertToMultiSigUser));
    assert(all_action_types()[13] == ActionType::SetFeeRecipient);
    assert("perpDeploy"@.len() != "convertToMultiSigUser"@.len());
    assert(!type_selected(ActionType::SetFeeRecipient, t, obj));
    assert(first_selected(all_action_types(), 13, t, obj) == Some(ActionType::ConvertToMultiSigUser));
    assert(all_action_types()[12] == ActionType::InsertMarginTable);
    assert("perpDeploy"@.len() != "convertToMultiSigUser"@.len());
    assert(!type_selected(ActionType::InsertMarginTable, t, obj));
    assert(first_selected(all_action_types(), 12, t, obj) == Some(ActionType::ConvertToMultiSigUser));
    assert(all_action_types()[11] == ActionType::UpdateLeverage);
    assert("updateLeverage"@.len() != "convertToMultiSigUser"@.len());
    assert(!type_selected(ActionType::UpdateLeverage, t, obj));
    assert(first_selected(all_action_types(), 11, t, obj) == Some(ActionType::ConvertToMultiSigUser));
    assert(all_action_types()[10] == ActionType::UpdateIsolatedMargin);
    assert("updateIsolatedMargin"@.len() != "convertToMultiSigUser"@.len());
    assert(!type_selected(ActionType::UpdateIsolatedMargin, t, obj));
    assert(first_selected(all_action_types(), 10, t, obj) == Some(ActionType::ConvertToMultiSigUser));
    assert(all_action_types()[9] == ActionType::ScheduleCancel);
    assert("scheduleCancel"@.len() != "convertToMultiSigUser"@.len());
    assert(!type_selected(ActionType::ScheduleCancel, t, obj));
    assert(first_selected(all_action_types(), 9, t, obj) == Some(ActionType::ConvertToMultiSigUser));
    assert(all_action_types()[8] == ActionType::BatchModify);
    assert("batchModify"@.len() != "convertToMultiSigUser"@.len());
    assert(!type_selected(ActionType::BatchModify, t, obj));
    assert(first_selected(all_action_types(), 8, t, obj) == Some(ActionType::ConvertToMultiSigUser));
    assert(all_action_types()[7] == ActionType::BatchOrder);
    assert("order"@.len() != "convertToMultiSigUser"@.len());
    assert(!type_selected(ActionType::BatchOrder, t, obj));
    assert(first_selected(all_action_types(), 7, t, obj) == Some(ActionType::ConvertToMultiSigUser));
    assert(all_action_types()[6] == ActionType::VaultTransfer);
    assert("vaultTransfer"@.len() != "convertToMultiSigUser"@.len());
    assert(!type_selected(ActionType::VaultTransfer, t, obj));
    assert(first_selected(all_action_types(), 6, t, obj) == Some(ActionType::ConvertToMultiSigUser));
    assert(all_action_types()[5] == ActionType::ToggleBigBlocks);
    assert("evmUserModify"@.len() != "convertToMultiSigUser"@.len());
    assert(!type_selected(ActionType::ToggleBigBlocks, t, obj));
    assert(first_selected(all_action_types(), 5, t, obj) == Some(ActionType::ConvertToMultiSigUser));
    assert(all_action_types()[4] == ActionType::SubAccountSpotTransfer);
    assert("subAccountSpotTransfer"@.len() != "convertToMultiSigUser"@.len());
    assert(!type_selected(ActionType::SubAccountSpotTransfer, t, obj));
    assert(first_selected(all_action_types(), 4, t, obj) == Some(ActionType::ConvertToMultiSigUser));
    assert(all_action_types()[3] == ActionType::SetReferrer);
    assert("setReferrer"@.len() != "convertToMultiSigUser"@.len());
    assert(!type_selected(ActionType::SetReferrer, t, obj));
    assert(first_selected(all_action_types(), 3, t, obj) == Some(ActionType::ConvertToMultiSigUser));
    assert(all_action_types()[2] == ActionType::NoOp);
    assert("noop"@.len() != "convertToMultiSigUser"@.len());
    assert(!type_selected(ActionType::NoOp, t, obj));
    assert(first_selected(all_action_types(), 2, t, obj) == Some(ActionType::ConvertToMultiSigUser));
    assert(all_action_types()[1] == ActionType::CreateSubAccount);
    assert("createSubAccount"@.len() != "convertToMultiSigUser"@.len());
    assert(!type_selected(ActionType::CreateSubAccount, t, obj));
    assert(first_selected(all_action_types(), 1, t, obj) == Some(ActionType::ConvertToMultiSigUser));
    assert(all_action_types()[0] == ActionType::AgentEnableDexAbstraction);
    assert("agentEnableDexAbstraction"@.len() != "convertToMultiSigUser"@.len());
    assert(!type_selected(ActionType::AgentEnableDexAbstraction, t, obj));
    assert(first_selected(all_action_types(), 0, t, obj) == Some(ActionType::ConvertToMultiSigUser));
}

/// A built [`SendAsset`] object is read back as a [`SendAsset`].
proof fn lemma_built_selects_send_asset(payload: Json, chain: Option<SigningChain>)
    requires
        payload matches Json::Object(p) && keys_distinct(p) && !obj_has(p, "type"@),
        build_action_spec(type_meta(ActionType::SendAsset), payload, chain) is Ok,
    ensures
        first_selected(
            all_action_types(),
            0,
            type_meta(ActionType::SendAsset).action_type,
            build_action_spec(type_meta(ActionType::SendAsset), payload, chain)->Ok_0->Object_0,
        ) == Some(ActionType::SendAsset),
{
    reveal_strlit("agentEnableDexAbstraction");
    reveal_strlit("approveAgent");
    reveal_strlit("approveBuilderFee");
    reveal_strlit("batchModify");
    reveal_strlit("convertToMultiSigUser");
    reveal_strlit("createSubAccount");
    reveal_strlit("evmUserModify");
    reveal_strlit("genesis");
    reveal_strlit("haltTrading");
    reveal_strlit("insertMarginTable");
    reveal_strlit("modifies");
    reveal_strlit("noop");
    reveal_strlit("order");
    reveal_strlit("orders");
    reveal_strlit("perpDeploy");
    reveal_strlit("registerHyperliquidity");
    reveal_strlit("registerSpot");
    reveal_strlit("registerToken2");
    reveal_strlit("scheduleCancel");
    reveal_strlit("sendAsset");
    reveal_strlit("setDeployerTradingFeeShare");
    reveal_strlit("setFeeRecipient");
    reveal_strlit("setFundingMultipliers");
    reveal_strlit("setGrowthModes");
    reveal_strlit("setMarginTableIds");
    reveal_strlit("setOpenInterestCaps");
    reveal_strlit("setOracle");
    reveal_strlit("setReferrer");
    reveal_strlit("spotDeploy");
    reveal_strlit("subAccountSpotTransfer");
    reveal_strlit("type");
    reveal_strlit("updateIsolatedMargin");
    reveal_strlit("updateLeverage");
    reveal_strlit("userGenesis");
    reveal_strlit("vaultTransfer");
    let meta = type_meta(ActionType::SendAsset);
    let obj = build_action_spec(meta, payload, chain)->Ok_0->Object_0;
    let t = meta.action_type;
    assert(all_action_types()[29] == ActionType::SendAsset);
    assert(type_selected(ActionType::SendAsset, t, obj));
    assert(first_selected(all_action_types(), 29, t, obj) == Some(ActionType::SendAsset));
    assert(all_action_types()[28] == ActionType::ConvertToMultiSigUser);
    assert("convertToMultiSigUser"@.len() != "sendAsset"@.len());
    assert(!type_selected(ActionType::ConvertToMultiSigUser, t, obj));
    assert(first_selected(all_action_types(), 28, t, obj) == Some(ActionType::SendAsset));
    assert(all_action_types()[27] == ActionType::ApproveBuilderFee);
    assert("approveBuilderFee"@.len() != "sendAsset"@.len());
    assert(!type_selected(ActionType::ApproveBuilderFee, t, obj));
    assert(first_selected(all_action_types(), 27, t, obj) == Some(ActionType::SendAsset));
    assert(all_action_types()[26] == ActionType::ApproveAgent);
    assert("approveAgent"@.len() != "sendAsset"@.len());
    assert(!type_selected(ActionType::ApproveAgent, t, obj));
    assert(first_selected(all_action_types(), 26, t, obj) == Some(ActionType::SendAsset));
    assert(all_action_types()[25] == ActionType::UserGenesis);
    assert("spotDeploy"@.len() != "sendAsset"@.len());
    assert(!type_selected(ActionType::UserGenesis, t, obj));
    assert(first_selected(all_action_types(), 25, t, obj) == Some(ActionType::SendAsset));
    assert(all_action_types()[24] == ActionType::SetDeployerFees);
    assert("spotDeploy"@.len() != "sendAsset"@.len());
    assert(!type_selected(ActionType::SetDeployerFees, t, obj));
    assert(first_selected(all_action_types(), 24, t, obj) == Some(ActionType::SendAsset));
    assert(all_action_types()[23] == ActionType::RegisterToken);
    assert("spotDeploy"@.len() != "sendAsset"@.len());
    assert(!type_selected(ActionType::RegisterToken, t, obj));
    assert(first_selected(all_action_types(), 23, t, obj) == Some(ActionType::SendAsset));
    assert(all_action_types()[22] == ActionType::RegisterSpot);
    assert("spotDeploy"@.len() != "sendAsset"@.len());
    assert(!type_selected(ActionType::RegisterSpot, t, obj));
    assert(first_selected(all_action_types(), 22, t, obj) == Some(ActionType::SendAsset));
    assert(all_action_types()[21] == ActionType::RegisterHyperliquidity);
    assert("spotDeploy"@.len() != "sendAsset"@.len());
    assert(!type_selected(ActionType::RegisterHyperliquidity, t, obj));
    assert(first_selected(all_action_types(), 21, t, obj) == Some(ActionType::SendAsset));
    assert(all_action_types()[20] == ActionType::Genesis);
    assert("spotDeploy"@.len() != "sendAsset"@.len());
    assert(!type_selected(ActionType::Genesis, t, obj));
    assert(first_selected(all_action_types(), 20, t, obj) == Some(ActionType::SendAsset));
    assert(all_action_types()[19] == ActionType::ToggleTrading);
    assert("perpDeploy"@.len() != "sendAsset"@.len());
    assert(!type_selected(ActionType::ToggleTrading, t, obj));
    assert(first_selected(all_action_types(), 19, t, obj) == Some(ActionType::SendAsset));
    assert(all_action_types()[18] == ActionType::SetOracle);
    assert("perpDeploy"@.len() != "sendAsset"@.len());
    assert(!type_selected(ActionType::SetOracle, t, obj));
    assert(first_selected(all_action_types(), 18, t, obj) == Some(ActionType::SendAsset));
    assert(all_action_types()[17] == ActionType::SetOpenInterestCaps);
    assert("perpDeploy"@.len() != "sendAsset"@.len());
    assert(!type_selected(ActionType::SetOpenInterestCaps, t, obj));
    assert(first_selected(all_action_types(), 17, t, obj) == Some(ActionType::SendAsset));
    assert(all_action_types()[16] == ActionType::SetMarginTableIds);
    assert("perpDeploy"@.len() != "sendAsset"@.len());
    assert(!type_selected(ActionType::SetMarginTableIds, t, obj));
    assert(first_selected(all_action_types(), 16, t, obj) == Some(ActionType::SendAsset));
    assert(all_action_types()[15] == ActionType::SetGrowthModes);
    assert("perpDeploy"@.len() != "sendAsset"@.len());
    assert(!type_selected(ActionType::SetGrowthModes, t, obj));
    assert(first_selected(all_action_types(), 15, t, obj) == Some(ActionType::SendAsset));
    assert(all_action_types()[14] == ActionType::SetFundingMultipliers);
    assert("perpDeploy"@.len() != "sendAsset"@.len());
    assert(!type_selected(ActionType::SetFundingMultipliers, t, obj));
    assert(first_selected(all_action_types(), 14, t, obj) == Some(ActionType::SendAsset));
    assert(all_action_types()[13] == ActionType::SetFeeRecipient);
    assert("perpDeploy"@.len() != "sendAsset"@.len());
    assert(!type_selected(ActionType::SetFeeRecipient, t, obj));
    assert(first_selected(all_action_types(), 13, t, obj) == Some(ActionType::SendAsset));
    assert(all_action_types()[12] == ActionType::InsertMarginTable);
    assert("perpDeploy"@.len() != "sendAsset"@.len());
    assert(!type_selected(ActionType::InsertMarginTable, t, obj));
    assert(first_selected(all_action_types(), 12, t, obj) == Some(ActionType::SendAsset));
    assert(all_action_types()[11] == ActionType::UpdateLeverage);
    assert("updateLeverage"@.len() != "sendAsset"@.len());
    assert(!type_selected(ActionType::UpdateLeverage, t, obj));
    assert(first_selected(all_action_types(), 11, t, obj) == Some(ActionType::SendAsset));
    assert(all_action_types()[10] == ActionType::UpdateIsolatedMargin);
    assert("updateIsolatedMargin"@.len() != "sendAsset"@.len());
    assert(!type_selected(ActionType::UpdateIsolatedMargin, t, obj));
    assert(first_selected(all_action_types(), 10, t, obj) == Some(ActionType::SendAsset));
    assert(all_action_types()[9] == ActionType::ScheduleCancel);
    assert("scheduleCancel"@.len() != "sendAsset"@.len());
    assert(!type_selected(ActionType::ScheduleCancel, t, obj));
    assert(first_selected(all_action_types(), 9, t, obj) == Some(ActionType::SendAsset));
    assert(all_action_types()[8] == ActionType::BatchModify);
    assert("batchModify"@.len() != "sendAsset"@.len());
    assert(!type_selected(ActionType::BatchModify, t, obj));
    assert(first_selected(all_action_types(), 8, t, obj) == Some(ActionType::SendAsset));
    assert(all_action_types()[7] == ActionType::BatchOrder);
    assert("order"@.len() != "sendAsset"@.len());
    assert(!type_selected(ActionType::BatchOrder, t, obj));
    assert(first_selected(all_action_types(), 7, t, obj) == Some(ActionType::SendAsset));
    assert(all_action_types()[6] == ActionType::VaultTransfer);
    assert("vaultTransfer"@.len() != "sendAsset"@.len());
    assert(!type_selected(ActionType::VaultTransfer, t, obj));
    assert(first_selected(all_action_types(), 6, t, obj) == Some(ActionType::SendAsset));
    assert(all_action_types()[5] == ActionType::ToggleBigBlocks);
    assert("evmUserModify"@.len() != "sendAsset"@.len());
    assert(!type_selected(ActionType::ToggleBigBlocks, t, obj));
    assert(first_selected(all_action_types(), 5, t, obj) == Some(ActionType::SendAsset));
    assert(all_action_types()[4] == ActionType::SubAccountSpotTransfer);
    assert("subAccountSpotTransfer"@.len() != "sendAsset"@.len());
    assert(!type_selected(ActionType::SubAccountSpotTransfer, t, obj));
    assert(first_selected(all_action_types(), 4, t, obj) == Some(ActionType::SendAsset));
    assert(all_action_types()[3] == ActionType::SetReferrer);
    assert("setReferrer"@.len() != "sendAsset"@.len());
    assert(!type_selected(ActionType::SetReferrer, t, obj));
    assert(first_selected(all_action_types(), 3, t, obj) == Some(ActionType::SendAsset));
    assert(all_action_types()[2] == ActionType::NoOp);
    assert("noop"@.len() != "sendAsset"@.len());
    assert(!type_selected(ActionType::NoOp, t, obj));
    assert(first_selected(all_action_types(), 2, t, obj) == Some(ActionType::SendAsset));
    assert(all_action_types()[1] == ActionType::CreateSubAccount);
    assert("createSubAccount"@.len() != "sendAsset"@.len());
    assert(!type_selected(ActionType::CreateSubAccount, t, obj));
    assert(first_selected(all_action_types(), 1, t, obj) == Some(ActionType::SendAsset));
    assert(all_action_types()[0] == ActionType::AgentEnableDexAbstraction);
    assert("agentEnableDexAbstraction"@.len() != "sendAsset"@.len());
    assert(!type_selected(ActionType::AgentEnableDexAbstraction, t, obj));
    assert(first_selected(all_action_types(), 0, t, obj) == Some(ActionType::SendAsset));
}

/// A built [`SpotTransfer`] object is read back as a [`SpotTransfer`].
proof fn lemma_built_selects_spot_transfer(payload: Json, chain: Option<SigningChain>)
    requires
        payload matches Json::Object(p) && keys_distinct(p) && !obj_has(p, "type"@),
        build_action_spec(type_meta(ActionType::SpotTransfer), payload, chain) is Ok,
    ensures
        first_selected(
            all_action_types(),
            0,
            type_meta(ActionType::SpotTransfer).action_type,
            build_action_spec(type_meta(ActionType::SpotTransfer), payload, chain)->Ok_0->Object_0,
        ) == Some(ActionType::SpotTransfer),
{
    reveal_strlit("agentEnableDexAbstraction");
    reveal_strlit("approveAgent");
    reveal_strlit("approveBuilderFee");
    reveal_strlit("batchModify");
    reveal_strlit("convertToMultiSigUser");
    reveal_strlit("createSubAccount");
    reveal_strlit("evmUserModify");
    reveal_strlit("genesis");
    reveal_strlit("haltTrading");
    reveal_strlit("insertMarginTable");
    reveal_strlit("modifies");
    reveal_strlit("noop");
    reveal_strlit("order");
    reveal_strlit("orders");
    reveal_strlit("perpDeploy");
    reveal_strlit("registerHyperliquidity");
    reveal_strlit("registerSpot");
    reveal_strlit("registerToken2");
    reveal_strlit("scheduleCancel");
    reveal_strlit("sendAsset");
    reveal_strlit("setDeployerTradingFeeShare");
    reveal_strlit("setFeeRecipient");
    reveal_strlit("setFundingMultipliers");
    reveal_strlit("setGrowthModes");
    reveal_strlit("setMarginTableIds");
    reveal_strlit("setOpenInterestCaps");
    reveal_strlit("setOracle");
    reveal_strlit("setReferrer");
    reveal_strlit("spotDeploy");
    reveal_strlit("spotSend");
    reveal_strlit("subAccountSpotTransfer");
    reveal_strlit("type");
    reveal_strlit("updateIsolatedMargin");
    reveal_strlit("updateLeverage");
    reveal_strlit("userGenesis");
    reveal_strlit("vaultTransfer");
    let meta = type_meta(ActionType::SpotTransfer);
    let obj = build_action_spec(meta, payload, chain)->Ok_0->Object_0;
    let t = meta.action_type;
    assert(all_action_types()[30] == ActionType::SpotTransfer);
    assert(type_selected(ActionType::SpotTransfer, t, obj));
    assert(first_selected(all_action_types(), 30, t, obj) == Some(ActionType::SpotTransfer));
    assert(all_action_types()[29] == ActionType::SendAsset);
    assert("sendAsset"@.len() != "spotSend"@.len());
    assert(!type_selected(ActionType::SendAsset, t, obj));
    assert(first_selected(all_action_types(), 29, t, obj) == Some(ActionType::SpotTransfer));
    assert(all_action_types()[28] == ActionType::ConvertToMultiSigUser);
    assert("convertToMultiSigUser"@.len() != "spotSend"@.len());
    assert(!type_selected(ActionType::ConvertToMultiSigUser, t, obj));
    assert(first_selected(all_action_types(), 28, t, obj) == Some(ActionType::SpotTransfer));
    assert(all_action_types()[27] == ActionType::ApproveBuilderFee);
    assert("approveBuilderFee"@.len() != "spotSend"@.len());
    assert(!type_selected(ActionType::ApproveBuilderFee, t, obj));
    assert(first_selected(all_action_types(), 27, t, obj) == Some(ActionType::SpotTransfer));
    assert(all_action_types()[26] == ActionType::ApproveAgent);
    assert("approveAgent"@.len() != "spotSend"@.len());
    assert(!type_selected(ActionType::ApproveAgent, t, obj));
    assert(first_selected(all_action_types(), 26, t, obj) == Some(ActionType::SpotTransfer));
    assert(all_action_types()[25] == ActionType::UserGenesis);
    assert("spotDeploy"@.len() != "spotSend"@.len());
    assert(!type_selected(ActionType::UserGenesis, t, obj));
    assert(first_selected(all_action_types(), 25, t, obj) == Some(ActionType::SpotTransfer));
    assert(all_action_types()[24] == ActionType::SetDeployerFees);
    assert("spotDeploy"@.len() != "spotSend"@.len());
    assert(!type_selected(ActionType::SetDeployerFees, t, obj));
    assert(first_selected(all_action_types(), 24, t, obj) == Some(ActionType::SpotTransfer));
    assert(all_action_types()[23] == ActionType::RegisterToken);
    assert("spotDeploy"@.len() != "spotSend"@.len());
    assert(!type_selected(ActionType::RegisterToken, t, obj));
    assert(first_selected(all_action_types(), 23, t, obj) == Some(ActionType::SpotTransfer));
    assert(all_action_types()[22] == ActionType::RegisterSpot);
    assert("spotDeploy"@.len() != "spotSend"@.len());
    assert(!type_selected(ActionType::RegisterSpot, t, obj));
    assert(first_selected(all_action_types(), 22, t, obj) == Some(ActionType::SpotTransfer));
    assert(all_action_types()[21] == ActionType::RegisterHyperliquidity);
    assert("spotDeploy"@.len() != "spotSend"@.len());
    assert(!type_selected(ActionType::RegisterHyperliquidity, t, obj));
    assert(first_selected(all_action_types(), 21, t, obj) == Some(ActionType::SpotTransfer));
    assert(all_action_types()[20] == ActionType::Genesis);
    assert("spotDeploy"@.len() != "spotSend"@.len());
    assert(!type_selected(ActionType::Genesis, t, obj));
    assert(first_selected(all_action_types(), 20, t, obj) == Some(ActionType::SpotTransfer));
    assert(all_action_types()[19] == ActionType::ToggleTrading);
    assert("perpDeploy"@.len() != "spotSend"@.len());
    assert(!type_selected(ActionType::ToggleTrading, t, obj));
    assert(first_selected(all_action_types(), 19, t, obj) == Some(ActionType::SpotTransfer));
    assert(all_action_types()[18] == ActionType::SetOracle);
    assert("perpDeploy"@.len() != "spotSend"@.len());
    assert(!type_selected(ActionType::SetOracle, t, obj));
    assert(first_selected(all_action_types(), 18, t, obj) == Some(ActionType::SpotTransfer));
    assert(all_action_types()[17] == ActionType::SetOpenInterestCaps);
    assert("perpDeploy"@.len() != "spotSend"@.len());
    assert(!type_selected(ActionType::SetOpenInterestCaps, t, obj));
    assert(first_selected(all_action_types(), 17, t, obj) == Some(ActionType::SpotTransfer));
    assert(all_action_types()[16] == ActionType::SetMarginTableIds);
    assert("perpDeploy"@.len() != "spotSend"@.len());
    assert(!type_selected(ActionType::SetMarginTableIds, t, obj));
    assert(first_selected(all_action_types(), 16, t, obj) == Some(ActionType::SpotTransfer));
    assert(all_action_types()[15] == ActionType::SetGrowthModes);
    assert("perpDeploy"@.len() != "spotSend"@.len());
    assert(!type_selected(ActionType::SetGrowthModes, t, obj));
    assert(first_selected(all_action_types(), 15, t, obj) == Some(ActionType::SpotTransfer));
    assert(all_action_types()[14] == ActionType::SetFundingMultipliers);
    assert("perpDeploy"@.len() != "spotSend"@.len());
    assert(!type_selected(ActionType::SetFundingMultipliers, t, obj));
    assert(first_selected(all_action_types(), 14, t, obj) == Some(ActionType::SpotTransfer));
    assert(all_action_types()[13] == ActionType::SetFeeRecipient);
    assert("perpDeploy"@.len() != "spotSend"@.len());
    assert(!type_selected(ActionType::SetFeeRecipient, t, obj));
    assert(first_selected(all_action_types(), 13, t, obj) == Some(ActionType::SpotTransfer));
    assert(all_action_types()[12] == ActionType::InsertMarginTable);
    assert("perpDeploy"@.len() != "spotSend"@.len());
    assert(!type_selected(ActionType::InsertMarginTable, t, obj));
    assert(first_selected(all_action_types(), 12, t, obj) == Some(ActionType::SpotTransfer));
    assert(all_action_types()[11] == ActionType::UpdateLeverage);
    assert("updateLeverage"@.len() != "spotSend"@.len());
    assert(!type_selected(ActionType::UpdateLeverage, t, obj));
    assert(first_selected(all_action_types(), 11, t, obj) == Some(ActionType::SpotTransfer));
    assert(all_action_types()[10] == ActionType::UpdateIsolatedMargin);
    assert("updateIsolatedMargin"@.len() != "spotSend"@.len());
    assert(!type_selected(ActionType::UpdateIsolatedMargin, t, obj));
    assert(first_selected(all_action_types(), 10, t, obj) == Some(ActionType::SpotTransfer));
    assert(all_action_types()[9] == ActionType::ScheduleCancel);
    assert("scheduleCancel"@.len() != "spotSend"@.len());
    assert(!type_selected(ActionType::ScheduleCancel, t, obj));
    assert(first_selected(all_action_types(), 9, t, obj) == Some(ActionType::SpotTransfer));
    assert(all_action_types()[8] == ActionType::BatchModify);
    assert("batchModify"@.len() != "spotSend"@.len());
    assert(!type_selected(ActionType::BatchModify, t, obj));
    assert(first_selected(all_action_types(), 8, t, obj) == Some(ActionType::SpotTransfer));
    assert(all_action_types()[7] == ActionType::BatchOrder);
    assert("order"@.len() != "spotSend"@.len());
    assert(!type_selected(ActionType::BatchOrder, t, obj));
    assert(first_selected(all_action_types(), 7, t, obj) == Some(ActionType::SpotTransfer));
    assert(all_action_types()[6] == ActionType::VaultTransfer);
    assert("vaultTransfer"@.len() != "spotSend"@.len());
    assert(!type_selected(ActionType::VaultTransfer, t, obj));
    assert(first_selected(all_action_types(), 6, t, obj) == Some(ActionType::SpotTransfer));
    assert(all_action_types()[5] == ActionType::ToggleBigBlocks);
    assert("evmUserModify"@.len() != "spotSend"@.len());
    assert(!type_selected(ActionType::ToggleBigBlocks, t, obj));
    assert(first_selected(all_action_types(), 5, t, obj) == Some(ActionType::SpotTransfer));
    assert(all_action_types()[4] == ActionType::SubAccountSpotTransfer);
    assert("subAccountSpotTransfer"@.len() != "spotSend"@.len());
    assert(!type_selected(ActionType::SubAccountSpotTransfer, t, obj));
    assert(first_selected(all_action_types(), 4, t, obj) == Some(ActionType::SpotTransfer));
    assert(all_action_types()[3] == ActionType::SetReferrer);
    assert("setReferrer"@.len() != "spotSend"@.len());
    assert(!type_selected(ActionType::SetReferrer, t, obj));
    assert(first_selected(all_action_types(), 3, t, obj) == Some(ActionType::SpotTransfer));
    assert(all_action_types()[2] == ActionType::NoOp);
    assert("noop"@.len() != "spotSend"@.len());
    assert(!type_selected(ActionType::NoOp, t, obj));
    assert(first_selected(all_action_types(), 2, t, obj) == Some(ActionType::SpotTransfer));
    assert(all_action_types()[1] == ActionType::CreateSubAccount);
    assert("createSubAccount"@.len() != "spotSend"@.len());
    assert(!type_selected(ActionType::CreateSubAccount, t, obj));
    assert(first_selected(all_action_types(), 1, t, obj) == Some(ActionType::SpotTransfer));
    assert(all_action_types()[0] == ActionType::AgentEnableDexAbstraction);
    assert("agentEnableDexAbstraction"@.len() != "spotSend"@.len());
    assert(!type_selected(ActionType::AgentEnableDexAbstraction, t, obj));
    assert(first_selected(all_action_types(), 0, t, obj) == Some(ActionType::SpotTransfer));
}

/// A built [`TokenDelegate`] object is read back as a [`TokenDelegate`].
proof fn lemma_built_selects_token_delegate(payload: Json, chain: Option<SigningChain>)
    requires
        payload matches Json::Object(p) && keys_distinct(p) && !obj_has(p, "type"@),
        build_action_spec(type_meta(ActionType::TokenDelegate), payload, chain) is Ok,
    ensures
        first_selected(
            all_action_types(),
            0,
            type_meta(ActionType::TokenDelegate).action_type,
            build_action_spec(type_meta(ActionType::TokenDelegate), payload, chain)->Ok_0->Object_0,
        ) == Some(ActionType::TokenDelegate),
{
    reveal_strlit("agentEnableDexAbstraction");
    reveal_strlit("approveAgent");
    reveal_strlit("approveBuilderFee");
    reveal_strlit("batchModify");
    reveal_strlit("convertToMultiSigUser");
    reveal_strlit("createSubAccount");
    reveal_strlit("evmUserModify");
    reveal_strlit("genesis");
    reveal_strlit("haltTrading");
    reveal_strlit("insertMarginTable");
    reveal_strlit("modifies");
    reveal_strlit("noop");
    reveal_strlit("order");
    reveal_strlit("orders");
    reveal_strlit("perpDeploy");
    reveal_strlit("registerHyperliquidity");
    reveal_strlit("registerSpot");
    reveal_strlit("registerToken2");
    reveal_strlit("scheduleCancel");
    reveal_strlit("sendAsset");
    reveal_strlit("setDeployerTradingFeeShare");
    reveal_strlit("setFeeRecipient");
    reveal_strlit("setFundingMultipliers");
    reveal_strlit("setGrowthModes");
    reveal_strlit("setMarginTableIds");
    reveal_strlit("setOpenInterestCaps");
    reveal_strlit("setOracle");
    reveal_strlit("setReferrer");
    reveal_strlit("spotDeploy");
    reveal_strlit("spotSend");
    reveal_strlit("subAccountSpotTransfer");
    reveal_strlit("tokenDelegate");
    reveal_strlit("type");
    reveal_strlit("updateIsolatedMargin");
    reveal_strlit("updateLeverage");
    reveal_strlit("userGenesis");
    reveal_strlit("vaultTransfer");
    let meta = type_meta(ActionType::TokenDelegate);
    let obj = build_action_spec(meta, payload, chain)->Ok_0->Object_0;
    let t = meta.action_type;
    assert(all_action_types()[31] == ActionType::TokenDelegate);
    assert(type_selected(ActionType::TokenDelegate, t, obj));
    assert(first_selected(all_action_types(), 31, t, obj) == Some(ActionType::TokenDelegate));
    assert(all_action_types()[30] == ActionType::SpotTransfer);
    assert("spotSend"@.len() != "tokenDelegate"@.len());
    assert(!type_selected(ActionType::SpotTransfer, t, obj));
    assert(first_selected(all_action_types(), 30, t, obj) == Some(ActionType::TokenDelegate));
    assert(all_action_types()[29] == ActionType::SendAsset);
    assert("sendAsset"@.len() != "tokenDelegate"@.len());
    assert(!type_selected(ActionType::SendAsset, t, obj));
    assert(first_selected(all_action_types(), 29, t, obj) == Some(ActionType::TokenDelegate));
    assert(all_action_types()[28] == ActionType::ConvertToMultiSigUser);
    assert("convertToMultiSigUser"@.len() != "tokenDelegate"@.len());
    assert(!type_selected(ActionType::ConvertToMultiSigUser, t, obj));
    assert(first_selected(all_action_types(), 28, t, obj) == Some(ActionType::TokenDelegate));
    assert(all_action_types()[27] == ActionType::ApproveBuilderFee);
    assert("approveBuilderFee"@.len() != "tokenDelegate"@.len());
    assert(!type_selected(ActionType::ApproveBuilderFee, t, obj));
    assert(first_selected(all_action_types(), 27, t, obj) == Some(ActionType::TokenDelegate));
    assert(all_action_types()[26] == ActionType::ApproveAgent);
    assert("approveAgent"@.len() != "tokenDelegate"@.len());
    assert(!type_selected(ActionType::ApproveAgent, t, obj));
    assert(first_selected(all_action_types(), 26, t, obj) == Some(ActionType::TokenDelegate));
    assert(all_action_types()[25] == ActionType::UserGenesis);
    assert("spotDeploy"@.len() != "tokenDelegate"@.len());
    assert(!type_selected(ActionType::UserGenesis, t, obj));
    assert(first_selected(all_action_types(), 25, t, obj) == Some(ActionType::TokenDelegate));
    assert(all_action_types()[24] == ActionType::SetDeployerFees);
    assert("spotDeploy"@.len() != "tokenDelegate"@.len());
    assert(!type_selected(ActionType::SetDeployerFees, t, obj));
    assert(first_selected(all_action_types(), 24, t, obj) == Some(ActionType::TokenDelegate));
    assert(all_action_types()[23] == ActionType::RegisterToken);
    assert("spotDeploy"@.len() != "tokenDelegate"@.len());
    assert(!type_selected(ActionType::RegisterToken, t, obj));
    assert(first_selected(all_action_types(), 23, t, obj) == Some(ActionType::TokenDelegate));
    assert(all_action_types()[22] == ActionType::RegisterSpot);
    assert("spotDeploy"@.len() != "tokenDelegate"@.len());
    assert(!type_selected(ActionType::RegisterSpot, t, obj));
    assert(first_selected(all_action_types(), 22, t, obj) == Some(ActionType::TokenDelegate));
    assert(all_action_types()[21] == ActionType::RegisterHyperliquidity);
    assert("spotDeploy"@.len() != "tokenDelegate"@.len());
    assert(!type_selected(ActionType::RegisterHyperliquidity, t, obj));
    assert(first_selected(all_action_types(), 21, t, obj) == Some(ActionType::TokenDelegate));
    assert(all_action_types()[20] == ActionType::Genesis);
    assert("spotDeploy"@.len() != "tokenDelegate"@.len());
    assert(!type_selected(ActionType::Genesis, t, obj));
    assert(first_selected(all_action_types(), 20, t, obj) == Some(ActionType::TokenDelegate));
    assert(all_action_types()[19] == ActionType::ToggleTrading);
    assert("perpDeploy"@.len() != "tokenDelegate"@.len());
    assert(!type_selected(ActionType::ToggleTrading, t, obj));
    assert(first_selected(all_action_types(), 19, t, obj) == Some(ActionType::TokenDelegate));
    assert(all_action_types()[18] == ActionType::SetOracle);
    assert("perpDeploy"@.len() != "tokenDelegate"@.len());
    assert(!type_selected(ActionType::SetOracle, t, obj));
    assert(first_selected(all_action_types(), 18, t, obj) == Some(ActionType::TokenDelegate));
    assert(all_action_types()[17] == ActionType::SetOpenInterestCaps);
    assert("perpDeploy"@.len() != "tokenDelegate"@.len());
    assert(!type_selected(ActionType::SetOpenInterestCaps, t, obj));
    assert(first_selected(all_action_types(), 17, t, obj) == Some(ActionType::TokenDelegate));
    assert(all_action_types()[16] == ActionType::SetMarginTableIds);
    assert("perpDeploy"@.len() != "tokenDelegate"@.len());
    assert(!type_selected(ActionType::SetMarginTableIds, t, obj));
    assert(first_selected(all_action_types(), 16, t, obj) == Some(ActionType::TokenDelegate));
    assert(all_action_types()[15] == ActionType::SetGrowthModes);
    assert("perpDeploy"@.len() != "tokenDelegate"@.len());
    assert(!type_selected(ActionType::SetGrowthModes, t, obj));
    assert(first_selected(all_action_types(), 15, t, obj) == Some(ActionType::TokenDelegate));
    assert(all_action_types()[14] == ActionType::SetFundingMultipliers);
    assert("perpDeploy"@.len() != "tokenDelegate"@.len());
    assert(!type_selected(ActionType::SetFundingMultipliers, t, obj));
    assert(first_selected(all_action_types(), 14, t, obj) == Some(ActionType::TokenDelegate));
    assert(all_action_types()[13] == ActionType::SetFeeRecipient);
    assert("perpDeploy"@.len() != "tokenDelegate"@.len());
    assert(!type_selected(ActionType::SetFeeRecipient, t, obj));
    assert(first_selected(all_action_types(), 13, t, obj) == Some(ActionType::TokenDelegate));
    assert(all_action_types()[12] == ActionType::InsertMarginTable);
    assert("perpDeploy"@.len() != "tokenDelegate"@.len());
    assert(!type_selected(ActionType::InsertMarginTable, t, obj));
    assert(first_selected(all_action_types(), 12, t, obj) == Some(ActionType::TokenDelegate));
    assert(all_action_types()[11] == ActionType::UpdateLeverage);
    assert("updateLeverage"@.len() != "tokenDelegate"@.len());
    assert(!type_selected(ActionType::UpdateLeverage, t, obj));
    assert(first_selected(all_action_types(), 11, t, obj) == Some(ActionType::TokenDelegate));
    assert(all_action_types()[10] == ActionType::UpdateIsolatedMargin);
    assert("updateIsolatedMargin"@.len() != "tokenDelegate"@.len());
    assert(!type_selected(ActionType::UpdateIsolatedMargin, t, obj));
    assert(first_selected(all_action_types(), 10, t, obj) == Some(ActionType::TokenDelegate));
    assert(all_action_types()[9] == ActionType::ScheduleCancel);
    assert("scheduleCancel"@.len() != "tokenDelegate"@.len());
    assert(!type_selected(ActionType::ScheduleCancel, t, obj));
    assert(first_selected(all_action_types(), 9, t, obj) == Some(ActionType::TokenDelegate));
    assert(all_action_types()[8] == ActionType::BatchModify);
    assert("batchModify"@.len() != "tokenDelegate"@.len());
    assert(!type_selected(ActionType::BatchModify, t, obj));
    assert(first_selected(all_action_types(), 8, t, obj) == Some(ActionType::TokenDelegate));
    assert(all_action_types()[7] == ActionType::BatchOrder);
    assert("order"@.len() != "tokenDelegate"@.len());
    assert(!type_selected(ActionType::BatchOrder, t, obj));
    assert(first_selected(all_action_types(), 7, t, obj) == Some(ActionType::TokenDelegate));
    assert(all_action_types()[6] == ActionType::VaultTransfer);
    assert("vaultTransfer"@[0] != "tokenDelegate"@[0]);
    assert(!type_selected(ActionType::VaultTransfer, t, obj));
    assert(first_selected(all_action_types(), 6, t, obj) == Some(ActionType::TokenDelegate));
    assert(all_action_types()[5] == ActionType::ToggleBigBlocks);
    assert("evmUserModify"@[0] != "tokenDelegate"@[0]);
    assert(!type_selected(ActionType::ToggleBigBlocks, t, obj));
    assert(first_selected(all_action_types(), 5, t, obj) == Some(ActionType::TokenDelegate));
    assert(all_action_types()[4] == ActionType::SubAccountSpotTransfer);
    assert("subAccountSpotTransfer"@.len() != "tokenDelegate"@.len());
    assert(!type_selected(ActionType::SubAccountSpotTransfer, t, obj));
    assert(first_selected(all_action_types(), 4, t, obj) == Some(ActionType::TokenDelegate));
    assert(all_action_types()[3] == ActionType::SetReferrer);
    assert("setReferrer"@.len() != "tokenDelegate"@.len());
    assert(!type_selected(ActionType::SetReferrer, t, obj));
    assert(first_selected(all_action_types(), 3, t, obj) == Some(ActionType::TokenDelegate));
    assert(all_action_types()[2] == ActionType::NoOp);
    assert("noop"@.len() != "tokenDelegate"@.len());
    assert(!type_selected(ActionType::NoOp, t, obj));
    assert(first_selected(all_action_types(), 2, t, obj) == Some(ActionType::TokenDelegate));
    assert(all_action_types()[1] == ActionType::CreateSubAccount);
    assert("createSubAccount"@.len() != "tokenDelegate"@.len());
    assert(!type_selected(ActionType::CreateSubAccount, t, obj));
    assert(first_selected(all_action_types(), 1, t, obj) == Some(ActionType::TokenDelegate));
    assert(all_action_types()[0] == ActionType::AgentEnableDexAbstraction);
    assert("agentEnableDexAbstraction"@.len() != "tokenDelegate"@.len());
    assert(!type_selected(ActionType::AgentEnableDexAbstraction, t, obj));
    assert(first_selected(all_action_types(), 0, t, obj) == Some(ActionType::TokenDelegate));
}

/// A built [`UsdClassTransfer`] object is read back as a [`UsdClassTransfer`].
proof fn lemma_built_selects_usd_class_transfer(payload: Json, chain: Option<SigningChain>)
    requires
        payload matches Json::Object(p) && keys_distinct(p) && !obj_has(p, "type"@),
        build_action_spec(type_meta(ActionType::UsdClassTransfer), payload, chain) is Ok,
    ensures
        first_selected(
            all_action_types(),
            0,
            type_meta(ActionType::UsdClassTransfer).action_type,
            build_action_spec(type_meta(ActionType::UsdClassTransfer), payload, chain)->Ok_0->Object_0,
        ) == Some(ActionType::UsdClassTransfer),
{
    reveal_strlit("agentEnableDexAbstraction");
    reveal_strlit("approveAgent");
    reveal_strlit("approveBuilderFee");
    reveal_strlit("batchModify");
    reveal_strlit("convertToMultiSigUser");
    reveal_strlit("createSubAccount");
    reveal_strlit("evmUserModify");
    reveal_strlit("genesis");
    reveal_strlit("haltTrading");
    reveal_strlit("insertMarginTable");
    reveal_strlit("modifies");
    reveal_strlit("noop");
    reveal_strlit("order");
    reveal_strlit("orders");
    reveal_strlit("perpDeploy");
    reveal_strlit("registerHyperliquidity");
    reveal_strlit("registerSpot");
    reveal_strlit("registerToken2");
    reveal_strlit("scheduleCancel");
    reveal_strlit("sendAsset");
    reveal_strlit("setDeployerTradingFeeShare");
    reveal_strlit("setFeeRecipient");
    reveal_strlit("setFundingMultipliers");
    reveal_strlit("setGrowthModes");
    reveal_strlit("setMarginTableIds");
    reveal_strlit("setOpenInterestCaps");
    reveal_strlit("setOracle");
    reveal_strlit("setReferrer");
    reveal_strlit("spotDeploy");
    reveal_strlit("spotSend");
    reveal_strlit("subAccountSpotTransfer");
    reveal_strlit("tokenDelegate");
    reveal_strlit("type");
    reveal_strlit("updateIsolatedMargin");
    reveal_strlit("updateLeverage");
    reveal_strlit("usdClassTransfer");
    reveal_strlit("userGenesis");
    reveal_strlit("vaultTransfer");
    let meta = type_meta(ActionType::UsdClassTransfer);
    let obj = build_action_spec(meta, payload, chain)->Ok_0->Object_0;
    let t = meta.action_type;
    assert(all_action_types()[32] == ActionType::UsdClassTransfer);
    assert(type_selected(ActionType::UsdClassTransfer, t, obj));
    assert(first_selected(all_action_types(), 32, t, obj) == Some(ActionType::UsdClassTransfer));
    assert(all_action_types()[31] == ActionType::TokenDelegate);
    assert("tokenDelegate"@.len() != "usdClassTransfer"@.len());
    assert(!type_selected(ActionType::TokenDelegate, t, obj));
    assert(first_selected(all_action_types(), 31, t, obj) == Some(ActionType::UsdClassTransfer));
    assert(all_action_types()[30] == ActionType::SpotTransfer);
    assert("spotSend"@.len() != "usdClassTransfer"@.len());
    assert(!type_selected(ActionType::SpotTransfer, t, obj));
    assert(first_selected(all_action_types(), 30, t, obj) == Some(ActionType::UsdClassTransfer));
    assert(all_action_types()[29] == ActionType::SendAsset);
    assert("sendAsset"@.len() != "usdClassTransfer"@.len());
    assert(!type_selected(ActionType::SendAsset, t, obj));
    assert(first_selected(all_action_types(), 29, t, obj) == Some(ActionType::UsdClassTransfer));
    assert(all_action_types()[28] == ActionType::ConvertToMultiSigUser);
    assert("convertToMultiSigUser"@.len() != "usdClassTransfer"@.len());
    assert(!type_selected(ActionType::ConvertToMultiSigUser, t, obj));
    assert(first_selected(all_action_types(), 28, t, obj) == Some(ActionType::UsdClassTransfer));
    assert(all_action_types()[27] == ActionType::ApproveBuilderFee);
    assert("approveBuilderFee"@.len() != "usdClassTransfer"@.len());
    assert(!type_selected(ActionType::ApproveBuilderFee, t, obj));
    assert(first_selected(all_action_types(), 27, t, obj) == Some(ActionType::UsdClassTransfer));
    assert(all_action_types()[26] == ActionType::ApproveAgent);
    assert("approveAgent"@.len() != "usdClassTransfer"@.len());
    assert(!type_selected(ActionType::ApproveAgent, t, obj));
    assert(first_selected(all_action_types(), 26, t, obj) == Some(ActionType::UsdClassTransfer));
    assert(all_action_types()[25] == ActionType::UserGenesis);
    assert("spotDeploy"@.len() != "usdClassTransfer"@.len());
    assert(!type_selected(ActionType::UserGenesis, t, obj));
    assert(first_selected(all_action_types(), 25, t, obj) == Some(ActionType::UsdClassTransfer));
    assert(all_action_types()[24] == ActionType::SetDeployerFees);
    assert("spotDeploy"@.len() != "usdClassTransfer"@.len());
    assert(!type_selected(ActionType::SetDeployerFees, t, obj));
    assert(first_selected(all_action_types(), 24, t, obj) == Some(ActionType::UsdClassTransfer));
    assert(all_action_types()[23] == ActionType::RegisterToken);
    assert("spotDeploy"@.len() != "usdClassTransfer"@.len());
    assert(!type_selected(ActionType::RegisterToken, t, obj));
    assert(first_selected(all_action_types(), 23, t, obj) == Some(ActionType::UsdClassTransfer));
    assert(all_action_types()[22] == ActionType::RegisterSpot);
    assert("spotDeploy"@.len() != "usdClassTransfer"@.len());
    assert(!type_selected(ActionType::RegisterSpot, t, obj));
    assert(first_selected(all_action_types(), 22, t, obj) == Some(ActionType::UsdClassTransfer));
    assert(all_action_types()[21] == ActionType::RegisterHyperliquidity);
    assert("spotDeploy"@.len() != "usdClassTransfer"@.len());
    assert(!type_selected(ActionType::RegisterHyperliquidity, t, obj));
    assert(first_selected(all_action_types(), 21, t, obj) == Some(ActionType::UsdClassTransfer));
    assert(all_action_types()[20] == ActionType::Genesis);
    assert("spotDeploy"@.len() != "usdClassTransfer"@.len());
    assert(!type_selected(ActionType::Genesis, t, obj));
    assert(first_selected(all_action_types(), 20, t, obj) == Some(ActionType::UsdClassTransfer));
    assert(all_action_types()[19] == ActionType::ToggleTrading);
    assert("perpDeploy"@.len() != "usdClassTransfer"@.len());
    assert(!type_selected(ActionType::ToggleTrading, t, obj));
    assert(first_selected(all_action_types(), 19, t, obj) == Some(ActionType::UsdClassTransfer));
    assert(all_action_types()[18] == ActionType::SetOracle);
    assert("perpDeploy"@.len() != "usdClassTransfer"@.len());
    assert(!type_selected(ActionType::SetOracle, t, obj));
    assert(first_selected(all_action_types(), 18, t, obj) == Some(ActionType::UsdClassTransfer));
    assert(all_action_types()[17] == ActionType::SetOpenInterestCaps);
    assert("perpDeploy"@.len() != "usdClassTransfer"@.len());
    assert(!type_selected(ActionType::SetOpenInterestCaps, t, obj));
    assert(first_selected(all_action_types(), 17, t, obj) == Some(ActionType::UsdClassTransfer));
    assert(all_action_types()[16] == ActionType::SetMarginTableIds);
    assert("perpDeploy"@.len() != "usdClassTransfer"@.len());
    assert(!type_selected(ActionType::SetMarginTableIds, t, obj));
    assert(first_selected(all_action_types(), 16, t, obj) == Some(ActionType::UsdClassTransfer));
    assert(all_action_types()[15] == ActionType::SetGrowthModes);
    assert("perpDeploy"@.len() != "usdClassTransfer"@.len());
    assert(!type_selected(ActionType::SetGrowthModes, t, obj));
    assert(first_selected(all_action_types(), 15, t, obj) == Some(ActionType::UsdClassTransfer));
    assert(all_action_types()[14] == ActionType::SetFundingMultipliers);
    assert("perpDeploy"@.len() != "usdClassTransfer"@.len());
    assert(!type_selected(ActionType::SetFundingMultipliers, t, obj));
    assert(first_selected(all_action_types(), 14, t, obj) == Some(ActionType::UsdClassTransfer));
    assert(all_action_types()[13] == ActionType::SetFeeRecipient);
    assert("perpDeploy"@.len() != "usdClassTransfer"@.len());
    assert(!type_selected(ActionType::SetFeeRecipient, t, obj));
    assert(first_selected(all_action_types(), 13, t, obj) == Some(ActionType::UsdClassTransfer));
    assert(all_action_types()[12] == ActionType::InsertMarginTable);
    assert("perpDeploy"@.len() != "usdClassTransfer"@.len());
    assert(!type_selected(ActionType::InsertMarginTable, t, obj));
    assert(first_selected(all_action_types(), 12, t, obj) == Some(ActionType::UsdClassTransfer));
    assert(all_action_types()[11] == ActionType::UpdateLeverage);
    assert("updateLeverage"@.len() != "usdClassTransfer"@.len());
    assert(!type_selected(ActionType::UpdateLeverage, t, obj));
    assert(first_selected(all_action_types(), 11, t, obj) == Some(ActionType::UsdClassTransfer));
    assert(all_action_types()[10] == ActionType::UpdateIsolatedMargin);
    assert("updateIsolatedMargin"@.len() != "usdClassTransfer"@.len());
    assert(!type_selected(ActionType::UpdateIsolatedMargin, t, obj));
    assert(first_selected(all_action_types(), 10, t, obj) == Some(ActionType::UsdClassTransfer));
    assert(all_action_types()[9] == ActionType::ScheduleCancel);
    assert("scheduleCancel"@.len() != "usdClassTransfer"@.len());
    assert(!type_selected(ActionType::ScheduleCancel, t, obj));
    assert(first_selected(all_action_types(), 9, t, obj) == Some(ActionType::UsdClassTransfer));
    assert(all_action_types()[8] == ActionType::BatchModify);
    assert("batchModify"@.len() != "usdClassTransfer"@.len());
    assert(!type_selected(ActionType::BatchModify, t, obj));
    assert(first_selected(all_action_types(), 8, t, obj) == Some(ActionType::UsdClassTransfer));
    assert(all_action_types()[7] == ActionType::BatchOrder);
    assert("order"@.len() != "usdClassTransfer"@.len());
    assert(!type_selected(ActionType::BatchOrder, t, obj));
    assert(first_selected(all_action_types(), 7, t, obj) == Some(ActionType::UsdClassTransfer));
    assert(all_action_types()[6] == ActionType::VaultTransfer);
    assert("vaultTransfer"@.len() != "usdClassTransfer"@.len());
    assert(!type_selected(ActionType::VaultTransfer, t, obj));
    assert(first_selected(all_action_types(), 6, t, obj) == Some(ActionType::UsdClassTransfer));
    assert(all_action_types()[5] == ActionType::ToggleBigBlocks);
    assert("evmUserModify"@.len() != "usdClassTransfer"@.len());
    assert(!type_selected(ActionType::ToggleBigBlocks, t, obj));
    assert(first_selected(all_action_types(), 5, t, obj) == Some(ActionType::UsdClassTransfer));
    assert(all_action_types()[4] == ActionType::SubAccountSpotTransfer);
    assert("subAccountSpotTransfer"@.len() != "usdClassTransfer"@.len());
    assert(!type_selected(ActionType::SubAccountSpotTransfer, t, obj));
    assert(first_selected(all_action_types(), 4, t, obj) == Some(ActionType::UsdClassTransfer));
    assert(all_action_types()[3] == ActionType::SetReferrer);
    assert("setReferrer"@.len() != "usdClassTransfer"@.len());
    assert(!type_selected(ActionType::SetReferrer, t, obj));
    assert(first_selected(all_action_types(), 3, t, obj) == Some(ActionType::UsdClassTransfer));
    assert(all_action_types()[2] == ActionType::NoOp);
    assert("noop"@.len() != "usdClassTransfer"@.len());
    assert(!type_selected(ActionType::NoOp, t, obj));
    assert(first_selected(all_action_types(), 2, t, obj) == Some(ActionType::UsdClassTransfer));
    assert(all_action_types()[1] == ActionType::CreateSubAccount);
    assert("createSubAccount"@[0] != "usdClassTransfer"@[0]);
    assert(!type_selected(ActionType::CreateSubAccount, t, obj));
    assert(first_selected(all_action_types(), 1, t, obj) == Some(ActionType::UsdClassTransfer));
    assert(all_action_types()[0] == ActionType::AgentEnableDexAbstraction);
    assert("agentEnableDexAbstraction"@.len() != "usdClassTransfer"@.len());
    assert(!type_selected(ActionType::AgentEnableDexAbstraction, t, obj));
    assert(first_selected(all_action_types(), 0, t, obj) == Some(ActionType::UsdClassTransfer));
}

/// A built [`UsdSend`] object is read back as a [`UsdSend`].
proof fn lemma_built_selects_usd_send(payload: Json, chain: Option<SigningChain>)
    requires
        payload matches Json::Object(p) && keys_distinct(p) && !obj_has(p, "type"@),
        build_action_spec(type_meta(ActionType::UsdSend), payload, chain) is Ok,
    ensures
        first_selected(
            all_action_types(),
            0,
            type_meta(ActionType::UsdSend).action_type,
            build_action_spec(type_meta(ActionType::UsdSend), payload, chain)->Ok_0->Object_0,
        ) == Some(ActionType::UsdSend),
{
    reveal_strlit("agentEnableDexAbstraction");
    reveal_strlit("approveAgent");
    reveal_strlit("approveBuilderFee");
    reveal_strlit("batchModify");
    reveal_strlit("convertToMultiSigUser");
    reveal_strlit("createSubAccount");
    reveal_strlit("evmUserModify");
    reveal_strlit("genesis");
    reveal_strlit("haltTrading");
    reveal_strlit("insertMarginTable");
    reveal_strlit("modifies");
    reveal_strlit("noop");
    reveal_strlit("order");
    reveal_strlit("orders");
    reveal_strlit("perpDeploy");
    reveal_strlit("registerHyperliquidity");
    reveal_strlit("registerSpot");
    reveal_strlit("registerToken2");
    reveal_strlit("scheduleCancel");
    reveal_strlit("sendAsset");
    reveal_strlit("setDeployerTradingFeeShare");
    reveal_strlit("setFeeRecipient");
    reveal_strlit("setFundingMultipliers");
    reveal_strlit("setGrowthModes");
    reveal_strlit("setMarginTableIds");
    reveal_strlit("setOpenInterestCaps");
    reveal_strlit("setOracle");
    reveal_strlit("setReferrer");
    reveal_strlit("spotDeploy");
    reveal_strlit("spotSend");
    reveal_strlit("subAccountSpotTransfer");
    reveal_strlit("tokenDelegate");
    reveal_strlit("type");
    reveal_strlit("updateIsolatedMargin");
    reveal_strlit("updateLeverage");
    reveal_strlit("usdClassTransfer");
    reveal_strlit("usdSend");
    reveal_strlit("userGenesis");
    reveal_strlit("vaultTransfer");
    let meta = type_meta(ActionType::UsdSend);
    let obj = build_action_spec(meta, payload, chain)->Ok_0->Object_0;
    let t = meta.action_type;
    assert(all_action_types()[33] == ActionType::UsdSend);
    assert(type_selected(ActionType::UsdSend, t, obj));
    assert(first_selected(all_action_types(), 33, t, obj) == Some(ActionType::UsdSend));
    assert(all_action_types()[32] == ActionType::UsdClassTransfer);
    assert("usdClassTransfer"@.len() != "usdSend"@.len());
    assert(!type_selected(ActionType::UsdClassTransfer, t, obj));
    assert(first_selected(all_action_types(), 32, t, obj) == Some(ActionType::UsdSend));
    assert(all_action_types()[31] == ActionType::TokenDelegate);
    assert("tokenDelegate"@.len() != "usdSend"@.len());
    assert(!type_selected(ActionType::TokenDelegate, t, obj));
    assert(first_selected(all_action_types(), 31, t, obj) == Some(ActionType::UsdSend));
    assert(all_action_types()[30] == ActionType::SpotTransfer);
    assert("spotSend"@.len() != "usdSend"@.len());
    assert(!type_selected(ActionType::SpotTransfer, t, obj));
    assert(first_selected(all_action_types(), 30, t, obj) == Some(ActionType::UsdSend));
    assert(all_action_types()[29] == ActionType::SendAsset);
    assert("sendAsset"@.len() != "usdSend"@.len());
    assert(!type_selected(ActionType::SendAsset, t, obj));
    assert(first_selected(all_action_types(), 29, t, obj) == Some(ActionType::UsdSend));
    assert(all_action_types()[28] == ActionType::ConvertToMultiSigUser);
    assert("convertToMultiSigUser"@.len() != "usdSend"@.len());
    assert(!type_selected(ActionType::ConvertToMultiSigUser, t, obj));
    assert(first_selected(all_action_types(), 28, t, obj) == Some(ActionType::UsdSend));
    assert(all_action_types()[27] == ActionType::ApproveBuilderFee);
    assert("approveBuilderFee"@.len() != "usdSend"@.len());
    assert(!type_selected(ActionType::ApproveBuilderFee, t, obj));
    assert(first_selected(all_action_types(), 27, t, obj) == Some(ActionType::UsdSend));
    assert(all_action_types()[26] == ActionType::ApproveAgent);
    assert("approveAgent"@.len() != "usdSend"@.len());
    assert(!type_selected(ActionType::ApproveAgent, t, obj));
    assert(first_selected(all_action_types(), 26, t, obj) == Some(ActionType::UsdSend));
    assert(all_action_types()[25] == ActionType::UserGenesis);
    assert("spotDeploy"@.len() != "usdSend"@.len());
    assert(!type_selected(ActionType::UserGenesis, t, obj));
    assert(first_selected(all_action_types(), 25, t, obj) == Some(ActionType::UsdSend));
    assert(all_action_types()[24] == ActionType::SetDeployerFees);
    assert("spotDeploy"@.len() != "usdSend"@.len());
    assert(!type_selected(ActionType::SetDeployerFees, t, obj));
    assert(first_selected(all_action_types(), 24, t, obj) == Some(ActionType::UsdSend));
    assert(all_action_types()[23] == ActionType::RegisterToken);
    assert("spotDeploy"@.len() != "usdSend"@.len());
    assert(!type_selected(ActionType::RegisterToken, t, obj));
    assert(first_selected(all_action_types(), 23, t, obj) == Some(ActionType::UsdSend));
    assert(all_action_types()[22] == ActionType::RegisterSpot);
    assert("spotDeploy"@.len() != "usdSend"@.len());
    assert(!type_selected(ActionType::RegisterSpot, t, obj));
    assert(first_selected(all_action_types(), 22, t, obj) == Some(ActionType::UsdSend));
    assert(all_action_types()[21] == ActionType::RegisterHyperliquidity);
    assert("spotDeploy"@.len() != "usdSend"@.len());
    assert(!type_selected(ActionType::RegisterHyperliquidity, t, obj));
    assert(first_selected(all_action_types(), 21, t, obj) == Some(ActionType::UsdSend));
    assert(all_action_types()[20] == ActionType::Genesis);
    assert("spotDeploy"@.len() != "usdSend"@.len());
    assert(!type_selected(ActionType::Genesis, t, obj));
    assert(first_selected(all_action_types(), 20, t, obj) == Some(ActionType::UsdSend));
    assert(all_action_types()[19] == ActionType::ToggleTrading);
    assert("perpDeploy"@.len() != "usdSend"@.len());
    assert(!type_selected(ActionType::ToggleTrading, t, obj));
    assert(first_selected(all_action_types(), 19, t, obj) == Some(ActionType::UsdSend));
    assert(all_action_types()[18] == ActionType::SetOracle);
    assert("perpDeploy"@.len() != "usdSend"@.len());
    assert(!type_selected(ActionType::SetOracle, t, obj));
    assert(first_selected(all_action_types(), 18, t, obj) == Some(ActionType::UsdSend));
    assert(all_action_types()[17] == ActionType::SetOpenInterestCaps);
    assert("perpDeploy"@.len() != "usdSend"@.len());
    assert(!type_selected(ActionType::SetOpenInterestCaps, t, obj));
    assert(first_selected(all_action_types(), 17, t, obj) == Some(ActionType::UsdSend));
    assert(all_action_types()[16] == ActionType::SetMarginTableIds);
    assert("perpDeploy"@.len() != "usdSend"@.len());
    assert(!type_selected(ActionType::SetMarginTableIds, t, obj));
    assert(first_selected(all_action_types(), 16, t, obj) == Some(ActionType::UsdSend));
    assert(all_action_types()[15] == ActionType::SetGrowthModes);
    assert("perpDeploy"@.len() != "usdSend"@.len());
    assert(!type_selected(ActionType::SetGrowthModes, t, obj));
    assert(first_selected(all_action_types(), 15, t, obj) == Some(ActionType::UsdSend));
    assert(all_action_types()[14] == ActionType::SetFundingMultipliers);
    assert("perpDeploy"@.len() != "usdSend"@.len());
    assert(!type_selected(ActionType::SetFundingMultipliers, t, obj));
    assert(first_selected(all_action_types(), 14, t, obj) == Some(ActionType::UsdSend));
    assert(all_action_types()[13] == ActionType::SetFeeRecipient);
    assert("perpDeploy"@.len() != "usdSend"@.len());
    assert(!type_selected(ActionType::SetFeeRecipient, t, obj));
    assert(first_selected(all_action_types(), 13, t, obj) == Some(ActionType::UsdSend));
    assert(all_action_types()[12] == ActionType::InsertMarginTable);
    assert("perpDeploy"@.len() != "usdSend"@.len());
    assert(!type_selected(ActionType::InsertMarginTable, t, obj));
    assert(first_selected(all_action_types(), 12, t, obj) == Some(ActionType::UsdSend));
    assert(all_action_types()[11] == ActionType::UpdateLeverage);
    assert("updateLeverage"@.len() != "usdSend"@.len());
    assert(!type_selected(ActionType::UpdateLeverage, t, obj));
    assert(first_selected(all_action_types(), 11, t, obj) == Some(ActionType::UsdSend));
    assert(all_action_types()[10] == ActionType::UpdateIsolatedMargin);
    assert("updateIsolatedMargin"@.len() != "usdSend"@.len());
    assert(!type_selected(ActionType::UpdateIsolatedMargin, t, obj));
    assert(first_selected(all_action_types(), 10, t, obj) == Some(ActionType::UsdSend));
    assert(all_action_types()[9] == ActionType::ScheduleCancel);
    assert("scheduleCancel"@.len() != "usdSend"@.len());
    assert(!type_selected(ActionType::ScheduleCancel, t, obj));
    assert(first_selected(all_action_types(), 9, t, obj) == Some(ActionType::UsdSend));
    assert(all_action_types()[8] == ActionType::BatchModify);
    assert("batchModify"@.len() != "usdSend"@.len());
    assert(!type_selected(ActionType::BatchModify, t, obj));
    assert(first_selected(all_action_types(), 8, t, obj) == Some(ActionType::UsdSend));
    assert(all_action_types()[7] == ActionType::BatchOrder);
    assert("order"@.len() != "usdSend"@.len());
    assert(!type_selected(ActionType::BatchOrder, t, obj));
    assert(first_selected(all_action_types(), 7, t, obj) == Some(ActionType::UsdSend));
    assert(all_action_types()[6] == ActionType::VaultTransfer);
    assert("vaultTransfer"@.len() != "usdSend"@.len());
    assert(!type_selected(ActionType::VaultTransfer, t, obj));
    assert(first_selected(all_action_types(), 6, t, obj) == Some(ActionType::UsdSend));
    assert(all_action_types()[5] == ActionType::ToggleBigBlocks);
    assert("evmUserModify"@.len() != "usdSend"@.len());
    assert(!type_selected(ActionType::ToggleBigBlocks, t, obj));
    assert(first_selected(all_action_types(), 5, t, obj) == Some(ActionType::UsdSend));
    assert(all_action_types()[4] == ActionType::SubAccountSpotTransfer);
    assert("subAccountSpotTransfer"@.len() != "usdSend"@.len());
    assert(!type_selected(ActionType::SubAccountSpotTransfer, t, obj));
    assert(first_selected(all_action_types(), 4, t, obj) == Some(ActionType::UsdSend));
    assert(all_action_types()[3] == ActionType::SetReferrer);
    assert("setReferrer"@.len() != "usdSend"@.len());
    assert(!type_selected(ActionType::SetReferrer, t, obj));
    assert(first_selected(all_action_types(), 3, t, obj) == Some(ActionType::UsdSend));
    assert(all_action_types()[2] == ActionType::NoOp);
    assert("noop"@.len() != "usdSend"@.len());
    assert(!type_selected(ActionType::NoOp, t, obj));
    assert(first_selected(all_action_types(), 2, t, obj) == Some(ActionType::UsdSend));
    assert(all_action_types()[1] == ActionType::CreateSubAccount);
    assert("createSubAccount"@.len() != "usdSend"@.len());
    assert(!type_selected(ActionType::CreateSubAccount, t, obj));
    assert(first_selected(all_action_types(), 1, t, obj) == Some(ActionType::UsdSend));
    assert(all_action_types()[0] == ActionType::AgentEnableDexAbstraction);
    assert("agentEnableDexAbstraction"@.len() != "usdSend"@.len());
    assert(!type_selected(ActionType::AgentEnableDexAbstraction, t, obj));
    assert(first_selected(all_action_types(), 0, t, obj) == Some(ActionType::UsdSend));
}

/// A built [`UserDexAbstraction`] object is read back as a [`UserDexAbstraction`].
proof fn lemma_built_selects_user_dex_abstraction(payload: Json, chain: Option<SigningChain>)
    requires
        payload matches Json::Object(p) && keys_distinct(p) && !obj_has(p, "type"@),
        build_action_spec(type_meta(ActionType::UserDexAbstraction), payload, chain) is Ok,
    ensures
        first_selected(
            all_action_types(),
            0,
            type_meta(ActionType::UserDexAbstraction).action_type,
            build_action_spec(type_meta(ActionType::UserDexAbstraction), payload, chain)->Ok_0->Object_0,
        ) == Some(ActionType::UserDexAbstraction),
{
    reveal_strlit("agentEnableDexAbstraction");
    reveal_strlit("approveAgent");
    reveal_strlit("approveBuilderFee");
    reveal_strlit("batchModify");
    reveal_strlit("convertToMultiSigUser");
    reveal_strlit("createSubAccount");
    reveal_strlit("evmUserModify");
    reveal_strlit("genesis");
    reveal_strlit("haltTrading");
    reveal_strlit("insertMarginTable");
    reveal_strlit("modifies");
    reveal_strlit("noop");
    reveal_strlit("order");
    reveal_strlit("orders");
    reveal_strlit("perpDeploy");
    reveal_strlit("registerHyperliquidity");
    reveal_strlit("registerSpot");
    reveal_strlit("registerToken2");
    reveal_strlit("scheduleCancel");
    reveal_strlit("sendAsset");
    reveal_strlit("setDeployerTradingFeeShare");
    reveal_strlit("setFeeRecipient");
    reveal_strlit("setFundingMultipliers");
    reveal_strlit("setGrowthModes");
    reveal_strlit("setMarginTableIds");
    reveal_strlit("setOpenInterestCaps");
    reveal_strlit("setOracle");
    reveal_strlit("setReferrer");
    reveal_strlit("spotDeploy");
    reveal_strlit("spotSend");
    reveal_strlit("subAccountSpotTransfer");
    reveal_strlit("tokenDelegate");
    reveal_strlit("type");
    reveal_strlit("updateIsolatedMargin");
    reveal_strlit("updateLeverage");
    reveal_strlit("usdClassTransfer");
    reveal_strlit("usdSend");
    reveal_strlit("userDexAbstraction");
    reveal_strlit("userGenesis");
    reveal_strlit("vaultTransfer");
    let meta = type_meta(ActionType::UserDexAbstraction);
    let obj = build_action_spec(meta, payload, chain)->Ok_0->Object_0;
    let t = meta.action_type;
    assert(all_action_types()[34] == ActionType::UserDexAbstraction);
    assert(type_selected(ActionType::UserDexAbstraction, t, obj));
    assert(first_selected(all_action_types(), 34, t, obj) == Some(ActionType::UserDexAbstraction));
    assert(all_action_types()[33] == ActionType::UsdSend);
    assert("usdSend"@.len() != "userDexAbstraction"@.len());
    assert(!type_selected(ActionType::UsdSend, t, obj));
    assert(first_selected(all_action_types(), 33, t, obj) == Some(ActionType::UserDexAbstraction));
    assert(all_action_types()[32] == ActionType::UsdClassTransfer);
    assert("usdClassTransfer"@.len() != "userDexAbstraction"@.len());
    assert(!type_selected(ActionType::UsdClassTransfer, t, obj));
    assert(first_selected(all_action_types(), 32, t, obj) == Some(ActionType::UserDexAbstraction));
    assert(all_action_types()[31] == ActionType::TokenDelegate);
    assert("tokenDelegate"@.len() != "userDexAbstraction"@.len());
    assert(!type_selected(ActionType::TokenDelegate, t, obj));
    assert(first_selected(all_action_types(), 31, t, obj) == Some(ActionType::UserDexAbstraction));
    assert(all_action_types()[30] == ActionType::SpotTransfer);
    assert("spotSend"@.len() != "userDexAbstraction"@.len());
    assert(!type_selected(ActionType::SpotTransfer, t, obj));
    assert(first_selected(all_action_types(), 30, t, obj) == Some(ActionType::UserDexAbstraction));
    assert(all_action_types()[29] == ActionType::SendAsset);
    assert("sendAsset"@.len() != "userDexAbstraction"@.len());
    assert(!type_selected(ActionType::SendAsset, t, obj));
    assert(first_selected(all_action_types(), 29, t, obj) == Some(ActionType::UserDexAbstraction));
    assert(all_action_types()[28] == ActionType::ConvertToMultiSigUser);
    assert("convertToMultiSigUser"@.len() != "userDexAbstraction"@.len());
    assert(!type_selected(ActionType::ConvertToMultiSigUser, t, obj));
    assert(first_selected(all_action_types(), 28, t, obj) == Some(ActionType::UserDexAbstraction));
    assert(all_action_types()[27] == ActionType::ApproveBuilderFee);
    assert("approveBuilderFee"@.len() != "userDexAbstraction"@.len());
    assert(!type_selected(ActionType::ApproveBuilderFee, t, obj));
    assert(first_selected(all_action_types(), 27, t, obj) == Some(ActionType::UserDexAbstraction));
    assert(all_action_types()[26] == ActionType::ApproveAgent);
    assert("approveAgent"@.len() != "userDexAbstraction"@.len());
    assert(!type_selected(ActionType::ApproveAgent, t, obj));
    assert(first_selected(all_action_types(), 26, t, obj) == Some(ActionType::UserDexAbstraction));
    assert(all_action_types()[25] == ActionType::UserGenesis);
    assert("spotDeploy"@.len() != "userDexAbstraction"@.len());
    assert(!type_selected(ActionType::UserGenesis, t, obj));
    assert(first_selected(all_action_types(), 25, t, obj) == Some(ActionType::UserDexAbstraction));
    assert(all_action_types()[24] == ActionType::SetDeployerFees);
    assert("spotDeploy"@.len() != "userDexAbstraction"@.len());
    assert(!type_selected(ActionType::SetDeployerFees, t, obj));
    assert(first_selected(all_action_types(), 24, t, obj) == Some(ActionType::UserDexAbstraction));
    assert(all_action_types()[23] == ActionType::RegisterToken);
    assert("spotDeploy"@.len() != "userDexAbstraction"@.len());
    assert(!type_selected(ActionType::RegisterToken, t, obj));
    assert(first_selected(all_action_types(), 23, t, obj) == Some(ActionType::UserDexAbstraction));
    assert(all_action_types()[22] == ActionType::RegisterSpot);
    assert("spotDeploy"@.len() != "userDexAbstraction"@.len());
    assert(!type_selected(ActionType::RegisterSpot, t, obj));
    assert(first_selected(all_action_types(), 22, t, obj) == Some(ActionType::UserDexAbstraction));
    assert(all_action_types()[21] == ActionType::RegisterHyperliquidity);
    assert("spotDeploy"@.len() != "userDexAbstraction"@.len());
    assert(!type_selected(ActionType::RegisterHyperliquidity, t, obj));
    assert(first_selected(all_action_types(), 21, t, obj) == Some(ActionType::UserDexAbstraction));
    assert(all_action_types()[20] == ActionType::Genesis);
    assert("spotDeploy"@.len() != "userDexAbstraction"@.len());
    assert(!type_selected(ActionType::Genesis, t, obj));
    assert(first_selected(all_action_types(), 20, t, obj) == Some(ActionType::UserDexAbstraction));
    assert(all_action_types()[19] == ActionType::ToggleTrading);
    assert("perpDeploy"@.len() != "userDexAbstraction"@.len());
    assert(!type_selected(ActionType::ToggleTrading, t, obj));
    assert(first_selected(all_action_types(), 19, t, obj) == Some(ActionType::UserDexAbstraction));
    assert(all_action_types()[18] == ActionType::SetOracle);
    assert("perpDeploy"@.len() != "userDexAbstraction"@.len());
    assert(!type_selected(ActionType::SetOracle, t, obj));
    assert(first_selected(all_action_types(), 18, t, obj) == Some(ActionType::UserDexAbstraction));
    assert(all_action_types()[17] == ActionType::SetOpenInterestCaps);
    assert("perpDeploy"@.len() != "userDexAbstraction"@.len());
    assert(!type_selected(ActionType::SetOpenInterestCaps, t, obj));
    assert(first_selected(all_action_types(), 17, t, obj) == Some(ActionType::UserDexAbstraction));
    assert(all_action_types()[16] == ActionType::SetMarginTableIds);
    assert("perpDeploy"@.len() != "userDexAbstraction"@.len());
    assert(!type_selected(ActionType::SetMarginTableIds, t, obj));
    assert(first_selected(all_action_types(), 16, t, obj) == Some(ActionType::UserDexAbstraction));
    assert(all_action_types()[15] == ActionType::SetGrowthModes);
    assert("perpDeploy"@.len() != "userDexAbstraction"@.len());
    assert(!type_selected(ActionType::SetGrowthModes, t, obj));
    assert(first_selected(all_action_types(), 15, t, obj) == Some(ActionType::UserDexAbstraction));
    assert(all_action_types()[14] == ActionType::SetFundingMultipliers);
    assert("perpDeploy"@.len() != "userDexAbstraction"@.len());
    assert(!type_selected(ActionType::SetFundingMultipliers, t, obj));
    assert(first_selected(all_action_types(), 14, t, obj) == Some(ActionType::UserDexAbstraction));
    assert(all_action_types()[13] == ActionType::SetFeeRecipient);
    assert("perpDeploy"@.len() != "userDexAbstraction"@.len());
    assert(!type_selected(ActionType::SetFeeRecipient, t, obj));
    assert(first_selected(all_action_types(), 13, t, obj) == Some(ActionType::UserDexAbstraction));
    assert(all_action_types()[12] == ActionType::InsertMarginTable);
    assert("perpDeploy"@.len() != "userDexAbstraction"@.len());
    assert(!type_selected(ActionType::InsertMarginTable, t, obj));
    assert(first_selected(all_action_types(), 12, t, obj) == Some(ActionType::UserDexAbstraction));
    assert(all_action_types()[11] == ActionType::UpdateLeverage);
    assert("updateLeverage"@.len() != "userDexAbstraction"@.len());
    assert(!type_selected(ActionType::UpdateLeverage, t, obj));
    assert(first_selected(all_action_types(), 11, t, obj) == Some(ActionType::UserDexAbstraction));
    assert(all_action_types()[10] == ActionType::UpdateIsolatedMargin);
    assert("updateIsolatedMargin"@.len() != "userDexAbstraction"@.len());
    assert(!type_selected(ActionType::UpdateIsolatedMargin, t, obj));
    assert(first_selected(all_action_types(), 10, t, obj) == Some(ActionType::UserDexAbstraction));
    assert(all_action_types()[9] == ActionType::ScheduleCancel);
    assert("scheduleCancel"@.len() != "userDexAbstraction"@.len());
    assert(!type_selected(ActionType::ScheduleCancel, t, obj));
    assert(first_selected(all_action_types(), 9, t, obj) == Some(ActionType::UserDexAbstraction));
    assert(all_action_types()[8] == ActionType::BatchModify);
    assert("batchModify"@.len() != "userDexAbstraction"@.len());
    assert(!type_selected(ActionType::BatchModify, t, obj));
    assert(first_selected(all_action_types(), 8, t, obj) == Some(ActionType::UserDexAbstraction));
    assert(all_action_types()[7] == ActionType::BatchOrder);
    assert("order"@.len() != "userDexAbstraction"@.len());
    assert(!type_selected(ActionType::BatchOrder, t, obj));
    assert(first_selected(all_action_types(), 7, t, obj) == Some(ActionType::UserDexAbstraction));
    assert(all_action_types()[6] == ActionType::VaultTransfer);
    assert("vaultTransfer"@.len() != "userDexAbstraction"@.len());
    assert(!type_selected(ActionType::VaultTransfer, t, obj));
    assert(first_selected(all_action_types(), 6, t, obj) == Some(ActionType::UserDexAbstraction));
    assert(all_action_types()[5] == ActionType::ToggleBigBlocks);
    assert("evmUserModify"@.len() != "userDexAbstraction"@.len());
    assert(!type_selected(ActionType::ToggleBigBlocks, t, obj));
    assert(first_selected(all_action_types(), 5, t, obj) == Some(ActionType::UserDexAbstraction));
    assert(all_action_types()[4] == ActionType::SubAccountSpotTransfer);
    assert("subAccountSpotTransfer"@.len() != "userDexAbstraction"@.len());
    assert(!type_selected(ActionType::SubAccountSpotTransfer, t, obj));
    assert(first_selected(all_action_types(), 4, t, obj) == Some(ActionType::UserDexAbstraction));
    assert(all_action_types()[3] == ActionType::SetReferrer);
    assert("setReferrer"@.len() != "userDexAbstraction"@.len());
    assert(!type_selected(ActionType::SetReferrer, t, obj));
    assert(first_selected(all_action_types(), 3, t, obj) == Some(ActionType::UserDexAbstraction));
    assert(all_action_types()[2] == ActionType::NoOp);
    assert("noop"@.len() != "userDexAbstraction"@.len());
    assert(!type_selected(ActionType::NoOp, t, obj));
    assert(first_selected(all_action_types(), 2, t, obj) == Some(ActionType::UserDexAbstraction));
    assert(all_action_types()[1] == ActionType::CreateSubAccount);
    assert("createSubAccount"@.len() != "userDexAbstraction"@.len());
    assert(!type_selected(ActionType::CreateSubAccount, t, obj));
    assert(first_selected(all_action_types(), 1, t, obj) == Some(ActionType::UserDexAbstraction));
    assert(all_action_types()[0] == ActionType::AgentEnableDexAbstraction);
    assert("agentEnableDexAbstraction"@.len() != "userDexAbstraction"@.len());
    assert(!type_selected(ActionType::AgentEnableDexAbstraction, t, obj));
    assert(first_selected(all_action_types(), 0, t, obj) == Some(ActionType::UserDexAbstraction));
}

/// A built [`Withdraw`] object is read back as a [`Withdraw`].
proof fn lemma_built_selects_withdraw(payload: Json, chain: Option<SigningChain>)
    requires
        payload matches Json::Object(p) && keys_distinct(p) && !obj_has(p, "type"@),
        build_action_spec(type_meta(ActionType::Withdraw), payload, chain) is Ok,
    ensures
        first_selected(
            all_action_types(),
            0,
            type_meta(ActionType::Withdraw).action_type,
            build_action_spec(type_meta(ActionType::Withdraw), payload, chain)->Ok_0->Object_0,
        ) == Some(ActionType::Withdraw),
{
    reveal_strlit("agentEnableDexAbstraction");
    reveal_strlit("approveAgent");
    reveal_strlit("approveBuilderFee");
    reveal_strlit("batchModify");
    reveal_strlit("convertToMultiSigUser");
    reveal_strlit("createSubAccount");
    reveal_strlit("evmUserModify");
    reveal_strlit("genesis");
    reveal_strlit("haltTrading");
    reveal_strlit("insertMarginTable");
    reveal_strlit("modifies");
    reveal_strlit("noop");
    reveal_strlit("order");
    reveal_strlit("orders");
    reveal_strlit("perpDeploy");
    reveal_strlit("registerHyperliquidity");
    reveal_strlit("registerSpot");
    reveal_strlit("registerToken2");
    reveal_strlit("scheduleCancel");
    reveal_strlit("sendAsset");
    reveal_strlit("setDeployerTradingFeeShare");
    reveal_strlit("setFeeRecipient");
    reveal_strlit("setFundingMultipliers");
    reveal_strlit("setGrowthModes");
    reveal_strlit("setMarginTableIds");
    reveal_strlit("setOpenInterestCaps");
    reveal_strlit("setOracle");
    reveal_strlit("setReferrer");
    reveal_strlit("spotDeploy");
    reveal_strlit("spotSend");
    reveal_strlit("subAccountSpotTransfer");
    reveal_strlit("tokenDelegate");
    reveal_strlit("type");
    reveal_strlit("updateIsolatedMargin");
    reveal_strlit("updateLeverage");
    reveal_strlit("usdClassTransfer");
    reveal_strlit("usdSend");
    reveal_strlit("userDexAbstraction");
    reveal_strlit("userGenesis");
    reveal_strlit("vaultTransfer");
    reveal_strlit("withdraw3");
    let meta = type_meta(ActionType::Withdraw);
    let obj = build_action_spec(meta, payload, chain)->Ok_0->Object_0;
    let t = meta.action_type;
    assert(all_action_types()[35] == ActionType::Withdraw);
    assert(type_selected(ActionType::Withdraw, t, obj));
    assert(first_selected(all_action_types(), 35, t, obj) == Some(ActionType::Withdraw));
    assert(all_action_types()[34] == ActionType::UserDexAbstraction);
    assert("userDexAbstraction"@.len() != "withdraw3"@.len());
    assert(!type_selected(ActionType::UserDexAbstraction, t, obj));
    assert(first_selected(all_action_types(), 34, t, obj) == Some(ActionType::Withdraw));
    assert(all_action_types()[33] == ActionType::UsdSend);
    assert("usdSend"@.len() != "withdraw3"@.len());
    assert(!type_selected(ActionType::UsdSend, t, obj));
    assert(first_selected(all_action_types(), 33, t, obj) == Some(ActionType::Withdraw));
    assert(all_action_types()[32] == ActionType::UsdClassTransfer);
    assert("usdClassTransfer"@.len() != "withdraw3"@.len());
    assert(!type_selected(ActionType::UsdClassTransfer, t, obj));
    assert(first_selected(all_action_types(), 32, t, obj) == Some(ActionType::Withdraw));
    assert(all_action_types()[31] == ActionType::TokenDelegate);
    assert("tokenDelegate"@.len() != "withdraw3"@.len());
    assert(!type_selected(ActionType::TokenDelegate, t, obj));
    assert(first_selected(all_action_types(), 31, t, obj) == Some(ActionType::Withdraw));
    assert(all_action_types()[30] == ActionType::SpotTransfer);
    assert("spotSend"@.len() != "withdraw3"@.len());
    assert(!type_selected(ActionType::SpotTransfer, t, obj));
    assert(first_selected(all_action_types(), 30, t, obj) == Some(ActionType::Withdraw));
    assert(all_action_types()[29] == ActionType::SendAsset);
    assert("sendAsset"@[0] != "withdraw3"@[0]);
    assert(!type_selected(ActionType::SendAsset, t, obj));
    assert(first_selected(all_action_types(), 29, t, obj) == Some(ActionType::Withdraw));
    assert(all_action_types()[28] == ActionType::ConvertToMultiSigUser);
    assert("convertToMultiSigUser"@.len() != "withdraw3"@.len());
    assert(!type_selected(ActionType::ConvertToMultiSigUser, t, obj));
    assert(first_selected(all_action_types(), 28, t, obj) == Some(ActionType::Withdraw));
    assert(all_action_types()[27] == ActionType::ApproveBuilderFee);
    assert("approveBuilderFee"@.len() != "withdraw3"@.len());
    assert(!type_selected(ActionType::ApproveBuilderFee, t, obj));
    assert(first_selected(all_action_types(), 27, t, obj) == Some(ActionType::Withdraw));
    assert(all_action_types()[26] == ActionType::ApproveAgent);
    assert("approveAgent"@.len() != "withdraw3"@.len());
    assert(!type_selected(ActionType::ApproveAgent, t, obj));
    assert(first_selected(all_action_types(), 26, t, obj) == Some(ActionType::Withdraw));
    assert(all_action_types()[25] == ActionType::UserGenesis);
    assert("spotDeploy"@.len() != "withdraw3"@.len());
    assert(!type_selected(ActionType::UserGenesis, t, obj));
    assert(first_selected(all_action_types(), 25, t, obj) == Some(ActionType::Withdraw));
    assert(all_action_types()[24] == ActionType::SetDeployerFees);
    assert("spotDeploy"@.len() != "withdraw3"@.len());
    assert(!type_selected(ActionType::SetDeployerFees, t, obj));
    assert(first_selected(all_action_types(), 24, t, obj) == Some(ActionType::Withdraw));
    assert(all_action_types()[23] == ActionType::RegisterToken);
    assert("spotDeploy"@.len() != "withdraw3"@.len());
    assert(!type_selected(ActionType::RegisterToken, t, obj));
    assert(first_selected(all_action_types(), 23, t, obj) == Some(ActionType::Withdraw));
    assert(all_action_types()[22] == ActionType::RegisterSpot);
    assert("spotDeploy"@.len() != "withdraw3"@.len());
    assert(!type_selected(ActionType::RegisterSpot, t, obj));
    assert(first_selected(all_action_types(), 22, t, obj) == Some(ActionType::Withdraw));
    assert(all_action_types()[21] == ActionType::RegisterHyperliquidity);
    assert("spotDeploy"@.len() != "withdraw3"@.len());
    assert(!type_selected(ActionType::RegisterHyperliquidity, t, obj));
    assert(first_selected(all_action_types(), 21, t, obj) == Some(ActionType::Withdraw));
    assert(all_action_types()[20] == ActionType::Genesis);
    assert("spotDeploy"@.len() != "withdraw3"@.len());
    assert(!type_selected(ActionType::Genesis, t, obj));
    assert(first_selected(all_action_types(), 20, t, obj) == Some(ActionType::Withdraw));
    assert(all_action_types()[19] == ActionType::ToggleTrading);
    assert("perpDeploy"@.len() != "withdraw3"@.len());
    assert(!type_selected(ActionType::ToggleTrading, t, obj));
    assert(first_selected(all_action_types(), 19, t, obj) == Some(ActionType::Withdraw));
    assert(all_action_types()[18] == ActionType::SetOracle);
    assert("perpDeploy"@.len() != "withdraw3"@.len());
    assert(!type_selected(ActionType::SetOracle, t, obj));
    assert(first_selected(all_action_types(), 18, t, obj) == Some(ActionType::Withdraw));
    assert(all_action_types()[17] == ActionType::SetOpenInterestCaps);
    assert("perpDeploy"@.len() != "withdraw3"@.len());
    assert(!type_selected(ActionType::SetOpenInterestCaps, t, obj));
    assert(first_selected(all_action_types(), 17, t, obj) == Some(ActionType::Withdraw));
    assert(all_action_types()[16] == ActionType::SetMarginTableIds);
    assert("perpDeploy"@.len() != "withdraw3"@.len());
    assert(!type_selected(ActionType::SetMarginTableIds, t, obj));
    assert(first_selected(all_action_types(), 16, t, obj) == Some(ActionType::Withdraw));
    assert(all_action_types()[15] == ActionType::SetGrowthModes);
    assert("perpDeploy"@.len() != "withdraw3"@.len());
    assert(!type_selected(ActionType::SetGrowthModes, t, obj));
    assert(first_selected(all_action_types(), 15, t, obj) == Some(ActionType::Withdraw));
    assert(all_action_types()[14] == ActionType::SetFundingMultipliers);
    assert("perpDeploy"@.len() != "withdraw3"@.len());
    assert(!type_selected(ActionType::SetFundingMultipliers, t, obj));
    assert(first_selected(all_action_types(), 14, t, obj) == Some(ActionType::Withdraw));
    assert(all_action_types()[13] == ActionType::SetFeeRecipient);
    assert("perpDeploy"@.len() != "withdraw3"@.len());
    assert(!type_selected(ActionType::SetFeeRecipient, t, obj));
    assert(first_selected(all_action_types(), 13, t, obj) == Some(ActionType::Withdraw));
    assert(all_action_types()[12] == ActionType::InsertMarginTable);
    assert("perpDeploy"@.len() != "withdraw3"@.len());
    assert(!type_selected(ActionType::InsertMarginTable, t, obj));
    assert(first_selected(all_action_types(), 12, t, obj) == Some(ActionType::Withdraw));
    assert(all_action_types()[11] == ActionType::UpdateLeverage);
    assert("updateLeverage"@.len() != "withdraw3"@.len());
    assert(!type_selected(ActionType::UpdateLeverage, t, obj));
    assert(first_selected(all_action_types(), 11, t, obj) == Some(ActionType::Withdraw));
    assert(all_action_types()[10] == ActionType::UpdateIsolatedMargin);
    assert("updateIsolatedMargin"@.len() != "withdraw3"@.len());
    assert(!type_selected(ActionType::UpdateIsolatedMargin, t, obj));
    assert(first_selected(all_action_types(), 10, t, obj) == Some(ActionType::Withdraw));
    assert(all_action_types()[9] == ActionType::ScheduleCancel);
    assert("scheduleCancel"@.len() != "withdraw3"@.len());
    assert(!type_selected(ActionType::ScheduleCancel, t, obj));
    assert(first_selected(all_action_types(), 9, t, obj) == Some(ActionType::Withdraw));
    assert(all_action_types()[8] == ActionType::BatchModify);
    assert("batchModify"@.len() != "withdraw3"@.len());
    assert(!type_selected(ActionType::BatchModify, t, obj));
    assert(first_selected(all_action_types(), 8, t, obj) == Some(ActionType::Withdraw));
    assert(all_action_types()[7] == ActionType::BatchOrder);
    assert("order"@.len() != "withdraw3"@.len());
    assert(!type_selected(ActionType::BatchOrder, t, obj));
    assert(first_selected(all_action_types(), 7, t, obj) == Some(ActionType::Withdraw));
    assert(all_action_types()[6] == ActionType::VaultTransfer);
    assert("vaultTransfer"@.len() != "withdraw3"@.len());
    assert(!type_selected(ActionType::VaultTransfer, t, obj));
    assert(first_selected(all_action_types(), 6, t, obj) == Some(ActionType::Withdraw));
    assert(all_action_types()[5] == ActionType::ToggleBigBlocks);
    assert("evmUserModify"@.len() != "withdraw3"@.len());
    assert(!type_selected(ActionType::ToggleBigBlocks, t, obj));
    assert(first_selected(all_action_types(), 5, t, obj) == Some(ActionType::Withdraw));
    assert(all_action_types()[4] == ActionType::SubAccountSpotTransfer);
    assert("subAccountSpotTransfer"@.len() != "withdraw3"@.len());
    assert(!type_selected(ActionType::SubAccountSpotTransfer, t, obj));
    assert(first_selected(all_action_types(), 4, t, obj) == Some(ActionType::Withdraw));
    assert(all_action_types()[3] == ActionType::SetReferrer);
    assert("setReferrer"@.len() != "withdraw3"@.len());
    assert(!type_selected(ActionType::SetReferrer, t, obj));
    assert(first_selected(all_action_types(), 3, t, obj) == Some(ActionType::Withdraw));
    assert(all_action_types()[2] == ActionType::NoOp);
    assert("noop"@.len() != "withdraw3"@.len());
    assert(!type_selected(ActionType::NoOp, t, obj));
    assert(first_selected(all_action_types(), 2, t, obj) == Some(ActionType::Withdraw));
    assert(all_action_types()[1] == ActionType::CreateSubAccount);
    assert("createSubAccount"@.len() != "withdraw3"@.len());
    assert(!type_selected(ActionType::CreateSubAccount, t, obj));
    assert(first_selected(all_action_types(), 1, t, obj) == Some(ActionType::Withdraw));
    assert(all_action_types()[0] == ActionType::AgentEnableDexAbstraction);
    assert("agentEnableDexAbstraction"@.len() != "withdraw3"@.len());
    assert(!type_selected(ActionType::AgentEnableDexAbstraction, t, obj));
    assert(first_selected(all_action_types(), 0, t, obj) == Some(ActionType::Withdraw));
}

/// Reading a built action object without knowing its type finds the action's own type,
/// and the payload that reading it as that type extracts (for a flattened payload, an object
/// with distinct keys and without a `"type"` member, as the other round-trip laws ask).
pub proof fn lemma_built_action_kind(ty: ActionType, payload: Json, chain: Option<SigningChain>)
    requires
        type_meta(ty).payload_key == type_meta(ty).action_type ==> (payload matches Json::Object(p)
            && keys_distinct(p) && !obj_has(p, "type"@)),
        build_action_spec(type_meta(ty), payload, chain) is Ok,
    ensures
        type_meta(ty).payload_key != "type"@,
        read_action_kind_spec(build_action_spec(type_meta(ty), payload, chain)->Ok_0) == match extract_payload_spec(
            type_meta(ty),
            build_action_spec(type_meta(ty), payload, chain)->Ok_0->Object_0,
        ) {
            Ok(p) => Ok(KindReadingV::Known(ty, p)),
            Err(e) => Err::<KindReadingV, Seq<char>>(e),
        },
{
    match ty {
        ActionType::AgentEnableDexAbstraction => {
            reveal_strlit("agentEnableDexAbstraction");
            reveal_strlit("type");
            assert("agentEnableDexAbstraction"@.len() != "type"@.len());
        },
        ActionType::CreateSubAccount => {
            reveal_strlit("createSubAccount");
            reveal_strlit("type");
            assert("createSubAccount"@.len() != "type"@.len());
        },
        ActionType::NoOp => {
            reveal_strlit("noop");
            reveal_strlit("type");
            assert("noop"@[0] != "type"@[0]);
        },
        ActionType::SetReferrer => {
            reveal_strlit("setReferrer");
            reveal_strlit("type");
            assert("setReferrer"@.len() != "type"@.len());
        },
        ActionType::SubAccountSpotTransfer => {
            reveal_strlit("subAccountSpotTransfer");
            reveal_strlit("type");
            assert("subAccountSpotTransfer"@.len() != "type"@.len());
        },
        ActionType::ToggleBigBlocks => {
            reveal_strlit("evmUserModify");
            reveal_strlit("type");
            assert("evmUserModify"@.len() != "type"@.len());
        },
        ActionType::VaultTransfer => {
            reveal_strlit("vaultTransfer");
            reveal_strlit("type");
            assert("vaultTransfer"@.len() != "type"@.len());
        },
        ActionType::BatchOrder => {
            reveal_strlit("orders");
            reveal_strlit("type");
            assert("orders"@.len() != "type"@.len());
        },
        ActionType::BatchModify => {
            reveal_strlit("modifies");
            reveal_strlit("type");
            assert("modifies"@.len() != "type"@.len());
        },
        ActionType::ScheduleCancel => {
            reveal_strlit("scheduleCancel");
            reveal_strlit("type");
            assert("scheduleCancel"@.len() != "type"@.len());
        },
        ActionType::UpdateIsolatedMargin => {
            reveal_strlit("updateIsolatedMargin");
            reveal_strlit("type");
            assert("updateIsolatedMargin"@.len() != "type"@.len());
        },
        ActionType::UpdateLeverage => {
            reveal_strlit("updateLeverage");
            reveal_strlit("type");
            assert("updateLeverage"@.len() != "type"@.len());
        },
        ActionType::InsertMarginTable => {
            reveal_strlit("insertMarginTable");
            reveal_strlit("type");
            assert("insertMarginTable"@.len() != "type"@.len());
        },
        ActionType::SetFeeRecipient => {
            reveal_strlit("setFeeRecipient");
            reveal_strlit("type");
            assert("setFeeRecipient"@.len() != "type"@.len());
        },
        ActionType::SetFundingMultipliers => {
            reveal_strlit("setFundingMultipliers");
            reveal_strlit("type");
            assert("setFundingMultipliers"@.len() != "type"@.len());
        },
        ActionType::SetGrowthModes => {
            reveal_strlit("setGrowthModes");
            reveal_strlit("type");
            assert("setGrowthModes"@.len() != "type"@.len());
        },
        ActionType::SetMarginTableIds => {
            reveal_strlit("setMarginTableIds");
            reveal_strlit("type");
            assert("setMarginTableIds"@.len() != "type"@.len());
        },
        ActionType::SetOpenInterestCaps => {
            reveal_strlit("setOpenInterestCaps");
            reveal_strlit("type");
            assert("setOpenInterestCaps"@.len() != "type"@.len());
        },
        ActionType::SetOracle => {
            reveal_strlit("setOracle");
            reveal_strlit("type");
            assert("setOracle"@.len() != "type"@.len());
        },
        ActionType::ToggleTrading => {
            reveal_strlit("haltTrading");
            reveal_strlit("type");
            assert("haltTrading"@.len() != "type"@.len());
        },
        ActionType::Genesis => {
            reveal_strlit("genesis");
            reveal_strlit("type");
            assert("genesis"@.len() != "type"@.len());
        },
        ActionType::RegisterHyperliquidity => {
            reveal_strlit("registerHyperliquidity");
            reveal_strlit("type");
            assert("registerHyperliquidity"@.len() != "type"@.len());
        },
        ActionType::RegisterSpot => {
            reveal_strlit("registerSpot");
            reveal_strlit("type");
            assert("registerSpot"@.len() != "type"@.len());
        },
        ActionType::RegisterToken => {
            reveal_strlit("registerToken2");
            reveal_strlit("type");
            assert("registerToken2"@.len() != "type"@.len());
        },
        ActionType::SetDeployerFees => {
            reveal_strlit("setDeployerTradingFeeShare");
            reveal_strlit("type");
            assert("setDeployerTradingFeeShare"@.len() != "type"@.len());
        },
        ActionType::UserGenesis => {
            reveal_strlit("userGenesis");
            reveal_strlit("type");
            assert("userGenesis"@.len() != "type"@.len());
        },
        ActionType::ApproveAgent => {
            reveal_strlit("approveAgent");
            reveal_strlit("type");
            assert("approveAgent"@.len() != "type"@.len());
        },
        ActionType::ApproveBuilderFee => {
            reveal_strlit("approveBuilderFee");
            reveal_strlit("type");
            assert("approveBuilderFee"@.len() != "type"@.len());
        },
        ActionType::ConvertToMultiSigUser => {
            reveal_strlit("convertToMultiSigUser");
            reveal_strlit("type");
            assert("convertToMultiSigUser"@.len() != "type"@.len());
        },
        ActionType::SendAsset => {
            reveal_strlit("sendAsset");
            reveal_strlit("type");
            assert("sendAsset"@.len() != "type"@.len());
        },
        ActionType::SpotTransfer => {
            reveal_strlit("spotSend");
            reveal_strlit("type");
            assert("spotSend"@.len() != "type"@.len());
        },
        ActionType::TokenDelegate => {
            reveal_strlit("tokenDelegate");
            reveal_strlit("type");
            assert("tokenDelegate"@.len() != "type"@.len());
        },
        ActionType::UsdClassTransfer => {
            reveal_strlit("usdClassTransfer");
            reveal_strlit("type");
            assert("usdClassTransfer"@.len() != "type"@.len());
        },
        ActionType::UsdSend => {
            reveal_strlit("usdSend");
            reveal_strlit("type");
            assert("usdSend"@.len() != "type"@.len());
        },
        ActionType::UserDexAbstraction => {
            reveal_strlit("userDexAbstraction");
            reveal_strlit("type");
            assert("userDexAbstraction"@.len() != "type"@.len());
        },
        ActionType::Withdraw => {
            reveal_strlit("withdraw3");
            reveal_strlit("type");
            assert("withdraw3"@.len() != "type"@.len());
        },
    }
    lemma_built_action_names_type(type_meta(ty), payload, chain);
    match ty {
        ActionType::AgentEnableDexAbstraction => lemma_built_selects_agent_enable_dex_abstraction(payload, chain),
        ActionType::CreateSubAccount => lemma_built_selects_create_sub_account(payload, chain),
        ActionType::NoOp => lemma_built_selects_no_op(payload, chain),
        ActionType::SetReferrer => lemma_built_selects_set_referrer(payload, chain),
        ActionType::SubAccountSpotTransfer => lemma_built_selects_sub_account_spot_transfer(payload, chain),
        ActionType::ToggleBigBlocks => lemma_built_selects_toggle_big_blocks(payload, chain),
        ActionType::VaultTransfer => lemma_built_selects_vault_transfer(payload, chain),
        ActionType::BatchOrder => lemma_built_selects_batch_order(payload, chain),
        ActionType::BatchModify => lemma_built_selects_batch_modify(payload, chain),
        ActionType::ScheduleCancel => lemma_built_selects_schedule_cancel(payload, chain),
        ActionType::UpdateIsolatedMargin => lemma_built_selects_update_isolated_margin(payload, chain),
        ActionType::UpdateLeverage => lemma_built_selects_update_leverage(payload, chain),
        ActionType::InsertMarginTable => lemma_built_selects_insert_margin_table(payload, chain),
        ActionType::SetFeeRecipient => lemma_built_selects_set_fee_recipient(payload, chain),
        ActionType::SetFundingMultipliers => lemma_built_selects_set_funding_multipliers(payload, chain),
        ActionType::SetGrowthModes => lemma_built_selects_set_growth_modes(payload, chain),
        ActionType::SetMarginTableIds => lemma_built_selects_set_margin_table_ids(payload, chain),
        ActionType::SetOpenInterestCaps => lemma_built_selects_set_open_interest_caps(payload, chain),
        ActionType::SetOracle => lemma_built_selects_set_oracle(payload, chain),
        ActionType::ToggleTrading => lemma_built_selects_toggle_trading(payload, chain),
        ActionType::Genesis => lemma_built_selects_genesis(payload, chain),
        ActionType::RegisterHyperliquidity => lemma_built_selects_register_hyperliquidity(payload, chain),
        ActionType::RegisterSpot => lemma_built_selects_register_spot(payload, chain),
        ActionType::RegisterToken => lemma_built_selects_register_token(payload, chain),
        ActionType::SetDeployerFees => lemma_built_selects_set_deployer_fees(payload, chain),
        ActionType::UserGenesis => lemma_built_selects_user_genesis(payload, chain),
        ActionType::ApproveAgent => lemma_built_selects_approve_agent(payload, chain),
        ActionType::ApproveBuilderFee => lemma_built_selects_approve_builder_fee(payload, chain),
        ActionType::ConvertToMultiSigUser => lemma_built_selects_convert_to_multi_sig_user(payload, chain),
        ActionType::SendAsset => lemma_built_selects_send_asset(payload, chain),
        ActionType::SpotTransfer => lemma_built_selects_spot_transfer(payload, chain),
        ActionType::TokenDelegate => lemma_built_selects_token_delegate(payload, chain),
        ActionType::UsdClassTransfer => lemma_built_selects_usd_class_transfer(payload, chain),
        ActionType::UsdSend => lemma_built_selects_usd_send(payload, chain),
        ActionType::UserDexAbstraction => lemma_built_selects_user_dex_abstraction(payload, chain),
        ActionType::Withdraw => lemma_built_selects_withdraw(payload, chain),
    }
}

} // verus!
