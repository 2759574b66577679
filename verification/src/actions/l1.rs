//! General L1 actions (account and transfer operations signed through the L1 scheme).
use vstd::prelude::*;
use super::{Action, ActionKind, ActionMeta, ActionMetaV, nested_meta};
use crate::error::BuilderError;
use crate::primitives::{Address, Decimal};

verus! {

/// Enable DEX abstraction for an agent. The action has no parameters.
#[derive(Debug, Clone)]
pub struct AgentEnableDexAbstraction {
    pub nonce: Option<u64>,
}

impl AgentEnableDexAbstraction {
    pub fn new() -> (r: Self)
        ensures
            r.nonce is None,
    {
        AgentEnableDexAbstraction { nonce: None }
    }
}

impl Default for AgentEnableDexAbstraction {
    fn default() -> (r: Self)
        ensures
            r.nonce is None,
    {
        Self::new()
    }
}

/// Create a new sub-account.
#[derive(Debug, Clone)]
pub struct CreateSubAccount {
    /// Name for the sub-account.
    pub name: String,
    pub nonce: Option<u64>,
}

impl CreateSubAccount {
    pub fn new(name: &str) -> (r: Self)
        ensures
            r.name@ == name@,
            r.nonce is None,
    {
        CreateSubAccount { name: name.to_owned(), nonce: None }
    }
}

/// An action that does nothing; used to consume (invalidate) a nonce.
#[derive(Debug, Clone)]
pub struct NoOp {
    pub nonce: Option<u64>,
}

impl NoOp {
    /// A no-op carrying `nonce`, so that any pending action with that nonce is invalidated.
    pub fn invalidate_nonce(nonce: u64) -> (r: Self)
        ensures
            r.nonce == Some(nonce),
    {
        NoOp { nonce: Some(nonce) }
    }
}

impl Default for NoOp {
    fn default() -> (r: Self)
        ensures
            r.nonce is None,
    {
        NoOp { nonce: None }
    }
}

/// Set a referrer code for the user.
#[derive(Debug, Clone)]
pub struct SetReferrer {
    /// The referrer code to set.
    pub code: String,
    pub nonce: Option<u64>,
}

impl SetReferrer {
    pub fn new(code: &str) -> (r: Self)
        ensures
            r.code@ == code@,
            r.nonce is None,
    {
        SetReferrer { code: code.to_owned(), nonce: None }
    }
}

/// Transfer spot tokens between the main account and a sub-account.
#[derive(Debug, Clone)]
pub struct SubAccountSpotTransfer {
    /// Sub-account user address.
    pub sub_account_user: Address,
    /// True to deposit to the sub-account, false to withdraw.
    pub is_deposit: bool,
    /// Token identifier.
    pub token: String,
    /// Amount to transfer.
    pub amount: Decimal,
    pub nonce: Option<u64>,
}

impl SubAccountSpotTransfer {
    /// Deposit tokens to a sub-account.
    pub fn deposit(sub_account_user: Address, token: &str, amount: Decimal) -> (r: Self)
        ensures
            r.sub_account_user == sub_account_user,
            r.is_deposit,
            r.token@ == token@,
            r.amount == amount,
            r.nonce is None,
    {
        SubAccountSpotTransfer {
            sub_account_user,
            is_deposit: true,
            token: token.to_owned(),
            amount,
            nonce: None,
        }
    }

    /// Withdraw tokens from a sub-account.
    pub fn withdraw(sub_account_user: Address, token: &str, amount: Decimal) -> (r: Self)
        ensures
            r.sub_account_user == sub_account_user,
            !r.is_deposit,
            r.token@ == token@,
            r.amount == amount,
            r.nonce is None,
    {
        SubAccountSpotTransfer {
            sub_account_user,
            is_deposit: false,
            token: token.to_owned(),
            amount,
            nonce: None,
        }
    }
}

/// Toggle big blocks mode for an EVM user.
#[derive(Debug, Clone)]
pub struct ToggleBigBlocks {
    pub using_big_blocks: bool,
    pub nonce: Option<u64>,
}

/// Step-by-step construction of a [`ToggleBigBlocks`]; `using_big_blocks` is required.
#[derive(Debug, Clone)]
pub struct ToggleBigBlocksBuilder {
    pub using_big_blocks: Option<bool>,
    pub nonce: Option<Option<u64>>,
}

impl ToggleBigBlocksBuilder {
    pub fn using_big_blocks(self, value: bool) -> (r: Self)
        ensures
            r.using_big_blocks == Some(value),
            r.nonce == self.nonce,
    {
        ToggleBigBlocksBuilder { using_big_blocks: Some(value), ..self }
    }

    pub fn nonce(self, value: Option<u64>) -> (r: Self)
        ensures
            r.nonce == Some(value),
            r.using_big_blocks == self.using_big_blocks,
    {
        ToggleBigBlocksBuilder { nonce: Some(value), ..self }
    }

    /// The action, or an error naming the first required field that was never set.
    pub fn build(self) -> (r: Result<ToggleBigBlocks, BuilderError>)
        ensures
            r is Ok <==> self.using_big_blocks is Some,
            r matches Ok(a) ==> a.using_big_blocks == self.using_big_blocks->0
                && a.nonce == (match self.nonce { Some(n) => n, None => None }),
            r matches Err(BuilderError::UninitializedField(f)) ==> f@ == "using_big_blocks"@,
    {
        match self.using_big_blocks {
            Some(using_big_blocks) => {
                let nonce = match self.nonce {
                    Some(n) => n,
                    None => None,
                };
                Ok(ToggleBigBlocks { using_big_blocks, nonce })
            },
            None => Err(BuilderError::UninitializedField("using_big_blocks".to_owned())),
        }
    }
}

impl ToggleBigBlocks {
    /// A builder with no field set.
    pub fn builder() -> (b: ToggleBigBlocksBuilder)
        ensures
            b.using_big_blocks is None,
            b.nonce is None,
    {
        ToggleBigBlocksBuilder { using_big_blocks: None, nonce: None }
    }

    pub fn enable() -> (r: Self)
        ensures
            r.using_big_blocks,
            r.nonce is None,
    {
        ToggleBigBlocks { using_big_blocks: true, nonce: None }
    }

    pub fn disable() -> (r: Self)
        ensures
            !r.using_big_blocks,
            r.nonce is None,
    {
        ToggleBigBlocks { using_big_blocks: false, nonce: None }
    }
}

/// Transfer USD to or from a vault.
#[derive(Debug, Clone)]
pub struct VaultTransfer {
    /// Vault address.
    pub vault_address: Address,
    /// True to deposit to the vault, false to withdraw.
    pub is_deposit: bool,
    /// USD amount (raw integer, not decimal).
    pub usd: i64,
    pub nonce: Option<u64>,
}

impl VaultTransfer {
    /// Deposit USD to a vault.
    pub fn deposit(vault_address: Address, usd: i64) -> (r: Self)
        ensures
            r.vault_address == vault_address,
            r.is_deposit,
            r.usd == usd,
            r.nonce is None,
    {
        VaultTransfer { vault_address, is_deposit: true, usd, nonce: None }
    }

    /// Withdraw USD from a vault.
    pub fn withdraw(vault_address: Address, usd: i64) -> (r: Self)
        ensures
            r.vault_address == vault_address,
            !r.is_deposit,
            r.usd == usd,
            r.nonce is None,
    {
        VaultTransfer { vault_address, is_deposit: false, usd, nonce: None }
    }
}

impl Action for AgentEnableDexAbstraction {
    open spec fn spec_kind(self) -> ActionKind {
        ActionKind::AgentEnableDexAbstraction(self)
    }

    fn into_kind(self) -> (k: ActionKind) {
        ActionKind::AgentEnableDexAbstraction(self)
    }

    open spec fn spec_meta() -> ActionMetaV {
        ActionMetaV {
            action_type: "agentEnableDexAbstraction"@,
            payload_key: "agentEnableDexAbstraction"@,
            user_signed: false,
            uses_time: false,
        }
    }

    open spec fn spec_nonce(&self) -> Option<u64> {
        self.nonce
    }

    open spec fn spec_with_nonce(self, nonce: u64) -> Self {
        AgentEnableDexAbstraction { nonce: Some(nonce), ..self }
    }

    fn meta() -> (m: ActionMeta) {
        nested_meta("agentEnableDexAbstraction", "agentEnableDexAbstraction", false, false)
    }

    fn nonce(&self) -> (n: Option<u64>) {
        self.nonce
    }

    fn with_nonce(self, nonce: u64) -> (r: Self) {
        AgentEnableDexAbstraction { nonce: Some(nonce), ..self }
    }
}

impl Action for CreateSubAccount {
    open spec fn spec_kind(self) -> ActionKind {
        ActionKind::CreateSubAccount(self)
    }

    fn into_kind(self) -> (k: ActionKind) {
        ActionKind::CreateSubAccount(self)
    }

    open spec fn spec_meta() -> ActionMetaV {
        ActionMetaV {
            action_type: "createSubAccount"@,
            payload_key: "createSubAccount"@,
            user_signed: false,
            uses_time: false,
        }
    }

    open spec fn spec_nonce(&self) -> Option<u64> {
        self.nonce
    }

    open spec fn spec_with_nonce(self, nonce: u64) -> Self {
        CreateSubAccount { nonce: Some(nonce), ..self }
    }

    fn meta() -> (m: ActionMeta) {
        nested_meta("createSubAccount", "createSubAccount", false, false)
    }

    fn nonce(&self) -> (n: Option<u64>) {
        self.nonce
    }

    fn with_nonce(self, nonce: u64) -> (r: Self) {
        CreateSubAccount { nonce: Some(nonce), ..self }
    }
}

impl Action for NoOp {
    open spec fn spec_kind(self) -> ActionKind {
        ActionKind::NoOp(self)
    }

    fn into_kind(self) -> (k: ActionKind) {
        ActionKind::NoOp(self)
    }

    open spec fn spec_meta() -> ActionMetaV {
        ActionMetaV {
            action_type: "noop"@,
            payload_key: "noop"@,
            user_signed: false,
            uses_time: false,
        }
    }

    open spec fn spec_nonce(&self) -> Option<u64> {
        self.nonce
    }

    open spec fn spec_with_nonce(self, nonce: u64) -> Self {
        NoOp { nonce: Some(nonce), ..self }
    }

    fn meta() -> (m: ActionMeta) {
        nested_meta("noop", "noop", false, false)
    }

    fn nonce(&self) -> (n: Option<u64>) {
        self.nonce
    }

    fn with_nonce(self, nonce: u64) -> (r: Self) {
        NoOp { nonce: Some(nonce), ..self }
    }
}

impl Action for SetReferrer {
    open spec fn spec_kind(self) -> ActionKind {
        ActionKind::SetReferrer(self)
    }

    fn into_kind(self) -> (k: ActionKind) {
        ActionKind::SetReferrer(self)
    }

    open spec fn spec_meta() -> ActionMetaV {
        ActionMetaV {
            action_type: "setReferrer"@,
            payload_key: "setReferrer"@,
            user_signed: false,
            uses_time: false,
        }
    }

    open spec fn spec_nonce(&self) -> Option<u64> {
        self.nonce
    }

    open spec fn spec_with_nonce(self, nonce: u64) -> Self {
        SetReferrer { nonce: Some(nonce), ..self }
    }

    fn meta() -> (m: ActionMeta) {
        nested_meta("setReferrer", "setReferrer", false, false)
    }

    fn nonce(&self) -> (n: Option<u64>) {
        self.nonce
    }

    fn with_nonce(self, nonce: u64) -> (r: Self) {
        SetReferrer { nonce: Some(nonce), ..self }
    }
}

impl Action for SubAccountSpotTransfer {
    open spec fn spec_kind(self) -> ActionKind {
        ActionKind::SubAccountSpotTransfer(self)
    }

    fn into_kind(self) -> (k: ActionKind) {
        ActionKind::SubAccountSpotTransfer(self)
    }

    open spec fn spec_meta() -> ActionMetaV {
        ActionMetaV {
            action_type: "subAccountSpotTransfer"@,
            payload_key: "subAccountSpotTransfer"@,
            user_signed: false,
            uses_time: false,
        }
    }

    open spec fn spec_nonce(&self) -> Option<u64> {
        self.nonce
    }

    open spec fn spec_with_nonce(self, nonce: u64) -> Self {
        SubAccountSpotTransfer { nonce: Some(nonce), ..self }
    }

    fn meta() -> (m: ActionMeta) {
        nested_meta("subAccountSpotTransfer", "subAccountSpotTransfer", false, false)
    }

    fn nonce(&self) -> (n: Option<u64>) {
        self.nonce
    }

    fn with_nonce(self, nonce: u64) -> (r: Self) {
        SubAccountSpotTransfer { nonce: Some(nonce), ..self }
    }
}

impl Action for ToggleBigBlocks {
    open spec fn spec_kind(self) -> ActionKind {
        ActionKind::ToggleBigBlocks(self)
    }

    fn into_kind(self) -> (k: ActionKind) {
        ActionKind::ToggleBigBlocks(self)
    }

    open spec fn spec_meta() -> ActionMetaV {
        ActionMetaV {
            action_type: "evmUserModify"@,
            payload_key: "evmUserModify"@,
            user_signed: false,
            uses_time: false,
        }
    }

    open spec fn spec_nonce(&self) -> Option<u64> {
        self.nonce
    }

    open spec fn spec_with_nonce(self, nonce: u64) -> Self {
        ToggleBigBlocks { nonce: Some(nonce), ..self }
    }

    fn meta() -> (m: ActionMeta) {
        nested_meta("evmUserModify", "evmUserModify", false, false)
    }

    fn nonce(&self) -> (n: Option<u64>) {
        self.nonce
    }

    fn with_nonce(self, nonce: u64) -> (r: Self) {
        ToggleBigBlocks { nonce: Some(nonce), ..self }
    }
}

impl Action for VaultTransfer {
    open spec fn spec_kind(self) -> ActionKind {
        ActionKind::VaultTransfer(self)
    }

    fn into_kind(self) -> (k: ActionKind) {
        ActionKind::VaultTransfer(self)
    }

    open spec fn spec_meta() -> ActionMetaV {
        ActionMetaV {
            action_type: "vaultTransfer"@,
            payload_key: "vaultTransfer"@,
            user_signed: false,
            uses_time: false,
        }
    }

    open spec fn spec_nonce(&self) -> Option<u64> {
        self.nonce
    }

    open spec fn spec_with_nonce(self, nonce: u64) -> Self {
        VaultTransfer { nonce: Some(nonce), ..self }
    }

    fn meta() -> (m: ActionMeta) {
        nested_meta("vaultTransfer", "vaultTransfer", false, false)
    }

    fn nonce(&self) -> (n: Option<u64>) {
        self.nonce
    }

    fn with_nonce(self, nonce: u64) -> (r: Self) {
        VaultTransfer { nonce: Some(nonce), ..self }
    }
}

} // verus!
