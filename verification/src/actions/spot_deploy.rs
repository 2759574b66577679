//! Spot token deployment actions.
use vstd::prelude::*;
use super::{Action, ActionKind, ActionMeta, ActionMetaV, nested_meta};
use crate::primitives::Decimal;

verus! {

/// Genesis configuration for a token.
#[derive(Debug, Clone)]
pub struct Genesis {
    /// Token index.
    pub token: u32,
    /// Maximum supply.
    pub max_supply: String,
    /// Whether to disable hyperliquidity.
    pub no_hyperliquidity: bool,
    pub nonce: Option<u64>,
}

impl Genesis {
    pub fn new(token: u32, max_supply: &str, no_hyperliquidity: bool) -> (r: Self)
        ensures
            r.token == token,
            r.max_supply@ == max_supply@,
            r.no_hyperliquidity == no_hyperliquidity,
            r.nonce is None,
    {
        Genesis { token, max_supply: max_supply.to_owned(), no_hyperliquidity, nonce: None }
    }
}

/// Register hyperliquidity for a spot market.
#[derive(Debug, Clone)]
pub struct RegisterHyperliquidity {
    /// Spot market index.
    pub spot: u32,
    /// Starting price.
    pub start_px: Decimal,
    /// Order size.
    pub order_sz: Decimal,
    /// Number of orders.
    pub n_orders: u32,
    /// Number of seeded price levels (optional).
    pub n_seeded_levels: Option<u32>,
    pub nonce: Option<u64>,
}

impl RegisterHyperliquidity {
    pub fn new(spot: u32, start_px: Decimal, order_sz: Decimal, n_orders: u32) -> (r: Self)
        ensures
            r == (RegisterHyperliquidity {
                spot,
                start_px,
                order_sz,
                n_orders,
                n_seeded_levels: None,
                nonce: None,
            }),
    {
        RegisterHyperliquidity { spot, start_px, order_sz, n_orders, n_seeded_levels: None, nonce: None }
    }

    pub fn with_seeded_levels(self, n_seeded_levels: u32) -> (r: Self)
        ensures
            r == (RegisterHyperliquidity { n_seeded_levels: Some(n_seeded_levels), ..self }),
    {
        RegisterHyperliquidity { n_seeded_levels: Some(n_seeded_levels), ..self }
    }
}

/// Register a spot market pair.
#[derive(Debug, Clone)]
pub struct RegisterSpot {
    /// Token pair `[base_token, quote_token]`.
    pub tokens: [u32; 2],
    pub nonce: Option<u64>,
}

impl RegisterSpot {
    pub fn new(base_token: u32, quote_token: u32) -> (r: Self)
        ensures
            r.tokens@ == seq![base_token, quote_token],
            r.nonce is None,
    {
        let r = RegisterSpot { tokens: [base_token, quote_token], nonce: None };
        assert(r.tokens@ =~= seq![base_token, quote_token]);
        r
    }
}

/// Token specification for registration.
#[derive(Debug, Clone)]
pub struct TokenSpec {
    /// Token name or symbol.
    pub name: String,
    /// Size decimals.
    pub sz_decimals: u32,
    /// Wei decimals.
    pub wei_decimals: u32,
}

/// Register a new token.
#[derive(Debug, Clone)]
pub struct RegisterToken {
    /// Token specification.
    pub spec: TokenSpec,
    /// Maximum gas for the operation.
    pub max_gas: u64,
    /// Full display name of the token.
    pub full_name: String,
    pub nonce: Option<u64>,
}

impl RegisterToken {
    pub fn new(name: &str, sz_decimals: u32, wei_decimals: u32, max_gas: u64, full_name: &str) -> (r:
        Self)
        ensures
            r.spec.name@ == name@,
            r.spec.sz_decimals == sz_decimals,
            r.spec.wei_decimals == wei_decimals,
            r.max_gas == max_gas,
            r.full_name@ == full_name@,
            r.nonce is None,
    {
        RegisterToken {
            spec: TokenSpec { name: name.to_owned(), sz_decimals, wei_decimals },
            max_gas,
            full_name: full_name.to_owned(),
            nonce: None,
        }
    }
}

/// Set the deployer's trading fee share for a token.
#[derive(Debug, Clone)]
pub struct SetDeployerFees {
    /// Token index.
    pub token: u32,
    /// Fee share, as decimal text.
    pub share: String,
    pub nonce: Option<u64>,
}

impl SetDeployerFees {
    pub fn new(token: u32, share: &str) -> (r: Self)
        ensures
            r.token == token,
            r.share@ == share@,
            r.nonce is None,
    {
        SetDeployerFees { token, share: share.to_owned(), nonce: None }
    }
}

/// User genesis allocation for token distribution.
#[derive(Debug, Clone)]
pub struct UserGenesis {
    /// Token index.
    pub token: u32,
    /// User addresses and their wei allocations.
    pub user_and_wei: Vec<(String, String)>,
    /// Existing token ids and their wei allocations.
    pub existing_token_and_wei: Vec<(u32, String)>,
    pub nonce: Option<u64>,
}

impl UserGenesis {
    pub fn new(
        token: u32,
        user_and_wei: Vec<(String, String)>,
        existing_token_and_wei: Vec<(u32, String)>,
    ) -> (r: Self)
        ensures
            r == (UserGenesis { token, user_and_wei, existing_token_and_wei, nonce: None }),
    {
        UserGenesis { token, user_and_wei, existing_token_and_wei, nonce: None }
    }
}

impl Action for Genesis {
    open spec fn spec_kind(self) -> ActionKind {
        ActionKind::Genesis(self)
    }

    fn into_kind(self) -> (k: ActionKind) {
        ActionKind::Genesis(self)
    }

    open spec fn spec_meta() -> ActionMetaV {
        ActionMetaV {
            action_type: "spotDeploy"@,
            payload_key: "genesis"@,
            user_signed: false,
            uses_time: false,
        }
    }

    open spec fn spec_nonce(&self) -> Option<u64> {
        self.nonce
    }

    open spec fn spec_with_nonce(self, nonce: u64) -> Self {
        Genesis { nonce: Some(nonce), ..self }
    }

    fn meta() -> (m: ActionMeta) {
        nested_meta("spotDeploy", "genesis", false, false)
    }

    fn nonce(&self) -> (n: Option<u64>) {
        self.nonce
    }

    fn with_nonce(self, nonce: u64) -> (r: Self) {
        Genesis { nonce: Some(nonce), ..self }
    }
}

impl Action for RegisterHyperliquidity {
    open spec fn spec_kind(self) -> ActionKind {
        ActionKind::RegisterHyperliquidity(self)
    }

    fn into_kind(self) -> (k: ActionKind) {
        ActionKind::RegisterHyperliquidity(self)
    }

    open spec fn spec_meta() -> ActionMetaV {
        ActionMetaV {
            action_type: "spotDeploy"@,
            payload_key: "registerHyperliquidity"@,
            user_signed: false,
            uses_time: false,
        }
    }

    open spec fn spec_nonce(&self) -> Option<u64> {
        self.nonce
    }

    open spec fn spec_with_nonce(self, nonce: u64) -> Self {
        RegisterHyperliquidity { nonce: Some(nonce), ..self }
    }

    fn meta() -> (m: ActionMeta) {
        nested_meta("spotDeploy", "registerHyperliquidity", false, false)
    }

    fn nonce(&self) -> (n: Option<u64>) {
        self.nonce
    }

    fn with_nonce(self, nonce: u64) -> (r: Self) {
        RegisterHyperliquidity { nonce: Some(nonce), ..self }
    }
}

impl Action for RegisterSpot {
    open spec fn spec_kind(self) -> ActionKind {
        ActionKind::RegisterSpot(self)
    }

    fn into_kind(self) -> (k: ActionKind) {
        ActionKind::RegisterSpot(self)
    }

    open spec fn spec_meta() -> ActionMetaV {
        ActionMetaV {
            action_type: "spotDeploy"@,
            payload_key: "registerSpot"@,
            user_signed: false,
            uses_time: false,
        }
    }

    open spec fn spec_nonce(&self) -> Option<u64> {
        self.nonce
    }

    open spec fn spec_with_nonce(self, nonce: u64) -> Self {
        RegisterSpot { nonce: Some(nonce), ..self }
    }

    fn meta() -> (m: ActionMeta) {
        nested_meta("spotDeploy", "registerSpot", false, false)
    }

    fn nonce(&self) -> (n: Option<u64>) {
        self.nonce
    }

    fn with_nonce(self, nonce: u64) -> (r: Self) {
        RegisterSpot { nonce: Some(nonce), ..self }
    }
}

impl Action for RegisterToken {
    open spec fn spec_kind(self) -> ActionKind {
        ActionKind::RegisterToken(self)
    }

    fn into_kind(self) -> (k: ActionKind) {
        ActionKind::RegisterToken(self)
    }

    open spec fn spec_meta() -> ActionMetaV {
        ActionMetaV {
            action_type: "spotDeploy"@,
            payload_key: "registerToken2"@,
            user_signed: false,
            uses_time: false,
        }
    }

    open spec fn spec_nonce(&self) -> Option<u64> {
        self.nonce
    }

    open spec fn spec_with_nonce(self, nonce: u64) -> Self {
        RegisterToken { nonce: Some(nonce), ..self }
    }

    fn meta() -> (m: ActionMeta) {
        nested_meta("spotDeploy", "registerToken2", false, false)
    }

    fn nonce(&self) -> (n: Option<u64>) {
        self.nonce
    }

    fn with_nonce(self, nonce: u64) -> (r: Self) {
        RegisterToken { nonce: Some(nonce), ..self }
    }
}

impl Action for SetDeployerFees {
    open spec fn spec_kind(self) -> ActionKind {
        ActionKind::SetDeployerFees(self)
    }

    fn into_kind(self) -> (k: ActionKind) {
        ActionKind::SetDeployerFees(self)
    }

    open spec fn spec_meta() -> ActionMetaV {
        ActionMetaV {
            action_type: "spotDeploy"@,
            payload_key: "setDeployerTradingFeeShare"@,
            user_signed: false,
            uses_time: false,
        }
    }

    open spec fn spec_nonce(&self) -> Option<u64> {
        self.nonce
    }

    open spec fn spec_with_nonce(self, nonce: u64) -> Self {
        SetDeployerFees { nonce: Some(nonce), ..self }
    }

    fn meta() -> (m: ActionMeta) {
        nested_meta("spotDeploy", "setDeployerTradingFeeShare", false, false)
    }

    fn nonce(&self) -> (n: Option<u64>) {
        self.nonce
    }

    fn with_nonce(self, nonce: u64) -> (r: Self) {
        SetDeployerFees { nonce: Some(nonce), ..self }
    }
}

impl Action for UserGenesis {
    open spec fn spec_kind(self) -> ActionKind {
        ActionKind::UserGenesis(self)
    }

    fn into_kind(self) -> (k: ActionKind) {
        ActionKind::UserGenesis(self)
    }

    open spec fn spec_meta() -> ActionMetaV {
        ActionMetaV {
            action_type: "spotDeploy"@,
            payload_key: "userGenesis"@,
            user_signed: false,
            uses_time: false,
        }
    }

    open spec fn spec_nonce(&self) -> Option<u64> {
        self.nonce
    }

    open spec fn spec_with_nonce(self, nonce: u64) -> Self {
        UserGenesis { nonce: Some(nonce), ..self }
    }

    fn meta() -> (m: ActionMeta) {
        nested_meta("spotDeploy", "userGenesis", false, false)
    }

    fn nonce(&self) -> (n: Option<u64>) {
        self.nonce
    }

    fn with_nonce(self, nonce: u64) -> (r: Self) {
        UserGenesis { nonce: Some(nonce), ..self }
    }
}

} // verus!
