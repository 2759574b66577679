//! Trading actions: orders, modifications, cancels, leverage and margin.
use vstd::prelude::*;
use super::{Action, ActionKind, ActionMeta, ActionMetaV, nested_meta};

verus! {

/// Order type for limit orders with a time-in-force.
#[derive(Debug, Clone)]
pub struct LimitOrderType {
    pub tif: Tif,
}

/// Time-in-force options.
#[derive(Debug, Clone, Copy, PartialEq, Eq, Structural)]
pub enum Tif {
    /// Good-til-cancelled.
    Gtc,
    /// Immediate-or-cancel.
    Ioc,
    /// Add-liquidity-only.
    Alo,
    /// Front-running protection.
    FrontendMarket,
}

/// Trigger order type for stop-loss and take-profit.
#[derive(Debug, Clone)]
pub struct TriggerOrderType {
    pub trigger_px: String,
    pub is_market: bool,
    pub tpsl: TpSl,
}

/// Take-profit or stop-loss indicator.
#[derive(Debug, Clone, Copy, PartialEq, Eq, Structural)]
pub enum TpSl {
    Tp,
    Sl,
}

/// Order type (limit or trigger).
#[derive(Debug, Clone)]
pub enum OrderType {
    Limit(LimitOrderType),
    Trigger(TriggerOrderType),
}

/// Wire format for a single order.
#[derive(Debug, Clone)]
pub struct OrderWire {
    /// Asset index.
    pub a: u32,
    /// Is buy order.
    pub b: bool,
    /// Limit price as string.
    pub p: String,
    /// Size as string.
    pub s: String,
    /// Reduce only.
    pub r: bool,
    /// Order type.
    pub t: OrderType,
    /// Client order ID (optional).
    pub c: Option<String>,
}

/// Builder info for order attribution.
#[derive(Debug, Clone)]
pub struct BuilderInfo {
    /// Builder address (lowercase).
    pub b: String,
    /// Builder fee in basis points.
    pub f: u32,
}

/// Order grouping options.
#[derive(Debug, Clone, Copy, PartialEq, Eq, Structural)]
pub enum Grouping {
    Na,
    /// Vault orders.
    NormalTpsl,
    /// Position TP/SL.
    PositionTpsl,
}

impl Default for Grouping {
    fn default() -> (g: Self)
        ensures
            g == Grouping::Na,
    {
        Grouping::Na
    }
}

/// Batch create orders action.
#[derive(Debug, Clone)]
pub struct BatchOrder {
    /// Order wires.
    pub orders: Vec<OrderWire>,
    /// Grouping type.
    pub grouping: Grouping,
    /// Builder info (optional).
    pub builder: Option<BuilderInfo>,
    pub nonce: Option<u64>,
}

impl BatchOrder {
    pub fn new(orders: Vec<OrderWire>) -> (r: Self)
        ensures
            r.orders == orders,
            r.grouping == Grouping::Na,
            r.builder is None,
            r.nonce is None,
    {
        BatchOrder { orders, grouping: Grouping::Na, builder: None, nonce: None }
    }

    pub fn with_grouping(self, grouping: Grouping) -> (r: Self)
        ensures
            r == (BatchOrder { grouping, ..self }),
    {
        BatchOrder { grouping, ..self }
    }

    pub fn with_builder(self, builder: BuilderInfo) -> (r: Self)
        ensures
            r == (BatchOrder { builder: Some(builder), ..self }),
    {
        BatchOrder { builder: Some(builder), ..self }
    }
}

/// A single modify request.
#[derive(Debug, Clone)]
pub struct ModifyWire {
    /// Order ID to modify.
    pub oid: u64,
    /// New order details.
    pub order: OrderWire,
}

/// Batch modify orders action.
#[derive(Debug, Clone)]
pub struct BatchModify {
    /// Modify requests.
    pub modifies: Vec<ModifyWire>,
    pub nonce: Option<u64>,
}

impl BatchModify {
    pub fn new(modifies: Vec<ModifyWire>) -> (r: Self)
        ensures
            r.modifies == modifies,
            r.nonce is None,
    {
        BatchModify { modifies, nonce: None }
    }

    /// A batch with the one request `(oid, order)`.
    pub fn single(oid: u64, order: OrderWire) -> (r: Self)
        ensures
            r.modifies@ == seq![ModifyWire { oid, order }],
            r.nonce is None,
    {
        Self::new(vec![ModifyWire { oid, order }])
    }
}

/// Schedule a cancel-all at a future time.
///
/// The time must be at least 5 seconds in the future; at most 10 scheduled cancels are
/// allowed per day.
#[derive(Debug, Clone)]
pub struct ScheduleCancel {
    /// UTC milliseconds timestamp for the cancellation (`None` cancels immediately).
    pub time: Option<u64>,
    pub nonce: Option<u64>,
}

impl ScheduleCancel {
    /// Schedule a cancel at a specific time (UTC milliseconds).
    pub fn at(time: u64) -> (r: Self)
        ensures
            r.time == Some(time),
            r.nonce is None,
    {
        ScheduleCancel { time: Some(time), nonce: None }
    }

    /// Cancel all orders immediately.
    pub fn now() -> (r: Self)
        ensures
            r.time is None,
            r.nonce is None,
    {
        ScheduleCancel { time: None, nonce: None }
    }
}

/// Update the isolated margin of a position.
#[derive(Debug, Clone)]
pub struct UpdateIsolatedMargin {
    /// Asset index.
    pub asset: u32,
    /// True for the buy side, false for the sell side.
    pub is_buy: bool,
    /// Net transfer to isolated margin (positive to add, negative to remove).
    pub ntli: i64,
    pub nonce: Option<u64>,
}

pub open spec fn abs_spec(x: int) -> int {
    if x < 0 {
        -x
    } else {
        x
    }
}

impl UpdateIsolatedMargin {
    /// Add `|amount|` of margin. (`i64::MIN` has no absolute value in `i64`.)
    pub fn add(asset: u32, is_buy: bool, amount: i64) -> (r: Self)
        requires
            amount != i64::MIN,
        ensures
            r.asset == asset,
            r.is_buy == is_buy,
            r.ntli == abs_spec(amount as int),
            r.nonce is None,
    {
        let a = if amount < 0 {
            -amount
        } else {
            amount
        };
        UpdateIsolatedMargin { asset, is_buy, ntli: a, nonce: None }
    }

    /// Remove `|amount|` of margin. (`i64::MIN` has no absolute value in `i64`.)
    pub fn remove(asset: u32, is_buy: bool, amount: i64) -> (r: Self)
        requires
            amount != i64::MIN,
        ensures
            r.asset == asset,
            r.is_buy == is_buy,
            r.ntli == -abs_spec(amount as int),
            r.nonce is None,
    {
        let a = if amount < 0 {
            -amount
        } else {
            amount
        };
        UpdateIsolatedMargin { asset, is_buy, ntli: -a, nonce: None }
    }
}

/// Update the leverage of an asset.
#[derive(Debug, Clone)]
pub struct UpdateLeverage {
    /// Asset index.
    pub asset: u32,
    /// True for cross margin, false for isolated.
    pub is_cross: bool,
    /// Leverage multiplier.
    pub leverage: u32,
    pub nonce: Option<u64>,
}

impl UpdateLeverage {
    pub fn cross(asset: u32, leverage: u32) -> (r: Self)
        ensures
            r.asset == asset,
            r.is_cross,
            r.leverage == leverage,
            r.nonce is None,
    {
        UpdateLeverage { asset, is_cross: true, leverage, nonce: None }
    }

    pub fn isolated(asset: u32, leverage: u32) -> (r: Self)
        ensures
            r.asset == asset,
            !r.is_cross,
            r.leverage == leverage,
            r.nonce is None,
    {
        UpdateLeverage { asset, is_cross: false, leverage, nonce: None }
    }
}

impl Action for BatchOrder {
    open spec fn spec_kind(self) -> ActionKind {
        ActionKind::BatchOrder(self)
    }

    fn into_kind(self) -> (k: ActionKind) {
        ActionKind::BatchOrder(self)
    }

    open spec fn spec_meta() -> ActionMetaV {
        ActionMetaV {
            action_type: "order"@,
            payload_key: "orders"@,
            user_signed: false,
            uses_time: false,
        }
    }

    open spec fn spec_nonce(&self) -> Option<u64> {
        self.nonce
    }

    open spec fn spec_with_nonce(self, nonce: u64) -> Self {
        BatchOrder { nonce: Some(nonce), ..self }
    }

    fn meta() -> (m: ActionMeta) {
        nested_meta("order", "orders", false, false)
    }

    fn nonce(&self) -> (n: Option<u64>) {
        self.nonce
    }

    fn with_nonce(self, nonce: u64) -> (r: Self) {
        BatchOrder { nonce: Some(nonce), ..self }
    }
}

impl Action for BatchModify {
    open spec fn spec_kind(self) -> ActionKind {
        ActionKind::BatchModify(self)
    }

    fn into_kind(self) -> (k: ActionKind) {
        ActionKind::BatchModify(self)
    }

    open spec fn spec_meta() -> ActionMetaV {
        ActionMetaV {
            action_type: "batchModify"@,
            payload_key: "modifies"@,
            user_signed: false,
            uses_time: false,
        }
    }

    open spec fn spec_nonce(&self) -> Option<u64> {
        self.nonce
    }

    open spec fn spec_with_nonce(self, nonce: u64) -> Self {
        BatchModify { nonce: Some(nonce), ..self }
    }

    fn meta() -> (m: ActionMeta) {
        nested_meta("batchModify", "modifies", false, false)
    }

    fn nonce(&self) -> (n: Option<u64>) {
        self.nonce
    }

    fn with_nonce(self, nonce: u64) -> (r: Self) {
        BatchModify { nonce: Some(nonce), ..self }
    }
}

impl Action for ScheduleCancel {
    open spec fn spec_kind(self) -> ActionKind {
        ActionKind::ScheduleCancel(self)
    }

    fn into_kind(self) -> (k: ActionKind) {
        ActionKind::ScheduleCancel(self)
    }

    open spec fn spec_meta() -> ActionMetaV {
        ActionMetaV {
            action_type: "scheduleCancel"@,
            payload_key: "scheduleCancel"@,
            user_signed: false,
            uses_time: false,
        }
    }

    open spec fn spec_nonce(&self) -> Option<u64> {
        self.nonce
    }

    open spec fn spec_with_nonce(self, nonce: u64) -> Self {
        ScheduleCancel { nonce: Some(nonce), ..self }
    }

    fn meta() -> (m: ActionMeta) {
        nested_meta("scheduleCancel", "scheduleCancel", false, false)
    }

    fn nonce(&self) -> (n: Option<u64>) {
        self.nonce
    }

    fn with_nonce(self, nonce: u64) -> (r: Self) {
        ScheduleCancel { nonce: Some(nonce), ..self }
    }
}

impl Action for UpdateIsolatedMargin {
    open spec fn spec_kind(self) -> ActionKind {
        ActionKind::UpdateIsolatedMargin(self)
    }

    fn into_kind(self) -> (k: ActionKind) {
        ActionKind::UpdateIsolatedMargin(self)
    }

    open spec fn spec_meta() -> ActionMetaV {
        ActionMetaV {
            action_type: "updateIsolatedMargin"@,
            payload_key: "updateIsolatedMargin"@,
            user_signed: false,
            uses_time: false,
        }
    }

    open spec fn spec_nonce(&self) -> Option<u64> {
        self.nonce
    }

    open spec fn spec_with_nonce(self, nonce: u64) -> Self {
        UpdateIsolatedMargin { nonce: Some(nonce), ..self }
    }

    fn meta() -> (m: ActionMeta) {
        nested_meta("updateIsolatedMargin", "updateIsolatedMargin", false, false)
    }

    fn nonce(&self) -> (n: Option<u64>) {
        self.nonce
    }

    fn with_nonce(self, nonce: u64) -> (r: Self) {
        UpdateIsolatedMargin { nonce: Some(nonce), ..self }
    }
}

impl Action for UpdateLeverage {
    open spec fn spec_kind(self) -> ActionKind {
        ActionKind::UpdateLeverage(self)
    }

    fn into_kind(self) -> (k: ActionKind) {
        ActionKind::UpdateLeverage(self)
    }

    open spec fn spec_meta() -> ActionMetaV {
        ActionMetaV {
            action_type: "updateLeverage"@,
            payload_key: "updateLeverage"@,
            user_signed: false,
            uses_time: false,
        }
    }

    open spec fn spec_nonce(&self) -> Option<u64> {
        self.nonce
    }

    open spec fn spec_with_nonce(self, nonce: u64) -> Self {
        UpdateLeverage { nonce: Some(nonce), ..self }
    }

    fn meta() -> (m: ActionMeta) {
        nested_meta("updateLeverage", "updateLeverage", false, false)
    }

    fn nonce(&self) -> (n: Option<u64>) {
        self.nonce
    }

    fn with_nonce(self, nonce: u64) -> (r: Self) {
        UpdateLeverage { nonce: Some(nonce), ..self }
    }
}

} // verus!
