//! Perp DEX deployment actions.
use vstd::prelude::*;
use super::{Action, ActionKind, ActionMeta, ActionMetaV, nested_meta};
use crate::primitives::Address;
use crate::text::{dex_coin, dex_coin_spec};
use crate::json::{Json, JsonNumber, JsonValue, lemma_members_view_ext, lemma_json_seq_view, json_seq_view};
use crate::sorting::{pairs_sorted_by_key, sort_pairs_by_key, with_key};

verus! {

/// Pairs each coin, renamed to `"<dex>:<COIN>"`, with its value, in the given order.
pub open spec fn dex_coin_pairs<V>(dex: Seq<char>, entries: Seq<(&str, V)>) -> Seq<(Seq<char>, V)> {
    entries.map_values(|e: (&str, V)| (dex_coin_spec(dex, e.0@), e.1))
}

/// The views of the key of each pair.
pub open spec fn pair_views<V>(entries: Seq<(String, V)>) -> Seq<(Seq<char>, V)> {
    entries.map_values(|e: (String, V)| (e.0@, e.1))
}

/// Renames each coin of `entries` to `"<dex>:<COIN>"`, keeping the values and the order.
pub fn with_dex_coins<V>(dex: &str, entries: Vec<(&str, V)>) -> (r: Vec<(String, V)>)
    ensures
        pair_views(r@) == dex_coin_pairs(dex@, entries@),
{
    let ghost src = entries@;
    let mut r: Vec<(String, V)> = Vec::new();
    for e in it: entries
        invariant
            it.seq() == src,
            r@.len() == it.index(),
            forall|j: int| 0 <= j < r@.len() ==> (#[trigger] r@[j]).0@ == dex_coin_spec(dex@, src[j].0@) && r@[j].1 == src[j].1,
    {
        let (coin, v) = e;
        r.push((dex_coin(dex, coin), v));
    }
    assert(pair_views(r@) =~= dex_coin_pairs(dex@, src));
    r
}

} // verus!

verus! {

/// A single margin tier: the leverage allowed from a position size upwards.
#[derive(Debug, Clone, Copy, PartialEq, Eq, Structural)]
pub struct MarginTier {
    /// Position size lower bound for this tier.
    pub lower_bound: i64,
    /// Maximum leverage allowed at this tier.
    pub max_leverage: i64,
}

/// A margin table with description and tiers.
#[derive(Debug, Clone)]
pub struct MarginTable {
    pub description: String,
    pub margin_tiers: Vec<MarginTier>,
}

/// Insert a new margin table for a perp DEX (at most 3 tiers per table).
#[derive(Debug, Clone)]
pub struct InsertMarginTable {
    pub dex: String,
    pub margin_table: MarginTable,
    pub nonce: Option<u64>,
}

impl InsertMarginTable {
    /// A margin table `description` for `dex` with one tier per `(lower_bound,
    /// max_leverage)` pair, in order.
    pub fn new(dex: &str, description: &str, tiers: Vec<(i64, i64)>) -> (r: Self)
        ensures
            r.dex@ == dex@,
            r.margin_table.description@ == description@,
            r.margin_table.margin_tiers@.len() == tiers@.len(),
            forall|i: int| 0 <= i < tiers@.len() ==> #[trigger] r.margin_table.margin_tiers@[i] == (MarginTier {
                lower_bound: tiers@[i].0,
                max_leverage: tiers@[i].1,
            }),
            r.nonce is None,
    {
        let mut margin_tiers: Vec<MarginTier> = Vec::new();
        let n = tiers.len();
        let mut i: usize = 0;
        while i < n
            invariant
                n == tiers@.len(),
                i <= n,
                margin_tiers@.len() == i,
                forall|j: int| 0 <= j < i ==> #[trigger] margin_tiers@[j] == (MarginTier {
                    lower_bound: tiers@[j].0,
                    max_leverage: tiers@[j].1,
                }),
            decreases n - i,
        {
            let (lower_bound, max_leverage) = tiers[i];
            margin_tiers.push(MarginTier { lower_bound, max_leverage });
            i = i + 1;
        }
        InsertMarginTable {
            dex: dex.to_owned(),
            margin_table: MarginTable { description: description.to_owned(), margin_tiers },
            nonce: None,
        }
    }
}

/// Set the fee recipient of a perp DEX.
#[derive(Debug, Clone)]
pub struct SetFeeRecipient {
    pub dex: String,
    pub fee_recipient: Address,
    pub nonce: Option<u64>,
}

impl SetFeeRecipient {
    pub fn new(dex: &str, fee_recipient: Address) -> (r: Self)
        ensures
            r.dex@ == dex@,
            r.fee_recipient == fee_recipient,
            r.nonce is None,
    {
        SetFeeRecipient { dex: dex.to_owned(), fee_recipient, nonce: None }
    }
}

/// Set funding rate multipliers for assets of a perp DEX (each in the range `[0, 10]`).
/// The pairs are sorted by asset name when serialized.
#[derive(Debug, Clone)]
pub struct SetFundingMultipliers {
    /// `(asset, multiplier)` pairs.
    pub multipliers: Vec<(String, String)>,
    pub nonce: Option<u64>,
}

impl SetFundingMultipliers {
    /// Multipliers for `dex`, one `("<dex>:<ASSET>", multiplier)` pair per entry; each
    /// multiplier is given as its decimal text.
    pub fn new(dex_name: &str, multipliers: Vec<(&str, String)>) -> (r: Self)
        ensures
            pair_views(r.multipliers@) == dex_coin_pairs(dex_name@, multipliers@),
            r.nonce is None,
    {
        SetFundingMultipliers { multipliers: with_dex_coins(dex_name, multipliers), nonce: None }
    }
}

/// Set growth modes for assets of a perp DEX (a mode can change once every 30 days).
/// The pairs are sorted by asset name when serialized.
#[derive(Debug, Clone)]
pub struct SetGrowthModes {
    /// `(asset, is_growth_mode_enabled)` pairs.
    pub modes: Vec<(String, bool)>,
    pub nonce: Option<u64>,
}

impl SetGrowthModes {
    pub fn new(dex_name: &str, modes: Vec<(&str, bool)>) -> (r: Self)
        ensures
            pair_views(r.modes@) == dex_coin_pairs(dex_name@, modes@),
            r.nonce is None,
    {
        SetGrowthModes { modes: with_dex_coins(dex_name, modes), nonce: None }
    }
}

/// Set margin table ids (of tables inserted with [`InsertMarginTable`]) for assets of a
/// perp DEX. The pairs are sorted by asset name when serialized.
#[derive(Debug, Clone)]
pub struct SetMarginTableIds {
    /// `(asset, margin_table_id)` pairs.
    pub ids: Vec<(String, i64)>,
    pub nonce: Option<u64>,
}

impl SetMarginTableIds {
    pub fn new(dex_name: &str, ids: Vec<(&str, i64)>) -> (r: Self)
        ensures
            pair_views(r.ids@) == dex_coin_pairs(dex_name@, ids@),
            r.nonce is None,
    {
        SetMarginTableIds { ids: with_dex_coins(dex_name, ids), nonce: None }
    }
}

/// Set open interest caps (the largest total of long and short positions) for assets of
/// a perp DEX. Coins are named `"<dex>:<SYMBOL>"`.
#[derive(Debug, Clone)]
pub struct SetOpenInterestCaps {
    /// `(coin, cap)` pairs.
    pub caps: Vec<(String, u64)>,
    pub nonce: Option<u64>,
}

impl Default for SetOpenInterestCaps {
    fn default() -> (r: Self)
        ensures
            r.caps@.len() == 0,
            r.nonce is None,
    {
        SetOpenInterestCaps { caps: Vec::new(), nonce: None }
    }
}

impl SetOpenInterestCaps {
    /// Caps for several coins of `dex` (lowercased), coins uppercased, in order.
    pub fn new(dex: &str, caps: Vec<(&str, u64)>) -> (r: Self)
        ensures
            pair_views(r.caps@) == dex_coin_pairs(dex@, caps@),
            r.nonce is None,
    {
        SetOpenInterestCaps { caps: with_dex_coins(dex, caps), nonce: None }
    }

    /// Caps for the one coin `coin` of `dex`.
    pub fn set_single(dex: &str, coin: &str, cap: u64) -> (r: Self)
        ensures
            pair_views(r.caps@) == seq![(dex_coin_spec(dex@, coin@), cap)],
            r.nonce is None,
    {
        Self::default().set_cap(dex, coin, cap)
    }

    /// Appends the cap `("<dex>:<COIN>", cap)`.
    pub fn set_cap(self, dex: &str, coin: &str, cap: u64) -> (r: Self)
        ensures
            pair_views(r.caps@) == pair_views(self.caps@).push((dex_coin_spec(dex@, coin@), cap)),
            r.nonce == self.nonce,
    {
        let mut caps = self.caps;
        caps.push((dex_coin(dex, coin), cap));
        assert(pair_views(caps@) =~= pair_views(self.caps@).push((dex_coin_spec(dex@, coin@), cap)));
        SetOpenInterestCaps { caps, nonce: self.nonce }
    }
}

/// Update the oracle, mark and external perp prices of a perp DEX.
///
/// Each list of `(asset, price)` pairs is sorted by asset name when serialized.
#[derive(Debug, Clone)]
pub struct SetOracle {
    pub dex: String,
    pub oracle_pxs: Vec<(String, String)>,
    pub mark_pxs: Vec<Vec<(String, String)>>,
    pub external_perp_pxs: Vec<(String, String)>,
    pub nonce: Option<u64>,
}

/// A value that is written as a single JSON scalar.
pub trait WireScalar: Sized {
    spec fn spec_json(&self) -> Json;

    fn scalar_json(&self) -> (j: JsonValue)
        ensures
            j@ == self.spec_json(),
    ;

    fn copy_value(&self) -> (r: Self)
        ensures
            r == *self,
    ;
}

impl WireScalar for String {
    open spec fn spec_json(&self) -> Json {
        Json::Str(self@)
    }

    fn scalar_json(&self) -> (j: JsonValue) {
        JsonValue::String(self.clone())
    }

    fn copy_value(&self) -> (r: Self) {
        self.clone()
    }
}

impl WireScalar for bool {
    open spec fn spec_json(&self) -> Json {
        Json::Bool(*self)
    }

    fn scalar_json(&self) -> (j: JsonValue) {
        JsonValue::Bool(*self)
    }

    fn copy_value(&self) -> (r: Self) {
        *self
    }
}

impl WireScalar for u64 {
    open spec fn spec_json(&self) -> Json {
        Json::Number(JsonNumber::PosInt(*self))
    }

    fn scalar_json(&self) -> (j: JsonValue) {
        JsonValue::Number(JsonNumber::PosInt(*self))
    }

    fn copy_value(&self) -> (r: Self) {
        *self
    }
}

/// A signed integer is written as a non-negative or a negative integer.
impl WireScalar for i64 {
    open spec fn spec_json(&self) -> Json {
        if *self >= 0 {
            Json::Number(JsonNumber::PosInt(*self as u64))
        } else {
            Json::Number(JsonNumber::NegInt(*self))
        }
    }

    fn scalar_json(&self) -> (j: JsonValue) {
        if *self >= 0 {
            JsonValue::Number(JsonNumber::PosInt(*self as u64))
        } else {
            JsonValue::Number(JsonNumber::NegInt(*self))
        }
    }

    fn copy_value(&self) -> (r: Self) {
        *self
    }
}

/// A `(name, value)` pair on the wire: a two-element array.
pub open spec fn pair_json<V: WireScalar>(p: (String, V)) -> Json {
    Json::Array(seq![Json::Str(p.0@), p.1.spec_json()])
}

pub open spec fn pair_items<V: WireScalar>(s: Seq<(String, V)>) -> Seq<Json> {
    s.map_values(|p: (String, V)| pair_json(p))
}

pub open spec fn pairs_json<V: WireScalar>(s: Seq<(String, V)>) -> Json {
    Json::Array(pair_items(s))
}

/// `o` is `s` sorted by name, pairs with equal names in the order they were given.
pub open spec fn stably_sorted<V>(s: Seq<(String, V)>, o: Seq<(String, V)>) -> bool {
    &&& o.to_multiset() == s.to_multiset()
    &&& pairs_sorted_by_key(o)
    &&& forall|k: Seq<char>| #[trigger] with_key(o, k) == with_key(s, k)
}

/// A list has exactly one stably sorted order, so each sorted payload is determined by the
/// action.
pub proof fn lemma_stably_sorted_unique<V>(s: Seq<(String, V)>, o1: Seq<(String, V)>, o2: Seq<(String, V)>)
    requires
        stably_sorted(s, o1),
        stably_sorted(s, o2),
    ensures
        o1 == o2,
{
    assert forall|k: Seq<char>| #[trigger] with_key(o1, k) == with_key(o2, k) by {
        assert(with_key(o1, k) == with_key(s, k));
        assert(with_key(o2, k) == with_key(s, k));
    }
    crate::sorting::lemma_sorted_by_key_unique(o1, o2);
}

/// A copy of a list of pairs.
fn copy_pairs<V: WireScalar>(v: &Vec<(String, V)>) -> (r: Vec<(String, V)>)
    ensures
        r@ == v@,
{
    let mut r: Vec<(String, V)> = Vec::new();
    let mut i: usize = 0;
    while i < v.len()
        invariant
            i <= v.len(),
            r@ == v@.subrange(0, i as int),
        decreases v.len() - i,
    {
        let a = v[i].0.clone();
        let b = v[i].1.copy_value();
        r.push((a, b));
        proof {
            assert(r@ =~= v@.subrange(0, i + 1));
        }
        i = i + 1;
    }
    proof {
        assert(v@.subrange(0, i as int) =~= v@);
    }
    r
}

/// The pairs sorted by name, as a JSON array of two-element arrays.
fn sorted_pairs_json<V: WireScalar>(v: &Vec<(String, V)>) -> (r: JsonValue)
    ensures
        exists|o: Seq<(String, V)>| stably_sorted(v@, o) && r@ == #[trigger] pairs_json(o),
{
    let sorted = sort_pairs_by_key(copy_pairs(v));
    let ghost o = sorted@;
    let mut items: Vec<JsonValue> = Vec::new();
    let mut i: usize = 0;
    while i < sorted.len()
        invariant
            i <= sorted.len(),
            o == sorted@,
            json_seq_view(items@) == pair_items(o.subrange(0, i as int)),
        decreases sorted.len() - i,
    {
        let mut pair: Vec<JsonValue> = Vec::new();
        pair.push(JsonValue::String(sorted[i].0.clone()));
        pair.push(sorted[i].1.scalar_json());
        proof {
            lemma_json_seq_view(pair@);
            assert(json_seq_view(pair@) =~= seq![Json::Str(o[i as int].0@), o[i as int].1.spec_json()]);
        }
        let ghost before = items@;
        items.push(JsonValue::Array(pair));
        proof {
            assert(items@.drop_last() =~= before);
            assert(pair_items(o.subrange(0, i + 1)) =~= pair_items(o.subrange(0, i as int)).push(
                pair_json(o[i as int]),
            ));
            assert(json_seq_view(items@) == json_seq_view(before).push(
                crate::json::json_view(items@.last()),
            ));
        }
        i = i + 1;
    }
    proof {
        assert(o.subrange(0, i as int) =~= o);
        assert(stably_sorted(v@, o));
    }
    let r = JsonValue::Array(items);
    assert(r@ == pairs_json(o));
    r
}

/// A list of `(asset, value)` pairs written as a JSON array of pairs sorted by asset name,
/// pairs with equal names in the order they were given.
pub open spec fn sorted_pairs_payload<V: WireScalar>(s: Seq<(String, V)>, v: Json) -> bool {
    exists|o: Seq<(String, V)>| stably_sorted(s, o) && v == #[trigger] pairs_json(o)
}

impl SetFundingMultipliers {
    /// The payload this action is serialized as: its pairs sorted by asset name.
    pub fn wire_payload(&self) -> (r: JsonValue)
        ensures
            sorted_pairs_payload(self.multipliers@, r@),
    {
        sorted_pairs_json(&self.multipliers)
    }
}

impl SetGrowthModes {
    /// The payload this action is serialized as: its pairs sorted by asset name.
    pub fn wire_payload(&self) -> (r: JsonValue)
        ensures
            sorted_pairs_payload(self.modes@, r@),
    {
        sorted_pairs_json(&self.modes)
    }
}

impl SetMarginTableIds {
    /// The payload this action is serialized as: its pairs sorted by asset name.
    pub fn wire_payload(&self) -> (r: JsonValue)
        ensures
            sorted_pairs_payload(self.ids@, r@),
    {
        sorted_pairs_json(&self.ids)
    }
}

impl SetOpenInterestCaps {
    /// The payload this action is serialized as: its pairs sorted by coin name.
    pub fn wire_payload(&self) -> (r: JsonValue)
        ensures
            sorted_pairs_payload(self.caps@, r@),
    {
        sorted_pairs_json(&self.caps)
    }
}

/// The wire payload of a [`SetOracle`]: `dex`, then each price list sorted by name (each
/// inner list of `markPxs` on its own).
pub open spec fn set_oracle_payload_ok(a: SetOracle, v: Json) -> bool {
    &&& v matches Json::Object(m)
    &&& m.len() == 4
    &&& m[0] == ("dex"@, Json::Str(a.dex@))
    &&& m[1].0 == "oraclePxs"@
    &&& sorted_pairs_payload(a.oracle_pxs@, m[1].1)
    &&& m[2].0 == "markPxs"@
    &&& m[2].1 matches Json::Array(lists) && lists.len() == a.mark_pxs@.len() && forall|j: int|
        0 <= j < lists.len() ==> sorted_pairs_payload(a.mark_pxs@[j]@, #[trigger] lists[j])
    &&& m[3].0 == "externalPerpPxs"@
    &&& sorted_pairs_payload(a.external_perp_pxs@, m[3].1)
}

impl SetOracle {
    /// The payload this action is serialized as.
    pub fn wire_payload(&self) -> (r: JsonValue)
        ensures
            set_oracle_payload_ok(*self, r@),
    {
        let oracle = sorted_pairs_json(&self.oracle_pxs);
        let mut marks: Vec<JsonValue> = Vec::new();
        let mut i: usize = 0;
        while i < self.mark_pxs.len()
            invariant
                i <= self.mark_pxs.len(),
                json_seq_view(marks@).len() == i,
                forall|j: int|
                    0 <= j < i ==> sorted_pairs_payload(self.mark_pxs@[j]@, #[trigger] json_seq_view(marks@)[j]),
            decreases self.mark_pxs.len() - i,
        {
            let inner = sorted_pairs_json(&self.mark_pxs[i]);
            let ghost before = marks@;
            marks.push(inner);
            proof {
                assert(marks@.drop_last() =~= before);
                lemma_json_seq_view(marks@);
                lemma_json_seq_view(before);
            }
            i = i + 1;
        }
        let external = sorted_pairs_json(&self.external_perp_pxs);
        let ghost mv = json_seq_view(marks@);
        let mut m: Vec<(String, JsonValue)> = Vec::new();
        let ghost ov = oracle@;
        let ghost ev = external@;
        m.push(("dex".to_owned(), JsonValue::String(self.dex.clone())));
        m.push(("oraclePxs".to_owned(), oracle));
        m.push(("markPxs".to_owned(), JsonValue::Array(marks)));
        m.push(("externalPerpPxs".to_owned(), external));
        proof {
            lemma_members_view_ext(
                m@,
                seq![
                    ("dex"@, Json::Str(self.dex@)),
                    ("oraclePxs"@, ov),
                    ("markPxs"@, Json::Array(mv)),
                    ("externalPerpPxs"@, ev),
                ],
            );
        }
        JsonValue::Object(m)
    }
}

/// Halt or resume trading of a coin on a perp DEX.
#[derive(Debug, Clone)]
pub struct ToggleTrading {
    /// The coin, as `"<dex>:<SYMBOL>"`.
    pub coin: String,
    /// Whether trading is halted.
    pub is_halted: bool,
    pub nonce: Option<u64>,
}

impl ToggleTrading {
    /// Halt trading of `coin` on `dex`.
    pub fn halt(dex: &str, coin: &str) -> (r: Self)
        ensures
            r.coin@ == dex_coin_spec(dex@, coin@),
            r.is_halted,
            r.nonce is None,
    {
        ToggleTrading { coin: dex_coin(dex, coin), is_halted: true, nonce: None }
    }

    /// Resume trading of `coin` on `dex`.
    pub fn resume(dex: &str, coin: &str) -> (r: Self)
        ensures
            r.coin@ == dex_coin_spec(dex@, coin@),
            !r.is_halted,
            r.nonce is None,
    {
        ToggleTrading { coin: dex_coin(dex, coin), is_halted: false, nonce: None }
    }
}

impl Action for InsertMarginTable {
    open spec fn spec_kind(self) -> ActionKind {
        ActionKind::InsertMarginTable(self)
    }

    fn into_kind(self) -> (k: ActionKind) {
        ActionKind::InsertMarginTable(self)
    }

    open spec fn spec_meta() -> ActionMetaV {
        ActionMetaV {
            action_type: "perpDeploy"@,
            payload_key: "insertMarginTable"@,
            user_signed: false,
            uses_time: false,
        }
    }

    open spec fn spec_nonce(&self) -> Option<u64> {
        self.nonce
    }

    open spec fn spec_with_nonce(self, nonce: u64) -> Self {
        InsertMarginTable { nonce: Some(nonce), ..self }
    }

    fn meta() -> (m: ActionMeta) {
        nested_meta("perpDeploy", "insertMarginTable", false, false)
    }

    fn nonce(&self) -> (n: Option<u64>) {
        self.nonce
    }

    fn with_nonce(self, nonce: u64) -> (r: Self) {
        InsertMarginTable { nonce: Some(nonce), ..self }
    }
}

impl Action for SetFeeRecipient {
    open spec fn spec_kind(self) -> ActionKind {
        ActionKind::SetFeeRecipient(self)
    }

    fn into_kind(self) -> (k: ActionKind) {
        ActionKind::SetFeeRecipient(self)
    }

    open spec fn spec_meta() -> ActionMetaV {
        ActionMetaV {
            action_type: "perpDeploy"@,
            payload_key: "setFeeRecipient"@,
            user_signed: false,
            uses_time: false,
        }
    }

    open spec fn spec_nonce(&self) -> Option<u64> {
        self.nonce
    }

    open spec fn spec_with_nonce(self, nonce: u64) -> Self {
        SetFeeRecipient { nonce: Some(nonce), ..self }
    }

    fn meta() -> (m: ActionMeta) {
        nested_meta("perpDeploy", "setFeeRecipient", false, false)
    }

    fn nonce(&self) -> (n: Option<u64>) {
        self.nonce
    }

    fn with_nonce(self, nonce: u64) -> (r: Self) {
        SetFeeRecipient { nonce: Some(nonce), ..self }
    }
}

impl Action for SetFundingMultipliers {
    open spec fn spec_kind(self) -> ActionKind {
        ActionKind::SetFundingMultipliers(self)
    }

    fn into_kind(self) -> (k: ActionKind) {
        ActionKind::SetFundingMultipliers(self)
    }

    open spec fn spec_meta() -> ActionMetaV {
        ActionMetaV {
            action_type: "perpDeploy"@,
            payload_key: "setFundingMultipliers"@,
            user_signed: false,
            uses_time: false,
        }
    }

    open spec fn spec_nonce(&self) -> Option<u64> {
        self.nonce
    }

    open spec fn spec_with_nonce(self, nonce: u64) -> Self {
        SetFundingMultipliers { nonce: Some(nonce), ..self }
    }

    fn meta() -> (m: ActionMeta) {
        nested_meta("perpDeploy", "setFundingMultipliers", false, false)
    }

    fn nonce(&self) -> (n: Option<u64>) {
        self.nonce
    }

    fn with_nonce(self, nonce: u64) -> (r: Self) {
        SetFundingMultipliers { nonce: Some(nonce), ..self }
    }
}

impl Action for SetGrowthModes {
    open spec fn spec_kind(self) -> ActionKind {
        ActionKind::SetGrowthModes(self)
    }

    fn into_kind(self) -> (k: ActionKind) {
        ActionKind::SetGrowthModes(self)
    }

    open spec fn spec_meta() -> ActionMetaV {
        ActionMetaV {
            action_type: "perpDeploy"@,
            payload_key: "setGrowthModes"@,
            user_signed: false,
            uses_time: false,
        }
    }

    open spec fn spec_nonce(&self) -> Option<u64> {
        self.nonce
    }

    open spec fn spec_with_nonce(self, nonce: u64) -> Self {
        SetGrowthModes { nonce: Some(nonce), ..self }
    }

    fn meta() -> (m: ActionMeta) {
        nested_meta("perpDeploy", "setGrowthModes", false, false)
    }

    fn nonce(&self) -> (n: Option<u64>) {
        self.nonce
    }

    fn with_nonce(self, nonce: u64) -> (r: Self) {
        SetGrowthModes { nonce: Some(nonce), ..self }
    }
}

impl Action for SetMarginTableIds {
    open spec fn spec_kind(self) -> ActionKind {
        ActionKind::SetMarginTableIds(self)
    }

    fn into_kind(self) -> (k: ActionKind) {
        ActionKind::SetMarginTableIds(self)
    }

    open spec fn spec_meta() -> ActionMetaV {
        ActionMetaV {
            action_type: "perpDeploy"@,
            payload_key: "setMarginTableIds"@,
            user_signed: false,
            uses_time: false,
        }
    }

    open spec fn spec_nonce(&self) -> Option<u64> {
        self.nonce
    }

    open spec fn spec_with_nonce(self, nonce: u64) -> Self {
        SetMarginTableIds { nonce: Some(nonce), ..self }
    }

    fn meta() -> (m: ActionMeta) {
        nested_meta("perpDeploy", "setMarginTableIds", false, false)
    }

    fn nonce(&self) -> (n: Option<u64>) {
        self.nonce
    }

    fn with_nonce(self, nonce: u64) -> (r: Self) {
        SetMarginTableIds { nonce: Some(nonce), ..self }
    }
}

impl Action for SetOpenInterestCaps {
    open spec fn spec_kind(self) -> ActionKind {
        ActionKind::SetOpenInterestCaps(self)
    }

    fn into_kind(self) -> (k: ActionKind) {
        ActionKind::SetOpenInterestCaps(self)
    }

    open spec fn spec_meta() -> ActionMetaV {
        ActionMetaV {
            action_type: "perpDeploy"@,
            payload_key: "setOpenInterestCaps"@,
            user_signed: false,
            uses_time: false,
        }
    }

    open spec fn spec_nonce(&self) -> Option<u64> {
        self.nonce
    }

    open spec fn spec_with_nonce(self, nonce: u64) -> Self {
        SetOpenInterestCaps { nonce: Some(nonce), ..self }
    }

    fn meta() -> (m: ActionMeta) {
        nested_meta("perpDeploy", "setOpenInterestCaps", false, false)
    }

    fn nonce(&self) -> (n: Option<u64>) {
        self.nonce
    }

    fn with_nonce(self, nonce: u64) -> (r: Self) {
        SetOpenInterestCaps { nonce: Some(nonce), ..self }
    }
}

impl Action for SetOracle {
    open spec fn spec_kind(self) -> ActionKind {
        ActionKind::SetOracle(self)
    }

    fn into_kind(self) -> (k: ActionKind) {
        ActionKind::SetOracle(self)
    }

    open spec fn spec_meta() -> ActionMetaV {
        ActionMetaV {
            action_type: "perpDeploy"@,
            payload_key: "setOracle"@,
            user_signed: false,
            uses_time: false,
        }
    }

    open spec fn spec_nonce(&self) -> Option<u64> {
        self.nonce
    }

    open spec fn spec_with_nonce(self, nonce: u64) -> Self {
        SetOracle { nonce: Some(nonce), ..self }
    }

    fn meta() -> (m: ActionMeta) {
        nested_meta("perpDeploy", "setOracle", false, false)
    }

    fn nonce(&self) -> (n: Option<u64>) {
        self.nonce
    }

    fn with_nonce(self, nonce: u64) -> (r: Self) {
        SetOracle { nonce: Some(nonce), ..self }
    }
}

impl Action for ToggleTrading {
    open spec fn spec_kind(self) -> ActionKind {
        ActionKind::ToggleTrading(self)
    }

    fn into_kind(self) -> (k: ActionKind) {
        ActionKind::ToggleTrading(self)
    }

    open spec fn spec_meta() -> ActionMetaV {
        ActionMetaV {
            action_type: "perpDeploy"@,
            payload_key: "haltTrading"@,
            user_signed: false,
            uses_time: false,
        }
    }

    open spec fn spec_nonce(&self) -> Option<u64> {
        self.nonce
    }

    open spec fn spec_with_nonce(self, nonce: u64) -> Self {
        ToggleTrading { nonce: Some(nonce), ..self }
    }

    fn meta() -> (m: ActionMeta) {
        nested_meta("perpDeploy", "haltTrading", false, false)
    }

    fn nonce(&self) -> (n: Option<u64>) {
        self.nonce
    }

    fn with_nonce(self, nonce: u64) -> (r: Self) {
        ToggleTrading { nonce: Some(nonce), ..self }
    }
}

} // verus!
