//! User-signed actions: transfers, approvals and account settings signed with EIP-712.
use vstd::prelude::*;
use super::{Action, ActionKind, ActionMeta, ActionMetaV, nested_meta};
use crate::abi_value::{
    AbiType, AbiV, AbiValue, ToAbiValue, abi_error, string_abi, text_abi, keccak256,
};
use crate::error::{BuilderError, Error, ErrorV};
use crate::primitives::{
    Address, Decimal, address_lower_hex, hex_of_bytes, is_lower_hex_char, lemma_hex_of_bytes_chars,
    nat_text, push_u64_text, ser_lowercase,
};
use crate::sorting::{addresses_sorted, sort_addresses};
use crate::text::{all_ascii, ascii_lower, to_lowercase};
use crate::json::{
    Json, JsonNumber, json_compact, json_items_compact, json_members_compact, json_plain_char,
    json_string_text, keys_distinct, lemma_json_escape_plain, obj_get, obj_has,
};
use crate::wire::{SigningChain, build_action_spec, lemma_nonce_stays_nonce, lemma_nonce_travels_as_time};

verus! {

/// Approve an agent to act on behalf of the user.
#[derive(Debug, Clone)]
pub struct ApproveAgent {
    /// The agent's address.
    pub agent_address: Address,
    /// Optional agent name; left out of the wire payload when absent.
    pub agent_name: Option<String>,
    pub nonce: Option<u64>,
}

impl ApproveAgent {
    /// Approve an agent with a name.
    pub fn new(agent_address: Address, agent_name: &str) -> (r: Self)
        ensures
            r.agent_address == agent_address,
            r.agent_name matches Some(n) && n@ == agent_name@,
            r.nonce is None,
    {
        ApproveAgent { agent_address, agent_name: Some(agent_name.to_owned()), nonce: None }
    }

    /// Approve an agent without a name.
    pub fn without_name(agent_address: Address) -> (r: Self)
        ensures
            r.agent_address == agent_address,
            r.agent_name is None,
            r.nonce is None,
    {
        ApproveAgent { agent_address, agent_name: None, nonce: None }
    }
}

/// Approve a maximum builder fee rate for a builder address.
#[derive(Debug, Clone)]
pub struct ApproveBuilderFee {
    /// Maximum fee rate (for example `0.001` for 0.1%).
    pub max_fee_rate: Decimal,
    /// The builder address to approve.
    pub builder: Address,
    pub nonce: Option<u64>,
}

impl ApproveBuilderFee {
    pub fn new(max_fee_rate: Decimal, builder: Address) -> (r: Self)
        ensures
            r.max_fee_rate == max_fee_rate,
            r.builder == builder,
            r.nonce is None,
    {
        ApproveBuilderFee { max_fee_rate, builder, nonce: None }
    }
}

/// The signer set of a multi-signature user.
#[derive(Debug, Clone)]
pub struct MultiSigSigners {
    /// The authorized user addresses, in ascending byte order.
    pub authorized_users: Vec<Address>,
    /// The number of signatures required.
    pub threshold: u32,
}

/// Convert an account to a multi-signature user.
#[derive(Debug, Clone)]
pub struct ConvertToMultiSigUser {
    pub signers: MultiSigSigners,
    pub nonce: Option<u64>,
}

impl ConvertToMultiSigUser {
    /// The conversion for the given users and threshold; the users are sorted by their bytes
    /// so that the encoding does not depend on the order they were given in.
    pub fn new(authorized_users: Vec<Address>, threshold: u32) -> (r: Self)
        ensures
            r.signers.authorized_users@.to_multiset() == authorized_users@.to_multiset(),
            addresses_sorted(r.signers.authorized_users@),
            r.signers.threshold == threshold,
            r.nonce is None,
    {
        let sorted = sort_addresses(authorized_users);
        ConvertToMultiSigUser {
            signers: MultiSigSigners { authorized_users: sorted, threshold },
            nonce: None,
        }
    }
}

/// Converting the same users, given in any order, gives the same signer list: the users in
/// ascending byte order, so the signer set's encoding does not depend on the order given.
pub proof fn lemma_multisig_users_canonical(
    given1: Seq<Address>,
    given2: Seq<Address>,
    users1: Seq<Address>,
    users2: Seq<Address>,
)
    requires
        given1.to_multiset() == given2.to_multiset(),
        users1.to_multiset() == given1.to_multiset(),
        users2.to_multiset() == given2.to_multiset(),
        addresses_sorted(users1),
        addresses_sorted(users2),
    ensures
        users1 == users2,
{
    crate::sorting::lemma_addresses_sorted_unique(users1, users2);
}

/// The JSON text of a signer set:
/// `{"authorizedUsers":["0x..",..],"threshold":n}`, addresses in lowercase hex.
pub open spec fn signers_json(users: Seq<Address>, threshold: nat) -> Seq<char> {
    "{\"authorizedUsers\":["@ + quoted_addresses(users) + "],\"threshold\":"@ + nat_text(
        threshold,
    ) + "}"@
}

/// The addresses as comma-separated JSON strings.
pub open spec fn quoted_addresses(users: Seq<Address>) -> Seq<char>
    decreases users.len(),
{
    if users.len() == 0 {
        Seq::empty()
    } else if users.len() == 1 {
        seq!['"'] + address_lower_hex(users[0]) + seq!['"']
    } else {
        quoted_addresses(users.drop_last()) + seq![','] + seq!['"'] + address_lower_hex(
            users.last(),
        ) + seq!['"']
    }
}

/// The JSON value of a signer set: `authorizedUsers`, the users' lowercase hex texts in
/// order, and `threshold`.
pub open spec fn signers_value(users: Seq<Address>, threshold: u64) -> Json {
    Json::Object(
        seq![
            ("authorizedUsers"@, Json::Array(users.map_values(|a: Address| Json::Str(address_lower_hex(a))))),
            ("threshold"@, Json::Number(JsonNumber::PosInt(threshold))),
        ],
    )
}

/// An address's text holds only plain characters, which a JSON string keeps as they are.
proof fn lemma_address_text_plain(a: Address)
    ensures
        forall|i: int| 0 <= i < address_lower_hex(a).len() ==> json_plain_char(
            #[trigger] address_lower_hex(a)[i],
        ),
        json_string_text(address_lower_hex(a)) == seq!['"'] + address_lower_hex(a) + seq!['"'],
{
    let t = address_lower_hex(a);
    lemma_hex_of_bytes_chars(a.0@);
    assert forall|i: int| 0 <= i < t.len() implies json_plain_char(#[trigger] t[i]) by {
        if i >= 2 {
            assert(t[i] == hex_of_bytes(a.0@)[i - 2]);
            assert(is_lower_hex_char(hex_of_bytes(a.0@)[i - 2]));
        }
    }
    lemma_json_escape_plain(t);
}

/// The quoted addresses are the compact JSON texts of the users' hex strings, separated by
/// commas.
proof fn lemma_quoted_addresses_are_json_items(users: Seq<Address>)
    ensures
        json_items_compact(users.map_values(|a: Address| Json::Str(address_lower_hex(a)))) == Some(
            quoted_addresses(users),
        ),
    decreases users.len(),
{
    let items = users.map_values(|a: Address| Json::Str(address_lower_hex(a)));
    if users.len() > 0 {
        lemma_address_text_plain(users.last());
        let h = address_lower_hex(users.last());
        assert(json_compact(Json::Str(h)) == Some(seq!['"'] + h + seq!['"']));
        if users.len() == 1 {
            assert(items[0] == Json::Str(address_lower_hex(users[0])));
            assert(users.last() == users[0]);
            assert(json_items_compact(items) == json_compact(items[0]));
        } else {
            lemma_quoted_addresses_are_json_items(users.drop_last());
            assert(items.drop_last() =~= users.drop_last().map_values(
                |a: Address| Json::Str(address_lower_hex(a)),
            ));
            assert(items.last() == Json::Str(h));
            let a = quoted_addresses(users.drop_last());
            assert(json_items_compact(items) == Some(a + seq![','] + (seq!['"'] + h + seq!['"'])));
            assert(a + seq![','] + (seq!['"'] + h + seq!['"']) =~= a + seq![','] + seq!['"'] + h + seq!['"']);
        }
    }
}

/// The signer text is the compact JSON of the signer set, as `serde_json::to_string` writes
/// it: an object whose `authorizedUsers` is the array of the users' lowercase hex strings,
/// in order and separated by commas, and whose `threshold` is the threshold.
pub proof fn lemma_signers_text_is_compact_json(users: Seq<Address>, threshold: u32)
    ensures
        json_compact(signers_value(users, threshold as u64)) == Some(signers_json(users, threshold as nat)),
{
    reveal_strlit("authorizedUsers");
    reveal_strlit("threshold");
    reveal_strlit("{\"authorizedUsers\":[");
    reveal_strlit("],\"threshold\":");
    reveal_strlit("}");
    let k1 = "authorizedUsers"@;
    let k2 = "threshold"@;
    assert forall|i: int| 0 <= i < k1.len() implies json_plain_char(#[trigger] k1[i]) by {}
    assert forall|i: int| 0 <= i < k2.len() implies json_plain_char(#[trigger] k2[i]) by {}
    lemma_json_escape_plain(k1);
    lemma_json_escape_plain(k2);
    let q = quoted_addresses(users);
    let items = users.map_values(|a: Address| Json::Str(address_lower_hex(a)));
    lemma_quoted_addresses_are_json_items(users);
    let n = nat_text(threshold as nat);
    let m = seq![("authorizedUsers"@, Json::Array(items)), ("threshold"@, Json::Number(JsonNumber::PosInt(threshold as u64)))];
    let first = json_string_text(k1) + seq![':'] + (seq!['['] + q + seq![']']);
    let second = json_string_text(k2) + seq![':'] + n;
    assert(m.drop_last() =~= seq![("authorizedUsers"@, Json::Array(items))]);
    assert(json_compact(Json::Array(items)) == Some(seq!['['] + q + seq![']']));
    assert(m.drop_last().last() == m[0]);
    assert(json_members_compact(m.drop_last()) == Some(first));
    assert(m.len() == 2);
    assert(m.last().0 == k2);
    assert(json_compact(m.last().1) == Some(n));
    assert(json_members_compact(m) == Some(first + seq![','] + second));
    assert(seq!['{'] + (first + seq![','] + second) + seq!['}'] =~= signers_json(users, threshold as nat));
}

impl MultiSigSigners {
    /// The signer set as compact JSON text, the form it is hashed in.
    pub fn to_json_text(&self) -> (s: String)
        ensures
            s@ == signers_json(self.authorized_users@, self.threshold as nat),
    {
        let mut s = "{\"authorizedUsers\":[".to_owned();
        let ghost start = s@;
        let mut i: usize = 0;
        while i < self.authorized_users.len()
            invariant
                i <= self.authorized_users.len(),
                s@ == start + quoted_addresses(self.authorized_users@.subrange(0, i as int)),
            decreases self.authorized_users.len() - i,
        {
            if i > 0 {
                s.append(",");
            }
            s.append("\"");
            let a = ser_lowercase(&self.authorized_users[i]);
            s.append(a.as_str());
            s.append("\"");
            proof {
                let users = self.authorized_users@.subrange(0, i + 1);
                assert(users.drop_last() =~= self.authorized_users@.subrange(0, i as int));
                assert(users.last() == self.authorized_users@[i as int]);
                reveal_strlit(",");
                reveal_strlit("\"");
            }
            i = i + 1;
        }
        proof {
            assert(self.authorized_users@.subrange(0, i as int) =~= self.authorized_users@);
        }
        s.append("],\"threshold\":");
        push_u64_text(&mut s, self.threshold as u64);
        s.append("}");
        s
    }
}

/// A signer set is encoded as its JSON text, hashed as `string`.
impl ToAbiValue for MultiSigSigners {
    open spec fn spec_abi(&self, t: AbiType) -> Result<AbiV, ErrorV> {
        text_abi(signers_json(self.authorized_users@, self.threshold as nat), "String"@, t)
    }

    open spec fn spec_abi_absent(t: AbiType) -> Result<AbiV, ErrorV> {
        text_abi(signers_json(Seq::empty(), 0), "String"@, t)
    }

    fn to_abi_value(&self, abi_type: &AbiType) -> (r: Result<AbiValue, Error>) {
        let text = self.to_json_text();
        text.to_abi_value(abi_type)
    }

    fn absent_to_abi_value(abi_type: &AbiType) -> (r: Result<AbiValue, Error>) {
        let empty = MultiSigSigners { authorized_users: Vec::new(), threshold: 0 };
        proof {
            assert(empty.authorized_users@ =~= Seq::<Address>::empty());
        }
        empty.to_abi_value(abi_type)
    }
}

/// Identifier of a DEX for asset transfers.
#[derive(Debug, Clone, PartialEq, Eq)]
pub enum DexId {
    /// The spot DEX, written `"spot"`.
    Spot,
    /// The main perp DEX, written as the empty string.
    Perp,
    /// A builder-deployed perp DEX, written as its name lowercased.
    Hip3(String),
}

/// The text a DEX identifier is written and hashed as.
pub open spec fn dex_id_text(d: DexId) -> Seq<char> {
    match d {
        DexId::Spot => "spot"@,
        DexId::Perp => Seq::empty(),
        DexId::Hip3(name) => crate::text::unicode_lowercase(name@),
    }
}

/// The identifier's name is ASCII (always so for the spot and main perp DEX).
pub open spec fn dex_id_ascii(d: DexId) -> bool {
    match d {
        DexId::Hip3(name) => all_ascii(name@),
        _ => true,
    }
}

/// The text of an identifier with an ASCII name: the name with `A`-`Z` lowered.
pub open spec fn dex_id_ascii_text(d: DexId) -> Seq<char> {
    match d {
        DexId::Spot => "spot"@,
        DexId::Perp => Seq::empty(),
        DexId::Hip3(name) => ascii_lower(name@),
    }
}

/// The DEX identifier read from its wire text: the text is lowercased, `"spot"` is the spot
/// DEX, the empty text the main perp DEX, and any other text names a builder DEX.
pub open spec fn dex_id_from_text(lowered: Seq<char>) -> DexIdV {
    if lowered == "spot"@ {
        DexIdV::Spot
    } else if lowered.len() == 0 {
        DexIdV::Perp
    } else {
        DexIdV::Hip3(lowered)
    }
}

/// The plain-value view of a [`DexId`].
pub enum DexIdV {
    Spot,
    Perp,
    Hip3(Seq<char>),
}

impl DexId {
    pub open spec fn view(&self) -> DexIdV {
        match self {
            DexId::Spot => DexIdV::Spot,
            DexId::Perp => DexIdV::Perp,
            DexId::Hip3(name) => DexIdV::Hip3(name@),
        }
    }

    /// The text used for serialization and hashing: `"spot"`, the empty text, or the builder
    /// DEX's name lowercased.
    pub fn as_str(&self) -> (s: String)
        ensures
            s@ == dex_id_text(*self),
            dex_id_ascii(*self) ==> s@ == dex_id_ascii_text(*self),
    {
        match self {
            DexId::Spot => "spot".to_owned(),
            DexId::Perp => String::new(),
            DexId::Hip3(name) => to_lowercase(name.as_str()),
        }
    }

    /// Reads a DEX identifier from its wire text, case-insensitively.
    pub fn from_wire(text: &str) -> (d: DexId)
        ensures
            d@ == dex_id_from_text(crate::text::unicode_lowercase(text@)),
            all_ascii(text@) ==> d@ == dex_id_from_text(ascii_lower(text@)),
    {
        let lowered = to_lowercase(text);
        let spot = "spot".to_owned();
        if lowered == spot {
            DexId::Spot
        } else if lowered.as_str().is_empty() {
            DexId::Perp
        } else {
            DexId::Hip3(lowered)
        }
    }
}

/// Lowering ASCII letters twice is lowering them once.
pub proof fn lemma_ascii_lower_idempotent(s: Seq<char>)
    ensures
        ascii_lower(ascii_lower(s)) == ascii_lower(s),
        all_ascii(s) ==> all_ascii(ascii_lower(s)),
{
    assert(ascii_lower(ascii_lower(s)) =~= ascii_lower(s));
}

/// The identifier read back from an identifier's text is the identifier with its name
/// lowercased, for every identifier with an ASCII name whose lowercased name (for a builder
/// DEX) is neither `"spot"` nor empty.
pub proof fn lemma_dex_id_text_round_trip(d: DexId)
    requires
        dex_id_ascii(d),
        d matches DexId::Hip3(name) ==> ascii_lower(name@) != "spot"@ && name@.len() > 0,
    ensures
        all_ascii(dex_id_ascii_text(d)),
        dex_id_from_text(ascii_lower(dex_id_ascii_text(d))) == match d {
            DexId::Hip3(name) => DexIdV::Hip3(ascii_lower(name@)),
            _ => d@,
        },
{
    reveal_strlit("spot");
    reveal_strlit("");
    match d {
        DexId::Hip3(name) => {
            lemma_ascii_lower_idempotent(name@);
        },
        _ => {
            lemma_ascii_lower_idempotent("spot"@);
            assert(ascii_lower("spot"@) =~= "spot"@) by {
                assert forall|i: int| 0 <= i < 4 implies ascii_lower("spot"@)[i] == "spot"@[i] by {}
            }
            assert(ascii_lower(Seq::<char>::empty()) =~= Seq::<char>::empty());
        },
    }
}

/// A DEX identifier is encoded as its text, hashed as `string`.
impl ToAbiValue for DexId {
    open spec fn spec_abi(&self, t: AbiType) -> Result<AbiV, ErrorV> {
        text_abi(dex_id_text(*self), "DexId"@, t)
    }

    open spec fn spec_abi_absent(t: AbiType) -> Result<AbiV, ErrorV> {
        text_abi(dex_id_text(DexId::Perp), "DexId"@, t)
    }

    fn to_abi_value(&self, abi_type: &AbiType) -> (r: Result<AbiValue, Error>) {
        match abi_type {
            AbiType::String => {
                let text = self.as_str();
                Ok(AbiValue::FixedBytes(keccak256(text.as_str().as_bytes()), 32))
            },
            _ => Err(Error::AbiEncode {
                rust_type: "DexId".to_owned(),
                abi_type: crate::abi_value::abi_type_debug_exec(abi_type),
            }),
        }
    }

    fn absent_to_abi_value(abi_type: &AbiType) -> (r: Result<AbiValue, Error>) {
        DexId::Perp.to_abi_value(abi_type)
    }
}

/// Send assets between DEXes.
#[derive(Debug, Clone)]
pub struct SendAsset {
    pub destination: Address,
    pub source_dex: DexId,
    pub destination_dex: DexId,
    pub token: String,
    pub amount: Decimal,
    /// The source sub-account; empty for the main account.
    pub from_sub_account: String,
    pub nonce: Option<u64>,
}

impl SendAsset {
    pub fn new(
        destination: Address,
        source_dex: DexId,
        destination_dex: DexId,
        token: &str,
        amount: Decimal,
    ) -> (r: Self)
        ensures
            r.destination == destination,
            r.source_dex == source_dex,
            r.destination_dex == destination_dex,
            r.token@ == token@,
            r.amount == amount,
            r.from_sub_account@ == Seq::<char>::empty(),
            r.nonce is None,
    {
        SendAsset {
            destination,
            source_dex,
            destination_dex,
            token: token.to_owned(),
            amount,
            from_sub_account: String::new(),
            nonce: None,
        }
    }

    /// The same transfer taken from the given sub-account.
    pub fn from_sub_account(self, sub_account: &str) -> (r: Self)
        ensures
            r.from_sub_account@ == sub_account@,
            r.destination == self.destination,
            r.source_dex == self.source_dex,
            r.destination_dex == self.destination_dex,
            r.token == self.token,
            r.amount == self.amount,
            r.nonce == self.nonce,
    {
        SendAsset { from_sub_account: sub_account.to_owned(), ..self }
    }
}

/// Transfer spot tokens to another account.
#[derive(Debug, Clone)]
pub struct SpotTransfer {
    pub destination: Address,
    /// Token identifier (for example `"PURR"`).
    pub token: String,
    pub amount: Decimal,
    pub nonce: Option<u64>,
}

impl SpotTransfer {
    pub fn new(destination: Address, token: &str, amount: Decimal) -> (r: Self)
        ensures
            r.destination == destination,
            r.token@ == token@,
            r.amount == amount,
            r.nonce is None,
    {
        SpotTransfer { destination, token: token.to_owned(), amount, nonce: None }
    }
}

/// Delegate tokens to, or undelegate them from, a validator.
#[derive(Debug, Clone)]
pub struct TokenDelegate {
    pub validator: Address,
    /// Amount in wei.
    pub wei: u64,
    /// `true` to undelegate.
    pub is_undelegate: bool,
    pub nonce: Option<u64>,
}

impl TokenDelegate {
    pub fn delegate(validator: Address, wei: u64) -> (r: Self)
        ensures
            r.validator == validator,
            r.wei == wei,
            !r.is_undelegate,
            r.nonce is None,
    {
        TokenDelegate { validator, wei, is_undelegate: false, nonce: None }
    }

    pub fn undelegate(validator: Address, wei: u64) -> (r: Self)
        ensures
            r.validator == validator,
            r.wei == wei,
            r.is_undelegate,
            r.nonce is None,
    {
        TokenDelegate { validator, wei, is_undelegate: true, nonce: None }
    }
}

/// Move USDC between the perp and spot balances.
#[derive(Debug, Clone)]
pub struct UsdClassTransfer {
    pub amount: Decimal,
    /// `true` to move to perp, `false` to move to spot.
    pub to_perp: bool,
    pub nonce: Option<u64>,
}

impl UsdClassTransfer {
    pub fn to_perp(amount: Decimal) -> (r: Self)
        ensures
            r.amount == amount,
            r.to_perp,
            r.nonce is None,
    {
        UsdClassTransfer { amount, to_perp: true, nonce: None }
    }

    pub fn to_spot(amount: Decimal) -> (r: Self)
        ensures
            r.amount == amount,
            !r.to_perp,
            r.nonce is None,
    {
        UsdClassTransfer { amount, to_perp: false, nonce: None }
    }
}

/// Send USDC to another account.
#[derive(Debug, Clone)]
pub struct UsdSend {
    pub destination: Address,
    pub amount: Decimal,
    pub nonce: Option<u64>,
}

impl UsdSend {
    pub fn new(destination: Address, amount: Decimal) -> (r: Self)
        ensures
            r.destination == destination,
            r.amount == amount,
            r.nonce is None,
    {
        UsdSend { destination, amount, nonce: None }
    }
}

/// Enable or disable DEX abstraction for a user.
#[derive(Debug, Clone)]
pub struct UserDexAbstraction {
    pub user: Address,
    pub enabled: bool,
    pub nonce: Option<u64>,
}

impl UserDexAbstraction {
    pub fn enable(user: Address) -> (r: Self)
        ensures
            r.user == user,
            r.enabled,
            r.nonce is None,
    {
        UserDexAbstraction { user, enabled: true, nonce: None }
    }

    pub fn disable(user: Address) -> (r: Self)
        ensures
            r.user == user,
            !r.enabled,
            r.nonce is None,
    {
        UserDexAbstraction { user, enabled: false, nonce: None }
    }
}

/// Withdraw USDC through the bridge to an external address.
#[derive(Debug, Clone)]
pub struct Withdraw {
    pub destination: Address,
    pub amount: Decimal,
    pub nonce: Option<u64>,
}

impl Withdraw {
    pub fn new(destination: Address, amount: Decimal) -> (r: Self)
        ensures
            r.destination == destination,
            r.amount == amount,
            r.nonce is None,
    {
        Withdraw { destination, amount, nonce: None }
    }
}

/// Step-by-step construction of a [`ApproveAgent`]; every field but `nonce` is required.
#[derive(Debug, Clone)]
pub struct ApproveAgentBuilder {
    pub agent_address: Option<Address>,
    pub agent_name: Option<Option<String>>,
    pub nonce: Option<Option<u64>>,
}

impl ApproveAgentBuilder {
    pub fn agent_address(self, value: Address) -> (r: Self)
        ensures
            r.agent_address == Some(value),
            r.agent_name == self.agent_name,
            r.nonce == self.nonce,
    {
        ApproveAgentBuilder { agent_address: Some(value), ..self }
    }

    pub fn agent_name(self, value: &str) -> (r: Self)
        ensures
            r.agent_name matches Some(Some(s)) && s@ == value@,
            r.agent_address == self.agent_address,
            r.nonce == self.nonce,
    {
        ApproveAgentBuilder { agent_name: Some(Some(value.to_owned())), ..self }
    }

    pub fn nonce(self, value: Option<u64>) -> (r: Self)
        ensures
            r.nonce == Some(value),
            r.agent_address == self.agent_address,
            r.agent_name == self.agent_name,
    {
        ApproveAgentBuilder { nonce: Some(value), ..self }
    }

    /// The action, or an error naming the first required field that was never set.
    pub fn build(self) -> (r: Result<ApproveAgent, BuilderError>)
        ensures
            r is Ok <==> (self.agent_address is Some && self.agent_name is Some),
            r matches Ok(a) ==> a.agent_address == self.agent_address->0
                && a.agent_name == self.agent_name->0
                && a.nonce == (match self.nonce { Some(n) => n, None => None }),
            r matches Err(BuilderError::UninitializedField(f)) ==> f@ == (if self.agent_address is None { "agent_address"@ } else if self.agent_name is None { "agent_name"@ } else { Seq::empty() }),
    {
        let agent_address = match self.agent_address {
            Some(v) => v,
            None => { return Err(BuilderError::UninitializedField("agent_address".to_owned())); },
        };
        let agent_name = match self.agent_name {
            Some(v) => v,
            None => { return Err(BuilderError::UninitializedField("agent_name".to_owned())); },
        };
        let nonce = match self.nonce {
            Some(n) => n,
            None => None,
        };
        Ok(ApproveAgent { agent_address, agent_name, nonce })
    }
}

impl ApproveAgent {
    /// A builder with no field set.
    pub fn builder() -> (b: ApproveAgentBuilder)
        ensures
            b.agent_address is None,
            b.agent_name is None,
            b.nonce is None,
    {
        ApproveAgentBuilder { agent_address: None, agent_name: None, nonce: None }
    }
}

/// Step-by-step construction of a [`ApproveBuilderFee`]; every field but `nonce` is required.
#[derive(Debug, Clone)]
pub struct ApproveBuilderFeeBuilder {
    pub max_fee_rate: Option<Decimal>,
    pub builder: Option<Address>,
    pub nonce: Option<Option<u64>>,
}

impl ApproveBuilderFeeBuilder {
    pub fn max_fee_rate(self, value: Decimal) -> (r: Self)
        ensures
            r.max_fee_rate == Some(value),
            r.builder == self.builder,
            r.nonce == self.nonce,
    {
        ApproveBuilderFeeBuilder { max_fee_rate: Some(value), ..self }
    }

    pub fn builder(self, value: Address) -> (r: Self)
        ensures
            r.builder == Some(value),
            r.max_fee_rate == self.max_fee_rate,
            r.nonce == self.nonce,
    {
        ApproveBuilderFeeBuilder { builder: Some(value), ..self }
    }

    pub fn nonce(self, value: Option<u64>) -> (r: Self)
        ensures
            r.nonce == Some(value),
            r.max_fee_rate == self.max_fee_rate,
            r.builder == self.builder,
    {
        ApproveBuilderFeeBuilder { nonce: Some(value), ..self }
    }

    /// The action, or an error naming the first required field that was never set.
    pub fn build(self) -> (r: Result<ApproveBuilderFee, BuilderError>)
        ensures
            r is Ok <==> (self.max_fee_rate is Some && self.builder is Some),
            r matches Ok(a) ==> a.max_fee_rate == self.max_fee_rate->0
                && a.builder == self.builder->0
                && a.nonce == (match self.nonce { Some(n) => n, None => None }),
            r matches Err(BuilderError::UninitializedField(f)) ==> f@ == (if self.max_fee_rate is None { "max_fee_rate"@ } else if self.builder is None { "builder"@ } else { Seq::empty() }),
    {
        let max_fee_rate = match self.max_fee_rate {
            Some(v) => v,
            None => { return Err(BuilderError::UninitializedField("max_fee_rate".to_owned())); },
        };
        let builder = match self.builder {
            Some(v) => v,
            None => { return Err(BuilderError::UninitializedField("builder".to_owned())); },
        };
        let nonce = match self.nonce {
            Some(n) => n,
            None => None,
        };
        Ok(ApproveBuilderFee { max_fee_rate, builder, nonce })
    }
}

impl ApproveBuilderFee {
    /// A builder with no field set.
    pub fn builder() -> (b: ApproveBuilderFeeBuilder)
        ensures
            b.max_fee_rate is None,
            b.builder is None,
            b.nonce is None,
    {
        ApproveBuilderFeeBuilder { max_fee_rate: None, builder: None, nonce: None }
    }
}

/// Step-by-step construction of a [`ConvertToMultiSigUser`]; every field but `nonce` is required.
#[derive(Debug, Clone)]
pub struct ConvertToMultiSigUserBuilder {
    pub signers: Option<MultiSigSigners>,
    pub nonce: Option<Option<u64>>,
}

impl ConvertToMultiSigUserBuilder {
    pub fn signers(self, value: MultiSigSigners) -> (r: Self)
        ensures
            r.signers == Some(value),
            r.nonce == self.nonce,
    {
        ConvertToMultiSigUserBuilder { signers: Some(value), ..self }
    }

    pub fn nonce(self, value: Option<u64>) -> (r: Self)
        ensures
            r.nonce == Some(value),
            r.signers == self.signers,
    {
        ConvertToMultiSigUserBuilder { nonce: Some(value), ..self }
    }

    /// The action, or an error naming the first required field that was never set.
    pub fn build(self) -> (r: Result<ConvertToMultiSigUser, BuilderError>)
        ensures
            r is Ok <==> (self.signers is Some),
            r matches Ok(a) ==> a.signers == self.signers->0
                && a.nonce == (match self.nonce { Some(n) => n, None => None }),
            r matches Err(BuilderError::UninitializedField(f)) ==> f@ == (if self.signers is None { "signers"@ } else { Seq::empty() }),
    {
        let signers = match self.signers {
            Some(v) => v,
            None => { return Err(BuilderError::UninitializedField("signers".to_owned())); },
        };
        let nonce = match self.nonce {
            Some(n) => n,
            None => None,
        };
        Ok(ConvertToMultiSigUser { signers, nonce })
    }
}

impl ConvertToMultiSigUser {
    /// A builder with no field set.
    pub fn builder() -> (b: ConvertToMultiSigUserBuilder)
        ensures
            b.signers is None,
            b.nonce is None,
    {
        ConvertToMultiSigUserBuilder { signers: None, nonce: None }
    }
}

/// Step-by-step construction of a [`SendAsset`]; every field but `nonce` is required.
#[derive(Debug, Clone)]
pub struct SendAssetBuilder {
    pub destination: Option<Address>,
    pub source_dex: Option<DexId>,
    pub destination_dex: Option<DexId>,
    pub token: Option<String>,
    pub amount: Option<Decimal>,
    pub from_sub_account: Option<String>,
    pub nonce: Option<Option<u64>>,
}

impl SendAssetBuilder {
    pub fn destination(self, value: Address) -> (r: Self)
        ensures
            r.destination == Some(value),
            r.source_dex == self.source_dex,
            r.destination_dex == self.destination_dex,
            r.token == self.token,
            r.amount == self.amount,
            r.from_sub_account == self.from_sub_account,
            r.nonce == self.nonce,
    {
        SendAssetBuilder { destination: Some(value), ..self }
    }

    pub fn source_dex(self, value: DexId) -> (r: Self)
        ensures
            r.source_dex == Some(value),
            r.destination == self.destination,
            r.destination_dex == self.destination_dex,
            r.token == self.token,
            r.amount == self.amount,
            r.from_sub_account == self.from_sub_account,
            r.nonce == self.nonce,
    {
        SendAssetBuilder { source_dex: Some(value), ..self }
    }

    pub fn destination_dex(self, value: DexId) -> (r: Self)
        ensures
            r.destination_dex == Some(value),
            r.destination == self.destination,
            r.source_dex == self.source_dex,
            r.token == self.token,
            r.amount == self.amount,
            r.from_sub_account == self.from_sub_account,
            r.nonce == self.nonce,
    {
        SendAssetBuilder { destination_dex: Some(value), ..self }
    }

    pub fn token(self, value: &str) -> (r: Self)
        ensures
            r.token matches Some(s) && s@ == value@,
            r.destination == self.destination,
            r.source_dex == self.source_dex,
            r.destination_dex == self.destination_dex,
            r.amount == self.amount,
            r.from_sub_account == self.from_sub_account,
            r.nonce == self.nonce,
    {
        SendAssetBuilder { token: Some(value.to_owned()), ..self }
    }

    pub fn amount(self, value: Decimal) -> (r: Self)
        ensures
            r.amount == Some(value),
            r.destination == self.destination,
            r.source_dex == self.source_dex,
            r.destination_dex == self.destination_dex,
            r.token == self.token,
            r.from_sub_account == self.from_sub_account,
            r.nonce == self.nonce,
    {
        SendAssetBuilder { amount: Some(value), ..self }
    }

    pub fn from_sub_account(self, value: &str) -> (r: Self)
        ensures
            r.from_sub_account matches Some(s) && s@ == value@,
            r.destination == self.destination,
            r.source_dex == self.source_dex,
            r.destination_dex == self.destination_dex,
            r.token == self.token,
            r.amount == self.amount,
            r.nonce == self.nonce,
    {
        SendAssetBuilder { from_sub_account: Some(value.to_owned()), ..self }
    }

    pub fn nonce(self, value: Option<u64>) -> (r: Self)
        ensures
            r.nonce == Some(value),
            r.destination == self.destination,
            r.source_dex == self.source_dex,
            r.destination_dex == self.destination_dex,
            r.token == self.token,
            r.amount == self.amount,
            r.from_sub_account == self.from_sub_account,
    {
        SendAssetBuilder { nonce: Some(value), ..self }
    }

    /// The action, or an error naming the first required field that was never set.
    pub fn build(self) -> (r: Result<SendAsset, BuilderError>)
        ensures
            r is Ok <==> (self.destination is Some && self.source_dex is Some && self.destination_dex is Some && self.token is Some && self.amount is Some && self.from_sub_account is Some),
            r matches Ok(a) ==> a.destination == self.destination->0
                && a.source_dex == self.source_dex->0
                && a.destination_dex == self.destination_dex->0
                && a.token == self.token->0
                && a.amount == self.amount->0
                && a.from_sub_account == self.from_sub_account->0
                && a.nonce == (match self.nonce { Some(n) => n, None => None }),
            r matches Err(BuilderError::UninitializedField(f)) ==> f@ == (if self.destination is None { "destination"@ } else if self.source_dex is None { "source_dex"@ } else if self.destination_dex is None { "destination_dex"@ } else if self.token is None { "token"@ } else if self.amount is None { "amount"@ } else if self.from_sub_account is None { "from_sub_account"@ } else { Seq::empty() }),
    {
        let destination = match self.destination {
            Some(v) => v,
            None => { return Err(BuilderError::UninitializedField("destination".to_owned())); },
        };
        let source_dex = match self.source_dex {
            Some(v) => v,
            None => { return Err(BuilderError::UninitializedField("source_dex".to_owned())); },
        };
        let destination_dex = match self.destination_dex {
            Some(v) => v,
            None => { return Err(BuilderError::UninitializedField("destination_dex".to_owned())); },
        };
        let token = match self.token {
            Some(v) => v,
            None => { return Err(BuilderError::UninitializedField("token".to_owned())); },
        };
        let amount = match self.amount {
            Some(v) => v,
            None => { return Err(BuilderError::UninitializedField("amount".to_owned())); },
        };
        let from_sub_account = match self.from_sub_account {
            Some(v) => v,
            None => { return Err(BuilderError::UninitializedField("from_sub_account".to_owned())); },
        };
        let nonce = match self.nonce {
            Some(n) => n,
            None => None,
        };
        Ok(SendAsset { destination, source_dex, destination_dex, token, amount, from_sub_account, nonce })
    }
}

impl SendAsset {
    /// A builder with no field set.
    pub fn builder() -> (b: SendAssetBuilder)
        ensures
            b.destination is None,
            b.source_dex is None,
            b.destination_dex is None,
            b.token is None,
            b.amount is None,
            b.from_sub_account is None,
            b.nonce is None,
    {
        SendAssetBuilder { destination: None, source_dex: None, destination_dex: None, token: None, amount: None, from_sub_account: None, nonce: None }
    }
}

/// Step-by-step construction of a [`SpotTransfer`]; every field but `nonce` is required.
#[derive(Debug, Clone)]
pub struct SpotTransferBuilder {
    pub destination: Option<Address>,
    pub token: Option<String>,
    pub amount: Option<Decimal>,
    pub nonce: Option<Option<u64>>,
}

impl SpotTransferBuilder {
    pub fn destination(self, value: Address) -> (r: Self)
        ensures
            r.destination == Some(value),
            r.token == self.token,
            r.amount == self.amount,
            r.nonce == self.nonce,
    {
        SpotTransferBuilder { destination: Some(value), ..self }
    }

    pub fn token(self, value: &str) -> (r: Self)
        ensures
            r.token matches Some(s) && s@ == value@,
            r.destination == self.destination,
            r.amount == self.amount,
            r.nonce == self.nonce,
    {
        SpotTransferBuilder { token: Some(value.to_owned()), ..self }
    }

    pub fn amount(self, value: Decimal) -> (r: Self)
        ensures
            r.amount == Some(value),
            r.destination == self.destination,
            r.token == self.token,
            r.nonce == self.nonce,
    {
        SpotTransferBuilder { amount: Some(value), ..self }
    }

    pub fn nonce(self, value: Option<u64>) -> (r: Self)
        ensures
            r.nonce == Some(value),
            r.destination == self.destination,
            r.token == self.token,
            r.amount == self.amount,
    {
        SpotTransferBuilder { nonce: Some(value), ..self }
    }

    /// The action, or an error naming the first required field that was never set.
    pub fn build(self) -> (r: Result<SpotTransfer, BuilderError>)
        ensures
            r is Ok <==> (self.destination is Some && self.token is Some && self.amount is Some),
            r matches Ok(a) ==> a.destination == self.destination->0
                && a.token == self.token->0
                && a.amount == self.amount->0
                && a.nonce == (match self.nonce { Some(n) => n, None => None }),
            r matches Err(BuilderError::UninitializedField(f)) ==> f@ == (if self.destination is None { "destination"@ } else if self.token is None { "token"@ } else if self.amount is None { "amount"@ } else { Seq::empty() }),
    {
        let destination = match self.destination {
            Some(v) => v,
            None => { return Err(BuilderError::UninitializedField("destination".to_owned())); },
        };
        let token = match self.token {
            Some(v) => v,
            None => { return Err(BuilderError::UninitializedField("token".to_owned())); },
        };
        let amount = match self.amount {
            Some(v) => v,
            None => { return Err(BuilderError::UninitializedField("amount".to_owned())); },
        };
        let nonce = match self.nonce {
            Some(n) => n,
            None => None,
        };
        Ok(SpotTransfer { destination, token, amount, nonce })
    }
}

impl SpotTransfer {
    /// A builder with no field set.
    pub fn builder() -> (b: SpotTransferBuilder)
        ensures
            b.destination is None,
            b.token is None,
            b.amount is None,
            b.nonce is None,
    {
        SpotTransferBuilder { destination: None, token: None, amount: None, nonce: None }
    }
}

/// Step-by-step construction of a [`TokenDelegate`]; every field but `nonce` is required.
#[derive(Debug, Clone)]
pub struct TokenDelegateBuilder {
    pub validator: Option<Address>,
    pub wei: Option<u64>,
    pub is_undelegate: Option<bool>,
    pub nonce: Option<Option<u64>>,
}

impl TokenDelegateBuilder {
    pub fn validator(self, value: Address) -> (r: Self)
        ensures
            r.validator == Some(value),
            r.wei == self.wei,
            r.is_undelegate == self.is_undelegate,
            r.nonce == self.nonce,
    {
        TokenDelegateBuilder { validator: Some(value), ..self }
    }

    pub fn wei(self, value: u64) -> (r: Self)
        ensures
            r.wei == Some(value),
            r.validator == self.validator,
            r.is_undelegate == self.is_undelegate,
            r.nonce == self.nonce,
    {
        TokenDelegateBuilder { wei: Some(value), ..self }
    }

    pub fn is_undelegate(self, value: bool) -> (r: Self)
        ensures
            r.is_undelegate == Some(value),
            r.validator == self.validator,
            r.wei == self.wei,
            r.nonce == self.nonce,
    {
        TokenDelegateBuilder { is_undelegate: Some(value), ..self }
    }

    pub fn nonce(self, value: Option<u64>) -> (r: Self)
        ensures
            r.nonce == Some(value),
            r.validator == self.validator,
            r.wei == self.wei,
            r.is_undelegate == self.is_undelegate,
    {
        TokenDelegateBuilder { nonce: Some(value), ..self }
    }

    /// The action, or an error naming the first required field that was never set.
    pub fn build(self) -> (r: Result<TokenDelegate, BuilderError>)
        ensures
            r is Ok <==> (self.validator is Some && self.wei is Some && self.is_undelegate is Some),
            r matches Ok(a) ==> a.validator == self.validator->0
                && a.wei == self.wei->0
                && a.is_undelegate == self.is_undelegate->0
                && a.nonce == (match self.nonce { Some(n) => n, None => None }),
            r matches Err(BuilderError::UninitializedField(f)) ==> f@ == (if self.validator is None { "validator"@ } else if self.wei is None { "wei"@ } else if self.is_undelegate is None { "is_undelegate"@ } else { Seq::empty() }),
    {
        let validator = match self.validator {
            Some(v) => v,
            None => { return Err(BuilderError::UninitializedField("validator".to_owned())); },
        };
        let wei = match self.wei {
            Some(v) => v,
            None => { return Err(BuilderError::UninitializedField("wei".to_owned())); },
        };
        let is_undelegate = match self.is_undelegate {
            Some(v) => v,
            None => { return Err(BuilderError::UninitializedField("is_undelegate".to_owned())); },
        };
        let nonce = match self.nonce {
            Some(n) => n,
            None => None,
        };
        Ok(TokenDelegate { validator, wei, is_undelegate, nonce })
    }
}

impl TokenDelegate {
    /// A builder with no field set.
    pub fn builder() -> (b: TokenDelegateBuilder)
        ensures
            b.validator is None,
            b.wei is None,
            b.is_undelegate is None,
            b.nonce is None,
    {
        TokenDelegateBuilder { validator: None, wei: None, is_undelegate: None, nonce: None }
    }
}

/// Step-by-step construction of a [`UsdClassTransfer`]; every field but `nonce` is required.
#[derive(Debug, Clone)]
pub struct UsdClassTransferBuilder {
    pub amount: Option<Decimal>,
    pub to_perp: Option<bool>,
    pub nonce: Option<Option<u64>>,
}

impl UsdClassTransferBuilder {
    pub fn amount(self, value: Decimal) -> (r: Self)
        ensures
            r.amount == Some(value),
            r.to_perp == self.to_perp,
            r.nonce == self.nonce,
    {
        UsdClassTransferBuilder { amount: Some(value), ..self }
    }

    pub fn to_perp(self, value: bool) -> (r: Self)
        ensures
            r.to_perp == Some(value),
            r.amount == self.amount,
            r.nonce == self.nonce,
    {
        UsdClassTransferBuilder { to_perp: Some(value), ..self }
    }

    pub fn nonce(self, value: Option<u64>) -> (r: Self)
        ensures
            r.nonce == Some(value),
            r.amount == self.amount,
            r.to_perp == self.to_perp,
    {
        UsdClassTransferBuilder { nonce: Some(value), ..self }
    }

    /// The action, or an error naming the first required field that was never set.
    pub fn build(self) -> (r: Result<UsdClassTransfer, BuilderError>)
        ensures
            r is Ok <==> (self.amount is Some && self.to_perp is Some),
            r matches Ok(a) ==> a.amount == self.amount->0
                && a.to_perp == self.to_perp->0
                && a.nonce == (match self.nonce { Some(n) => n, None => None }),
            r matches Err(BuilderError::UninitializedField(f)) ==> f@ == (if self.amount is None { "amount"@ } else if self.to_perp is None { "to_perp"@ } else { Seq::empty() }),
    {
        let amount = match self.amount {
            Some(v) => v,
            None => { return Err(BuilderError::UninitializedField("amount".to_owned())); },
        };
        let to_perp = match self.to_perp {
            Some(v) => v,
            None => { return Err(BuilderError::UninitializedField("to_perp".to_owned())); },
        };
        let nonce = match self.nonce {
            Some(n) => n,
            None => None,
        };
        Ok(UsdClassTransfer { amount, to_perp, nonce })
    }
}

impl UsdClassTransfer {
    /// A builder with no field set.
    pub fn builder() -> (b: UsdClassTransferBuilder)
        ensures
            b.amount is None,
            b.to_perp is None,
            b.nonce is None,
    {
        UsdClassTransferBuilder { amount: None, to_perp: None, nonce: None }
    }
}

/// Step-by-step construction of a [`UsdSend`]; every field but `nonce` is required.
#[derive(Debug, Clone)]
pub struct UsdSendBuilder {
    pub destination: Option<Address>,
    pub amount: Option<Decimal>,
    pub nonce: Option<Option<u64>>,
}

impl UsdSendBuilder {
    pub fn destination(self, value: Address) -> (r: Self)
        ensures
            r.destination == Some(value),
            r.amount == self.amount,
            r.nonce == self.nonce,
    {
        UsdSendBuilder { destination: Some(value), ..self }
    }

    pub fn amount(self, value: Decimal) -> (r: Self)
        ensures
            r.amount == Some(value),
            r.destination == self.destination,
            r.nonce == self.nonce,
    {
        UsdSendBuilder { amount: Some(value), ..self }
    }

    pub fn nonce(self, value: Option<u64>) -> (r: Self)
        ensures
            r.nonce == Some(value),
            r.destination == self.destination,
            r.amount == self.amount,
    {
        UsdSendBuilder { nonce: Some(value), ..self }
    }

    /// The action, or an error naming the first required field that was never set.
    pub fn build(self) -> (r: Result<UsdSend, BuilderError>)
        ensures
            r is Ok <==> (self.destination is Some && self.amount is Some),
            r matches Ok(a) ==> a.destination == self.destination->0
                && a.amount == self.amount->0
                && a.nonce == (match self.nonce { Some(n) => n, None => None }),
            r matches Err(BuilderError::UninitializedField(f)) ==> f@ == (if self.destination is None { "destination"@ } else if self.amount is None { "amount"@ } else { Seq::empty() }),
    {
        let destination = match self.destination {
            Some(v) => v,
            None => { return Err(BuilderError::UninitializedField("destination".to_owned())); },
        };
        let amount = match self.amount {
            Some(v) => v,
            None => { return Err(BuilderError::UninitializedField("amount".to_owned())); },
        };
        let nonce = match self.nonce {
            Some(n) => n,
            None => None,
        };
        Ok(UsdSend { destination, amount, nonce })
    }
}

impl UsdSend {
    /// A builder with no field set.
    pub fn builder() -> (b: UsdSendBuilder)
        ensures
            b.destination is None,
            b.amount is None,
            b.nonce is None,
    {
        UsdSendBuilder { destination: None, amount: None, nonce: None }
    }
}

/// Step-by-step construction of a [`UserDexAbstraction`]; every field but `nonce` is required.
#[derive(Debug, Clone)]
pub struct UserDexAbstractionBuilder {
    pub user: Option<Address>,
    pub enabled: Option<bool>,
    pub nonce: Option<Option<u64>>,
}

impl UserDexAbstractionBuilder {
    pub fn user(self, value: Address) -> (r: Self)
        ensures
            r.user == Some(value),
            r.enabled == self.enabled,
            r.nonce == self.nonce,
    {
        UserDexAbstractionBuilder { user: Some(value), ..self }
    }

    pub fn enabled(self, value: bool) -> (r: Self)
        ensures
            r.enabled == Some(value),
            r.user == self.user,
            r.nonce == self.nonce,
    {
        UserDexAbstractionBuilder { enabled: Some(value), ..self }
    }

    pub fn nonce(self, value: Option<u64>) -> (r: Self)
        ensures
            r.nonce == Some(value),
            r.user == self.user,
            r.enabled == self.enabled,
    {
        UserDexAbstractionBuilder { nonce: Some(value), ..self }
    }

    /// The action, or an error naming the first required field that was never set.
    pub fn build(self) -> (r: Result<UserDexAbstraction, BuilderError>)
        ensures
            r is Ok <==> (self.user is Some && self.enabled is Some),
            r matches Ok(a) ==> a.user == self.user->0
                && a.enabled == self.enabled->0
                && a.nonce == (match self.nonce { Some(n) => n, None => None }),
            r matches Err(BuilderError::UninitializedField(f)) ==> f@ == (if self.user is None { "user"@ } else if self.enabled is None { "enabled"@ } else { Seq::empty() }),
    {
        let user = match self.user {
            Some(v) => v,
            None => { return Err(BuilderError::UninitializedField("user".to_owned())); },
        };
        let enabled = match self.enabled {
            Some(v) => v,
            None => { return Err(BuilderError::UninitializedField("enabled".to_owned())); },
        };
        let nonce = match self.nonce {
            Some(n) => n,
            None => None,
        };
        Ok(UserDexAbstraction { user, enabled, nonce })
    }
}

impl UserDexAbstraction {
    /// A builder with no field set.
    pub fn builder() -> (b: UserDexAbstractionBuilder)
        ensures
            b.user is None,
            b.enabled is None,
            b.nonce is None,
    {
        UserDexAbstractionBuilder { user: None, enabled: None, nonce: None }
    }
}

/// Step-by-step construction of a [`Withdraw`]; every field but `nonce` is required.
#[derive(Debug, Clone)]
pub struct WithdrawBuilder {
    pub destination: Option<Address>,
    pub amount: Option<Decimal>,
    pub nonce: Option<Option<u64>>,
}

impl WithdrawBuilder {
    pub fn destination(self, value: Address) -> (r: Self)
        ensures
            r.destination == Some(value),
            r.amount == self.amount,
            r.nonce == self.nonce,
    {
        WithdrawBuilder { destination: Some(value), ..self }
    }

    pub fn amount(self, value: Decimal) -> (r: Self)
        ensures
            r.amount == Some(value),
            r.destination == self.destination,
            r.nonce == self.nonce,
    {
        WithdrawBuilder { amount: Some(value), ..self }
    }

    pub fn nonce(self, value: Option<u64>) -> (r: Self)
        ensures
            r.nonce == Some(value),
            r.destination == self.destination,
            r.amount == self.amount,
    {
        WithdrawBuilder { nonce: Some(value), ..self }
    }

    /// The action, or an error naming the first required field that was never set.
    pub fn build(self) -> (r: Result<Withdraw, BuilderError>)
        ensures
            r is Ok <==> (self.destination is Some && self.amount is Some),
            r matches Ok(a) ==> a.destination == self.destination->0
                && a.amount == self.amount->0
                && a.nonce == (match self.nonce { Some(n) => n, None => None }),
            r matches Err(BuilderError::UninitializedField(f)) ==> f@ == (if self.destination is None { "destination"@ } else if self.amount is None { "amount"@ } else { Seq::empty() }),
    {
        let destination = match self.destination {
            Some(v) => v,
            None => { return Err(BuilderError::UninitializedField("destination".to_owned())); },
        };
        let amount = match self.amount {
            Some(v) => v,
            None => { return Err(BuilderError::UninitializedField("amount".to_owned())); },
        };
        let nonce = match self.nonce {
            Some(n) => n,
            None => None,
        };
        Ok(Withdraw { destination, amount, nonce })
    }
}

impl Withdraw {
    /// A builder with no field set.
    pub fn builder() -> (b: WithdrawBuilder)
        ensures
            b.destination is None,
            b.amount is None,
            b.nonce is None,
    {
        WithdrawBuilder { destination: None, amount: None, nonce: None }
    }
}


impl Action for ApproveAgent {
    open spec fn spec_kind(self) -> ActionKind {
        ActionKind::ApproveAgent(self)
    }

    fn into_kind(self) -> (k: ActionKind) {
        ActionKind::ApproveAgent(self)
    }

    open spec fn spec_meta() -> ActionMetaV {
        ActionMetaV {
            action_type: "approveAgent"@,
            payload_key: "approveAgent"@,
            user_signed: true,
            uses_time: false,
        }
    }

    open spec fn spec_nonce(&self) -> Option<u64> {
        self.nonce
    }

    open spec fn spec_with_nonce(self, nonce: u64) -> Self {
        ApproveAgent { nonce: Some(nonce), ..self }
    }

    fn meta() -> (m: ActionMeta) {
        nested_meta("approveAgent", "approveAgent", true, false)
    }

    fn nonce(&self) -> (n: Option<u64>) {
        self.nonce
    }

    fn with_nonce(self, nonce: u64) -> (r: Self) {
        ApproveAgent { nonce: Some(nonce), ..self }
    }
}


impl Action for ApproveBuilderFee {
    open spec fn spec_kind(self) -> ActionKind {
        ActionKind::ApproveBuilderFee(self)
    }

    fn into_kind(self) -> (k: ActionKind) {
        ActionKind::ApproveBuilderFee(self)
    }

    open spec fn spec_meta() -> ActionMetaV {
        ActionMetaV {
            action_type: "approveBuilderFee"@,
            payload_key: "approveBuilderFee"@,
            user_signed: true,
            uses_time: false,
        }
    }

    open spec fn spec_nonce(&self) -> Option<u64> {
        self.nonce
    }

    open spec fn spec_with_nonce(self, nonce: u64) -> Self {
        ApproveBuilderFee { nonce: Some(nonce), ..self }
    }

    fn meta() -> (m: ActionMeta) {
        nested_meta("approveBuilderFee", "approveBuilderFee", true, false)
    }

    fn nonce(&self) -> (n: Option<u64>) {
        self.nonce
    }

    fn with_nonce(self, nonce: u64) -> (r: Self) {
        ApproveBuilderFee { nonce: Some(nonce), ..self }
    }
}


impl Action for ConvertToMultiSigUser {
    open spec fn spec_kind(self) -> ActionKind {
        ActionKind::ConvertToMultiSigUser(self)
    }

    fn into_kind(self) -> (k: ActionKind) {
        ActionKind::ConvertToMultiSigUser(self)
    }

    open spec fn spec_meta() -> ActionMetaV {
        ActionMetaV {
            action_type: "convertToMultiSigUser"@,
            payload_key: "convertToMultiSigUser"@,
            user_signed: true,
            uses_time: false,
        }
    }

    open spec fn spec_nonce(&self) -> Option<u64> {
        self.nonce
    }

    open spec fn spec_with_nonce(self, nonce: u64) -> Self {
        ConvertToMultiSigUser { nonce: Some(nonce), ..self }
    }

    fn meta() -> (m: ActionMeta) {
        nested_meta("convertToMultiSigUser", "convertToMultiSigUser", true, false)
    }

    fn nonce(&self) -> (n: Option<u64>) {
        self.nonce
    }

    fn with_nonce(self, nonce: u64) -> (r: Self) {
        ConvertToMultiSigUser { nonce: Some(nonce), ..self }
    }
}


impl Action for SendAsset {
    open spec fn spec_kind(self) -> ActionKind {
        ActionKind::SendAsset(self)
    }

    fn into_kind(self) -> (k: ActionKind) {
        ActionKind::SendAsset(self)
    }

    open spec fn spec_meta() -> ActionMetaV {
        ActionMetaV {
            action_type: "sendAsset"@,
            payload_key: "sendAsset"@,
            user_signed: true,
            uses_time: false,
        }
    }

    open spec fn spec_nonce(&self) -> Option<u64> {
        self.nonce
    }

    open spec fn spec_with_nonce(self, nonce: u64) -> Self {
        SendAsset { nonce: Some(nonce), ..self }
    }

    fn meta() -> (m: ActionMeta) {
        nested_meta("sendAsset", "sendAsset", true, false)
    }

    fn nonce(&self) -> (n: Option<u64>) {
        self.nonce
    }

    fn with_nonce(self, nonce: u64) -> (r: Self) {
        SendAsset { nonce: Some(nonce), ..self }
    }
}


impl Action for SpotTransfer {
    open spec fn spec_kind(self) -> ActionKind {
        ActionKind::SpotTransfer(self)
    }

    fn into_kind(self) -> (k: ActionKind) {
        ActionKind::SpotTransfer(self)
    }

    open spec fn spec_meta() -> ActionMetaV {
        ActionMetaV {
            action_type: "spotSend"@,
            payload_key: "spotSend"@,
            user_signed: true,
            uses_time: true,
        }
    }

    open spec fn spec_nonce(&self) -> Option<u64> {
        self.nonce
    }

    open spec fn spec_with_nonce(self, nonce: u64) -> Self {
        SpotTransfer { nonce: Some(nonce), ..self }
    }

    fn meta() -> (m: ActionMeta) {
        nested_meta("spotSend", "spotSend", true, true)
    }

    fn nonce(&self) -> (n: Option<u64>) {
        self.nonce
    }

    fn with_nonce(self, nonce: u64) -> (r: Self) {
        SpotTransfer { nonce: Some(nonce), ..self }
    }
}


impl Action for TokenDelegate {
    open spec fn spec_kind(self) -> ActionKind {
        ActionKind::TokenDelegate(self)
    }

    fn into_kind(self) -> (k: ActionKind) {
        ActionKind::TokenDelegate(self)
    }

    open spec fn spec_meta() -> ActionMetaV {
        ActionMetaV {
            action_type: "tokenDelegate"@,
            payload_key: "tokenDelegate"@,
            user_signed: true,
            uses_time: false,
        }
    }

    open spec fn spec_nonce(&self) -> Option<u64> {
        self.nonce
    }

    open spec fn spec_with_nonce(self, nonce: u64) -> Self {
        TokenDelegate { nonce: Some(nonce), ..self }
    }

    fn meta() -> (m: ActionMeta) {
        nested_meta("tokenDelegate", "tokenDelegate", true, false)
    }

    fn nonce(&self) -> (n: Option<u64>) {
        self.nonce
    }

    fn with_nonce(self, nonce: u64) -> (r: Self) {
        TokenDelegate { nonce: Some(nonce), ..self }
    }
}


impl Action for UsdClassTransfer {
    open spec fn spec_kind(self) -> ActionKind {
        ActionKind::UsdClassTransfer(self)
    }

    fn into_kind(self) -> (k: ActionKind) {
        ActionKind::UsdClassTransfer(self)
    }

    open spec fn spec_meta() -> ActionMetaV {
        ActionMetaV {
            action_type: "usdClassTransfer"@,
            payload_key: "usdClassTransfer"@,
            user_signed: true,
            uses_time: false,
        }
    }

    open spec fn spec_nonce(&self) -> Option<u64> {
        self.nonce
    }

    open spec fn spec_with_nonce(self, nonce: u64) -> Self {
        UsdClassTransfer { nonce: Some(nonce), ..self }
    }

    fn meta() -> (m: ActionMeta) {
        nested_meta("usdClassTransfer", "usdClassTransfer", true, false)
    }

    fn nonce(&self) -> (n: Option<u64>) {
        self.nonce
    }

    fn with_nonce(self, nonce: u64) -> (r: Self) {
        UsdClassTransfer { nonce: Some(nonce), ..self }
    }
}


impl Action for UsdSend {
    open spec fn spec_kind(self) -> ActionKind {
        ActionKind::UsdSend(self)
    }

    fn into_kind(self) -> (k: ActionKind) {
        ActionKind::UsdSend(self)
    }

    open spec fn spec_meta() -> ActionMetaV {
        ActionMetaV {
            action_type: "usdSend"@,
            payload_key: "usdSend"@,
            user_signed: true,
            uses_time: true,
        }
    }

    open spec fn spec_nonce(&self) -> Option<u64> {
        self.nonce
    }

    open spec fn spec_with_nonce(self, nonce: u64) -> Self {
        UsdSend { nonce: Some(nonce), ..self }
    }

    fn meta() -> (m: ActionMeta) {
        nested_meta("usdSend", "usdSend", true, true)
    }

    fn nonce(&self) -> (n: Option<u64>) {
        self.nonce
    }

    fn with_nonce(self, nonce: u64) -> (r: Self) {
        UsdSend { nonce: Some(nonce), ..self }
    }
}


impl Action for UserDexAbstraction {
    open spec fn spec_kind(self) -> ActionKind {
        ActionKind::UserDexAbstraction(self)
    }

    fn into_kind(self) -> (k: ActionKind) {
        ActionKind::UserDexAbstraction(self)
    }

    open spec fn spec_meta() -> ActionMetaV {
        ActionMetaV {
            action_type: "userDexAbstraction"@,
            payload_key: "userDexAbstraction"@,
            user_signed: true,
            uses_time: false,
        }
    }

    open spec fn spec_nonce(&self) -> Option<u64> {
        self.nonce
    }

    open spec fn spec_with_nonce(self, nonce: u64) -> Self {
        UserDexAbstraction { nonce: Some(nonce), ..self }
    }

    fn meta() -> (m: ActionMeta) {
        nested_meta("userDexAbstraction", "userDexAbstraction", true, false)
    }

    fn nonce(&self) -> (n: Option<u64>) {
        self.nonce
    }

    fn with_nonce(self, nonce: u64) -> (r: Self) {
        UserDexAbstraction { nonce: Some(nonce), ..self }
    }
}


impl Action for Withdraw {
    open spec fn spec_kind(self) -> ActionKind {
        ActionKind::Withdraw(self)
    }

    fn into_kind(self) -> (k: ActionKind) {
        ActionKind::Withdraw(self)
    }

    open spec fn spec_meta() -> ActionMetaV {
        ActionMetaV {
            action_type: "withdraw3"@,
            payload_key: "withdraw3"@,
            user_signed: true,
            uses_time: true,
        }
    }

    open spec fn spec_nonce(&self) -> Option<u64> {
        self.nonce
    }

    open spec fn spec_with_nonce(self, nonce: u64) -> Self {
        Withdraw { nonce: Some(nonce), ..self }
    }

    fn meta() -> (m: ActionMeta) {
        nested_meta("withdraw3", "withdraw3", true, true)
    }

    fn nonce(&self) -> (n: Option<u64>) {
        self.nonce
    }

    fn with_nonce(self, nonce: u64) -> (r: Self) {
        Withdraw { nonce: Some(nonce), ..self }
    }
}


/// The actions signed with a `uint64 time` field (`usdSend`, `spotSend`, `withdraw3`) send
/// their nonce as `time`: building the action object of a payload with a `nonce` member (and
/// no `time` member) gives a `time` member holding that nonce, and no `nonce` member.
pub proof fn lemma_time_actions_send_nonce_as_time(p: Seq<(Seq<char>, Json)>, chain: SigningChain)
    requires
        keys_distinct(p),
        obj_has(p, "nonce"@),
        !obj_has(p, "time"@),
    ensures
        build_action_spec(UsdSend::spec_meta(), Json::Object(p), Some(chain)) matches Ok(Json::Object(m))
            && obj_get(m, "time"@) == obj_get(p, "nonce"@) && !obj_has(m, "nonce"@),
        build_action_spec(SpotTransfer::spec_meta(), Json::Object(p), Some(chain)) matches Ok(
            Json::Object(m),
        ) && obj_get(m, "time"@) == obj_get(p, "nonce"@) && !obj_has(m, "nonce"@),
        build_action_spec(Withdraw::spec_meta(), Json::Object(p), Some(chain)) matches Ok(Json::Object(m))
            && obj_get(m, "time"@) == obj_get(p, "nonce"@) && !obj_has(m, "nonce"@),
{
    lemma_nonce_travels_as_time(UsdSend::spec_meta(), p, chain);
    lemma_nonce_travels_as_time(SpotTransfer::spec_meta(), p, chain);
    lemma_nonce_travels_as_time(Withdraw::spec_meta(), p, chain);
}


/// The user-signed actions signed with a `uint64 nonce` field (`sendAsset`,
/// `convertToMultiSigUser`, `approveAgent`, `approveBuilderFee`, `userDexAbstraction`,
/// `usdClassTransfer`, `tokenDelegate`) send their nonce as `nonce`: building the action
/// object keeps the payload's `nonce` (and adds no `time`).
pub proof fn lemma_nonce_actions_keep_nonce(p: Seq<(Seq<char>, Json)>, chain: SigningChain)
    requires
        keys_distinct(p),
    ensures
        build_action_spec(SendAsset::spec_meta(), Json::Object(p), Some(chain)) matches Ok(Json::Object(m))
            && obj_get(m, "nonce"@) == obj_get(p, "nonce"@) && obj_get(m, "time"@) == obj_get(p, "time"@),
        build_action_spec(ConvertToMultiSigUser::spec_meta(), Json::Object(p), Some(chain)) matches Ok(Json::Object(m))
            && obj_get(m, "nonce"@) == obj_get(p, "nonce"@) && obj_get(m, "time"@) == obj_get(p, "time"@),
        build_action_spec(ApproveAgent::spec_meta(), Json::Object(p), Some(chain)) matches Ok(Json::Object(m))
            && obj_get(m, "nonce"@) == obj_get(p, "nonce"@) && obj_get(m, "time"@) == obj_get(p, "time"@),
        build_action_spec(ApproveBuilderFee::spec_meta(), Json::Object(p), Some(chain)) matches Ok(Json::Object(m))
            && obj_get(m, "nonce"@) == obj_get(p, "nonce"@) && obj_get(m, "time"@) == obj_get(p, "time"@),
        build_action_spec(UserDexAbstraction::spec_meta(), Json::Object(p), Some(chain)) matches Ok(Json::Object(m))
            && obj_get(m, "nonce"@) == obj_get(p, "nonce"@) && obj_get(m, "time"@) == obj_get(p, "time"@),
        build_action_spec(UsdClassTransfer::spec_meta(), Json::Object(p), Some(chain)) matches Ok(Json::Object(m))
            && obj_get(m, "nonce"@) == obj_get(p, "nonce"@) && obj_get(m, "time"@) == obj_get(p, "time"@),
        build_action_spec(TokenDelegate::spec_meta(), Json::Object(p), Some(chain)) matches Ok(Json::Object(m))
            && obj_get(m, "nonce"@) == obj_get(p, "nonce"@) && obj_get(m, "time"@) == obj_get(p, "time"@),
{
    lemma_nonce_stays_nonce(SendAsset::spec_meta(), p, chain);
    lemma_nonce_stays_nonce(ConvertToMultiSigUser::spec_meta(), p, chain);
    lemma_nonce_stays_nonce(ApproveAgent::spec_meta(), p, chain);
    lemma_nonce_stays_nonce(ApproveBuilderFee::spec_meta(), p, chain);
    lemma_nonce_stays_nonce(UserDexAbstraction::spec_meta(), p, chain);
    lemma_nonce_stays_nonce(UsdClassTransfer::spec_meta(), p, chain);
    lemma_nonce_stays_nonce(TokenDelegate::spec_meta(), p, chain);
}

} // verus!
