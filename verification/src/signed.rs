//! Prepared and signed actions, and the signed-action envelope sent to the exchange.
use vstd::prelude::*;
use crate::actions::{Action, ActionKind, ActionMeta, ActionMetaV};
use crate::actions::kind::{ActionType, type_meta, ActionKindReading, KindReadingV, read_action_kind, read_action_kind_spec};
use crate::error::Error;
use crate::json::{
    Json, JsonNumber, JsonValue, get_member, keys_distinct, lemma_obj_find, members_view, obj_find,
    obj_get,
};
use crate::signature::{
    SigReading, deserialize_sig, hex_char_value, is_hex_char, lemma_hex_digit_value,
    lemma_signature_round_trip, read_sig,
};
use crate::wire::{
    deserialize_action, deserialize_action_spec, extract_payload_spec, lemma_built_action_names_type,
};
use crate::primitives::{Address, U256, address_lower_hex, hex_digit, hex_of_bytes};
use crate::signature::{Signature, serialize_sig, sig_json};
use crate::wire::{SigningChain, build_action_spec, build_action_value, deref_chain, result_json_view};

verus! {

/// Calls `SystemTime::now().duration_since(UNIX_EPOCH)`: the current time in milliseconds
/// since the Unix epoch (its low 64 bits), or `None` when the system clock reads before the
/// epoch. Nothing is claimed of the value: it depends on the clock.
#[verifier::external_body]
pub fn current_timestamp_ms() -> Option<u64> {
    match std::time::SystemTime::now().duration_since(std::time::UNIX_EPOCH) {
        Ok(d) => Some(d.as_millis() as u64),
        Err(_) => None,
    }
}

/// The ECDSA signature over secp256k1 that a secret key makes of a 32-byte hash, with the
/// nonce derived deterministically (RFC 6979): its `r`, `s` and the parity of `y`; `None`
/// when the key is not a valid secret scalar or no signature comes out.
pub uninterp spec fn secp256k1_sign(secret: Seq<u8>, hash: Seq<u8>) -> Option<(nat, nat, bool)>;

/// Calls alloy's `PrivateKeySigner::from_bytes` and then `SignerSync::sign_hash_sync`.
/// Claimed: the outcome is the deterministic signature of `hash` under `secret` (named,
/// not spelled out), a function of the two alone: the key is refused or signing fails
/// exactly when the named signature is `None`. The error's text is left unsaid.
#[verifier::external_body]
fn sign_hash_with_secret(secret: &[u8; 32], hash: &[u8; 32]) -> (r: Result<Signature, String>)
    ensures
        r is Ok <==> secp256k1_sign(secret@, hash@) is Some,
        r matches Ok(sig) ==> secp256k1_sign(secret@, hash@) == Some(
            (sig.r.value(), sig.s.value(), sig.y_parity),
        ),
{
    let key = alloy::primitives::B256::from(*secret);
    match alloy::signers::local::PrivateKeySigner::from_bytes(&key) {
        Ok(signer) => match alloy_signer::SignerSync::sign_hash_sync(&signer, &alloy::primitives::B256::from(*hash)) {
            Ok(sig) => Ok(Signature { r: U256(*sig.r().as_limbs()), s: U256(*sig.s().as_limbs()), y_parity: sig.v() }),
            Err(e) => Err(e.to_string()),
        },
        Err(e) => Err(e.to_string()),
    }
}

/// What an action is signed with besides its own fields.
#[derive(Clone, Copy, Debug)]
pub struct SigningMeta {
    pub nonce: u64,
    pub vault_address: Option<Address>,
    pub expires_after: Option<u64>,
    pub signing_chain: SigningChain,
}

/// An action with its nonce fixed and the hash to be signed, ready for signing.
pub struct PreparedAction<A: Action> {
    pub action: A,
    pub nonce: u64,
    pub vault_address: Option<Address>,
    pub expires_after: Option<u64>,
    pub signing_chain: SigningChain,
    pub signing_hash: [u8; 32],
}

/// The nonce an action is prepared with: its own, or `now_ms` when it has none.
pub open spec fn prepared_nonce<A: Action>(action: A, now_ms: u64) -> u64 {
    match action.spec_nonce() {
        Some(n) => n,
        None => now_ms,
    }
}

/// The signing metadata of an action prepared with nonce `nonce`.
pub open spec fn signing_meta_spec(
    nonce: u64,
    vault_address: Option<Address>,
    expires_after: Option<u64>,
    signing_chain: SigningChain,
) -> SigningMeta {
    SigningMeta { nonce, vault_address, expires_after, signing_chain }
}

/// The outcome of preparing `action` at time `now_ms`: on success the nonce is the
/// action's own or `now_ms`, the action carries it, the vault address, expiry and chain are
/// the ones given, and the hash is one `hasher` returns for the action and its signing
/// metadata; on failure the error is one `hasher` returns for them.
pub open spec fn prepared_outcome<A: Action, F: FnOnce(&A, &SigningMeta) -> Result<[u8; 32], Error>>(
    action: A,
    signing_chain: SigningChain,
    vault_address: Option<Address>,
    expires_after: Option<u64>,
    now_ms: u64,
    hasher: F,
    r: Result<PreparedAction<A>, Error>,
) -> bool {
    let n = prepared_nonce(action, now_ms);
    let a = action.spec_with_nonce(n);
    let meta = signing_meta_spec(n, vault_address, expires_after, signing_chain);
    match r {
        Ok(p) => {
            &&& p.nonce == n
            &&& p.action == a
            &&& p.action.spec_nonce() == Some(n)
            &&& p.vault_address == vault_address
            &&& p.expires_after == expires_after
            &&& p.signing_chain == signing_chain
            &&& hasher.ensures((&a, &meta), Ok(p.signing_hash))
        },
        Err(e) => hasher.ensures((&a, &meta), Err(e)),
    }
}

/// The hash of a prepared action is computed over signing metadata that carries exactly the
/// inputs given: the nonce used (the action's own, or the time when it has none), the vault
/// address, the expiry and the chain. So a hash made for one vault address, expiry or chain
/// is not the hash of a preparation with another, whatever the hasher returned.
pub proof fn lemma_prepared_hash_covers_inputs<A: Action, F: FnOnce(&A, &SigningMeta) -> Result<[u8; 32], Error>>(
    action: A,
    signing_chain: SigningChain,
    vault_address: Option<Address>,
    expires_after: Option<u64>,
    now_ms: u64,
    hasher: F,
    r: Result<PreparedAction<A>, Error>,
)
    requires
        prepared_outcome(action, signing_chain, vault_address, expires_after, now_ms, hasher, r),
    ensures
        ({
            let n: u64 = match action.spec_nonce() {
                Some(own) => own,
                None => now_ms,
            };
            let meta = (SigningMeta {
                nonce: n,
                vault_address: vault_address,
                expires_after: expires_after,
                signing_chain: signing_chain,
            });
            match r {
                Ok(p) => p.nonce == n && p.vault_address == vault_address && p.expires_after
                    == expires_after && p.signing_chain == signing_chain && hasher.ensures(
                    (&action.spec_with_nonce(n), &meta),
                    Ok(p.signing_hash),
                ),
                Err(e) => hasher.ensures((&action.spec_with_nonce(n), &meta), Err(e)),
            }
        }),
{
}

impl<A: Action> PreparedAction<A> {
    /// Prepares an action for signing at time `now_ms`. The nonce is the action's own, or
    /// `now_ms` when it has none; the action is given that nonce, and `hasher` computes the
    /// hash to sign from the action and the signing metadata. The hash is kept as it came
    /// back, and an error of `hasher` is returned unchanged.
    pub fn new_at<F: FnOnce(&A, &SigningMeta) -> Result<[u8; 32], Error>>(
        action: A,
        signing_chain: &SigningChain,
        vault_address: Option<Address>,
        expires_after: Option<u64>,
        now_ms: u64,
        hasher: F,
    ) -> (r: Result<Self, Error>)
        requires
            forall|a: &A, m: &SigningMeta| #[trigger] hasher.requires((a, m)),
        ensures
            prepared_outcome(action, *signing_chain, vault_address, expires_after, now_ms, hasher, r),
            r matches Ok(p) ==> hasher.ensures(
                (
                    &action.spec_with_nonce(p.nonce),
                    &(SigningMeta {
                        nonce: p.nonce,
                        vault_address: vault_address,
                        expires_after: expires_after,
                        signing_chain: *signing_chain,
                    }),
                ),
                Ok(p.signing_hash),
            ),
    {
        let nonce = match action.nonce() {
            Some(n) => n,
            None => now_ms,
        };
        let action = action.with_nonce(nonce);
        let meta = SigningMeta { nonce, vault_address, expires_after, signing_chain: *signing_chain };
        let signing_hash = match hasher(&action, &meta) {
            Ok(h) => h,
            Err(e) => {
                return Err(e);
            },
        };
        Ok(PreparedAction {
            action,
            nonce,
            vault_address,
            expires_after,
            signing_chain: *signing_chain,
            signing_hash,
        })
    }

    /// Prepares an action for signing now: as [`PreparedAction::new_at`] with the system
    /// clock's reading when the action has no nonce of its own. Refused when the action has
    /// no nonce and the clock reads before the Unix epoch.
    pub fn new<F: FnOnce(&A, &SigningMeta) -> Result<[u8; 32], Error>>(
        action: A,
        signing_chain: &SigningChain,
        vault_address: Option<Address>,
        expires_after: Option<u64>,
        hasher: F,
    ) -> (r: Result<Self, Error>)
        requires
            forall|a: &A, m: &SigningMeta| #[trigger] hasher.requires((a, m)),
        ensures
            (r matches Err(Error::ClockBeforeEpoch) && action.spec_nonce() is None) || exists|
                now_ms: u64,
            | #[trigger] prepared_outcome(
                action,
                *signing_chain,
                vault_address,
                expires_after,
                now_ms,
                hasher,
                r,
            ),
    {
        let now_ms = match action.nonce() {
            Some(n) => n,
            None => match current_timestamp_ms() {
                Some(t) => t,
                None => {
                    return Err(Error::ClockBeforeEpoch);
                },
            },
        };
        Self::new_at(action, signing_chain, vault_address, expires_after, now_ms, hasher)
    }

    /// The hash that needs to be signed.
    pub fn signing_hash(&self) -> (h: [u8; 32])
        ensures
            h == self.signing_hash,
    {
        self.signing_hash
    }

    /// Signs the hash with a local secret key: succeeds exactly when the key signs it.
    pub fn sign(self, secret_key: &[u8; 32]) -> (r: Result<SignedAction<A>, Error>)
        ensures
            r is Ok <==> secp256k1_sign(secret_key@, self.signing_hash@) is Some,
            r matches Ok(s) ==> {
                &&& s.action == self.action
                &&& s.nonce == self.nonce
                &&& s.vault_address == self.vault_address
                &&& s.expires_after == self.expires_after
                &&& s.signing_chain == Some(self.signing_chain)
                &&& secp256k1_sign(secret_key@, self.signing_hash@) == Some(
                    (s.signature.r.value(), s.signature.s.value(), s.signature.y_parity),
                )
            },
            r matches Err(e) ==> e is SignatureFailure,
    {
        let signature = match sign_hash_with_secret(secret_key, &self.signing_hash) {
            Ok(sig) => sig,
            Err(e) => {
                return Err(Error::SignatureFailure(e));
            },
        };
        Ok(SignedAction {
            action: self.action,
            nonce: self.nonce,
            signature,
            vault_address: self.vault_address,
            expires_after: self.expires_after,
            signing_chain: Some(self.signing_chain),
        })
    }

    /// Attaches a signature made elsewhere.
    pub fn with_signature(self, signature: Signature) -> (s: SignedAction<A>)
        ensures
            s.action == self.action,
            s.nonce == self.nonce,
            s.vault_address == self.vault_address,
            s.expires_after == self.expires_after,
            s.signature == signature,
            s.signing_chain == Some(self.signing_chain),
    {
        SignedAction {
            action: self.action,
            nonce: self.nonce,
            signature,
            vault_address: self.vault_address,
            expires_after: self.expires_after,
            signing_chain: Some(self.signing_chain),
        }
    }
}

/// A signed action, ready to submit.
#[derive(Debug)]
pub struct SignedAction<T: Action> {
    pub action: T,
    pub nonce: u64,
    pub signature: Signature,
    pub vault_address: Option<Address>,
    pub expires_after: Option<u64>,
    pub signing_chain: Option<SigningChain>,
}

/// The exchange's signed-action envelope: the action object, the nonce, the signature,
/// and the vault address and expiry when there are any.
pub open spec fn envelope_json(
    action: Json,
    nonce: u64,
    sig: Signature,
    vault: Option<Address>,
    expires: Option<u64>,
) -> Json {
    let base = seq![
        ("action"@, action),
        ("nonce"@, Json::Number(JsonNumber::PosInt(nonce))),
        ("signature"@, sig_json(sig)),
    ];
    let with_vault = match vault {
        Some(a) => base.push(("vaultAddress"@, Json::Str(address_lower_hex(a)))),
        None => base,
    };
    Json::Object(
        match expires {
            Some(e) => with_vault.push(("expiresAfter"@, Json::Number(JsonNumber::PosInt(e)))),
            None => with_vault,
        },
    )
}

/// The envelope of a signed action whose action object builds from `payload`, or the
/// building error.
pub open spec fn signed_action_json_spec(
    meta: ActionMetaV,
    payload: Json,
    chain: Option<SigningChain>,
    nonce: u64,
    sig: Signature,
    vault: Option<Address>,
    expires: Option<u64>,
) -> Result<Json, Seq<char>> {
    match build_action_spec(meta, payload, chain) {
        Ok(a) => Ok(envelope_json(a, nonce, sig, vault, expires)),
        Err(e) => Err(e),
    }
}

impl<T: Action> SignedAction<T> {
    /// The signed action as the variant of [`ActionKind`] for its type.
    pub fn extract_action_kind(self) -> (k: ActionKind)
        ensures
            k == self.action.spec_kind(),
    {
        self.action.into_kind()
    }

    /// The exchange envelope of this signed action, given the action's serialized payload.
    pub fn to_json(&self, payload: JsonValue) -> (r: Result<JsonValue, String>)
        ensures
            result_json_view(r) == signed_action_json_spec(
                T::spec_meta(),
                payload@,
                self.signing_chain,
                self.nonce,
                self.signature,
                self.vault_address,
                self.expires_after,
            ),
    {
        let meta = T::meta();
        let action = match build_action_value(&meta, payload, self.signing_chain.as_ref()) {
            Ok(a) => a,
            Err(e) => {
                return Err(e);
            },
        };
        let ghost av = action@;
        let mut m: Vec<(String, JsonValue)> = Vec::new();
        m.push(("action".to_owned(), action));
        m.push(("nonce".to_owned(), JsonValue::Number(JsonNumber::PosInt(self.nonce))));
        m.push(("signature".to_owned(), serialize_sig(&self.signature)));
        match self.vault_address {
            Some(a) => {
                m.push(("vaultAddress".to_owned(), JsonValue::String(a.to_lower_hex())));
            },
            None => {},
        }
        match self.expires_after {
            Some(e) => {
                m.push(("expiresAfter".to_owned(), JsonValue::Number(JsonNumber::PosInt(e))));
            },
            None => {},
        }
        proof {
            crate::json::lemma_members_view_ext(
                m@,
                envelope_json(av, self.nonce, self.signature, self.vault_address, self.expires_after)->Object_0,
            );
        }
        Ok(JsonValue::Object(m))
    }
}

/// Hex text without a leading `"0x"` or `"0X"`.
pub open spec fn strip_hex_prefix_spec(t: Seq<char>) -> Seq<char> {
    if t.len() >= 2 && t[0] == '0' && (t[1] == 'x' || t[1] == 'X') {
        t.skip(2)
    } else {
        t
    }
}

/// Exactly `2 * n` hex digits of either case.
pub open spec fn is_hex_bytes_text(t: Seq<char>, n: nat) -> bool {
    t.len() == 2 * n && forall|i: int| 0 <= i < t.len() ==> is_hex_char(#[trigger] t[i])
}

/// The bytes that pairs of hex digits denote.
pub open spec fn decode_hex(t: Seq<char>) -> Seq<u8> {
    Seq::new(t.len() / 2, |i: int| (hex_char_value(t[2 * i]) * 16 + hex_char_value(t[2 * i + 1])) as u8)
}

/// Calls alloy's `FromHex::from_hex` for `Address` (const-hex's `decode_to_array`). Claimed,
/// as their source shows: an optional `"0x"`/`"0X"` prefix, then exactly 40 hex digits of
/// either case, decoded in pairs; anything else is refused.
#[verifier::external_body]
fn parse_address_hex(text: &str) -> (r: Option<Address>)
    ensures
        r matches Some(a) ==> is_hex_bytes_text(strip_hex_prefix_spec(text@), 20) && a.0@ == decode_hex(
            strip_hex_prefix_spec(text@),
        ),
        r is None ==> !is_hex_bytes_text(strip_hex_prefix_spec(text@), 20),
{
    match <alloy::primitives::Address as alloy::primitives::hex::FromHex>::from_hex(text) {
        Ok(a) => Some(Address(a.0.0)),
        Err(_) => None,
    }
}

/// The parts of a signed-action envelope read back: the action's payload, the nonce, the
/// signature, and the vault address and expiry.
pub struct SignedEnvelope {
    pub payload: JsonValue,
    pub nonce: u64,
    pub signature: Signature,
    pub vault_address: Option<Address>,
    pub expires_after: Option<u64>,
}

/// What reading an envelope gives, as plain values.
pub enum EnvelopeReading {
    Read { payload: Json, nonce: u64, sig: (nat, nat, bool), vault: Option<Seq<u8>>, expires: Option<u64> },
    Refused(Seq<char>),
    Unparsable,
}

/// An optional `u64` member: absent or `null` is none; otherwise it must be a non-negative
/// integer.
pub open spec fn read_opt_u64(v: Option<Json>) -> Option<Option<u64>> {
    match v {
        None => Some(None),
        Some(Json::Null) => Some(None),
        Some(Json::Number(JsonNumber::PosInt(u))) => Some(Some(u)),
        _ => None,
    }
}

/// A byte given as a JSON number.
pub open spec fn json_byte(v: Json) -> bool {
    v matches Json::Number(JsonNumber::PosInt(u)) && u < 256
}

/// An optional vault address member: absent or `null` is none; otherwise hex text (with or
/// without `0x`) or an array of 20 byte numbers, as alloy reads an address.
pub open spec fn read_vault(v: Option<Json>) -> Option<Option<Seq<u8>>> {
    match v {
        None => Some(None),
        Some(Json::Null) => Some(None),
        Some(Json::Str(t)) => if is_hex_bytes_text(strip_hex_prefix_spec(t), 20) {
            Some(Some(decode_hex(strip_hex_prefix_spec(t))))
        } else {
            None
        },
        Some(Json::Array(items)) => if items.len() == 20 && forall|i: int|
            0 <= i < 20 ==> json_byte(#[trigger] items[i]) {
            Some(Some(Seq::new(20, |i: int| items[i]->Number_0->PosInt_0 as u8)))
        } else {
            None
        },
        _ => None,
    }
}

/// Reads an optional vault address member.
fn read_vault_address(v: Option<&JsonValue>) -> (r: Option<Option<Address>>)
    ensures
        match read_vault(match v {
            Some(x) => Some(x@),
            None => None,
        }) {
            None => r is None,
            Some(None) => r == Some(None::<Address>),
            Some(Some(bytes)) => r matches Some(Some(a)) && a.0@ == bytes,
        },
{
    match v {
        None => Some(None),
        Some(JsonValue::Null) => Some(None),
        Some(JsonValue::String(t)) => match parse_address_hex(t.as_str()) {
            Some(a) => Some(Some(a)),
            None => None,
        },
        Some(JsonValue::Array(items)) => {
            proof {
                crate::json::lemma_json_seq_view(items@);
            }
            if items.len() != 20 {
                return None;
            }
            let mut bytes = [0u8; 20];
            let mut i: usize = 0;
            while i < 20
                invariant
                    v == Some(&JsonValue::Array(*items)),
                    items.len() == 20,
                    i <= 20,
                    crate::json::json_seq_view(items@).len() == 20,
                    forall|j: int| 0 <= j < 20 ==> #[trigger] crate::json::json_seq_view(items@)[j]
                        == crate::json::json_view(items@[j]),
                    forall|j: int| 0 <= j < i ==> json_byte(#[trigger] crate::json::json_seq_view(items@)[j]),
                    forall|j: int| 0 <= j < i ==> bytes@[j] == (crate::json::json_seq_view(items@)[j]->Number_0->PosInt_0 as u8),
                decreases 20 - i,
            {
                match &items[i] {
                    JsonValue::Number(JsonNumber::PosInt(u)) => {
                        if *u >= 256 {
                            assert(!json_byte(crate::json::json_seq_view(items@)[i as int]));
                            return None;
                        }
                        bytes[i] = *u as u8;
                    },
                    _ => {
                        assert(!json_byte(crate::json::json_seq_view(items@)[i as int]));
                        return None;
                    },
                }
                i = i + 1;
            }
            proof {
                assert(bytes@ =~= Seq::new(20, |j: int| crate::json::json_seq_view(items@)[j]->Number_0->PosInt_0 as u8));
            }
            Some(Some(Address(bytes)))
        },
        Some(_) => None,
    }
}

/// What reading the members of an envelope other than its action gives, as plain values.
pub enum FieldsReading {
    Read { nonce: u64, sig: (nat, nat, bool), vault: Option<Seq<u8>>, expires: Option<u64> },
    Refused(Seq<char>),
    Unparsable,
}

/// Reading the members of an envelope other than its action, once the action has been
/// read. Members are read in the order of their keys (`expiresAfter`, `nonce`,
/// `signature`, `vaultAddress`), the first failing one giving the error; then a missing
/// `action`, `nonce` or `signature` is refused, in that order. Other members are ignored.
pub open spec fn envelope_fields_spec(m: Seq<(Seq<char>, Json)>) -> FieldsReading {
    let action = obj_get(m, "action"@);
    let expires = obj_get(m, "expiresAfter"@);
    let nonce = obj_get(m, "nonce"@);
    let signature = obj_get(m, "signature"@);
    let vault = obj_get(m, "vaultAddress"@);
    if read_opt_u64(expires) is None {
        FieldsReading::Refused("invalid type for `expiresAfter`, expected u64"@)
    } else if nonce matches Some(n) && !(n matches Json::Number(JsonNumber::PosInt(_))) {
        FieldsReading::Refused("invalid type for `nonce`, expected u64"@)
    } else if signature matches Some(sj) && !(read_sig(sj) is Parsed) {
        match read_sig(signature->0) {
            SigReading::Refused(e) => FieldsReading::Refused(e),
            _ => FieldsReading::Unparsable,
        }
    } else if read_vault(vault) is None {
        FieldsReading::Refused("invalid value for `vaultAddress`, expected an address"@)
    } else if action is None {
        FieldsReading::Refused("missing field `action`"@)
    } else if nonce is None {
        FieldsReading::Refused("missing field `nonce`"@)
    } else if signature is None {
        FieldsReading::Refused("missing field `signature`"@)
    } else {
        FieldsReading::Read {
            nonce: nonce->0->Number_0->PosInt_0,
            sig: match read_sig(signature->0) {
                SigReading::Parsed(r, s, p) => (r, s, p),
                _ => (0, 0, false),
            },
            vault: read_vault(vault)->0,
            expires: read_opt_u64(expires)->0,
        }
    }
}

/// Reading an envelope for an action of kind `meta`: the action (when present) is read
/// first, its error coming before any other; then the other members are read.
pub open spec fn read_envelope_spec(meta: ActionMetaV, value: Json) -> EnvelopeReading {
    match value {
        Json::Object(m) => {
            let payload = match obj_get(m, "action"@) {
                Some(a) => Some(deserialize_action_spec(meta, a)),
                None => None,
            };
            if payload matches Some(Err(_)) {
                EnvelopeReading::Refused(payload->0->Err_0)
            } else {
                match envelope_fields_spec(m) {
                    FieldsReading::Read { nonce, sig, vault, expires } => EnvelopeReading::Read {
                        payload: payload->0->Ok_0,
                        nonce,
                        sig,
                        vault,
                        expires,
                    },
                    FieldsReading::Refused(e) => EnvelopeReading::Refused(e),
                    FieldsReading::Unparsable => EnvelopeReading::Unparsable,
                }
            }
        },
        _ => EnvelopeReading::Refused("invalid type for a signed action, expected an object"@),
    }
}

/// The members of an envelope other than its action, read back.
struct EnvelopeFields {
    nonce: u64,
    signature: Signature,
    vault_address: Option<Address>,
    expires_after: Option<u64>,
}

/// Reads the members of an envelope other than its action.
fn read_envelope_fields(m: &Vec<(String, JsonValue)>) -> (r: Result<EnvelopeFields, String>)
    ensures
        match envelope_fields_spec(members_view(m@)) {
            FieldsReading::Read { nonce, sig, vault, expires } => r matches Ok(f) && f.nonce == nonce
                && (f.signature.r.value(), f.signature.s.value(), f.signature.y_parity) == sig
                && f.expires_after == expires && match f.vault_address {
                Some(a) => vault == Some(a.0@),
                None => vault is None,
            },
            FieldsReading::Refused(msg) => r matches Err(e) && e@ == msg,
            FieldsReading::Unparsable => r is Err,
        },
{
    let expires_after = match get_member(m, "expiresAfter") {
        None => None,
        Some(JsonValue::Null) => None,
        Some(JsonValue::Number(JsonNumber::PosInt(u))) => Some(*u),
        Some(_) => {
            return Err("invalid type for `expiresAfter`, expected u64".to_owned());
        },
    };
    let nonce = match get_member(m, "nonce") {
        None => None,
        Some(JsonValue::Number(JsonNumber::PosInt(u))) => Some(*u),
        Some(_) => {
            return Err("invalid type for `nonce`, expected u64".to_owned());
        },
    };
    let signature = match get_member(m, "signature") {
        None => None,
        Some(sj) => match deserialize_sig(sj) {
            Ok(sig) => Some(sig),
            Err(e) => {
                return Err(e);
            },
        },
    };
    let vault_address = match read_vault_address(get_member(m, "vaultAddress")) {
        Some(v) => v,
        None => {
            return Err("invalid value for `vaultAddress`, expected an address".to_owned());
        },
    };
    if get_member(m, "action").is_none() {
        return Err("missing field `action`".to_owned());
    }
    let nonce = match nonce {
        Some(n) => n,
        None => {
            return Err("missing field `nonce`".to_owned());
        },
    };
    let signature = match signature {
        Some(s) => s,
        None => {
            return Err("missing field `signature`".to_owned());
        },
    };
    Ok(EnvelopeFields { nonce, signature, vault_address, expires_after })
}

/// Reads a signed-action envelope for an action of the kind `meta` describes.
pub fn read_envelope(meta: &ActionMeta, value: &JsonValue) -> (r: Result<SignedEnvelope, String>)
    ensures
        match read_envelope_spec(meta@, value@) {
            EnvelopeReading::Read { payload, nonce, sig, vault, expires } => r matches Ok(e) && e.payload@
                == payload && e.nonce == nonce && (e.signature.r.value(), e.signature.s.value(),
                e.signature.y_parity) == sig && e.expires_after == expires && match e.vault_address {
                Some(a) => vault == Some(a.0@),
                None => vault is None,
            },
            EnvelopeReading::Refused(msg) => r matches Err(e) && e@ == msg,
            EnvelopeReading::Unparsable => r is Err,
        },
{
    let m = match value {
        JsonValue::Object(m) => m,
        _ => {
            return Err("invalid type for a signed action, expected an object".to_owned());
        },
    };
    let payload = match get_member(m, "action") {
        Some(a) => match deserialize_action(meta, a) {
            Ok(p) => Some(p),
            Err(e) => {
                return Err(e);
            },
        },
        None => None,
    };
    let fields = match read_envelope_fields(m) {
        Ok(f) => f,
        Err(e) => {
            return Err(e);
        },
    };
    match payload {
        Some(payload) => Ok(SignedEnvelope {
            payload,
            nonce: fields.nonce,
            signature: fields.signature,
            vault_address: fields.vault_address,
            expires_after: fields.expires_after,
        }),
        None => {
            assert(false);
            Err("missing field `action`".to_owned())
        },
    }
}

/// A signed-action envelope read without knowing the action's type: the action as a kind
/// and its payload (or an unknown action), the nonce, the signature, and the vault address
/// and expiry.
#[derive(Debug)]
pub struct SignedKindEnvelope {
    pub action: ActionKindReading,
    pub nonce: u64,
    pub signature: Signature,
    pub vault_address: Option<Address>,
    pub expires_after: Option<u64>,
}

/// What reading an envelope without knowing the action's type gives, as plain values.
pub enum KindEnvelopeReading {
    Read { action: KindReadingV, nonce: u64, sig: (nat, nat, bool), vault: Option<Seq<u8>>, expires: Option<u64> },
    Refused(Seq<char>),
    Unparsable,
}

/// Reading an envelope whose action's type is known only at run time: as
/// [`read_envelope_spec`], with the action read by [`read_action_kind_spec`].
pub open spec fn read_signed_action_kind_spec(value: Json) -> KindEnvelopeReading {
    match value {
        Json::Object(m) => {
            let action = match obj_get(m, "action"@) {
                Some(a) => Some(read_action_kind_spec(a)),
                None => None,
            };
            if action matches Some(Err(_)) {
                KindEnvelopeReading::Refused(action->0->Err_0)
            } else {
                match envelope_fields_spec(m) {
                    FieldsReading::Read { nonce, sig, vault, expires } => KindEnvelopeReading::Read {
                        action: action->0->Ok_0,
                        nonce,
                        sig,
                        vault,
                        expires,
                    },
                    FieldsReading::Refused(e) => KindEnvelopeReading::Refused(e),
                    FieldsReading::Unparsable => KindEnvelopeReading::Unparsable,
                }
            }
        },
        _ => KindEnvelopeReading::Refused("invalid type for a signed action, expected an object"@),
    }
}

/// Reads a signed-action envelope whose action's type is known only at run time.
pub fn read_signed_action_kind(value: &JsonValue) -> (r: Result<SignedKindEnvelope, String>)
    ensures
        match read_signed_action_kind_spec(value@) {
            KindEnvelopeReading::Read { action, nonce, sig, vault, expires } => r matches Ok(e)
                && e.action.view() == action && e.nonce == nonce && (e.signature.r.value(),
                e.signature.s.value(), e.signature.y_parity) == sig && e.expires_after == expires
                && match e.vault_address {
                Some(a) => vault == Some(a.0@),
                None => vault is None,
            },
            KindEnvelopeReading::Refused(msg) => r matches Err(e) && e@ == msg,
            KindEnvelopeReading::Unparsable => r is Err,
        },
{
    let m = match value {
        JsonValue::Object(m) => m,
        _ => {
            return Err("invalid type for a signed action, expected an object".to_owned());
        },
    };
    let action = match get_member(m, "action") {
        Some(a) => match read_action_kind(a) {
            Ok(k) => Some(k),
            Err(e) => {
                return Err(e);
            },
        },
        None => None,
    };
    let fields = match read_envelope_fields(m) {
        Ok(f) => f,
        Err(e) => {
            return Err(e);
        },
    };
    match action {
        Some(action) => Ok(SignedKindEnvelope {
            action,
            nonce: fields.nonce,
            signature: fields.signature,
            vault_address: fields.vault_address,
            expires_after: fields.expires_after,
        }),
        None => {
            assert(false);
            Err("missing field `action`".to_owned())
        },
    }
}

/// Reading an envelope without knowing the action's type agrees with reading it as the
/// type found: the same nonce, signature, vault address and expiry, and the same payload.
pub proof fn lemma_kind_envelope_agrees(value: Json)
    ensures
        read_signed_action_kind_spec(value) matches KindEnvelopeReading::Read {
            action: KindReadingV::Known(k, p),
            nonce,
            sig,
            vault,
            expires,
        } ==> read_envelope_spec(type_meta(k), value) == (EnvelopeReading::Read {
            payload: p,
            nonce,
            sig,
            vault,
            expires,
        }),
{
    if let Json::Object(m) = value {
        if let Some(a) = obj_get(m, "action"@) {
            crate::actions::kind::lemma_kind_reading_agrees(a, ActionType::NoOp);
        }
    }
}

/// A signed action read back without knowing its type: the envelope of an action of type
/// `ty` reads back as that type, with the payload that reading it as `ty` extracts, and with
/// its nonce, signature, vault address and expiry unchanged (for a flattened payload, an
/// object with distinct keys and without a `"type"` member).
pub proof fn lemma_signed_action_kind_round_trip(
    ty: ActionType,
    payload: Json,
    chain: Option<SigningChain>,
    nonce: u64,
    sig: Signature,
    vault: Option<Address>,
    expires: Option<u64>,
)
    requires
        type_meta(ty).payload_key == type_meta(ty).action_type ==> (payload matches Json::Object(p)
            && keys_distinct(p) && !crate::json::obj_has(p, "type"@)),
        build_action_spec(type_meta(ty), payload, chain) is Ok,
    ensures
        read_signed_action_kind_spec(
            envelope_json(build_action_spec(type_meta(ty), payload, chain)->Ok_0, nonce, sig, vault, expires),
        ) matches KindEnvelopeReading::Read { action: KindReadingV::Known(k, p2), nonce: n2, sig: s2, vault: v2, expires: e2 } && {
            &&& k == ty
            &&& Ok::<Json, Seq<char>>(p2) == extract_payload_spec(
                type_meta(ty),
                build_action_spec(type_meta(ty), payload, chain)->Ok_0->Object_0,
            )
            &&& n2 == nonce
            &&& s2 == (sig.r.value(), sig.s.value(), sig.y_parity)
            &&& v2 == match vault {
                Some(a) => Some(a.0@),
                None => None::<Seq<u8>>,
            }
            &&& e2 == expires
        },
{
    let meta = type_meta(ty);
    crate::actions::kind_laws::lemma_built_action_kind(ty, payload, chain);
    lemma_envelope_round_trip(meta, payload, chain, nonce, sig, vault, expires);
    lemma_envelope_keys_distinct();
    let a = build_action_spec(meta, payload, chain)->Ok_0;
    let m = envelope_json(a, nonce, sig, vault, expires)->Object_0;
    assert(keys_distinct(m));
    lemma_obj_get_at(m, 0);
    assert(m[0].0 == "action"@);
}

/// In an object with distinct keys, each member's key finds that member.
pub proof fn lemma_obj_get_at(m: Seq<(Seq<char>, Json)>, i: int)
    requires
        keys_distinct(m),
        0 <= i < m.len(),
    ensures
        obj_get(m, m[i].0) == Some(m[i].1),
{
    lemma_obj_find(m, m[i].0);
    if let Some(j) = obj_find(m, m[i].0) {
        if j < i {
            assert(m[j].0 != m[i].0);
        } else if j > i {
            assert(m[i].0 != m[i].0);
        }
    }
}

/// A key that no member has finds nothing.
pub proof fn lemma_obj_get_absent(m: Seq<(Seq<char>, Json)>, k: Seq<char>)
    requires
        forall|i: int| 0 <= i < m.len() ==> #[trigger] m[i].0 != k,
    ensures
        obj_get(m, k) is None,
{
    lemma_obj_find(m, k);
}

/// Hex text of bytes decodes to the bytes.
pub proof fn lemma_decode_hex_of_bytes(b: Seq<u8>)
    ensures
        is_hex_bytes_text(hex_of_bytes(b), b.len()),
        decode_hex(hex_of_bytes(b)) == b,
    decreases b.len(),
{
    let h = hex_of_bytes(b);
    if b.len() > 0 {
        let b0 = b.drop_last();
        lemma_decode_hex_of_bytes(b0);
        let h0 = hex_of_bytes(b0);
        let x = b.last();
        lemma_hex_digit_value(x as int / 16);
        lemma_hex_digit_value(x as int % 16);
        assert(h =~= h0 + seq![hex_digit(x as int / 16), hex_digit(x as int % 16)]);
        assert forall|i: int| 0 <= i < h.len() implies is_hex_char(#[trigger] h[i]) by {
            if i < h0.len() {
                assert(h[i] == h0[i]);
            }
        }
        assert forall|i: int| 0 <= i < b.len() implies #[trigger] decode_hex(h)[i] == b[i] by {
            if i < b0.len() {
                assert(h[2 * i] == h0[2 * i]);
                assert(h[2 * i + 1] == h0[2 * i + 1]);
                assert(decode_hex(h0)[i] == b0[i]);
            } else {
                assert(h[2 * i] == hex_digit(x as int / 16));
                assert(h[2 * i + 1] == hex_digit(x as int % 16));
            }
        }
        assert(decode_hex(h) =~= b);
    } else {
        assert(decode_hex(h) =~= b);
    }
}

/// The envelope member names are pairwise different.
proof fn lemma_envelope_keys_distinct()
    ensures
        "action"@ != "nonce"@,
        "action"@ != "signature"@,
        "action"@ != "vaultAddress"@,
        "action"@ != "expiresAfter"@,
        "nonce"@ != "signature"@,
        "nonce"@ != "vaultAddress"@,
        "nonce"@ != "expiresAfter"@,
        "signature"@ != "vaultAddress"@,
        "signature"@ != "expiresAfter"@,
        "vaultAddress"@ != "expiresAfter"@,
{
    reveal_strlit("action");
    reveal_strlit("nonce");
    reveal_strlit("signature");
    reveal_strlit("vaultAddress");
    reveal_strlit("expiresAfter");
    assert("action"@.len() == 6);
    assert("nonce"@.len() == 5);
    assert("signature"@.len() == 9);
    assert("vaultAddress"@.len() == 12);
    assert("expiresAfter"@.len() == 12);
    assert("vaultAddress"@[0] != "expiresAfter"@[0]);
}

/// Reading back the envelope of a signed action gives its nonce, signature, vault address
/// and expiry unchanged, and the payload the exchange reads from its action object (which
/// the action round-trip laws relate to the payload it was built from). This holds for
/// every action whose payload key is not `"type"` and whose built action object names its
/// type, as `lemma_built_action_names_type` states.
pub proof fn lemma_envelope_round_trip(
    meta: ActionMetaV,
    payload: Json,
    chain: Option<SigningChain>,
    nonce: u64,
    sig: Signature,
    vault: Option<Address>,
    expires: Option<u64>,
)
    requires
        meta.payload_key != "type"@,
        meta.payload_key == meta.action_type ==> (payload matches Json::Object(p) && keys_distinct(p)
            && !crate::json::obj_has(p, "type"@)),
        build_action_spec(meta, payload, chain) is Ok,
    ensures
        read_envelope_spec(
            meta,
            envelope_json(build_action_spec(meta, payload, chain)->Ok_0, nonce, sig, vault, expires),
        ) matches EnvelopeReading::Read { payload: p2, nonce: n2, sig: s2, vault: v2, expires: e2 } && {
            &&& Ok::<Json, Seq<char>>(p2) == extract_payload_spec(
                meta,
                build_action_spec(meta, payload, chain)->Ok_0->Object_0,
            )
            &&& n2 == nonce
            &&& s2 == (sig.r.value(), sig.s.value(), sig.y_parity)
            &&& v2 == match vault {
                Some(a) => Some(a.0@),
                None => None::<Seq<u8>>,
            }
            &&& e2 == expires
        },
{
    lemma_envelope_keys_distinct();
    lemma_built_action_names_type(meta, payload, chain);
    lemma_signature_round_trip(sig);
    let a = build_action_spec(meta, payload, chain)->Ok_0;
    let env = envelope_json(a, nonce, sig, vault, expires);
    let m = env->Object_0;
    assert(keys_distinct(m));
    lemma_obj_get_at(m, 0);
    lemma_obj_get_at(m, 1);
    lemma_obj_get_at(m, 2);
    assert(m[0].0 == "action"@ && m[1].0 == "nonce"@ && m[2].0 == "signature"@);
    match vault {
        Some(v) => {
            lemma_obj_get_at(m, 3);
            assert(m[3].0 == "vaultAddress"@);
            reveal_strlit("0x");
            crate::primitives::lemma_hex_of_bytes_len(v.0@);
            lemma_decode_hex_of_bytes(v.0@);
            assert(strip_hex_prefix_spec(address_lower_hex(v)) =~= hex_of_bytes(v.0@));
        },
        None => {
            lemma_obj_get_absent(m, "vaultAddress"@);
        },
    }
    match expires {
        Some(e) => {
            lemma_obj_get_at(m, m.len() - 1);
            assert(m[m.len() - 1].0 == "expiresAfter"@);
        },
        None => {
            lemma_obj_get_absent(m, "expiresAfter"@);
        },
    }
    assert(obj_get(m, "action"@) == Some(a));
    assert(obj_get(m, "nonce"@) == Some(Json::Number(JsonNumber::PosInt(nonce))));
    assert(obj_get(m, "signature"@) == Some(sig_json(sig)));
    assert(crate::wire::action_type_spec(a->Object_0) == Ok::<Seq<char>, Seq<char>>(meta.action_type));
    assert(deserialize_action_spec(meta, a) == extract_payload_spec(meta, a->Object_0));
    assert(read_opt_u64(obj_get(m, "expiresAfter"@)) == Some(expires));
    assert(read_sig(sig_json(sig)) is Parsed);
    if meta.payload_key != meta.action_type {
        let base = seq![("type"@, Json::Str(meta.action_type))];
        let prepared = if meta.user_signed {
            Json::Object(crate::wire::with_chain_fields(payload->Object_0, meta.uses_time, chain->0))
        } else {
            payload
        };
        crate::json::lemma_obj_get_insert(base, meta.payload_key, prepared, meta.payload_key);
    }
    assert(extract_payload_spec(meta, a->Object_0) is Ok);
    if let Some(v) = vault {
        assert(v.0@.len() == 20);
        assert(obj_get(m, "vaultAddress"@) == Some(Json::Str(address_lower_hex(v))));
        assert(is_hex_bytes_text(strip_hex_prefix_spec(address_lower_hex(v)), 20));
    }
}

} // verus!
