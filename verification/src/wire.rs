//! The exchange wire format of actions: building the `"action"` object from an action's
//! payload, and reading the payload back out of it.
use vstd::prelude::*;
use crate::actions::{ActionMeta, ActionMetaV};
use crate::json::{remove_member, 
    Json, JsonValue, find_member, get_member, insert_member, keys_distinct, lemma_obj_find,
    lemma_obj_get_insert, lemma_obj_get_remove, members_view, obj_find, obj_get, obj_has,
    obj_insert, obj_remove, lemma_members_view,
};
use crate::primitives::{hex_digit, hex_digit_exec};
use crate::text::push_char;

verus! {

/// The chain whose signature conventions an action is signed under.
#[derive(Clone, Copy, Debug, PartialEq, Eq, Structural)]
pub enum SigningChain {
    Mainnet,
    Testnet,
}

/// The EIP-712 chain id written as `signatureChainId` for user-signed actions.
pub open spec fn chain_id(c: SigningChain) -> nat {
    match c {
        SigningChain::Mainnet => 0xa4b1,
        SigningChain::Testnet => 0x66eee,
    }
}

/// The chain name written as `hyperliquidChain` for user-signed actions.
pub open spec fn chain_name(c: SigningChain) -> Seq<char> {
    match c {
        SigningChain::Mainnet => "Mainnet"@,
        SigningChain::Testnet => "Testnet"@,
    }
}

impl SigningChain {
    pub fn get_signature_chain_id(&self) -> (id: u64)
        ensures
            id == chain_id(*self),
    {
        match self {
            SigningChain::Mainnet => 0xa4b1,
            SigningChain::Testnet => 0x66eee,
        }
    }

    pub fn get_hyperliquid_chain(&self) -> (name: String)
        ensures
            name@ == chain_name(*self),
    {
        match self {
            SigningChain::Mainnet => "Mainnet".to_owned(),
            SigningChain::Testnet => "Testnet".to_owned(),
        }
    }
}

/// The lowercase hex digits of a number, without leading zeros (`"0"` for zero).
pub open spec fn nat_hex(n: nat) -> Seq<char>
    decreases n,
{
    if n < 16 {
        seq![hex_digit(n as int)]
    } else {
        nat_hex(n / 16).push(hex_digit((n % 16) as int))
    }
}

/// Appends the lowercase hex digits of `n`.
pub fn push_u64_hex(out: &mut String, n: u64)
    ensures
        final(out)@ == old(out)@ + nat_hex(n as nat),
    decreases n,
{
    if n >= 16 {
        push_u64_hex(out, n / 16);
    }
    push_char(out, hex_digit_exec((n % 16) as u8));
    proof {
        assert(old(out)@ + nat_hex(n as nat) =~= (if n >= 16 {
            old(out)@ + nat_hex((n / 16) as nat)
        } else {
            old(out)@
        }).push(hex_digit((n % 16) as int)));
    }
}

/// The member fields a user-signed payload gets: the chain id and name, and, for an action
/// that sends its nonce as `time`, the nonce renamed to `time` (unless `time` is there).
pub open spec fn with_chain_fields(m: Seq<(Seq<char>, Json)>, uses_time: bool, chain: SigningChain) -> Seq<(Seq<char>, Json)> {
    let m1 = obj_insert(m, "signatureChainId"@, Json::Str(seq!['0', 'x'] + nat_hex(chain_id(chain))));
    let m2 = obj_insert(m1, "hyperliquidChain"@, Json::Str(chain_name(chain)));
    if uses_time && obj_has(m2, "nonce"@) && !obj_has(m2, "time"@) {
        obj_insert(obj_remove(m2, "nonce"@), "time"@, obj_get(m2, "nonce"@)->0)
    } else {
        m2
    }
}

/// Sets each member of `m` in turn on `acc`.
pub open spec fn obj_extend(acc: Seq<(Seq<char>, Json)>, m: Seq<(Seq<char>, Json)>) -> Seq<(Seq<char>, Json)>
    decreases m.len(),
{
    if m.len() == 0 {
        acc
    } else {
        obj_insert(obj_extend(acc, m.drop_last()), m.last().0, m.last().1)
    }
}

pub open spec fn deref_chain(c: Option<&SigningChain>) -> Option<SigningChain> {
    match c {
        Some(x) => Some(*x),
        None => None,
    }
}

/// The `"action"` object for an action with metadata `meta` and serialized payload
/// `payload`: a `"type"` member, then the payload, flattened next to it when the payload
/// key is the action type and nested under the payload key otherwise. A user-signed payload
/// first gets its chain fields, which needs a signing chain and an object payload.
pub open spec fn build_action_spec(meta: ActionMetaV, payload: Json, chain: Option<SigningChain>) -> Result<Json, Seq<char>> {
    let prepared: Result<Json, Seq<char>> = if meta.user_signed {
        match chain {
            None => Err("signing_chain must be set for user-signed actions"@),
            Some(c) => match payload {
                Json::Object(m) => Ok(Json::Object(with_chain_fields(m, meta.uses_time, c))),
                _ => Err("action payload must be object"@),
            },
        }
    } else {
        Ok(payload)
    };
    match prepared {
        Err(e) => Err(e),
        Ok(p) => {
            let base = seq![("type"@, Json::Str(meta.action_type))];
            if meta.payload_key == meta.action_type {
                match p {
                    Json::Object(m) => Ok(Json::Object(obj_extend(base, m))),
                    _ => Err("action payload must be object"@),
                }
            } else {
                Ok(Json::Object(obj_insert(base, meta.payload_key, p)))
            }
        }
    }
}

pub open spec fn result_json_view(r: Result<JsonValue, String>) -> Result<Json, Seq<char>> {
    match r {
        Ok(v) => Ok(v@),
        Err(e) => Err(e@),
    }
}

fn add_chain_fields(m: &mut Vec<(String, JsonValue)>, uses_time: bool, chain: SigningChain)
    ensures
        members_view(final(m)@) == with_chain_fields(members_view(old(m)@), uses_time, chain),
{
    let mut id = "0x".to_owned();
    push_u64_hex(&mut id, chain.get_signature_chain_id());
    proof {
        reveal_strlit("0x");
        assert(id@ =~= seq!['0', 'x'] + nat_hex(chain_id(chain)));
    }
    insert_member(m, "signatureChainId".to_owned(), JsonValue::String(id));
    insert_member(m, "hyperliquidChain".to_owned(), JsonValue::String(chain.get_hyperliquid_chain()));
    if uses_time {
        let has_nonce = find_member(m, "nonce").is_some();
        let has_time = find_member(m, "time").is_some();
        if has_nonce && !has_time {
            proof {
                lemma_obj_find(members_view(m@), "nonce"@);
            }
            let removed = remove_member(m, "nonce");
            match removed {
                Some(v) => {
                    insert_member(m, "time".to_owned(), v);
                },
                None => {},
            }
        }
    }
}

/// Builds the `"action"` object of an action from its metadata and serialized payload.
pub fn build_action_value(meta: &ActionMeta, payload: JsonValue, signing_chain: Option<&SigningChain>) -> (r: Result<JsonValue, String>)
    ensures
        result_json_view(r) == build_action_spec(meta@, payload@, deref_chain(signing_chain)),
{
    let mut payload = payload;
    if meta.user_signed {
        let chain = match signing_chain {
            Some(c) => *c,
            None => {
                return Err("signing_chain must be set for user-signed actions".to_owned());
            },
        };
        let mut m = match payload {
            JsonValue::Object(m) => m,
            _ => {
                return Err("action payload must be object".to_owned());
            },
        };
        add_chain_fields(&mut m, meta.uses_time, chain);
        payload = JsonValue::Object(m);
    }
    let mut action_obj: Vec<(String, JsonValue)> = Vec::new();
    insert_member(&mut action_obj, "type".to_owned(), JsonValue::String(meta.action_type.clone()));
    proof {
        assert(members_view(action_obj@) =~= seq![("type"@, Json::Str(meta@.action_type))]);
    }
    if meta.payload_key == meta.action_type {
        match payload {
            JsonValue::Object(m) => {
                let ghost base = members_view(action_obj@);
                let ghost src = m@;
                proof {
                    lemma_members_view(src);
                }
                for e in it: m
                    invariant
                        it.seq() == src,
                        members_view(src).len() == src.len(),
                        forall|j: int| 0 <= j < src.len() ==> #[trigger] members_view(src)[j] == (src[j].0@, crate::json::json_view(src[j].1)),
                        members_view(action_obj@) == obj_extend(base, members_view(src).subrange(0, it.index() as int)),
                {
                    let ghost i = it.index();
                    let (k, v) = e;
                    proof {
                        let s1 = members_view(src).subrange(0, i + 1);
                        assert(s1.drop_last() =~= members_view(src).subrange(0, i as int));
                        assert(s1.last() == members_view(src)[i as int]);
                    }
                    insert_member(&mut action_obj, k, v);
                }
                proof {
                    assert(members_view(src).subrange(0, src.len() as int) =~= members_view(src));
                }
                Ok(JsonValue::Object(action_obj))
            },
            _ => Err("action payload must be object".to_owned()),
        }
    } else {
        insert_member(&mut action_obj, meta.payload_key.clone(), payload);
        Ok(JsonValue::Object(action_obj))
    }
}

/// For an action that sends its nonce as `time`: a `time` member without a `nonce` member
/// is also made the nonce.
pub open spec fn time_as_nonce(m: Seq<(Seq<char>, Json)>, uses_time: bool) -> Seq<(Seq<char>, Json)> {
    if uses_time && obj_has(m, "time"@) && !obj_has(m, "nonce"@) {
        obj_insert(m, "nonce"@, obj_get(m, "time"@)->0)
    } else {
        m
    }
}

/// The payload of an action read from the members of its `"action"` object: the members
/// but `"type"` when the payload is flattened, the member under the payload key otherwise.
/// A user-signed payload must be an object, and gets its `time` back as the nonce.
pub open spec fn extract_payload_spec(meta: ActionMetaV, obj: Seq<(Seq<char>, Json)>) -> Result<Json, Seq<char>> {
    if meta.payload_key == meta.action_type {
        let m = obj_remove(obj, "type"@);
        Ok(Json::Object(if meta.user_signed { time_as_nonce(m, meta.uses_time) } else { m }))
    } else {
        match obj_get(obj, meta.payload_key) {
            None => Err("missing action payload"@),
            Some(p) => if meta.user_signed {
                match p {
                    Json::Object(m) => Ok(Json::Object(time_as_nonce(m, meta.uses_time))),
                    _ => Err("action payload must be object"@),
                }
            } else {
                Ok(p)
            },
        }
    }
}

/// A copy of a member list.
pub fn duplicate_members(members: &Vec<(String, JsonValue)>) -> (r: Vec<(String, JsonValue)>)
    ensures
        members_view(r@) == members_view(members@),
{
    let mut out: Vec<(String, JsonValue)> = Vec::new();
    let mut i: usize = 0;
    proof {
        lemma_members_view(members@);
    }
    while i < members.len()
        invariant
            i <= members.len(),
            members_view(out@) == members_view(members@).subrange(0, i as int),
            members_view(members@).len() == members.len(),
            forall|j: int| 0 <= j < members.len() ==> #[trigger] members_view(members@)[j] == (members@[j].0@, crate::json::json_view(members@[j].1)),
        decreases members.len() - i,
    {
        let c = members[i].1.duplicate();
        let k = members[i].0.clone();
        let ghost before = out@;
        out.push((k, c));
        proof {
            assert(out@.drop_last() =~= before);
            assert(members_view(out@) =~= members_view(members@).subrange(0, i + 1));
        }
        i = i + 1;
    }
    proof {
        assert(members_view(members@).subrange(0, i as int) =~= members_view(members@));
    }
    out
}

fn copy_time_to_nonce(m: &mut Vec<(String, JsonValue)>, uses_time: bool)
    ensures
        members_view(final(m)@) == time_as_nonce(members_view(old(m)@), uses_time),
{
    if uses_time {
        let has_time = find_member(m, "time").is_some();
        let has_nonce = find_member(m, "nonce").is_some();
        if has_time && !has_nonce {
            let t = match get_member(m, "time") {
                Some(v) => Some(v.duplicate()),
                None => None,
            };
            match t {
                Some(v) => {
                    insert_member(m, "nonce".to_owned(), v);
                },
                None => {},
            }
        }
    }
}

/// Reads the payload of an action out of the members of its `"action"` object.
pub fn extract_action_payload_for(meta: &ActionMeta, obj: &Vec<(String, JsonValue)>) -> (r: Result<JsonValue, String>)
    ensures
        result_json_view(r) == extract_payload_spec(meta@, members_view(obj@)),
{
    if meta.payload_key == meta.action_type {
        let mut payload = duplicate_members(obj);
        let _ = remove_member(&mut payload, "type");
        if meta.user_signed {
            copy_time_to_nonce(&mut payload, meta.uses_time);
        }
        Ok(JsonValue::Object(payload))
    } else {
        let payload = match get_member(obj, meta.payload_key.as_str()) {
            Some(p) => p,
            None => {
                return Err("missing action payload".to_owned());
            },
        };
        if meta.user_signed {
            match payload {
                JsonValue::Object(m) => {
                    let mut m2 = duplicate_members(m);
                    copy_time_to_nonce(&mut m2, meta.uses_time);
                    Ok(JsonValue::Object(m2))
                },
                _ => Err("action payload must be object".to_owned()),
            }
        } else {
            Ok(payload.duplicate())
        }
    }
}

/// The action type named by the `"type"` member, which must be a string.
pub open spec fn action_type_spec(obj: Seq<(Seq<char>, Json)>) -> Result<Seq<char>, Seq<char>> {
    match obj_get(obj, "type"@) {
        Some(Json::Str(t)) => Ok(t),
        _ => Err("missing action type"@),
    }
}

/// Reads the action type from the members of an `"action"` object.
pub fn action_type_from_obj(obj: &Vec<(String, JsonValue)>) -> (r: Result<&str, String>)
    ensures
        match r {
            Ok(t) => action_type_spec(members_view(obj@)) == Ok::<Seq<char>, Seq<char>>(t@),
            Err(e) => action_type_spec(members_view(obj@)) == Err::<Seq<char>, Seq<char>>(e@),
        },
{
    match get_member(obj, "type") {
        Some(JsonValue::String(t)) => Ok(t.as_str()),
        _ => Err("missing action type".to_owned()),
    }
}

/// Reading an `"action"` value for an action with metadata `meta`: it must be an object
/// whose type is the action's type; then its payload is extracted.
pub open spec fn deserialize_action_spec(meta: ActionMetaV, value: Json) -> Result<Json, Seq<char>> {
    match value {
        Json::Object(obj) => match action_type_spec(obj) {
            Err(e) => Err(e),
            Ok(t) => if t != meta.action_type {
                Err("invalid action type: "@ + t)
            } else {
                extract_payload_spec(meta, obj)
            },
        },
        _ => Err("action must be object"@),
    }
}

/// Reads the payload of an action of the kind `meta` describes from an `"action"` value.
pub fn deserialize_action(meta: &ActionMeta, value: &JsonValue) -> (r: Result<JsonValue, String>)
    ensures
        result_json_view(r) == deserialize_action_spec(meta@, value@),
{
    let obj = match value {
        JsonValue::Object(obj) => obj,
        _ => {
            return Err("action must be object".to_owned());
        },
    };
    let t = match action_type_from_obj(obj) {
        Ok(t) => t,
        Err(e) => {
            return Err(e);
        },
    };
    let t_owned = t.to_owned();
    if t_owned != meta.action_type {
        let mut msg = "invalid action type: ".to_owned();
        msg.append(t);
        return Err(msg);
    }
    extract_action_payload_for(meta, obj)
}

/// An object with a single member finds exactly that member's key, at index 0.
pub proof fn lemma_obj_find_single(key: Seq<char>, v: Json, k: Seq<char>)
    ensures
        obj_find(seq![(key, v)], k) == if k == key {
            Some(0int)
        } else {
            None
        },
{
    let s = seq![(key, v)];
    assert(s.len() == 1);
    assert(s.last() == (key, v));
    assert(s.drop_last() =~= Seq::<(Seq<char>, Json)>::empty());
    assert(obj_find(s.drop_last(), k) is None);
}

/// Reading a key after setting the members of `m` in turn, when `m`'s keys are distinct:
/// the key's value in `m` if it has one, its value in `acc` otherwise.
pub proof fn lemma_obj_get_extend(acc: Seq<(Seq<char>, Json)>, m: Seq<(Seq<char>, Json)>, k: Seq<char>)
    requires
        keys_distinct(m),
    ensures
        obj_get(obj_extend(acc, m), k) == if obj_has(m, k) {
            obj_get(m, k)
        } else {
            obj_get(acc, k)
        },
        keys_distinct(acc) ==> keys_distinct(obj_extend(acc, m)),
    decreases m.len(),
{
    if m.len() > 0 {
        let m0 = m.drop_last();
        assert(keys_distinct(m0)) by {
            assert forall|i: int, j: int| 0 <= i < j < m0.len() implies #[trigger] m0[i].0
                != #[trigger] m0[j].0 by {
                assert(m0[i] == m[i] && m0[j] == m[j]);
            }
        }
        lemma_obj_get_extend(acc, m0, k);
        lemma_obj_get_insert(obj_extend(acc, m0), m.last().0, m.last().1, k);
        lemma_obj_find(m0, k);
        lemma_obj_find(m, k);
        if k == m.last().0 {
            if obj_has(m0, k) {
                let i = obj_find(m0, k)->0;
                assert(m[i].0 == m0[i].0);
            }
        }
    }
}

/// Setting members whose keys are distinct and new appends them.
pub proof fn lemma_obj_extend_fresh(acc: Seq<(Seq<char>, Json)>, m: Seq<(Seq<char>, Json)>)
    requires
        keys_distinct(m),
        forall|i: int| 0 <= i < m.len() ==> !obj_has(acc, #[trigger] m[i].0),
    ensures
        obj_extend(acc, m) == acc + m,
    decreases m.len(),
{
    if m.len() > 0 {
        let m0 = m.drop_last();
        let x = m.last();
        assert forall|i: int| 0 <= i < m0.len() implies !obj_has(acc, #[trigger] m0[i].0) by {
            assert(m0[i] == m[i]);
        }
        assert(keys_distinct(m0)) by {
            assert forall|i: int, j: int| 0 <= i < j < m0.len() implies #[trigger] m0[i].0
                != #[trigger] m0[j].0 by {
                assert(m0[i] == m[i] && m0[j] == m[j]);
            }
        }
        lemma_obj_extend_fresh(acc, m0);
        assert(!obj_has(acc, m[m.len() - 1].0));
        lemma_obj_find(acc, x.0);
        lemma_obj_find(acc + m0, x.0);
        if obj_has(acc + m0, x.0) {
            let i = obj_find(acc + m0, x.0)->0;
            if i < acc.len() {
                assert((acc + m0)[i] == acc[i]);
            } else {
                assert((acc + m0)[i] == m0[i - acc.len()]);
                assert(m[i - acc.len()] == m0[i - acc.len()]);
            }
        }
        assert(acc + m0.push(x) =~= acc + m);
        assert(m0.push(x) =~= m);
        assert((acc + m0).push(x) =~= acc + m);
    }
}

/// The member names the wire format adds or renames are pairwise different.
proof fn lemma_wire_keys_distinct()
    ensures
        "nonce"@ != "signatureChainId"@,
        "nonce"@ != "hyperliquidChain"@,
        "nonce"@ != "time"@,
        "nonce"@ != "type"@,
        "time"@ != "signatureChainId"@,
        "time"@ != "hyperliquidChain"@,
        "time"@ != "type"@,
        "type"@ != "signatureChainId"@,
        "type"@ != "hyperliquidChain"@,
        "signatureChainId"@ != "hyperliquidChain"@,
{
    reveal_strlit("signatureChainId");
    reveal_strlit("hyperliquidChain");
    reveal_strlit("time");
    reveal_strlit("nonce");
    reveal_strlit("type");
    assert("nonce"@.len() == 5);
    assert("time"@.len() == 4);
    assert("type"@.len() == 4);
    assert("signatureChainId"@.len() == 16);
    assert("hyperliquidChain"@.len() == 16);
    assert("time"@[1] != "type"@[1]);
    assert("signatureChainId"@[0] != "hyperliquidChain"@[0]);
}

/// What the chain fields leave of a payload: the keys it gets are the chain id and name;
/// for an action that sends its nonce as `time`, a `nonce` without a `time` member is moved
/// to `time`, and otherwise every other key keeps its value.
pub proof fn lemma_with_chain_fields(p: Seq<(Seq<char>, Json)>, uses_time: bool, c: SigningChain, k: Seq<char>)
    requires
        keys_distinct(p),
    ensures
        keys_distinct(with_chain_fields(p, uses_time, c)),
        k != "signatureChainId"@ && k != "hyperliquidChain"@ && k != "time"@ && k != "nonce"@
            ==> obj_get(with_chain_fields(p, uses_time, c), k) == obj_get(p, k),
        !(uses_time && obj_has(p, "nonce"@) && !obj_has(p, "time"@)) && k != "signatureChainId"@
            && k != "hyperliquidChain"@ ==> obj_get(with_chain_fields(p, uses_time, c), k) == obj_get(p, k),
        uses_time && !obj_has(p, "time"@) ==> obj_get(with_chain_fields(p, uses_time, c), "time"@)
            == obj_get(p, "nonce"@),
        uses_time && !obj_has(p, "time"@) ==> !obj_has(with_chain_fields(p, uses_time, c), "nonce"@),
{
    lemma_wire_keys_distinct();
    let m1 = obj_insert(p, "signatureChainId"@, Json::Str(seq!['0', 'x'] + nat_hex(chain_id(c))));
    let m2 = obj_insert(m1, "hyperliquidChain"@, Json::Str(chain_name(c)));
    lemma_obj_get_insert(p, "signatureChainId"@, Json::Str(seq!['0', 'x'] + nat_hex(chain_id(c))), k);
    lemma_obj_get_insert(m1, "hyperliquidChain"@, Json::Str(chain_name(c)), k);
    lemma_obj_get_insert(p, "signatureChainId"@, Json::Str(seq!['0', 'x'] + nat_hex(chain_id(c))), "time"@);
    lemma_obj_get_insert(m1, "hyperliquidChain"@, Json::Str(chain_name(c)), "time"@);
    lemma_obj_get_insert(p, "signatureChainId"@, Json::Str(seq!['0', 'x'] + nat_hex(chain_id(c))), "nonce"@);
    lemma_obj_get_insert(m1, "hyperliquidChain"@, Json::Str(chain_name(c)), "nonce"@);
    lemma_obj_find(p, "nonce"@);
    lemma_obj_find(p, "time"@);
    lemma_obj_find(m2, "nonce"@);
    lemma_obj_find(m2, "time"@);
    assert(keys_distinct(m2));
    assert(obj_get(m2, "nonce"@) == obj_get(p, "nonce"@));
    assert(obj_get(m2, "time"@) == obj_get(p, "time"@));
    if uses_time && obj_has(m2, "nonce"@) && !obj_has(m2, "time"@) {
        let v = obj_get(m2, "nonce"@)->0;
        let m3 = obj_remove(m2, "nonce"@);
        lemma_obj_get_remove(m2, "nonce"@, k);
        lemma_obj_get_remove(m2, "nonce"@, "time"@);
        lemma_obj_get_remove(m2, "nonce"@, "nonce"@);
        lemma_obj_get_insert(m3, "time"@, v, k);
        lemma_obj_get_insert(m3, "time"@, v, "time"@);
        lemma_obj_get_insert(m3, "time"@, v, "nonce"@);
        assert(with_chain_fields(p, uses_time, c) == obj_insert(m3, "time"@, v));
        assert(obj_get(obj_insert(m3, "time"@, v), "nonce"@) is None);
    } else {
        assert(with_chain_fields(p, uses_time, c) == m2);
    }
}

/// For a flattened user-signed action that sends its nonce as `time`, the built action
/// object carries the payload's nonce as its `time` member and has no `nonce` member.
pub proof fn lemma_nonce_travels_as_time(meta: ActionMetaV, p: Seq<(Seq<char>, Json)>, chain: SigningChain)
    requires
        meta.user_signed,
        meta.uses_time,
        meta.payload_key == meta.action_type,
        keys_distinct(p),
        obj_has(p, "nonce"@),
        !obj_has(p, "time"@),
    ensures
        build_action_spec(meta, Json::Object(p), Some(chain)) matches Ok(Json::Object(m)) && obj_get(
            m,
            "time"@,
        ) == obj_get(p, "nonce"@) && obj_get(p, "nonce"@) is Some && !obj_has(m, "nonce"@),
{
    lemma_wire_keys_distinct();
    lemma_obj_find(p, "nonce"@);
    let base = seq![("type"@, Json::Str(meta.action_type))];
    let mb = with_chain_fields(p, meta.uses_time, chain);
    lemma_with_chain_fields(p, meta.uses_time, chain, "time"@);
    lemma_obj_get_extend(base, mb, "time"@);
    lemma_obj_get_extend(base, mb, "nonce"@);
    lemma_obj_find(mb, "time"@);
    lemma_obj_find(mb, "nonce"@);
    lemma_obj_find_single("type"@, Json::Str(meta.action_type), "nonce"@);
    let m = obj_extend(base, mb);
    lemma_obj_find(m, "nonce"@);
}

/// For a flattened user-signed action that sends its nonce as `nonce`, the built action
/// object keeps the payload's `nonce` and `time` members as they are.
pub proof fn lemma_nonce_stays_nonce(meta: ActionMetaV, p: Seq<(Seq<char>, Json)>, chain: SigningChain)
    requires
        meta.user_signed,
        !meta.uses_time,
        meta.payload_key == meta.action_type,
        keys_distinct(p),
    ensures
        build_action_spec(meta, Json::Object(p), Some(chain)) matches Ok(Json::Object(m)) && obj_get(
            m,
            "nonce"@,
        ) == obj_get(p, "nonce"@) && obj_get(m, "time"@) == obj_get(p, "time"@),
{
    lemma_wire_keys_distinct();
    reveal_strlit("type");
    reveal_strlit("nonce");
    reveal_strlit("time");
    let base = seq![("type"@, Json::Str(meta.action_type))];
    let mb = with_chain_fields(p, meta.uses_time, chain);
    lemma_with_chain_fields(p, meta.uses_time, chain, "time"@);
    lemma_with_chain_fields(p, meta.uses_time, chain, "nonce"@);
    lemma_obj_get_extend(base, mb, "time"@);
    lemma_obj_get_extend(base, mb, "nonce"@);
    lemma_obj_find(mb, "time"@);
    lemma_obj_find(mb, "nonce"@);
    lemma_obj_find(p, "time"@);
    lemma_obj_find(p, "nonce"@);
    lemma_obj_find_single("type"@, Json::Str(meta.action_type), "nonce"@);
    lemma_obj_find_single("type"@, Json::Str(meta.action_type), "time"@);
}

/// Reading a key after a `time` member was copied to `nonce`.
pub proof fn lemma_time_as_nonce(m: Seq<(Seq<char>, Json)>, uses_time: bool, k: Seq<char>)
    ensures
        k != "nonce"@ ==> obj_get(time_as_nonce(m, uses_time), k) == obj_get(m, k),
        uses_time && obj_has(m, "time"@) && !obj_has(m, "nonce"@) ==> obj_get(
            time_as_nonce(m, uses_time),
            "nonce"@,
        ) == obj_get(m, "time"@),
        !(uses_time && obj_has(m, "time"@) && !obj_has(m, "nonce"@)) ==> time_as_nonce(
            m,
            uses_time,
        ) == m,
{
    if uses_time && obj_has(m, "time"@) && !obj_has(m, "nonce"@) {
        lemma_obj_get_insert(m, "nonce"@, obj_get(m, "time"@)->0, k);
        lemma_obj_get_insert(m, "nonce"@, obj_get(m, "time"@)->0, "nonce"@);
    }
}

/// Every built `"action"` object names its action type in `"type"` (when the action's
/// payload key is not `"type"` and a flattened payload has no `"type"` member of its own).
pub proof fn lemma_built_action_names_type(meta: ActionMetaV, payload: Json, chain: Option<SigningChain>)
    requires
        meta.payload_key != "type"@,
        meta.payload_key == meta.action_type ==> (payload matches Json::Object(p) && keys_distinct(p)
            && !obj_has(p, "type"@)),
    ensures
        build_action_spec(meta, payload, chain) matches Ok(v) ==> (v matches Json::Object(m)
            && obj_get(m, "type"@) == Some(Json::Str(meta.action_type))),
{
    lemma_wire_keys_distinct();
    let base = seq![("type"@, Json::Str(meta.action_type))];
    lemma_obj_find_single("type"@, Json::Str(meta.action_type), "type"@);
    if let Ok(v) = build_action_spec(meta, payload, chain) {
        if meta.payload_key == meta.action_type {
            let p = payload->Object_0;
            let mp = if meta.user_signed {
                with_chain_fields(p, meta.uses_time, chain->0)
            } else {
                p
            };
            if meta.user_signed {
                lemma_with_chain_fields(p, meta.uses_time, chain->0, "type"@);
            }
            lemma_obj_get_extend(base, mp, "type"@);
        } else {
            let prepared = if meta.user_signed {
                Json::Object(with_chain_fields(payload->Object_0, meta.uses_time, chain->0))
            } else {
                payload
            };
            lemma_obj_get_insert(base, meta.payload_key, prepared, "type"@);
        }
    }
}

/// What the exchange reads back of an L1 action is exactly the payload it was built from:
/// extracting the payload from the built `"action"` object gives the payload again (for a
/// flattened payload, an object whose keys are distinct and without a `"type"` member).
pub proof fn lemma_l1_action_round_trip(meta: ActionMetaV, payload: Json, chain: Option<SigningChain>)
    requires
        !meta.user_signed,
        meta.payload_key != "type"@,
        meta.payload_key == meta.action_type ==> (payload matches Json::Object(p) && keys_distinct(p)
            && !obj_has(p, "type"@)),
    ensures
        build_action_spec(meta, payload, chain) matches Ok(Json::Object(m)) && extract_payload_spec(
            meta,
            m,
        ) == Ok::<Json, Seq<char>>(payload),
{
    reveal_strlit("type");
    let base = seq![("type"@, Json::Str(meta.action_type))];
    lemma_obj_find_single("type"@, Json::Str(meta.action_type), "type"@);
    if meta.payload_key == meta.action_type {
        let p = payload->Object_0;
        lemma_obj_find(p, "type"@);
        assert forall|i: int| 0 <= i < p.len() implies !obj_has(base, #[trigger] p[i].0) by {
            lemma_obj_find_single("type"@, Json::Str(meta.action_type), p[i].0);
        }
        lemma_obj_extend_fresh(base, p);
        let m = base + p;
        assert(obj_find(m, "type"@) == Some(0int)) by {
            lemma_obj_find(m, "type"@);
            assert(m[0] == base[0]);
        }
        assert(m.remove(0) =~= p);
    } else {
        lemma_obj_find(base, meta.payload_key);
        lemma_obj_get_insert(base, meta.payload_key, payload, meta.payload_key);
    }
}

/// What the exchange reads back of a user-signed action keeps every payload field: after
/// building the `"action"` object and extracting the payload again, every key other than
/// the ones the signing chain adds (`signatureChainId`, `hyperliquidChain`) reads the same
/// value as in the payload it was built from, the nonce included. For an action that sends
/// its nonce as `time`, a payload without `time` gets one (holding the nonce), and a
/// payload with `time` but no `nonce` reads back its `time` as the nonce as well. The
/// payload is an object with distinct keys, without a `"type"` member when flattened.
pub proof fn lemma_user_signed_action_round_trip(
    meta: ActionMetaV,
    p: Seq<(Seq<char>, Json)>,
    chain: SigningChain,
    k: Seq<char>,
)
    requires
        meta.user_signed,
        meta.payload_key != "type"@,
        keys_distinct(p),
        meta.payload_key == meta.action_type ==> !obj_has(p, "type"@),
        k != "signatureChainId"@,
        k != "hyperliquidChain"@,
        meta.payload_key == meta.action_type ==> k != "type"@,
    ensures
        build_action_spec(meta, Json::Object(p), Some(chain)) matches Ok(Json::Object(m))
            && extract_payload_spec(meta, m) matches Ok(Json::Object(q)) && {
            &&& !(meta.uses_time && k == "time"@ && !obj_has(p, "time"@)) && !(meta.uses_time && k
                == "nonce"@ && obj_has(p, "time"@) && !obj_has(p, "nonce"@)) ==> obj_get(q, k) == obj_get(
                p,
                k,
            )
            &&& meta.uses_time && obj_has(p, "time"@) && !obj_has(p, "nonce"@) ==> obj_get(q, "nonce"@)
                == obj_get(p, "time"@)
        },
{
    lemma_wire_keys_distinct();
    let base = seq![("type"@, Json::Str(meta.action_type))];
    lemma_obj_find_single("type"@, Json::Str(meta.action_type), "type"@);
    lemma_obj_find_single("type"@, Json::Str(meta.action_type), k);
    lemma_obj_find_single("type"@, Json::Str(meta.action_type), "time"@);
    lemma_obj_find_single("type"@, Json::Str(meta.action_type), "nonce"@);
    let mb = with_chain_fields(p, meta.uses_time, chain);
    lemma_with_chain_fields(p, meta.uses_time, chain, k);
    lemma_with_chain_fields(p, meta.uses_time, chain, "time"@);
    let m = if meta.payload_key == meta.action_type {
        let obj = obj_extend(base, mb);
        assert(keys_distinct(base));
        lemma_obj_get_extend(base, mb, k);
        lemma_obj_get_extend(base, mb, "time"@);
        lemma_obj_get_extend(base, mb, "nonce"@);
        lemma_obj_get_remove(obj, "type"@, k);
        lemma_obj_get_remove(obj, "type"@, "time"@);
        lemma_obj_get_remove(obj, "type"@, "nonce"@);
        lemma_obj_find(base, k);
        lemma_obj_find(base, "time"@);
        lemma_obj_find(base, "nonce"@);
        lemma_obj_find(mb, k);
        obj_remove(obj, "type"@)
    } else {
        lemma_obj_get_insert(base, meta.payload_key, Json::Object(mb), meta.payload_key);
        mb
    };
    lemma_with_chain_fields(p, meta.uses_time, chain, "nonce"@);
    lemma_time_as_nonce(m, meta.uses_time, k);
    lemma_time_as_nonce(m, meta.uses_time, "nonce"@);
    lemma_obj_find(mb, "nonce"@);
    lemma_obj_find(mb, "time"@);
    lemma_obj_find(p, "nonce"@);
    lemma_obj_find(p, "time"@);
    lemma_obj_find(m, "nonce"@);
    lemma_obj_find(m, "time"@);
}

} // verus!
