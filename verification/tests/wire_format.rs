use hl_rs::actions::{
    Action, ActionKind, ActionKindReading, ActionType, ApproveAgent, SetOpenInterestCaps,
    ToggleBigBlocks, UsdClassTransfer, UsdSend,
};
use hl_rs::actions::kind::read_action_kind;
use hl_rs::json::{JsonNumber, JsonValue};
use hl_rs::primitives::{Address, Decimal, U256};
use hl_rs::signature::{deserialize_sig, serialize_sig, Signature};
use hl_rs::signed::{read_envelope, read_signed_action_kind, PreparedAction};
use hl_rs::wire::{
    action_type_from_obj, build_action_value, deserialize_action, extract_action_payload_for,
    SigningChain,
};

fn text(s: &str) -> JsonValue {
    JsonValue::String(s.to_string())
}

fn uint(n: u64) -> JsonValue {
    JsonValue::Number(JsonNumber::PosInt(n))
}

fn obj(members: Vec<(&str, JsonValue)>) -> JsonValue {
    JsonValue::Object(members.into_iter().map(|(k, v)| (k.to_string(), v)).collect())
}

fn members(v: &JsonValue) -> &Vec<(String, JsonValue)> {
    match v {
        JsonValue::Object(m) => m,
        other => panic!("expected an object, got {other:?}"),
    }
}

fn get<'a>(v: &'a JsonValue, key: &str) -> Option<&'a JsonValue> {
    members(v).iter().find(|(k, _)| k == key).map(|(_, v)| v)
}

fn usd_send_payload(nonce: u64) -> JsonValue {
    obj(vec![
        ("destination", text("0x0000000000000000000000000000000000000000")),
        ("amount", text("100.0")),
        ("nonce", uint(nonce)),
    ])
}

fn dummy_hash<A, M>(_: &A, _: &M) -> Result<[u8; 32], hl_rs::error::Error> {
    Ok([0u8; 32])
}

#[test]
fn test_enable_big_blocks_serialization() {
    let action = ToggleBigBlocks::enable();
    let signing_chain = SigningChain::Mainnet;
    let prepared = PreparedAction::new(action, &signing_chain, None, None, dummy_hash).unwrap();
    let sig = Signature::new(U256::from_u64(1), U256::from_u64(2), false);
    let signed = prepared.with_signature(sig);
    let payload = obj(vec![("usingBigBlocks", JsonValue::Bool(signed.action.using_big_blocks))]);
    let parsed = signed.to_json(payload).unwrap();
    assert!(get(&parsed, "action").is_some());
    assert!(get(&parsed, "nonce").is_some());
    assert!(get(&parsed, "signature").is_some());
    let action_obj = get(&parsed, "action").unwrap();
    assert_eq!(get(action_obj, "type"), Some(&text("evmUserModify")));
    assert!(get(action_obj, "usingBigBlocks").is_some());
}

#[test]
fn test_usd_send_serialization() {
    let action = UsdSend::new(Address::zero(), Decimal::new(1000, 1));
    let signing_chain = SigningChain::Testnet;
    let prepared = PreparedAction::new(action, &signing_chain, None, None, dummy_hash).unwrap();
    let sig = Signature::new(U256::from_u64(1), U256::from_u64(2), false);
    let signed = prepared.with_signature(sig);
    let parsed = signed.to_json(usd_send_payload(signed.nonce)).unwrap();
    let action_obj = get(&parsed, "action").unwrap();
    assert_eq!(get(action_obj, "type"), Some(&text("usdSend")));
    assert_eq!(get(action_obj, "hyperliquidChain"), Some(&text("Testnet")));
    assert_eq!(get(action_obj, "signatureChainId"), Some(&text("0x66eee")));
    assert!(get(action_obj, "destination").is_some());
    assert!(get(action_obj, "amount").is_some());
    assert!(get(action_obj, "time").is_some());
}

#[test]
fn test_usd_send_action_object() {
    let value = build_action_value(
        &UsdSend::meta(),
        usd_send_payload(1234),
        Some(&SigningChain::Testnet),
    )
    .unwrap();
    assert_eq!(get(&value, "type"), Some(&text("usdSend")));
    assert_eq!(get(&value, "time"), Some(&uint(1234)));
    assert_eq!(get(&value, "nonce"), None);
    assert_eq!(members(&value).len(), 6);
}

#[test]
fn test_mainnet_chain_fields() {
    assert_eq!(SigningChain::Mainnet.get_signature_chain_id(), 0xa4b1);
    assert_eq!(SigningChain::Mainnet.get_hyperliquid_chain(), "Mainnet");
    assert_eq!(SigningChain::Testnet.get_signature_chain_id(), 0x66eee);
    let value = build_action_value(
        &UsdClassTransfer::meta(),
        obj(vec![("amount", text("1")), ("toPerp", JsonValue::Bool(true)), ("nonce", uint(7))]),
        Some(&SigningChain::Mainnet),
    )
    .unwrap();
    assert_eq!(get(&value, "signatureChainId"), Some(&text("0xa4b1")));
    assert_eq!(get(&value, "hyperliquidChain"), Some(&text("Mainnet")));
    // usdClassTransfer keeps its nonce as `nonce`.
    assert_eq!(get(&value, "nonce"), Some(&uint(7)));
    assert_eq!(get(&value, "time"), None);
}

#[test]
fn test_user_signed_requires_chain() {
    let err = build_action_value(&UsdSend::meta(), usd_send_payload(1), None).unwrap_err();
    assert_eq!(err, "signing_chain must be set for user-signed actions");
}

#[test]
fn test_user_signed_requires_object_payload() {
    let err = build_action_value(&UsdSend::meta(), uint(3), Some(&SigningChain::Testnet))
        .unwrap_err();
    assert_eq!(err, "action payload must be object");
}

#[test]
fn test_flat_payload_must_be_object() {
    let err = build_action_value(&ToggleBigBlocks::meta(), JsonValue::Bool(true), None)
        .unwrap_err();
    assert_eq!(err, "action payload must be object");
}

#[test]
fn test_perp_deploy_v2_set_open_interest_caps_serialization_matches_docs() {
    let action = SetOpenInterestCaps {
        caps: vec![("BTC".to_string(), 1_000_000), ("ETH".to_string(), 500_000)],
        nonce: None,
    };
    let signing_chain = SigningChain::Testnet;
    let payload = action.wire_payload();
    let prepared = PreparedAction::new(action, &signing_chain, None, None, dummy_hash).unwrap();
    let sig = Signature::new(U256::from_u64(3), U256::from_u64(4), true);
    let signed = prepared.with_signature(sig);
    let parsed = signed.to_json(payload).unwrap();
    let action_obj = get(&parsed, "action").unwrap();
    let expected = obj(vec![
        ("type", text("perpDeploy")),
        (
            "setOpenInterestCaps",
            JsonValue::Array(vec![
                JsonValue::Array(vec![text("BTC"), uint(1_000_000)]),
                JsonValue::Array(vec![text("ETH"), uint(500_000)]),
            ]),
        ),
    ]);
    assert_eq!(action_obj, &expected);
}

#[test]
fn test_extract_restores_user_signed_payload() {
    let meta = UsdSend::meta();
    let value =
        build_action_value(&meta, usd_send_payload(9876543210), Some(&SigningChain::Testnet))
            .unwrap();
    let payload = extract_action_payload_for(&meta, members(&value)).unwrap();
    assert_eq!(get(&payload, "nonce"), Some(&uint(9876543210)));
    assert_eq!(get(&payload, "time"), Some(&uint(9876543210)));
    assert_eq!(get(&payload, "amount"), Some(&text("100.0")));
    assert_eq!(get(&payload, "type"), None);
}

#[test]
fn test_extract_nested_payload_is_unchanged() {
    let meta = SetOpenInterestCaps::meta();
    let caps = JsonValue::Array(vec![JsonValue::Array(vec![text("BTC"), uint(1)])]);
    let built = build_action_value(&meta, caps.duplicate(), None).unwrap();
    let payload = extract_action_payload_for(&meta, members(&built)).unwrap();
    assert_eq!(payload, caps);
}

#[test]
fn test_extract_missing_payload() {
    let meta = SetOpenInterestCaps::meta();
    let err = extract_action_payload_for(&meta, members(&obj(vec![("type", text("perpDeploy"))])))
        .unwrap_err();
    assert_eq!(err, "missing action payload");
}

#[test]
fn test_deserialize_action_checks_type() {
    let meta = UsdSend::meta();
    let err = deserialize_action(&meta, &obj(vec![("type", text("withdraw3"))])).unwrap_err();
    assert_eq!(err, "invalid action type: withdraw3");
    let err = deserialize_action(&meta, &uint(1)).unwrap_err();
    assert_eq!(err, "action must be object");
    let err = deserialize_action(&meta, &obj(vec![("type", uint(1))])).unwrap_err();
    assert_eq!(err, "missing action type");
    let ok = deserialize_action(&meta, &obj(vec![("type", text("usdSend")), ("time", uint(5))]))
        .unwrap();
    assert_eq!(get(&ok, "nonce"), Some(&uint(5)));
}

#[test]
fn test_action_type_from_obj() {
    let o = obj(vec![("type", text("order")), ("orders", JsonValue::Array(vec![]))]);
    assert_eq!(action_type_from_obj(members(&o)).unwrap(), "order");
    assert_eq!(action_type_from_obj(members(&obj(vec![]))).unwrap_err(), "missing action type");
}

#[test]
fn test_signature_wire_form() {
    let sig = Signature::new(U256::from_u64(1), U256::from_u64(2), false);
    let v = serialize_sig(&sig);
    assert_eq!(
        get(&v, "r"),
        Some(&text("0x0000000000000000000000000000000000000000000000000000000000000001"))
    );
    assert_eq!(get(&v, "v"), Some(&uint(27)));
    let odd = serialize_sig(&Signature::new(U256::from_u64(3), U256::from_u64(4), true));
    assert_eq!(get(&odd, "v"), Some(&uint(28)));
}

#[test]
fn test_signature_round_trip() {
    let r = U256::from_u64(0xabcd1234);
    let s = U256::from_u64(0x5678ef90);
    let sig = Signature::new(r, s, true);
    let back = deserialize_sig(&serialize_sig(&sig)).unwrap();
    assert_eq!(back, sig);
    let big = Signature::new(U256([u64::MAX, 5, 0, 1 << 63]), U256([7, 0, 0, 0]), false);
    assert_eq!(deserialize_sig(&serialize_sig(&big)).unwrap(), big);
}

#[test]
fn test_signature_reading_variants() {
    let sig = deserialize_sig(&obj(vec![("r", text("0x01")), ("s", text("02")), ("v", uint(27))]))
        .unwrap();
    assert_eq!(sig, Signature::new(U256::from_u64(1), U256::from_u64(2), false));
    let sig = deserialize_sig(&obj(vec![("r", text("ff")), ("s", text("0x0")), ("v", text("28"))]))
        .unwrap();
    assert_eq!(sig, Signature::new(U256::from_u64(255), U256::from_u64(0), true));
    assert_eq!(
        deserialize_sig(&obj(vec![("s", text("1")), ("v", uint(27))])).unwrap_err(),
        "missing signature.r"
    );
    assert_eq!(
        deserialize_sig(&obj(vec![("r", text("1")), ("v", uint(27))])).unwrap_err(),
        "missing signature.s"
    );
    assert_eq!(
        deserialize_sig(&obj(vec![("r", text("1")), ("s", text("1"))])).unwrap_err(),
        "missing signature.v"
    );
    assert_eq!(
        deserialize_sig(&obj(vec![("r", text("1")), ("s", text("1")), ("v", JsonValue::Null)]))
            .unwrap_err(),
        "invalid signature.v"
    );
    assert_eq!(
        deserialize_sig(&obj(vec![("r", text("1")), ("s", text("1")), ("v", uint(26))]))
            .unwrap_err(),
        "invalid v value"
    );
    assert_eq!(deserialize_sig(&uint(1)).unwrap_err(), "signature must be object");
    assert!(deserialize_sig(&obj(vec![("r", text("0xzz")), ("s", text("1")), ("v", uint(27))]))
        .is_err());
    assert!(deserialize_sig(&obj(vec![("r", text("1")), ("s", text("1")), ("v", text("x"))]))
        .is_err());
}

#[test]
fn test_signed_action_serialization_roundtrip() {
    // UsdSend round trip.
    let dest = Address::repeat_byte(0xAB);
    let amount = Decimal::new(999123, 3);
    let nonce = 1234567890u64;
    let usd_send = UsdSend { destination: dest, amount, nonce: Some(nonce) };
    let signing_chain = SigningChain::Testnet;
    let prepared = PreparedAction::new(usd_send, &signing_chain, None, None, dummy_hash).unwrap();
    let nonce = prepared.nonce;
    let r = U256::from_u64(0xabcd1234);
    let s = U256::from_u64(0x5678ef90);
    let signed = prepared.with_signature(Signature::new(r, s, true));
    let payload = obj(vec![
        ("destination", text(&hl_rs::primitives::ser_lowercase(&dest))),
        ("amount", text(&amount.to_text())),
        ("nonce", uint(nonce)),
    ]);
    let envelope = signed.to_json(payload).unwrap();
    let back = read_envelope(&UsdSend::meta(), &envelope).unwrap();
    assert_eq!(get(&back.payload, "destination"), Some(&text("0xabababababababababababababababababababab")));
    assert_eq!(get(&back.payload, "amount"), Some(&text("999.123")));
    assert_eq!(get(&back.payload, "nonce"), Some(&uint(nonce)));
    assert_eq!(back.nonce, nonce);
    assert_eq!(back.signature.r, signed.signature.r);
    assert_eq!(back.signature.s, signed.signature.s);
    assert_eq!(back.signature.y_parity, signed.signature.y_parity);
    assert_eq!(back.vault_address, None);
    assert_eq!(back.expires_after, None);

    // ToggleBigBlocks round trip.
    let prepared =
        PreparedAction::new(ToggleBigBlocks::enable(), &signing_chain, None, None, dummy_hash).unwrap();
    let nonce = prepared.nonce;
    let signed = prepared.with_signature(Signature::new(U256::from_u64(111), U256::from_u64(222), false));
    let envelope = signed.to_json(obj(vec![("usingBigBlocks", JsonValue::Bool(true))])).unwrap();
    let back = read_envelope(&ToggleBigBlocks::meta(), &envelope).unwrap();
    assert_eq!(get(&back.payload, "usingBigBlocks"), Some(&JsonValue::Bool(true)));
    assert_eq!(back.nonce, nonce);
    assert_eq!(back.signature.r, signed.signature.r);
    assert_eq!(back.signature.s, signed.signature.s);

    // With a vault address.
    let vault = Address::repeat_byte(0x99);
    let usd_send = UsdSend { destination: dest, amount: Decimal::new(500, 1), nonce: Some(111222333) };
    let prepared = PreparedAction::new(usd_send, &signing_chain, Some(vault), None, dummy_hash).unwrap();
    let signed = prepared.with_signature(Signature::new(U256::from_u64(333), U256::from_u64(444), true));
    let envelope = signed.to_json(usd_send_payload(111222333)).unwrap();
    let back = read_envelope(&UsdSend::meta(), &envelope).unwrap();
    assert_eq!(back.vault_address, Some(vault));
}

#[test]
fn test_envelope_optional_fields() {
    let vault = Address::repeat_byte(0x99);
    let prepared = PreparedAction::new(
        ToggleBigBlocks::enable(),
        &SigningChain::Mainnet,
        Some(vault),
        Some(42),
        |a: &ToggleBigBlocks, m| {
            assert!(a.nonce.is_some());
            assert_eq!(Some(m.nonce), a.nonce);
            Ok([1u8; 32])
        },
    )
    .unwrap();
    assert!(prepared.action.nonce.is_some());
    let signed = prepared.with_signature(Signature::new(U256::from_u64(111), U256::from_u64(222), false));
    let envelope = signed
        .to_json(obj(vec![("usingBigBlocks", JsonValue::Bool(true))]))
        .unwrap();
    assert_eq!(
        get(&envelope, "vaultAddress"),
        Some(&text("0x9999999999999999999999999999999999999999"))
    );
    assert_eq!(get(&envelope, "expiresAfter"), Some(&uint(42)));
}

#[test]
fn test_prepare_propagates_hash_failure() {
    let r = PreparedAction::new(
        ApproveAgent::without_name(Address::zero()),
        &SigningChain::Testnet,
        None,
        None,
        |_, _| Err(hl_rs::error::Error::SignatureFailure("no".to_string())),
    );
    assert!(matches!(r, Err(hl_rs::error::Error::SignatureFailure(_))));
}

#[test]
fn test_dec_ser() {
    assert_eq!("10000.5".to_string(), Decimal::new(100005, 1).to_text());
    assert_eq!("100.0".to_string(), Decimal::new(1000, 1).to_text());
    assert_eq!("-0.05".to_string(), Decimal::new(-5, 2).to_text());
}

#[test]
fn test_extract_action_kind_preserves_values() {
    let dest = Address::repeat_byte(0x42);
    let amount = Decimal::new(123456, 3);
    let nonce = 9876543210u64;
    let usd_send = UsdSend { destination: dest, amount, nonce: Some(nonce) };
    let signing_chain = SigningChain::Testnet;
    let prepared = PreparedAction::new(usd_send, &signing_chain, None, None, dummy_hash).unwrap();
    let signed = prepared.with_signature(Signature::new(U256::from_u64(1), U256::from_u64(2), false));
    match signed.extract_action_kind() {
        ActionKind::UsdSend(extracted) => {
            assert_eq!(extracted.destination, dest);
            assert_eq!(extracted.amount, amount);
            assert_eq!(extracted.nonce, Some(nonce));
        }
        _ => panic!("Expected ActionKind::UsdSend"),
    }

    let prepared =
        PreparedAction::new(ToggleBigBlocks::enable(), &signing_chain, None, None, dummy_hash).unwrap();
    let signed = prepared.with_signature(Signature::new(U256::from_u64(3), U256::from_u64(4), true));
    match signed.extract_action_kind() {
        ActionKind::ToggleBigBlocks(extracted) => assert!(extracted.using_big_blocks),
        _ => panic!("Expected ActionKind::ToggleBigBlocks"),
    }

    let prepared =
        PreparedAction::new(ToggleBigBlocks::disable(), &signing_chain, None, None, dummy_hash).unwrap();
    let signed = prepared.with_signature(Signature::new(U256::from_u64(5), U256::from_u64(6), false));
    match signed.extract_action_kind() {
        ActionKind::ToggleBigBlocks(extracted) => assert!(!extracted.using_big_blocks),
        _ => panic!("Expected ActionKind::ToggleBigBlocks"),
    }
}

#[test]
fn test_signed_action_kind_deserializes_user_signed_action() {
    let dest = Address::repeat_byte(0xAB);
    let amount = Decimal::new(123, 2);
    let signing_chain = SigningChain::Testnet;
    let prepared =
        PreparedAction::new(UsdSend::new(dest, amount), &signing_chain, None, None, dummy_hash).unwrap();
    let nonce = prepared.nonce;
    let signed = prepared.with_signature(Signature::new(U256::from_u64(1), U256::from_u64(2), true));
    let payload = obj(vec![
        ("destination", text(&hl_rs::primitives::ser_lowercase(&dest))),
        ("amount", text(&amount.to_text())),
        ("nonce", uint(nonce)),
    ]);
    let envelope = signed.to_json(payload).unwrap();
    let deserialized = read_signed_action_kind(&envelope).unwrap();
    assert_eq!(deserialized.nonce, nonce);
    assert_eq!(deserialized.signature.r, signed.signature.r);
    assert_eq!(deserialized.signature.s, signed.signature.s);
    assert_eq!(deserialized.signature.y_parity, signed.signature.y_parity);
    match deserialized.action {
        ActionKindReading::Known { kind: ActionType::UsdSend, payload } => {
            assert_eq!(get(&payload, "destination"), Some(&text("0xabababababababababababababababababababab")));
            assert_eq!(get(&payload, "amount"), Some(&text("1.23")));
            assert_eq!(get(&payload, "nonce"), Some(&uint(nonce)));
        }
        other => panic!("expected a UsdSend, got: {other:?}"),
    }
}

#[test]
fn test_signed_action_kind_deserializes_perp_deploy_by_payload_key() {
    let action = SetOpenInterestCaps {
        caps: vec![("BTC".to_string(), 1_000_000), ("ETH".to_string(), 500_000)],
        nonce: None,
    };
    let signing_chain = SigningChain::Testnet;
    let prepared = PreparedAction::new(action, &signing_chain, None, None, dummy_hash).unwrap();
    let signed = prepared.with_signature(Signature::new(U256::from_u64(3), U256::from_u64(4), true));
    let payload = JsonValue::Array(vec![
        JsonValue::Array(vec![text("BTC"), uint(1_000_000)]),
        JsonValue::Array(vec![text("ETH"), uint(500_000)]),
    ]);
    let envelope = signed.to_json(payload.duplicate()).unwrap();
    let deserialized = read_signed_action_kind(&envelope).unwrap();
    match deserialized.action {
        ActionKindReading::Known { kind: ActionType::SetOpenInterestCaps, payload: read } => {
            assert_eq!(read, payload);
        }
        other => panic!("expected a SetOpenInterestCaps, got: {other:?}"),
    }
}

#[test]
fn test_signed_action_kind_unknown_preserves_raw_action() {
    let action = obj(vec![
        ("type", text("someFutureAction")),
        ("foo", uint(1)),
        ("bar", obj(vec![("baz", JsonValue::Bool(true))])),
    ]);
    let envelope = obj(vec![
        ("action", action.duplicate()),
        ("nonce", uint(123)),
        ("signature", obj(vec![("r", text("0x01")), ("s", text("0x02")), ("v", uint(27))])),
    ]);
    let deserialized = read_signed_action_kind(&envelope).unwrap();
    match deserialized.action {
        ActionKindReading::Unknown { action_type, raw } => {
            assert_eq!(action_type, "someFutureAction");
            assert_eq!(raw, action);
        }
        other => panic!("expected an unknown action, got: {other:?}"),
    }
}

#[test]
fn action_kind_reading_edge_cases() {
    let nested = obj(vec![("type", text("perpDeploy")), ("haltTrading", obj(vec![("coin", text("d:BTC"))]))]);
    match read_action_kind(&nested).unwrap() {
        ActionKindReading::Known { kind, .. } => assert_eq!(kind, ActionType::ToggleTrading),
        other => panic!("expected ToggleTrading, got {other:?}"),
    }
    let spot = obj(vec![("type", text("spotDeploy")), ("registerSpot", obj(vec![]))]);
    match read_action_kind(&spot).unwrap() {
        ActionKindReading::Known { kind, .. } => assert_eq!(kind, ActionType::RegisterSpot),
        other => panic!("expected RegisterSpot, got {other:?}"),
    }
    let no_key = obj(vec![("type", text("perpDeploy")), ("somethingNew", uint(1))]);
    assert_eq!(read_action_kind(&no_key).err().unwrap(), "missing action payload");
    assert_eq!(read_action_kind(&obj(vec![("foo", uint(1))])).err().unwrap(), "missing action type");
    assert_eq!(read_action_kind(&uint(1)).err().unwrap(), "action must be object");
    let flat = obj(vec![("type", text("evmUserModify")), ("usingBigBlocks", JsonValue::Bool(false))]);
    match read_action_kind(&flat).unwrap() {
        ActionKindReading::Known { kind, payload } => {
            assert_eq!(kind, ActionType::ToggleBigBlocks);
            assert_eq!(payload, obj(vec![("usingBigBlocks", JsonValue::Bool(false))]));
        }
        other => panic!("expected ToggleBigBlocks, got {other:?}"),
    }
    assert_eq!(ActionType::UsdSend.meta().action_type, "usdSend");
    let missing_sig = obj(vec![("action", flat.duplicate()), ("nonce", uint(1))]);
    assert_eq!(read_signed_action_kind(&missing_sig).err().unwrap(), "missing field `signature`");
}
