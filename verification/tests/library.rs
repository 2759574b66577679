use hl_rs::abi_value::{AbiType, AbiValue, ToAbiValue};
use hl_rs::actions::{
    Action, ApproveAgent, ApproveBuilderFee, ConvertToMultiSigUser, DexId, MultiSigSigners,
    SendAsset, SetGrowthModes, SetOpenInterestCaps, SetOracle, TokenDelegate, ToggleBigBlocks, ToggleTrading,
    UsdSend, UserDexAbstraction, Withdraw,
};
use hl_rs::error::{ApiError, BuilderError, Error};
use hl_rs::json::{JsonNumber, JsonValue};
use hl_rs::primitives::{ser_lowercase, Address, Decimal, U256};
use hl_rs::responses::{
    ExchangeDataStatus, ExchangeResponse, ExchangeResponseStatusRaw, RestingOrder,
};
use hl_rs::signature::Signature;
use hl_rs::signed::{read_envelope, PreparedAction};
use hl_rs::sorting::sort_pairs_by_key;
use hl_rs::wire::SigningChain;

fn text(s: &str) -> JsonValue {
    JsonValue::String(s.to_string())
}

fn uint(n: u64) -> JsonValue {
    JsonValue::Number(JsonNumber::PosInt(n))
}

fn obj(members: Vec<(&str, JsonValue)>) -> JsonValue {
    JsonValue::Object(members.into_iter().map(|(k, v)| (k.to_string(), v)).collect())
}

fn get<'a>(v: &'a JsonValue, key: &str) -> Option<&'a JsonValue> {
    match v {
        JsonValue::Object(m) => m.iter().find(|(k, _)| k == key).map(|(_, v)| v),
        _ => None,
    }
}

fn pairs(v: &[(&str, &str)]) -> Vec<(String, String)> {
    v.iter().map(|(a, b)| (a.to_string(), b.to_string())).collect()
}

fn hex32(h: [u8; 32]) -> String {
    h.iter().map(|b| format!("{b:02x}")).collect()
}

#[test]
fn set_open_interest_caps_doc_examples() {
    let action = SetOpenInterestCaps::new("mydex", vec![("BTC", 10_000_000), ("ETH", 5_000_000)]);
    assert_eq!(action.caps.len(), 2);
    assert_eq!(action.caps[0].0, "mydex:BTC");
    let action = SetOpenInterestCaps::default()
        .set_cap("mydex", "BTC", 10_000_000)
        .set_cap("mydex", "ETH", 5_000_000);
    assert_eq!(action.caps.len(), 2);
    let action = SetOpenInterestCaps::set_single("mydex", "SOL", 2_000_000);
    assert_eq!(action.caps.len(), 1);
    assert_eq!(action.caps[0], ("mydex:SOL".to_string(), 2_000_000));
    let action = SetOpenInterestCaps::set_single("MyDex", "btc", 1);
    assert_eq!(action.caps[0].0, "mydex:BTC");
}

#[test]
fn growth_modes_name_the_coins_in_order() {
    let r = SetGrowthModes::new("MyDex", vec![("eth", false), ("btc", true)]);
    assert_eq!(r.modes, vec![("mydex:ETH".to_string(), false), ("mydex:BTC".to_string(), true)]);
    assert_eq!(r.nonce, None);
    let caps = SetOpenInterestCaps::default()
        .set_cap("mydex", "BTC", 10_000_000)
        .set_cap("mydex", "ETH", 5_000_000);
    assert_eq!(caps.caps, vec![("mydex:BTC".to_string(), 10_000_000), ("mydex:ETH".to_string(), 5_000_000)]);
}

#[test]
fn toggle_trading_names_the_coin() {
    let halt = ToggleTrading::halt("MyDex", "btc");
    assert_eq!(halt.coin, "mydex:BTC");
    assert!(halt.is_halted);
    let resume = ToggleTrading::resume("mydex", "ETH");
    assert_eq!(resume.coin, "mydex:ETH");
    assert!(!resume.is_halted);
}

#[test]
fn builders_report_the_first_missing_field() {
    let err = ApproveAgent::builder().build().unwrap_err();
    assert_eq!(err, BuilderError::UninitializedField("agent_address".to_string()));
    let err = ApproveAgent::builder().agent_address(Address::zero()).build().unwrap_err();
    assert_eq!(err, BuilderError::UninitializedField("agent_name".to_string()));
    let agent = ApproveAgent::builder()
        .agent_address(Address::repeat_byte(0x99))
        .agent_name("builder-agent")
        .build()
        .unwrap();
    assert_eq!(agent.agent_name.as_deref(), Some("builder-agent"));
    assert_eq!(agent.nonce, None);
    let fee = ApproveBuilderFee::builder()
        .builder(Address::repeat_byte(0xAA))
        .max_fee_rate(Decimal::new(1, 3))
        .build()
        .unwrap();
    assert_eq!(fee.max_fee_rate.to_text(), "0.001");
    let delegate = TokenDelegate::builder()
        .validator(Address::repeat_byte(0xCC))
        .wei(1_000_000_000_000_000_000u64)
        .is_undelegate(false)
        .nonce(Some(5))
        .build()
        .unwrap();
    assert_eq!(delegate.nonce, Some(5));
    assert!(!delegate.is_undelegate);
    assert!(ToggleBigBlocks::builder().using_big_blocks(true).build().unwrap().using_big_blocks);
    assert_eq!(
        ToggleBigBlocks::builder().build().unwrap_err(),
        BuilderError::UninitializedField("using_big_blocks".to_string())
    );
    let enable = UserDexAbstraction::builder().user(Address::zero()).enabled(true).build().unwrap();
    assert!(enable.enabled);
}

#[test]
fn constructors_fill_fields() {
    let agent = ApproveAgent::new(Address::repeat_byte(1), "bot");
    assert_eq!(agent.agent_name.as_deref(), Some("bot"));
    assert!(ApproveAgent::without_name(Address::zero()).agent_name.is_none());
    assert!(TokenDelegate::undelegate(Address::zero(), 5).is_undelegate);
    let send = SendAsset::new(Address::zero(), DexId::Spot, DexId::Perp, "USDC", Decimal::new(1, 0))
        .from_sub_account("0xsub");
    assert_eq!(send.from_sub_account, "0xsub");
    assert_eq!(send.token, "USDC");
    let w = Withdraw::new(Address::zero(), Decimal::new(25, 1));
    assert_eq!(w.amount.to_text(), "2.5");
    assert_eq!(Withdraw::meta().action_type, "withdraw3");
    assert!(Withdraw::meta().uses_time);
    assert!(UsdSend::meta().user_signed);
    assert!(!ToggleBigBlocks::meta().user_signed);
}

#[test]
fn dex_id_text_and_reading() {
    assert_eq!(DexId::Spot.as_str(), "spot");
    assert_eq!(DexId::Perp.as_str(), "");
    assert_eq!(DexId::Hip3("mydex".to_string()).as_str(), "mydex");
    assert_eq!(DexId::Hip3("MyDex".to_string()).as_str(), "mydex");
    assert_eq!(DexId::from_wire("SPOT"), DexId::Spot);
    assert_eq!(DexId::from_wire(""), DexId::Perp);
    assert_eq!(DexId::from_wire("MyDex"), DexId::Hip3("mydex".to_string()));
    for d in [DexId::Spot, DexId::Perp, DexId::Hip3("abc".to_string())] {
        assert_eq!(DexId::from_wire(&d.as_str()), d);
    }
}

#[test]
fn multisig_users_are_sorted() {
    let users = vec![Address::repeat_byte(0x30), Address::repeat_byte(0x10), Address::repeat_byte(0x20)];
    let action = ConvertToMultiSigUser::new(users, 2);
    let got: Vec<u8> = action.signers.authorized_users.iter().map(|a| a.0[0]).collect();
    assert_eq!(got, vec![0x10, 0x20, 0x30]);
    assert_eq!(action.signers.threshold, 2);
    let signers = MultiSigSigners { authorized_users: vec![Address::repeat_byte(0x0a)], threshold: 1 };
    assert_eq!(
        signers.to_json_text(),
        "{\"authorizedUsers\":[\"0x0a0a0a0a0a0a0a0a0a0a0a0a0a0a0a0a0a0a0a0a\"],\"threshold\":1}"
    );
    let empty = MultiSigSigners { authorized_users: vec![], threshold: 0 };
    assert_eq!(empty.to_json_text(), "{\"authorizedUsers\":[],\"threshold\":0}");
}

#[test]
fn pairs_sort_by_name_and_keep_ties() {
    let sorted = sort_pairs_by_key(pairs(&[("ETH", "1"), ("BTC", "2"), ("ETH", "0"), ("AB", "3"), ("A", "4")]));
    assert_eq!(sorted, pairs(&[("A", "4"), ("AB", "3"), ("BTC", "2"), ("ETH", "1"), ("ETH", "0")]));
}

#[test]
fn set_oracle_payload_is_sorted() {
    let action = SetOracle {
        dex: "mydex".to_string(),
        oracle_pxs: pairs(&[("mydex:ETH", "3000"), ("mydex:BTC", "60000")]),
        mark_pxs: vec![pairs(&[("mydex:SOL", "1"), ("mydex:ADA", "2")])],
        external_perp_pxs: pairs(&[("mydex:B", "1"), ("mydex:A", "2")]),
        nonce: None,
    };
    let pair = |a: &str, b: &str| JsonValue::Array(vec![text(a), text(b)]);
    let expected = obj(vec![
        ("dex", text("mydex")),
        ("oraclePxs", JsonValue::Array(vec![pair("mydex:BTC", "60000"), pair("mydex:ETH", "3000")])),
        (
            "markPxs",
            JsonValue::Array(vec![JsonValue::Array(vec![pair("mydex:ADA", "2"), pair("mydex:SOL", "1")])]),
        ),
        ("externalPerpPxs", JsonValue::Array(vec![pair("mydex:A", "2"), pair("mydex:B", "1")])),
    ]);
    assert_eq!(action.wire_payload(), expected);
}

#[test]
fn abi_encoding_of_fields() {
    // keccak256("") is a well-known constant.
    let empty = String::new().to_abi_value(&AbiType::String).unwrap();
    match empty {
        AbiValue::FixedBytes(h, 32) => assert_eq!(
            hex32(h),
            "c5d2460186f7233c927e7db2dcc703c0e500b653ca82273b7bfad8045d85a470"
        ),
        other => panic!("unexpected {other:?}"),
    }
    let err = 5u64.to_abi_value(&AbiType::String).unwrap_err();
    assert_eq!(err, Error::AbiEncode { rust_type: "u64".to_string(), abi_type: "String".to_string() });
    let err = true.to_abi_value(&AbiType::Uint(64)).unwrap_err();
    assert_eq!(err, Error::AbiEncode { rust_type: "bool".to_string(), abi_type: "Uint(64)".to_string() });
    let err = DexId::Spot.to_abi_value(&AbiType::Bool).unwrap_err();
    assert_eq!(err, Error::AbiEncode { rust_type: "DexId".to_string(), abi_type: "Bool".to_string() });
    assert_eq!(
        DexId::Spot.to_abi_value(&AbiType::String).unwrap(),
        "spot".to_string().to_abi_value(&AbiType::String).unwrap()
    );
    assert_eq!(
        7u64.to_abi_value(&AbiType::Uint(64)).unwrap(),
        AbiValue::Uint(U256::from_u64(7), 64)
    );
    let absent: Option<u64> = None;
    assert_eq!(absent.to_abi_value(&AbiType::Uint(64)).unwrap(), AbiValue::Uint(U256::zero(), 64));
    let none_name: Option<String> = None;
    assert_eq!(none_name.to_abi_value(&AbiType::String).unwrap(), empty);
    let a = Address::repeat_byte(0xAB);
    assert_eq!(a.to_abi_value(&AbiType::Address).unwrap(), AbiValue::Address(a));
    assert_eq!(
        a.to_abi_value(&AbiType::String).unwrap(),
        "0xabababababababababababababababababababab".to_string().to_abi_value(&AbiType::String).unwrap()
    );
    let signers = MultiSigSigners { authorized_users: vec![], threshold: 0 };
    assert_eq!(
        signers.to_abi_value(&AbiType::String).unwrap(),
        "{\"authorizedUsers\":[],\"threshold\":0}".to_string().to_abi_value(&AbiType::String).unwrap()
    );
    assert_eq!(
        Decimal::new(100005, 1).to_abi_value(&AbiType::String).unwrap(),
        "10000.5".to_string().to_abi_value(&AbiType::String).unwrap()
    );
}

#[test]
fn address_text_is_lowercase_hex() {
    let a = Address([0xAB; 20]);
    assert_eq!(ser_lowercase(&a), "0xabababababababababababababababababababab");
    assert_eq!(ser_lowercase(&a), a.to_lower_hex());
    let mut bytes = [0u8; 20];
    bytes[19] = 0xF1;
    assert_eq!(ser_lowercase(&Address(bytes)), "0x00000000000000000000000000000000000000f1");
}

#[test]
fn into_result_classifies_stake_errors() {
    let ok = ExchangeResponseStatusRaw::Accepted(ExchangeResponse {
        response_type: "default".to_string(),
        data: None,
    });
    assert_eq!(ok.into_result().unwrap().response_type, "default");
    let e = ExchangeResponseStatusRaw::Rejected("Action failed: insufficient staked HYPE".to_string())
        .into_result()
        .unwrap_err();
    assert_eq!(
        e,
        Error::Api(ApiError::InsufficientStakedHype {
            message: "Action failed: insufficient staked HYPE".to_string()
        })
    );
    let e = ExchangeResponseStatusRaw::Rejected("insufficient staked".to_string()).into_result().unwrap_err();
    assert!(matches!(e, Error::Api(ApiError::InsufficientStakedHype { .. })));
    let e = ExchangeResponseStatusRaw::Rejected("Insufficient margin".to_string()).into_result().unwrap_err();
    assert_eq!(e, Error::Api(ApiError::Other { message: "Insufficient margin".to_string() }));
}

#[test]
fn order_data_reads_statuses() {
    let data = obj(vec![(
        "statuses",
        JsonValue::Array(vec![
            obj(vec![("resting", obj(vec![("oid", uint(77))]))]),
            obj(vec![("filled", obj(vec![("totalSz", text("0.1")), ("avgPx", text("100")), ("oid", uint(3))]))]),
            text("success"),
            text("waitingForFill"),
            obj(vec![("error", text("Insufficient margin"))]),
            text("somethingNew"),
            obj(vec![("waitingForTrigger", JsonValue::Null)]),
        ]),
    )]);
    let resp = ExchangeResponse { response_type: "order".to_string(), data: Some(data) };
    let s = resp.order_data().unwrap().statuses;
    assert_eq!(s.len(), 7);
    assert!(matches!(s[0], ExchangeDataStatus::Resting(RestingOrder { oid: 77 })));
    match &s[1] {
        ExchangeDataStatus::Filled(f) => {
            assert_eq!(f.total_sz, "0.1");
            assert_eq!(f.avg_px, "100");
            assert_eq!(f.oid, 3);
        },
        other => panic!("unexpected {other:?}"),
    }
    assert!(matches!(s[2], ExchangeDataStatus::Success));
    assert!(matches!(s[3], ExchangeDataStatus::WaitingForFill));
    assert!(matches!(&s[4], ExchangeDataStatus::Error(m) if m == "Insufficient margin"));
    assert!(matches!(s[5], ExchangeDataStatus::Unknown));
    assert!(matches!(s[6], ExchangeDataStatus::WaitingForTrigger));
}

#[test]
fn order_data_refuses_other_responses() {
    let wrong_type = ExchangeResponse {
        response_type: "cancel".to_string(),
        data: Some(obj(vec![("statuses", JsonValue::Array(vec![]))])),
    };
    assert!(wrong_type.order_data().is_none());
    let no_data = ExchangeResponse { response_type: "order".to_string(), data: None };
    assert!(no_data.order_data().is_none());
    let bad = ExchangeResponse {
        response_type: "order".to_string(),
        data: Some(obj(vec![("statuses", JsonValue::Array(vec![text("resting")]))])),
    };
    assert!(bad.order_data().is_none());
    let two_keys = ExchangeResponse {
        response_type: "order".to_string(),
        data: Some(obj(vec![(
            "statuses",
            JsonValue::Array(vec![obj(vec![("success", JsonValue::Null), ("error", text("x"))])]),
        )])),
    };
    assert!(two_keys.order_data().is_none());
}

#[test]
fn set_global_messages_reads_strings() {
    let resp = ExchangeResponse {
        response_type: "setGlobal".to_string(),
        data: Some(JsonValue::Array(vec![text("a"), text("b")])),
    };
    assert_eq!(resp.set_global_messages(), Some(vec!["a".to_string(), "b".to_string()]));
    let mixed = ExchangeResponse {
        response_type: "setGlobal".to_string(),
        data: Some(JsonValue::Array(vec![text("a"), uint(1)])),
    };
    assert_eq!(mixed.set_global_messages(), None);
    let other = ExchangeResponse {
        response_type: "order".to_string(),
        data: Some(JsonValue::Array(vec![text("a")])),
    };
    assert_eq!(other.set_global_messages(), None);
}

#[test]
fn signing_with_a_local_key() {
    let mut key = [0u8; 32];
    key[31] = 1;
    let prepare = || {
        PreparedAction::new(ToggleBigBlocks::enable().with_nonce(10), &SigningChain::Mainnet, None, None, |_, _| {
            Ok([0x11u8; 32])
        })
        .unwrap()
    };
    let a = prepare().sign(&key).unwrap();
    let b = prepare().sign(&key).unwrap();
    assert_eq!(a.signature, b.signature);
    assert_ne!(a.signature.r, U256::zero());
    assert_eq!(a.nonce, 10);
    assert_eq!(a.signing_chain, Some(SigningChain::Mainnet));
    let err = prepare().sign(&[0u8; 32]).unwrap_err();
    assert!(matches!(err, Error::SignatureFailure(_)));
}

#[test]
fn envelope_round_trip_with_vault() {
    let dest = Address::repeat_byte(0xAB);
    let vault = Address::repeat_byte(0x99);
    let usd_send = UsdSend { destination: dest, amount: Decimal::new(500, 1), nonce: Some(111222333) };
    let prepared = PreparedAction::new(usd_send, &SigningChain::Testnet, Some(vault), Some(99), |_, _| {
        Ok([0u8; 32])
    })
    .unwrap();
    let signed = prepared.with_signature(Signature::new(U256::from_u64(333), U256::from_u64(444), true));
    let payload = obj(vec![
        ("destination", text(&ser_lowercase(&dest))),
        ("amount", text("50.0")),
        ("nonce", uint(111222333)),
    ]);
    let envelope = signed.to_json(payload).unwrap();
    let back = read_envelope(&UsdSend::meta(), &envelope).unwrap();
    assert_eq!(back.nonce, 111222333);
    assert_eq!(back.vault_address, Some(vault));
    assert_eq!(back.expires_after, Some(99));
    assert_eq!(back.signature, signed.signature);
    assert_eq!(get(&back.payload, "nonce"), Some(&uint(111222333)));
    assert_eq!(get(&back.payload, "amount"), Some(&text("50.0")));
}

#[test]
fn envelope_reading_errors() {
    let meta = UsdSend::meta();
    let sig = obj(vec![("r", text("0x01")), ("s", text("0x02")), ("v", uint(27))]);
    let action = obj(vec![("type", text("usdSend")), ("time", uint(1))]);
    let no_nonce = obj(vec![("action", action.duplicate()), ("signature", sig.duplicate())]);
    assert_eq!(read_envelope(&meta, &no_nonce).err().unwrap(), "missing field `nonce`");
    let bad_vault = obj(vec![
        ("action", action.duplicate()),
        ("nonce", uint(1)),
        ("signature", sig.duplicate()),
        ("vaultAddress", text("0x12")),
    ]);
    assert_eq!(
        read_envelope(&meta, &bad_vault).err().unwrap(),
        "invalid value for `vaultAddress`, expected an address"
    );
    let upper = obj(vec![
        ("action", action.duplicate()),
        ("nonce", uint(1)),
        ("signature", sig.duplicate()),
        ("vaultAddress", text("0X9999999999999999999999999999999999999999")),
        ("expiresAfter", JsonValue::Null),
    ]);
    let back = read_envelope(&meta, &upper).unwrap();
    assert_eq!(back.vault_address, Some(Address::repeat_byte(0x99)));
    assert_eq!(back.expires_after, None);
    assert_eq!(get(&back.payload, "nonce"), Some(&uint(1)));
    let wrong = obj(vec![("action", obj(vec![("type", text("noop"))])), ("nonce", uint(1)), ("signature", sig.duplicate())]);
    assert_eq!(read_envelope(&meta, &wrong).err().unwrap(), "invalid action type: noop");
    let byte_vault = obj(vec![
        ("action", action.duplicate()),
        ("nonce", uint(1)),
        ("signature", sig.duplicate()),
        ("vaultAddress", JsonValue::Array((0..20).map(|i| uint(i as u64)).collect())),
    ]);
    let back = read_envelope(&meta, &byte_vault).unwrap();
    let mut bytes = [0u8; 20];
    for (i, b) in bytes.iter_mut().enumerate() {
        *b = i as u8;
    }
    assert_eq!(back.vault_address, Some(Address(bytes)));
    let short_vault = obj(vec![
        ("action", action.duplicate()),
        ("nonce", uint(1)),
        ("signature", sig.duplicate()),
        ("vaultAddress", JsonValue::Array(vec![uint(1), uint(2)])),
    ]);
    assert_eq!(
        read_envelope(&meta, &short_vault).err().unwrap(),
        "invalid value for `vaultAddress`, expected an address"
    );
}

#[test]
fn decimals_compare_by_value() {
    assert_eq!(Decimal::new(10, 1), Decimal::new(100, 2));
    assert_eq!(Decimal::new(1, 0), Decimal::new(1_000_000, 6));
    assert_eq!(Decimal::new(0, 0), Decimal::new(0, 28));
    assert_eq!(Decimal::new(-25, 1), Decimal::new(-250, 2));
    assert_ne!(Decimal::new(10, 1), Decimal::new(101, 2));
    assert_ne!(Decimal::new(1, 0), Decimal::new(-1, 0));
    assert_ne!(Decimal::new(i64::MAX, 0), Decimal::new(1, 28));
    let big = Decimal::try_from_i128_with_scale(79_228_162_514_264_337_593_543_950_335, 0).unwrap();
    assert_ne!(big, Decimal::new(1, 28));
    assert_eq!(big, big);
    assert_eq!(Decimal::new(10, 1).to_text(), "1.0");
    assert_eq!(Decimal::new(100, 2).to_text(), "1.00");
}


#[test]
fn multisig_order_does_not_matter() {
    let a = Address::repeat_byte(0x05);
    let mut b_bytes = [0x05u8; 20];
    b_bytes[19] = 0x04;
    let b = Address(b_bytes);
    let c = Address::repeat_byte(0xF0);
    let one = ConvertToMultiSigUser::new(vec![c, a, b], 2);
    let two = ConvertToMultiSigUser::new(vec![b, c, a], 2);
    assert_eq!(one.signers.authorized_users, two.signers.authorized_users);
    assert_eq!(one.signers.authorized_users, vec![b, a, c]);
    assert_eq!(one.signers.to_json_text(), two.signers.to_json_text());
}

#[test]
fn set_oracle_example_prices_are_sorted() {
    let prices = pairs(&[
        ("slob:TEST0", "10.45"),
        ("slob:TEST1", "10"),
        ("slob:TEST2", "10"),
        ("slob:BOOF", "420.69"),
        ("slob:YAMS", "420.0"),
    ]);
    let action = hl_rs::SetOracle {
        dex: "slob".to_string(),
        oracle_pxs: prices.clone(),
        mark_pxs: vec![prices.clone()],
        external_perp_pxs: prices,
        nonce: None,
    };
    let names = |v: &JsonValue| -> Vec<String> {
        match v {
            JsonValue::Array(items) => items
                .iter()
                .map(|p| match p {
                    JsonValue::Array(pair) => match &pair[0] {
                        JsonValue::String(s) => s.clone(),
                        other => panic!("unexpected {other:?}"),
                    },
                    other => panic!("unexpected {other:?}"),
                })
                .collect(),
            other => panic!("unexpected {other:?}"),
        }
    };
    let payload = action.wire_payload();
    let expected = vec!["slob:BOOF", "slob:TEST0", "slob:TEST1", "slob:TEST2", "slob:YAMS"];
    assert_eq!(names(get(&payload, "oraclePxs").unwrap()), expected);
    assert_eq!(names(get(&payload, "externalPerpPxs").unwrap()), expected);
    match get(&payload, "markPxs").unwrap() {
        JsonValue::Array(lists) => {
            assert_eq!(lists.len(), 1);
            assert_eq!(names(&lists[0]), expected);
        },
        other => panic!("unexpected {other:?}"),
    }
}
