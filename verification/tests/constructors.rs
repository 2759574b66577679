use hl_rs::actions::{
    Action, AgentEnableDexAbstraction, BatchModify, BatchOrder, BuilderInfo, CreateSubAccount,
    Genesis, Grouping, InsertMarginTable, LimitOrderType, NoOp, OrderType, OrderWire,
    RegisterHyperliquidity, RegisterSpot, RegisterToken, ScheduleCancel, SetDeployerFees,
    SetFeeRecipient, SetFundingMultipliers, SetGrowthModes, SetMarginTableIds,
    SetOpenInterestCaps, SetReferrer, SubAccountSpotTransfer, Tif, ToggleBigBlocks,
    UpdateIsolatedMargin, UpdateLeverage, UserGenesis, VaultTransfer,
};
use hl_rs::json::{JsonNumber, JsonValue};
use hl_rs::primitives::{Address, Decimal};
use hl_rs::signed::{current_timestamp_ms, PreparedAction};
use hl_rs::wire::{build_action_value, extract_action_payload_for, SigningChain};

fn text(s: &str) -> JsonValue {
    JsonValue::String(s.to_string())
}

fn num(n: i64) -> JsonValue {
    if n >= 0 {
        JsonValue::Number(JsonNumber::PosInt(n as u64))
    } else {
        JsonValue::Number(JsonNumber::NegInt(n))
    }
}

fn pair(a: &str, b: JsonValue) -> JsonValue {
    JsonValue::Array(vec![text(a), b])
}

fn order(asset: u32) -> OrderWire {
    OrderWire {
        a: asset,
        b: true,
        p: "100".to_string(),
        s: "1".to_string(),
        r: false,
        t: OrderType::Limit(LimitOrderType { tif: Tif::Gtc }),
        c: None,
    }
}

#[test]
fn l1_constructors() {
    assert!(AgentEnableDexAbstraction::new().nonce.is_none());
    assert_eq!(CreateSubAccount::new("trading").name, "trading");
    assert_eq!(NoOp::invalidate_nonce(42).nonce, Some(42));
    assert_eq!(SetReferrer::new("CODE").code, "CODE");
    let dep = SubAccountSpotTransfer::deposit(Address::repeat_byte(1), "PURR", Decimal::new(15, 1));
    assert!(dep.is_deposit);
    assert_eq!(dep.token, "PURR");
    assert!(!SubAccountSpotTransfer::withdraw(Address::zero(), "PURR", Decimal::new(1, 0)).is_deposit);
    let v = VaultTransfer::deposit(Address::repeat_byte(2), 1000);
    assert!(v.is_deposit);
    assert_eq!(v.usd, 1000);
    assert!(!VaultTransfer::withdraw(Address::zero(), 5).is_deposit);
    assert!(!ToggleBigBlocks::disable().using_big_blocks);
}

#[test]
fn trading_constructors() {
    let add = UpdateIsolatedMargin::add(3, true, 500);
    assert_eq!(add.ntli, 500);
    let remove = UpdateIsolatedMargin::remove(3, false, 500);
    assert_eq!(remove.ntli, -500);
    assert!(!remove.is_buy);
    let cross = UpdateLeverage::cross(1, 10);
    assert!(cross.is_cross);
    assert_eq!(cross.leverage, 10);
    assert!(!UpdateLeverage::isolated(1, 5).is_cross);
    assert_eq!(ScheduleCancel::at(123).time, Some(123));
    assert_eq!(ScheduleCancel::now().time, None);
    let batch = BatchOrder::new(vec![order(0), order(1)])
        .with_grouping(Grouping::NormalTpsl)
        .with_builder(BuilderInfo { b: "0xabc".to_string(), f: 10 });
    assert_eq!(batch.orders.len(), 2);
    assert_eq!(batch.grouping, Grouping::NormalTpsl);
    assert_eq!(batch.builder.as_ref().map(|b| b.f), Some(10));
    assert_eq!(BatchOrder::new(vec![]).grouping, Grouping::Na);
    let modify = BatchModify::single(9, order(4));
    assert_eq!(modify.modifies.len(), 1);
    assert_eq!(modify.modifies[0].oid, 9);
    assert_eq!(BatchOrder::meta().action_type, "order");
    assert_eq!(BatchOrder::meta().payload_key, "orders");
}

#[test]
fn deploy_constructors() {
    let table = InsertMarginTable::new("mydex", "tiers", vec![(0, 50), (100000, 20)]);
    assert_eq!(table.margin_table.margin_tiers.len(), 2);
    assert_eq!(table.margin_table.margin_tiers[1].lower_bound, 100000);
    assert_eq!(table.margin_table.margin_tiers[1].max_leverage, 20);
    assert_eq!(SetFeeRecipient::new("mydex", Address::zero()).dex, "mydex");
    let g = Genesis::new(7, "1000000", true);
    assert_eq!(g.max_supply, "1000000");
    let h = RegisterHyperliquidity::new(1, Decimal::new(1, 0), Decimal::new(5, 1), 10).with_seeded_levels(3);
    assert_eq!(h.n_seeded_levels, Some(3));
    assert_eq!(RegisterSpot::new(3, 0).tokens, [3, 0]);
    let t = RegisterToken::new("TKN", 2, 8, 1000, "Token");
    assert_eq!(t.spec.name, "TKN");
    assert_eq!(t.full_name, "Token");
    assert_eq!(SetDeployerFees::new(1, "0.5").share, "0.5");
    let u = UserGenesis::new(1, vec![("0x1".to_string(), "10".to_string())], vec![(2, "5".to_string())]);
    assert_eq!(u.user_and_wei.len(), 1);
    assert_eq!(RegisterToken::meta().payload_key, "registerToken2");
}

#[test]
fn deploy_pairs_are_named_and_sorted_on_the_wire() {
    let m = SetFundingMultipliers::new("MyDex", vec![("eth", "1.5".to_string()), ("btc", "2".to_string())]);
    assert_eq!(m.multipliers[0], ("mydex:ETH".to_string(), "1.5".to_string()));
    assert_eq!(
        m.wire_payload(),
        JsonValue::Array(vec![pair("mydex:BTC", text("2")), pair("mydex:ETH", text("1.5"))])
    );
    let g = SetGrowthModes::new("d", vec![("b", true), ("a", false)]);
    assert_eq!(
        g.wire_payload(),
        JsonValue::Array(vec![pair("d:A", JsonValue::Bool(false)), pair("d:B", JsonValue::Bool(true))])
    );
    let ids = SetMarginTableIds::new("d", vec![("z", -1), ("y", 3)]);
    assert_eq!(ids.wire_payload(), JsonValue::Array(vec![pair("d:Y", num(3)), pair("d:Z", num(-1))]));
    let caps = SetOpenInterestCaps::new("d", vec![("ETH", 5), ("BTC", 10)]);
    assert_eq!(caps.wire_payload(), JsonValue::Array(vec![pair("d:BTC", num(10)), pair("d:ETH", num(5))]));
}

#[test]
fn flat_l1_payload_reads_back() {
    let payload = JsonValue::Object(vec![("usingBigBlocks".to_string(), JsonValue::Bool(true))]);
    let meta = ToggleBigBlocks::meta();
    let built = build_action_value(&meta, payload.duplicate(), None).unwrap();
    let members = match &built {
        JsonValue::Object(m) => m,
        _ => panic!("built action is not an object"),
    };
    assert_eq!(extract_action_payload_for(&meta, members).unwrap(), payload);
}

#[test]
fn prepare_uses_the_clock_without_a_nonce() {
    let before = current_timestamp_ms().unwrap();
    let prepared = PreparedAction::new(ToggleBigBlocks::enable(), &SigningChain::Mainnet, None, None, |_, _| {
        Ok([0u8; 32])
    })
    .unwrap();
    let after = current_timestamp_ms().unwrap();
    assert!(before > 1_600_000_000_000);
    assert!(prepared.nonce >= before && prepared.nonce <= after);
    assert_eq!(prepared.action.nonce, Some(prepared.nonce));
    assert_eq!(prepared.signing_chain, SigningChain::Mainnet);
}

#[test]
fn prepare_at_a_given_time() {
    let vault = Some(Address::repeat_byte(0x11));
    let prepared = PreparedAction::new_at(
        ToggleBigBlocks::enable(),
        &SigningChain::Testnet,
        vault,
        Some(77),
        1_234,
        |a: &ToggleBigBlocks, m| {
            assert_eq!(a.nonce, Some(1_234));
            assert_eq!(m.nonce, 1_234);
            Ok([7u8; 32])
        },
    )
    .unwrap();
    assert_eq!(prepared.nonce, 1_234);
    assert_eq!(prepared.action.nonce, Some(1_234));
    assert_eq!(prepared.vault_address, vault);
    assert_eq!(prepared.expires_after, Some(77));
    assert_eq!(prepared.signing_chain, SigningChain::Testnet);
    assert_eq!(prepared.signing_hash(), [7u8; 32]);

    let mut own = ToggleBigBlocks::enable();
    own.nonce = Some(42);
    let kept = PreparedAction::new_at(own, &SigningChain::Mainnet, None, None, 1_234, |_, m| {
        assert_eq!(m.nonce, 42);
        Ok([0u8; 32])
    })
    .unwrap();
    assert_eq!(kept.nonce, 42);
}

#[test]
fn prepare_passes_the_hasher_error_on() {
    let err = PreparedAction::new_at(ToggleBigBlocks::enable(), &SigningChain::Mainnet, None, None, 5, |_, _| {
        Err(hl_rs::Error::SignatureFailure("no hash".to_string()))
    })
    .err()
    .unwrap();
    assert_eq!(err, hl_rs::Error::SignatureFailure("no hash".to_string()));
}
