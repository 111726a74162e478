use copytrader::engine::{choose_buy_amount, pnl_pct, BuyVerdict, Engine};
use copytrader::exit::{Decision, SellReason};
use copytrader::positions::{Position, Status};
use copytrader::trade::{InstructionType, TradeInfoFromToken};

fn buy_event(mint: &str, target: &str, volume_change: i64) -> TradeInfoFromToken {
    TradeInfoFromToken {
        instruction_type: InstructionType::PumpBuy,
        slot: 1,
        recent_blockhash: vec![0; 32],
        signature: "sig".to_string(),
        target: target.to_string(),
        mint: mint.to_string(),
        bonding_curve: String::new(),
        volume_change,
        bonding_curve_info: None,
        pool_info: None,
        token_amount: 0,
        amount: None,
        max_sol_cost: None,
        min_sol_output: None,
        base_amount_in: None,
        min_quote_amount_out: None,
        base_amount_out: None,
        max_quote_amount_in: None,
    }
}

fn leaders() -> Vec<String> {
    vec!["L".to_string()]
}

#[test]
fn copy_buy_accepted() {
    // leader L buys 5 SOL worth; gate open, store empty
    let mut e = Engine::new();
    let ev = buy_event("M", "L", -5_000_000_000);
    assert_eq!(e.evaluate_buy(&ev, &leaders(), 0, 100), BuyVerdict::Proceed);
    e.begin_buy();
    assert!(!e.buying_enabled);
    e.finish_buy_success("M".to_string(), 700, 1_000);
    let p = e.store.find(&"M".to_string()).expect("position exists");
    assert_eq!(p.status, Status::Bought);
    assert_eq!(p.buy_price, 700);
    assert!(!e.buying_enabled);
}

#[test]
fn duplicate_mint_rejected() {
    let mut e = Engine::new();
    e.store.insert(Position {
        mint: "M".to_string(),
        buy_price: 1,
        sell_price: 0,
        status: Status::Sold,
        opened_at: Some(0),
    });
    let ev = buy_event("M", "L", -5_000_000_000);
    assert_eq!(e.evaluate_buy(&ev, &leaders(), 0, 100), BuyVerdict::Duplicate);
    // the verdict is pure: the buy gate did not move
    assert!(e.buying_enabled);
}

#[test]
fn amount_filter_rejects_oversized_buy() {
    let e = Engine::new();
    // 200 SOL moved, maximum 10
    let ev = buy_event("M", "L", -200_000_000_000);
    assert_eq!(e.evaluate_buy(&ev, &leaders(), 0, 10), BuyVerdict::AmountAboveMax);
    // 1 SOL moved, minimum 2
    let small = buy_event("M", "L", -1_000_000_000);
    assert_eq!(e.evaluate_buy(&small, &leaders(), 2, 10), BuyVerdict::AmountBelowMin);
}

#[test]
fn non_buys_and_strangers_ignored() {
    let e = Engine::new();
    let mut sell = buy_event("M", "L", -5_000_000_000);
    sell.instruction_type = InstructionType::PumpSell;
    assert_eq!(e.evaluate_buy(&sell, &leaders(), 0, 100), BuyVerdict::NotBuy);
    let stranger = buy_event("M", "X", -5_000_000_000);
    assert_eq!(e.evaluate_buy(&stranger, &leaders(), 0, 100), BuyVerdict::NotLeader);
}

#[test]
fn closed_gate_rejects() {
    let mut e = Engine::new();
    e.begin_buy();
    e.finish_buy_success("OTHER".to_string(), 1, 0);
    let ev = buy_event("M", "L", -5_000_000_000);
    assert_eq!(e.evaluate_buy(&ev, &leaders(), 0, 100), BuyVerdict::BuyingDisabled);
}

#[test]
fn failed_buy_reopens_gate() {
    let mut e = Engine::new();
    e.begin_buy();
    e.finish_buy_failure("M".to_string());
    assert!(e.buying_enabled);
    let p = e.store.find(&"M".to_string()).expect("failure recorded");
    assert_eq!(p.status, Status::Failure);
    // a Failure record does not block a new buy of another mint
    let ev = buy_event("N", "L", -5_000_000_000);
    assert_eq!(e.evaluate_buy(&ev, &leaders(), 0, 100), BuyVerdict::Proceed);
}

#[test]
fn force_sell_timeout_then_gate_reopens() {
    // opened at t=0 with a 60 s limit; at t=61 s the sweep names the mint,
    // and a completed full sell turns it Sold and reopens the buy gate
    let mut e = Engine::new();
    e.begin_buy();
    e.finish_buy_success("M".to_string(), 500, 0);
    let timed_out = e.reconcile(61_000, 60_000);
    assert_eq!(timed_out, vec!["M".to_string()]);
    assert!(!e.buying_enabled);
    e.on_full_sell_success(&"M".to_string(), 900, 61_500);
    let p = e.store.find(&"M".to_string()).expect("record kept");
    assert_eq!(p.status, Status::Sold);
    assert_eq!(p.buy_price, 500);
    assert_eq!(p.sell_price, 900);
    assert!(e.buying_enabled);
    // sold exactly once: the next sweep no longer selects the mint
    let again = e.reconcile(200_000, 60_000);
    assert!(again.is_empty());
    // and a PNL tick on it holds without touching anything
    assert_eq!(e.pnl_tick(&"M".to_string(), 1, 200_000), Decision::Hold);
}

#[test]
fn sweep_leaves_fresh_positions_alone() {
    let mut e = Engine::new();
    e.begin_buy();
    e.finish_buy_success("M".to_string(), 500, 0);
    let timed_out = e.reconcile(59_000, 60_000);
    assert!(timed_out.is_empty());
    assert!(!e.buying_enabled);
}

#[test]
fn gate_mirrors_exposure_between_transitions() {
    let mut e = Engine::new();
    assert!(e.buying_enabled);
    e.begin_buy();
    e.finish_buy_success("M".to_string(), 100, 0);
    assert_eq!(e.buying_enabled, false);
    e.on_full_sell_success(&"M".to_string(), 100, 1_000);
    assert_eq!(e.buying_enabled, true);
    e.begin_buy();
    e.finish_buy_failure("N".to_string());
    assert_eq!(e.buying_enabled, true);
}

#[test]
fn at_most_one_record_per_mint() {
    let mut e = Engine::new();
    e.begin_buy();
    e.finish_buy_success("M".to_string(), 100, 0);
    e.begin_buy();
    e.finish_buy_success("M".to_string(), 200, 5);
    assert_eq!(e.store.snapshot().len(), 1);
    assert_eq!(e.store.find(&"M".to_string()).unwrap().buy_price, 200);
}

#[test]
fn pnl_tick_peak_rises_and_tier_fires_once() {
    let mut e = Engine::new();
    e.begin_buy();
    e.finish_buy_success("M".to_string(), 100, 0);
    // price 125: PNL 25%, the (20, 10) take-profit tier fires
    let d1 = e.pnl_tick(&"M".to_string(), 125, 5_000);
    assert_eq!(d1, Decision::PartialSell(10));
    // same price again: the tier is consumed, nothing else fires
    let d2 = e.pnl_tick(&"M".to_string(), 125, 10_000);
    assert_eq!(d2, Decision::Hold);
    // price falls to 9: PNL -91%, far under 40% of the 25% peak
    let d3 = e.pnl_tick(&"M".to_string(), 9, 15_000);
    assert_eq!(d3, Decision::FullSell(SellReason::TrailingStop));
}

#[test]
fn pnl_pct_is_floored_percent_change() {
    assert_eq!(pnl_pct(100, 125), 25);
    assert_eq!(pnl_pct(100, 100), 0);
    assert_eq!(pnl_pct(100, 50), -50);
    assert_eq!(pnl_pct(100, 0), -100);
    assert_eq!(pnl_pct(0, 1_000), 0);
    assert_eq!(pnl_pct(3, 10), 233);
}

#[test]
fn buy_amount_matches_leader_size_when_smaller() {
    // leader holds 2 units (billionths) after spending 5: match the 2
    assert_eq!(choose_buy_amount(7, 2, -5), 2);
    // leader's balance unknown or larger: the configured amount stands
    assert_eq!(choose_buy_amount(7, 0, -5), 7);
    assert_eq!(choose_buy_amount(7, 9, -5), 7);
}
