use copytrader::exit::{
    check_trailing_stop_loss, decide_exit, get_retracement_levels, Decision, SellReason,
};

#[test]
fn flat_position_holds() {
    let (d, tier) = decide_exit(0, 0, 0, &Vec::new());
    assert_eq!(d, Decision::Hold);
    assert_eq!(tier, None);
}

#[test]
fn retracement_tier_fires_after_long_hold() {
    // peak 1200, current 1100: an 8% drop; the 1000-threshold rung triggers
    // at 5% and sells 40%
    let (d, tier) = decide_exit(1100, 1200, 400, &Vec::new());
    assert_eq!(d, Decision::PartialSell(40));
    assert_eq!(tier, None);
}

#[test]
fn trailing_stop_fires_on_deep_drop() {
    // peak 60, current 20: below 40% of the peak, held only 10 s so the
    // retracement rule is inactive
    assert!(check_trailing_stop_loss(20, 60));
    let (d, tier) = decide_exit(20, 60, 10, &Vec::new());
    assert_eq!(d, Decision::FullSell(SellReason::TrailingStop));
    assert_eq!(tier, None);
}

#[test]
fn trailing_stop_quiet_when_peak_low() {
    assert!(!check_trailing_stop_loss(1, 10));
    assert!(!check_trailing_stop_loss(5, 11));
    assert!(check_trailing_stop_loss(4, 11));
}

#[test]
fn take_profit_tier_consumed_once() {
    // 25% PNL reaches the (20, 10) tier
    let (d, tier) = decide_exit(25, 25, 0, &Vec::new());
    assert_eq!(d, Decision::PartialSell(10));
    assert_eq!(tier, Some(20));
    // once completed, the same inputs hold
    let completed = vec![20];
    let (d2, tier2) = decide_exit(25, 25, 0, &completed);
    assert_eq!(d2, Decision::Hold);
    assert_eq!(tier2, None);
}

#[test]
fn top_take_profit_tier_sells_all() {
    let (d, tier) = decide_exit(2500, 2500, 0, &Vec::new());
    assert_eq!(d, Decision::FullSell(SellReason::TakeProfit));
    assert_eq!(tier, Some(2000));
}

#[test]
fn trailing_stop_preempts_emergency_exit() {
    // whenever the emergency conditions hold (peak above 100, current below
    // 20) the current PNL is already under 40% of the peak, so the earlier
    // trailing-stop rule is the one that fires
    let completed = vec![2000, 1500, 1000, 800, 600, 400, 300, 250, 200, 120, 80, 50, 20];
    let (d, tier) = decide_exit(5, 150, 10, &completed);
    assert_eq!(d, Decision::FullSell(SellReason::TrailingStop));
    assert_eq!(tier, None);
}

#[test]
fn ladder_choice_follows_pnl_and_time() {
    // freshly held: the standard ladder, 14 rungs
    assert_eq!(get_retracement_levels(1000, 10).len(), 14);
    // long hold, high PNL: the aggressive ladder, 10 rungs
    assert_eq!(get_retracement_levels(600, 100).len(), 10);
    // long hold, medium PNL: 11 rungs
    assert_eq!(get_retracement_levels(300, 100).len(), 11);
    // long hold, low PNL: the standard ladder again
    let std_ladder = get_retracement_levels(100, 100);
    assert_eq!(std_ladder.len(), 14);
    assert_eq!(std_ladder[0].threshold, 2000);
    assert_eq!(std_ladder[0].percentage, 3);
    assert_eq!(std_ladder[0].sell_amount, 100);
    assert_eq!(std_ladder[13].threshold, 20);
    assert_eq!(std_ladder[13].percentage, 42);
    assert_eq!(std_ladder[13].sell_amount, 100);
}

#[test]
fn deep_retracement_rung_sells_all() {
    // current 30 (rung threshold 30, trigger 30%), peak 60: 50% drop
    let (d, _) = decide_exit(30, 60, 400, &Vec::new());
    assert_eq!(d, Decision::PartialSell(10));
    // current 21 (rung threshold 20, trigger 42%), peak 60: 65% drop
    let (d2, _) = decide_exit(21, 60, 400, &Vec::new());
    assert_eq!(d2, Decision::FullSell(SellReason::Retracement));
}
