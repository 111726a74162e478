//! Exit policy for an open position. Four rules are tried in order: the
//! retracement ladders (only after five minutes held), the trailing stop,
//! the tiered take-profit (each tier at most once per position), and the
//! emergency exit; otherwise the position is held.
//!
//! PNL values are percentages relative to the entry price, carried as signed
//! integers (a position down 30% has PNL -30). The trailing-stop ratio is
//! compared by cross-multiplication and the retracement ratio by a floored
//! division against an integer trigger, both exact.

use vstd::prelude::*;

verus! {

/// One rung of a retracement ladder: if the current PNL is at least
/// `threshold`, a drop of `percentage` percent from the peak PNL sells
/// `sell_amount` percent of the holding.
#[derive(Debug, Clone, Copy, PartialEq, Eq, Structural)]
pub struct RetracementLevel {
    pub percentage: u64,
    pub threshold: u64,
    pub sell_amount: u64,
}

/// Why a full sell was decided.
#[derive(Debug, Clone, Copy, PartialEq, Eq, Structural)]
pub enum SellReason {
    /// A retracement ladder rung selling the whole holding fired.
    Retracement,
    /// The trailing stop fired.
    TrailingStop,
    /// A take-profit tier selling the whole holding fired.
    TakeProfit,
    /// The emergency exit fired.
    Emergency,
    /// The position exceeded the maximum holding time.
    Timeout,
}

/// What to do with an open position.
#[derive(Debug, Clone, Copy, PartialEq, Eq, Structural)]
pub enum Decision {
    /// Keep holding.
    Hold,
    /// Sell this percentage of the holding.
    PartialSell(u64),
    /// Sell the whole holding.
    FullSell(SellReason),
}

/// The standard retracement ladder, also used for freshly opened positions:
/// `(retracement trigger %, required PNL threshold %, sell %)` from the
/// highest PNL band down.
pub open spec fn standard_ladder_spec() -> Seq<RetracementLevel> {
    seq![
        RetracementLevel { percentage: 3, threshold: 2000, sell_amount: 100 },
        RetracementLevel { percentage: 4, threshold: 1500, sell_amount: 50 },
        RetracementLevel { percentage: 5, threshold: 1000, sell_amount: 40 },
        RetracementLevel { percentage: 6, threshold: 800, sell_amount: 35 },
        RetracementLevel { percentage: 6, threshold: 700, sell_amount: 35 },
        RetracementLevel { percentage: 6, threshold: 600, sell_amount: 30 },
        RetracementLevel { percentage: 7, threshold: 500, sell_amount: 30 },
        RetracementLevel { percentage: 7, threshold: 400, sell_amount: 30 },
        RetracementLevel { percentage: 8, threshold: 300, sell_amount: 20 },
        RetracementLevel { percentage: 10, threshold: 200, sell_amount: 15 },
        RetracementLevel { percentage: 12, threshold: 100, sell_amount: 15 },
        RetracementLevel { percentage: 20, threshold: 50, sell_amount: 10 },
        RetracementLevel { percentage: 30, threshold: 30, sell_amount: 10 },
        RetracementLevel { percentage: 42, threshold: 20, sell_amount: 100 },
    ]
}

/// The aggressive ladder, for positions up more than 500% after a longer
/// hold: tighter triggers, ending in a full sell at any 20% gain.
pub open spec fn aggressive_ladder_spec() -> Seq<RetracementLevel> {
    seq![
        RetracementLevel { percentage: 3, threshold: 2000, sell_amount: 100 },
        RetracementLevel { percentage: 4, threshold: 1500, sell_amount: 50 },
        RetracementLevel { percentage: 5, threshold: 1000, sell_amount: 40 },
        RetracementLevel { percentage: 6, threshold: 800, sell_amount: 35 },
        RetracementLevel { percentage: 6, threshold: 700, sell_amount: 35 },
        RetracementLevel { percentage: 6, threshold: 600, sell_amount: 30 },
        RetracementLevel { percentage: 7, threshold: 500, sell_amount: 30 },
        RetracementLevel { percentage: 7, threshold: 400, sell_amount: 30 },
        RetracementLevel { percentage: 8, threshold: 300, sell_amount: 20 },
        RetracementLevel { percentage: 15, threshold: 20, sell_amount: 100 },
    ]
}

/// The medium ladder, for positions up more than 200% after a longer hold.
pub open spec fn medium_ladder_spec() -> Seq<RetracementLevel> {
    seq![
        RetracementLevel { percentage: 3, threshold: 2000, sell_amount: 100 },
        RetracementLevel { percentage: 4, threshold: 1500, sell_amount: 50 },
        RetracementLevel { percentage: 5, threshold: 1000, sell_amount: 40 },
        RetracementLevel { percentage: 6, threshold: 800, sell_amount: 35 },
        RetracementLevel { percentage: 6, threshold: 700, sell_amount: 35 },
        RetracementLevel { percentage: 8, threshold: 600, sell_amount: 30 },
        RetracementLevel { percentage: 10, threshold: 500, sell_amount: 30 },
        RetracementLevel { percentage: 10, threshold: 400, sell_amount: 30 },
        RetracementLevel { percentage: 10, threshold: 300, sell_amount: 20 },
        RetracementLevel { percentage: 10, threshold: 200, sell_amount: 20 },
        RetracementLevel { percentage: 20, threshold: 20, sell_amount: 100 },
    ]
}

/// The ladder the retracement rule uses: the standard ladder for a freshly
/// opened position (held at most 30 s), the aggressive one above 500% PNL,
/// the medium one above 200%, and the standard one otherwise.
pub open spec fn retracement_levels_spec(current_pnl: int, time_elapsed_seconds: int) -> Seq<
    RetracementLevel,
> {
    if time_elapsed_seconds <= 30 {
        standard_ladder_spec()
    } else if current_pnl > 500 {
        aggressive_ladder_spec()
    } else if current_pnl > 200 {
        medium_ladder_spec()
    } else {
        standard_ladder_spec()
    }
}

/// The standard ladder, executable form.
pub fn standard_ladder() -> (r: Vec<RetracementLevel>)
    ensures
        r@ == standard_ladder_spec(),
{
    let v: Vec<RetracementLevel> = vec![
        RetracementLevel { percentage: 3, threshold: 2000, sell_amount: 100 },
        RetracementLevel { percentage: 4, threshold: 1500, sell_amount: 50 },
        RetracementLevel { percentage: 5, threshold: 1000, sell_amount: 40 },
        RetracementLevel { percentage: 6, threshold: 800, sell_amount: 35 },
        RetracementLevel { percentage: 6, threshold: 700, sell_amount: 35 },
        RetracementLevel { percentage: 6, threshold: 600, sell_amount: 30 },
        RetracementLevel { percentage: 7, threshold: 500, sell_amount: 30 },
        RetracementLevel { percentage: 7, threshold: 400, sell_amount: 30 },
        RetracementLevel { percentage: 8, threshold: 300, sell_amount: 20 },
        RetracementLevel { percentage: 10, threshold: 200, sell_amount: 15 },
        RetracementLevel { percentage: 12, threshold: 100, sell_amount: 15 },
        RetracementLevel { percentage: 20, threshold: 50, sell_amount: 10 },
        RetracementLevel { percentage: 30, threshold: 30, sell_amount: 10 },
        RetracementLevel { percentage: 42, threshold: 20, sell_amount: 100 },
    ];
    proof {
        assert(v@ =~= standard_ladder_spec());
    }
    v
}

/// The ladder for the position's PNL and holding time.
pub fn get_retracement_levels(current_pnl: i64, time_elapsed_seconds: u64) -> (r: Vec<
    RetracementLevel,
>)
    ensures
        r@ == retracement_levels_spec(current_pnl as int, time_elapsed_seconds as int),
{
    if time_elapsed_seconds <= 30 {
        standard_ladder()
    } else if current_pnl > 500 {
        let v: Vec<RetracementLevel> = vec![
            RetracementLevel { percentage: 3, threshold: 2000, sell_amount: 100 },
            RetracementLevel { percentage: 4, threshold: 1500, sell_amount: 50 },
            RetracementLevel { percentage: 5, threshold: 1000, sell_amount: 40 },
            RetracementLevel { percentage: 6, threshold: 800, sell_amount: 35 },
            RetracementLevel { percentage: 6, threshold: 700, sell_amount: 35 },
            RetracementLevel { percentage: 6, threshold: 600, sell_amount: 30 },
            RetracementLevel { percentage: 7, threshold: 500, sell_amount: 30 },
            RetracementLevel { percentage: 7, threshold: 400, sell_amount: 30 },
            RetracementLevel { percentage: 8, threshold: 300, sell_amount: 20 },
            RetracementLevel { percentage: 15, threshold: 20, sell_amount: 100 },
        ];
        proof {
            assert(v@ =~= aggressive_ladder_spec());
        }
        v
    } else if current_pnl > 200 {
        let v: Vec<RetracementLevel> = vec![
            RetracementLevel { percentage: 3, threshold: 2000, sell_amount: 100 },
            RetracementLevel { percentage: 4, threshold: 1500, sell_amount: 50 },
            RetracementLevel { percentage: 5, threshold: 1000, sell_amount: 40 },
            RetracementLevel { percentage: 6, threshold: 800, sell_amount: 35 },
            RetracementLevel { percentage: 6, threshold: 700, sell_amount: 35 },
            RetracementLevel { percentage: 8, threshold: 600, sell_amount: 30 },
            RetracementLevel { percentage: 10, threshold: 500, sell_amount: 30 },
            RetracementLevel { percentage: 10, threshold: 400, sell_amount: 30 },
            RetracementLevel { percentage: 10, threshold: 300, sell_amount: 20 },
            RetracementLevel { percentage: 10, threshold: 200, sell_amount: 20 },
            RetracementLevel { percentage: 20, threshold: 20, sell_amount: 100 },
        ];
        proof {
            assert(v@ =~= medium_ladder_spec());
        }
        v
    } else {
        standard_ladder()
    }
}

/// The take-profit tiers `(PNL threshold %, sell %)`, highest first. A
/// tier's threshold doubles as its identity in the completed set.
pub open spec fn take_profit_levels_spec() -> Seq<(u64, u64)> {
    seq![
        (2000u64, 100u64),
        (1500u64, 40u64),
        (1000u64, 40u64),
        (800u64, 20u64),
        (600u64, 20u64),
        (400u64, 20u64),
        (300u64, 20u64),
        (250u64, 20u64),
        (200u64, 20u64),
        (120u64, 20u64),
        (80u64, 20u64),
        (50u64, 10u64),
        (20u64, 10u64),
    ]
}

/// The take-profit tiers, executable form.
pub fn take_profit_levels() -> (r: Vec<(u64, u64)>)
    ensures
        r@ == take_profit_levels_spec(),
{
    let v: Vec<(u64, u64)> = vec![
        (2000u64, 100u64),
        (1500u64, 40u64),
        (1000u64, 40u64),
        (800u64, 20u64),
        (600u64, 20u64),
        (400u64, 20u64),
        (300u64, 20u64),
        (250u64, 20u64),
        (200u64, 20u64),
        (120u64, 20u64),
        (80u64, 20u64),
        (50u64, 10u64),
        (20u64, 10u64),
    ];
    proof {
        assert(v@ =~= take_profit_levels_spec());
    }
    v
}

/// Whether the trailing stop fires: the peak PNL exceeded 10% and the
/// current PNL has fallen below 40% of that peak.
pub open spec fn spec_trailing_stop(current_pnl: int, top_pnl: int) -> bool {
    top_pnl > 10 && 10 * current_pnl < 4 * top_pnl
}

/// Trailing stop check: peak above 10% and current PNL under 0.4 of the
/// peak.
pub fn check_trailing_stop_loss(current_pnl: i64, top_pnl: i64) -> (r: bool)
    ensures
        r == spec_trailing_stop(current_pnl as int, top_pnl as int),
{
    top_pnl > 10 && 10 * (current_pnl as i128) < 4 * (top_pnl as i128)
}

/// The first ladder rung whose PNL threshold the current PNL reaches.
pub open spec fn ladder_tier(ls: Seq<RetracementLevel>, pnl: int, i: int) -> Option<
    RetracementLevel,
>
    decreases ls.len() - i,
{
    if i < 0 || i >= ls.len() {
        None
    } else if pnl >= ls[i].threshold {
        Some(ls[i])
    } else {
        ladder_tier(ls, pnl, i + 1)
    }
}

/// The retracement from the peak reaches the rung's trigger: with a
/// positive peak, `(peak - pnl) * 100 / peak >= trigger`, which (the
/// trigger being an integer) says exactly that the ratio of the drop to the
/// peak reaches the trigger percentage. A non-positive peak never triggers.
pub open spec fn retracement_triggers(l: RetracementLevel, pnl: int, peak: int) -> bool {
    peak > 0 && (peak - pnl) * 100 / peak >= l.percentage
}

/// The retracement rule: only after five minutes held, the rung for the
/// current PNL band fires when the drop from the peak reaches its trigger.
pub open spec fn retracement_decision(pnl: int, peak: int, secs: int) -> Option<u64> {
    if secs > 300 {
        match ladder_tier(retracement_levels_spec(pnl, secs), pnl, 0) {
            Some(l) => if retracement_triggers(l, pnl, peak) {
                Some(l.sell_amount)
            } else {
                None
            },
            None => None,
        }
    } else {
        None
    }
}

/// The first take-profit tier at or below the current PNL that has not
/// fired yet.
pub open spec fn take_profit_tier(
    tps: Seq<(u64, u64)>,
    pnl: int,
    completed: Seq<u64>,
    i: int,
) -> Option<(u64, u64)>
    decreases tps.len() - i,
{
    if i < 0 || i >= tps.len() {
        None
    } else if pnl >= tps[i].0 && !completed.contains(tps[i].0) {
        Some(tps[i])
    } else {
        take_profit_tier(tps, pnl, completed, i + 1)
    }
}

/// A sell of `pct` percent: the whole holding when `pct` reaches 100.
pub open spec fn sell_decision(pct: u64, reason: SellReason) -> Decision {
    if pct >= 100 {
        Decision::FullSell(reason)
    } else {
        Decision::PartialSell(pct)
    }
}

/// The exit decision for one position and tick, and the take-profit tier
/// it consumes, if any: retracement, then trailing stop, then take-profit,
/// then emergency exit, else hold.
pub open spec fn decide_exit_spec(pnl: int, peak: int, secs: int, completed: Seq<u64>) -> (
    Decision,
    Option<u64>,
) {
    match retracement_decision(pnl, peak, secs) {
        Some(pct) => (sell_decision(pct, SellReason::Retracement), None::<u64>),
        None => if spec_trailing_stop(pnl, peak) {
            (Decision::FullSell(SellReason::TrailingStop), None::<u64>)
        } else {
            match take_profit_tier(take_profit_levels_spec(), pnl, completed, 0) {
                Some(tp) => (sell_decision(tp.1, SellReason::TakeProfit), Some(tp.0)),
                None => if peak > 100 && pnl < 20 {
                    (Decision::FullSell(SellReason::Emergency), None::<u64>)
                } else {
                    (Decision::Hold, None::<u64>)
                },
            }
        },
    }
}

/// Whether `completed` records tier `x`.
fn contains_u64(v: &Vec<u64>, x: u64) -> (r: bool)
    ensures
        r == v@.contains(x),
{
    let mut i: usize = 0;
    while i < v.len()
        invariant
            0 <= i <= v@.len(),
            forall|k: int| 0 <= k < i ==> v@[k] != x,
        decreases v@.len() - i,
    {
        if v[i] == x {
            return true;
        }
        i = i + 1;
    }
    proof {
        assert(forall|k: int| 0 <= k < v@.len() ==> v@[k] != x);
    }
    false
}

/// The first rung whose threshold the PNL reaches, by scanning the ladder.
fn ladder_tier_exec(ladder: &Vec<RetracementLevel>, pnl: i64) -> (r: Option<RetracementLevel>)
    ensures
        match r {
            Some(l) => ladder_tier(ladder@, pnl as int, 0) == Some(l),
            None => ladder_tier(ladder@, pnl as int, 0) is None,
        },
{
    let mut i: usize = 0;
    while i < ladder.len()
        invariant
            0 <= i <= ladder@.len(),
            ladder_tier(ladder@, pnl as int, 0) == ladder_tier(ladder@, pnl as int, i as int),
        decreases ladder@.len() - i,
    {
        if pnl >= 0 && ladder[i].threshold <= pnl as u64 {
            return Some(ladder[i]);
        }
        i = i + 1;
    }
    None
}

/// Every rung of every ladder has a positive trigger percentage.
proof fn lemma_ladders_pct()
    ensures
        forall|k: int|
            0 <= k < standard_ladder_spec().len() ==> (#[trigger] standard_ladder_spec()[k].percentage)
                >= 1,
        forall|k: int|
            0 <= k < aggressive_ladder_spec().len() ==> (
            #[trigger] aggressive_ladder_spec()[k].percentage) >= 1,
        forall|k: int|
            0 <= k < medium_ladder_spec().len() ==> (#[trigger] medium_ladder_spec()[k].percentage)
                >= 1,
{
}

/// A rung the ladder scan picks keeps its ladder's positive trigger.
proof fn lemma_ladder_tier_pct(ls: Seq<RetracementLevel>, pnl: int, i: int)
    requires
        forall|k: int| 0 <= k < ls.len() ==> (#[trigger] ls[k].percentage) >= 1,
    ensures
        ladder_tier(ls, pnl, i) matches Some(l) ==> l.percentage >= 1,
    decreases ls.len() - i,
{
    if i < 0 || i >= ls.len() {
    } else if pnl >= ls[i].threshold {
    } else {
        lemma_ladder_tier_pct(ls, pnl, i + 1);
    }
}

/// Whether a rung's trigger is reached, computed without signed division.
fn retracement_triggers_exec(l: RetracementLevel, pnl: i64, peak: i64) -> (r: bool)
    requires
        1 <= l.percentage,
    ensures
        r == retracement_triggers(l, pnl as int, peak as int),
{
    if peak <= 0 {
        return false;
    }
    if pnl >= peak {
        proof {
            assert(((peak as int - pnl as int) * 100) / (peak as int) <= 0) by (nonlinear_arith)
                requires
                    peak as int > 0,
                    pnl as int >= peak as int,
            {}
        }
        return false;
    }
    let num: u128 = (((peak as i128) - (pnl as i128))) as u128;
    let q: u128 = num * 100 / (peak as u128);
    q >= l.percentage as u128
}

/// The retracement rule, executable form.
fn retracement_decision_exec(pnl: i64, peak: i64, secs: u64) -> (r: Option<u64>)
    ensures
        r == retracement_decision(pnl as int, peak as int, secs as int),
{
    if secs <= 300 {
        return None;
    }
    let ladder = get_retracement_levels(pnl, secs);
    match ladder_tier_exec(&ladder, pnl) {
        Some(l) => {
            proof {
                lemma_ladders_pct();
                lemma_ladder_tier_pct(ladder@, pnl as int, 0);
            }
            if retracement_triggers_exec(l, pnl, peak) {
                Some(l.sell_amount)
            } else {
                None
            }
        },
        None => None,
    }
}

/// The first take-profit tier at or below the PNL not yet completed, by
/// scanning the tiers.
fn take_profit_tier_exec(pnl: i64, completed: &Vec<u64>) -> (r: Option<(u64, u64)>)
    ensures
        match r {
            Some(tp) => take_profit_tier(take_profit_levels_spec(), pnl as int, completed@, 0)
                == Some(tp),
            None => take_profit_tier(take_profit_levels_spec(), pnl as int, completed@, 0)
                is None,
        },
{
    let tps = take_profit_levels();
    let mut j: usize = 0;
    while j < tps.len()
        invariant
            0 <= j <= tps@.len(),
            tps@ == take_profit_levels_spec(),
            take_profit_tier(take_profit_levels_spec(), pnl as int, completed@, 0)
                == take_profit_tier(take_profit_levels_spec(), pnl as int, completed@, j as int),
        decreases tps@.len() - j,
    {
        let (th, pct) = tps[j];
        if pnl >= 0 && th <= pnl as u64 && !contains_u64(completed, th) {
            return Some((th, pct));
        }
        j = j + 1;
    }
    None
}

/// Decide the exit action for one position and tick. Returns the decision
/// and the take-profit tier it consumes, if any; a consumed tier is never
/// one already in `completed`.
pub fn decide_exit(
    current_pnl: i64,
    peak_pnl: i64,
    time_held_secs: u64,
    completed: &Vec<u64>,
) -> (r: (Decision, Option<u64>))
    ensures
        r == decide_exit_spec(
            current_pnl as int,
            peak_pnl as int,
            time_held_secs as int,
            completed@,
        ),
        r.1 matches Some(th) ==> !completed@.contains(th),
{
    proof {
        lemma_take_profit_tier_fresh(
            take_profit_levels_spec(),
            current_pnl as int,
            completed@,
            0,
        );
    }
    match retracement_decision_exec(current_pnl, peak_pnl, time_held_secs) {
        Some(pct) => (sell_decision_exec(pct, SellReason::Retracement), None),
        None => {
            if check_trailing_stop_loss(current_pnl, peak_pnl) {
                return (Decision::FullSell(SellReason::TrailingStop), None);
            }
            match take_profit_tier_exec(current_pnl, completed) {
                Some((th, pct)) => (sell_decision_exec(pct, SellReason::TakeProfit), Some(th)),
                None => {
                    if peak_pnl > 100 && current_pnl < 20 {
                        return (Decision::FullSell(SellReason::Emergency), None);
                    }
                    (Decision::Hold, None)
                },
            }
        },
    }
}

/// Build a sell decision from a percentage.
fn sell_decision_exec(pct: u64, reason: SellReason) -> (r: Decision)
    ensures
        r == sell_decision(pct, reason),
{
    if pct >= 100 {
        Decision::FullSell(reason)
    } else {
        Decision::PartialSell(pct)
    }
}

/// A tier the scan picks is never one already completed.
pub proof fn lemma_take_profit_tier_fresh(
    tps: Seq<(u64, u64)>,
    pnl: int,
    completed: Seq<u64>,
    i: int,
)
    ensures
        take_profit_tier(tps, pnl, completed, i) matches Some(tp) ==> !completed.contains(tp.0),
    decreases tps.len() - i,
{
    if i < 0 || i >= tps.len() {
    } else if pnl >= tps[i].0 && !completed.contains(tps[i].0) {
    } else {
        lemma_take_profit_tier_fresh(tps, pnl, completed, i + 1);
    }
}

/// A take-profit tier fires at most once per position: once a decision has
/// consumed tier `th` and `th` is recorded as completed, no later decision
/// on the enlarged record consumes `th` again, whatever the later PNL,
/// peak, or holding time.
pub proof fn lemma_take_profit_once(
    pnl1: int,
    peak1: int,
    secs1: int,
    pnl2: int,
    peak2: int,
    secs2: int,
    completed: Seq<u64>,
    th: u64,
)
    requires
        decide_exit_spec(pnl1, peak1, secs1, completed).1 == Some(th),
    ensures
        decide_exit_spec(pnl2, peak2, secs2, completed.push(th)).1 != Some(th),
{
    let completed2 = completed.push(th);
    assert(completed2.contains(th)) by {
        assert(completed2[completed.len() as int] == th);
    }
    lemma_take_profit_tier_not_completed(
        take_profit_levels_spec(),
        pnl2,
        completed2,
        0,
        th,
    );
}

/// The scan never picks a tier recorded as completed.
pub proof fn lemma_take_profit_tier_not_completed(
    tps: Seq<(u64, u64)>,
    pnl: int,
    completed: Seq<u64>,
    i: int,
    th: u64,
)
    requires
        completed.contains(th),
    ensures
        take_profit_tier(tps, pnl, completed, i) matches Some(tp) ==> tp.0 != th,
    decreases tps.len() - i,
{
    if i < 0 || i >= tps.len() {
    } else if pnl >= tps[i].0 && !completed.contains(tps[i].0) {
    } else {
        lemma_take_profit_tier_not_completed(tps, pnl, completed, i + 1, th);
    }
}

} // verus!
