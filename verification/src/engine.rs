//! The trade engine's state machine: a position store, a tracking map, and
//! the global buy gate. Stream and timer loops drive it through transitions
//! — admit a buy, record its outcome, sweep for timed-out positions, tick
//! PNL — and every transition preserves the buy gate invariant: with no buy in
//! flight, buying is enabled exactly when no position is `Bought`.

use vstd::prelude::*;
use crate::exit::{decide_exit, decide_exit_spec, Decision};
use crate::positions::{
    any_bought, lemma_position_index_found, lemma_position_index_none,
    lemma_tracking_index_found, lemma_tracking_index_none, position_index, unique_mints, Position, PositionStore, PositionView, Status,
    TokenTrackingView, tracking_index, TrackingEntryView, TrackingMap,
};
use crate::trade::{InstructionType, TradeInfoFromToken};

verus! {

/// One lamport-denominated unit of the quote currency per whole unit:
/// amounts and prices here are in billionths.
pub const LAMPORTS_PER_SOL: u64 = 1_000_000_000;

/// Why a decoded event does or does not start a copy buy.
#[derive(Debug, Clone, Copy, PartialEq, Eq, Structural)]
pub enum BuyVerdict {
    /// The event is not a buy.
    NotBuy,
    /// The buying wallet is not a watched leader.
    NotLeader,
    /// The leader spent less than the configured minimum.
    AmountBelowMin,
    /// The leader spent more than the configured maximum.
    AmountAboveMax,
    /// The buy gate is closed.
    BuyingDisabled,
    /// A position for this mint already exists.
    Duplicate,
    /// Start the buy.
    Proceed,
}

/// The lamports the leader moved, regardless of direction.
pub open spec fn dev_buy_lamports(volume_change: int) -> int {
    if volume_change < 0 {
        -volume_change
    } else {
        volume_change
    }
}

/// Some watched leader address equals `target`.
pub open spec fn is_leader(targets: Seq<Seq<char>>, target: Seq<char>) -> bool {
    exists|i: int| 0 <= i < targets.len() && targets[i] == target
}

/// The admission rule for a decoded event, checked in order: only buys, only
/// watched leaders, the leader's spend within the configured band (in whole
/// quote units), the buy gate open, and the mint not already held.
pub open spec fn evaluate_buy_spec(
    kind: InstructionType,
    target: Seq<char>,
    mint: Seq<char>,
    volume_change: int,
    targets: Seq<Seq<char>>,
    min_dev_buy: int,
    max_dev_buy: int,
    buying_enabled: bool,
    store: Seq<PositionView>,
) -> BuyVerdict {
    if kind != InstructionType::PumpBuy && kind != InstructionType::PumpSwapBuy {
        BuyVerdict::NotBuy
    } else if !is_leader(targets, target) {
        BuyVerdict::NotLeader
    } else if dev_buy_lamports(volume_change) < min_dev_buy * (LAMPORTS_PER_SOL as int) {
        BuyVerdict::AmountBelowMin
    } else if dev_buy_lamports(volume_change) > max_dev_buy * (LAMPORTS_PER_SOL as int) {
        BuyVerdict::AmountAboveMax
    } else if !buying_enabled {
        BuyVerdict::BuyingDisabled
    } else if position_index(store, mint, 0) is Some {
        BuyVerdict::Duplicate
    } else {
        BuyVerdict::Proceed
    }
}

/// The buy amount used for the copy: the leader's observed token balance
/// when it is positive and smaller than their spend, else the configured
/// amount (all in billionths).
pub open spec fn choose_buy_amount_spec(
    configured: u64,
    token_amount: u64,
    volume_change: int,
) -> u64 {
    if 0 < token_amount && (token_amount as int) < dev_buy_lamports(volume_change) {
        token_amount
    } else {
        configured
    }
}

/// Pick the buy amount, matching the leader's position size when it is the
/// smaller.
pub fn choose_buy_amount(configured: u64, token_amount: u64, volume_change: i64) -> (r: u64)
    ensures
        r == choose_buy_amount_spec(configured, token_amount, volume_change as int),
{
    let dev: i128 = if volume_change < 0 {
        -(volume_change as i128)
    } else {
        volume_change as i128
    };
    if 0 < token_amount && (token_amount as i128) < dev {
        token_amount
    } else {
        configured
    }
}

/// The current PNL percentage of a position: the current price as a
/// percentage of the entry price (floored), minus the hundred percent paid;
/// zero without an entry price, and capped at the largest representable
/// value.
pub open spec fn pnl_pct_spec(buy_price: u64, current_price: u64) -> i64 {
    if buy_price > 0 {
        let v = (current_price as int) * 100 / (buy_price as int) - 100;
        if v > i64::MAX {
            i64::MAX
        } else {
            v as i64
        }
    } else {
        0
    }
}

/// Compute the PNL percentage.
pub fn pnl_pct(buy_price: u64, current_price: u64) -> (r: i64)
    ensures
        r == pnl_pct_spec(buy_price, current_price),
{
    if buy_price == 0 {
        return 0;
    }
    let q: u128 = (current_price as u128) * 100 / (buy_price as u128);
    let v: i128 = (q as i128) - 100;
    if v > i64::MAX as i128 {
        i64::MAX
    } else {
        v as i64
    }
}

/// The holding time in whole seconds, zero when the position has no open
/// time or the clock reads earlier than it.
pub open spec fn held_secs_spec(opened_at: Option<u64>, now_ms: u64) -> u64 {
    match opened_at {
        Some(t) => if now_ms >= t {
            (((now_ms - t) / 1000) as u64)
        } else {
            0
        },
        None => 0,
    }
}

/// The mints of `Bought` positions held longer than the maximum wait.
pub open spec fn timed_out_mints(s: Seq<PositionView>, now_ms: u64, max_wait_ms: u64) -> Seq<
    Seq<char>,
>
    decreases s.len(),
{
    if s.len() == 0 {
        Seq::empty()
    } else {
        let rest = timed_out_mints(s.drop_last(), now_ms, max_wait_ms);
        if is_timed_out(s.last(), now_ms, max_wait_ms) {
            rest.push(s.last().mint)
        } else {
            rest
        }
    }
}

/// A position the force-sell sweep selects: still `Bought` and opened more
/// than the maximum wait ago.
pub open spec fn is_timed_out(p: PositionView, now_ms: u64, max_wait_ms: u64) -> bool {
    p.status == Status::Bought && (match p.opened_at {
        Some(t) => now_ms >= t && (now_ms - t) > max_wait_ms,
        None => false,
    })
}

/// The engine: positions, per-position exit state, the buy gate, and
/// whether a dispatched buy is still unresolved.
#[derive(Debug)]
pub struct Engine {
    pub store: PositionStore,
    pub tracking: TrackingMap,
    pub buying_enabled: bool,
    pub buy_in_flight: bool,
}

impl Engine {
    /// The engine invariant: the stores are well-formed, and with no buy in
    /// flight the buy gate is open exactly when no position is `Bought`.
    pub open spec fn wf(&self) -> bool {
        &&& self.store.wf()
        &&& self.tracking.wf()
        &&& !self.buy_in_flight ==> (self.buying_enabled <==> !any_bought(self.store@))
    }

    /// A fresh engine: no positions, gate open.
    pub fn new() -> (r: Engine)
        ensures
            r.wf(),
            r.store@.len() == 0,
            r.tracking@.len() == 0,
            r.buying_enabled,
            !r.buy_in_flight,
    {
        let r = Engine {
            store: PositionStore::new(),
            tracking: TrackingMap::new(),
            buying_enabled: true,
            buy_in_flight: false,
        };
        r
    }

    /// Apply the admission rule to a decoded event.
    pub fn evaluate_buy(
        &self,
        info: &TradeInfoFromToken,
        targets: &Vec<String>,
        min_dev_buy: u64,
        max_dev_buy: u64,
    ) -> (r: BuyVerdict)
        ensures
            r == evaluate_buy_spec(
                info.instruction_type,
                info.target@,
                info.mint@,
                info.volume_change as int,
                Seq::new(targets@.len(), |i: int| targets@[i]@),
                min_dev_buy as int,
                max_dev_buy as int,
                self.buying_enabled,
                self.store@,
            ),
    {
        let ghost ts = Seq::new(targets@.len(), |i: int| targets@[i]@);
        if info.instruction_type != InstructionType::PumpBuy && info.instruction_type
            != InstructionType::PumpSwapBuy {
            return BuyVerdict::NotBuy;
        }
        let mut found = false;
        let mut i: usize = 0;
        while i < targets.len()
            invariant
                0 <= i <= targets@.len(),
                ts == Seq::new(targets@.len(), |j: int| targets@[j]@),
                found ==> is_leader(ts, info.target@),
                !found ==> forall|k: int| 0 <= k < i ==> ts[k] != info.target@,
            decreases targets@.len() - i,
        {
            proof {
                assert(ts[i as int] == targets@[i as int]@);
            }
            if !found && targets[i] == info.target {
                found = true;
            }
            i = i + 1;
        }
        if !found {
            return BuyVerdict::NotLeader;
        }
        let dev: i128 = if info.volume_change < 0 {
            -(info.volume_change as i128)
        } else {
            info.volume_change as i128
        };
        if dev < (min_dev_buy as i128) * (LAMPORTS_PER_SOL as i128) {
            return BuyVerdict::AmountBelowMin;
        }
        if dev > (max_dev_buy as i128) * (LAMPORTS_PER_SOL as i128) {
            return BuyVerdict::AmountAboveMax;
        }
        if !self.buying_enabled {
            return BuyVerdict::BuyingDisabled;
        }
        match self.store.find(&info.mint) {
            Some(_) => BuyVerdict::Duplicate,
            None => BuyVerdict::Proceed,
        }
    }

    /// Close the buy gate and dispatch a buy: nothing else changes until the
    /// buy resolves.
    pub fn begin_buy(&mut self)
        requires
            old(self).wf(),
        ensures
            final(self).wf(),
            !final(self).buying_enabled,
            final(self).buy_in_flight,
            final(self).store@ == old(self).store@,
            final(self).tracking@ == old(self).tracking@,
    {
        self.buying_enabled = false;
        self.buy_in_flight = true;
    }

    /// Record a successful buy: a `Bought` position opens now at the quoted
    /// price, and the buy gate stays closed until it is sold.
    pub fn finish_buy_success(&mut self, mint: String, buy_price: u64, now_ms: u64)
        requires
            old(self).wf(),
        ensures
            final(self).wf(),
            !final(self).buying_enabled,
            !final(self).buy_in_flight,
            final(self).store@ == (match position_index(old(self).store@, mint@, 0) {
                Some(i) => old(self).store@.remove(i).push(
                    bought_view(mint@, buy_price, now_ms),
                ),
                None => old(self).store@.push(bought_view(mint@, buy_price, now_ms)),
            }),
            final(self).tracking@ == old(self).tracking@,
    {
        let p = Position {
            mint,
            buy_price,
            sell_price: 0,
            status: Status::Bought,
            opened_at: Some(now_ms),
        };
        self.store.insert(p);
        self.buying_enabled = false;
        self.buy_in_flight = false;
        proof {
            let s = self.store@;
            assert(any_bought(s)) by {
                assert(s[s.len() - 1].status == Status::Bought);
            }
        }
    }

    /// Record a failed buy: a `Failure` record replaces the mint's entry and
    /// the buy gate reopens if nothing is held.
    pub fn finish_buy_failure(&mut self, mint: String)
        requires
            old(self).wf(),
        ensures
            final(self).wf(),
            !final(self).buy_in_flight,
            final(self).buying_enabled == !any_bought(final(self).store@),
            final(self).store@ == (match position_index(old(self).store@, mint@, 0) {
                Some(i) => old(self).store@.remove(i).push(failure_view(mint@)),
                None => old(self).store@.push(failure_view(mint@)),
            }),
            final(self).tracking@ == old(self).tracking@,
    {
        let p = Position {
            mint,
            buy_price: 0,
            sell_price: 0,
            status: Status::Failure,
            opened_at: None,
        };
        self.store.insert(p);
        self.buy_in_flight = false;
        self.buying_enabled = !self.store.any_open();
    }

    /// Record a completed full sell: the position becomes `Sold` (keeping
    /// its entry price) exactly once, its exit state is dropped, and the
    /// gate reopens if nothing is left `Bought`.
    pub fn on_full_sell_success(&mut self, mint: &String, sell_price: u64, now_ms: u64)
        requires
            old(self).wf(),
        ensures
            final(self).wf(),
            final(self).buy_in_flight == old(self).buy_in_flight,
            final(self).buying_enabled == !any_bought(final(self).store@),
            ({
                let old_buy = match position_index(old(self).store@, mint@, 0) {
                    Some(i) => old(self).store@[i].buy_price,
                    None => 0u64,
                };
                let sold = PositionView {
                    mint: mint@,
                    buy_price: old_buy,
                    sell_price: sell_price,
                    status: Status::Sold,
                    opened_at: Some(now_ms),
                };
                final(self).store@ == (match position_index(old(self).store@, mint@, 0) {
                    Some(i) => old(self).store@.remove(i).push(sold),
                    None => old(self).store@.push(sold),
                })
            }),
            ({
                let fs = final(self).store@;
                position_index(fs, mint@, 0) matches Some(j) && fs[j].status == Status::Sold
            }),
            final(self).tracking@ == (match tracking_index(old(self).tracking@, mint@, 0) {
                Some(i) => old(self).tracking@.remove(i),
                None => old(self).tracking@,
            }),
    {
        let old_buy: u64 = match self.store.find(mint) {
            Some(p) => p.buy_price,
            None => 0,
        };
        let p = Position {
            mint: mint.clone(),
            buy_price: old_buy,
            sell_price,
            status: Status::Sold,
            opened_at: Some(now_ms),
        };
        let ghost pre = self.store@;
        self.store.insert(p);
        self.tracking.remove(mint);
        self.buying_enabled = !self.store.any_open();
        proof {
            let s = self.store@;
            lemma_position_index_found(pre, mint@, 0);
            lemma_remove_push_index(pre, mint@, s, s.len() - 1);
            assert(s[s.len() - 1].status == Status::Sold);
        }
    }

    /// Record a completed partial sell: the position's clock restarts and
    /// the mint's last-sell time is now.
    pub fn on_partial_sell_success(&mut self, mint: &String, now_ms: u64)
        requires
            old(self).wf(),
        ensures
            final(self).wf(),
            final(self).buy_in_flight == old(self).buy_in_flight,
            final(self).buying_enabled == old(self).buying_enabled,
            final(self).store@ == (match position_index(old(self).store@, mint@, 0) {
                Some(i) => old(self).store@.remove(i).push(
                    PositionView {
                        mint: old(self).store@[i].mint,
                        buy_price: old(self).store@[i].buy_price,
                        sell_price: old(self).store@[i].sell_price,
                        status: old(self).store@[i].status,
                        opened_at: Some(now_ms),
                    },
                ),
                None => old(self).store@,
            }),
            final(self).tracking@ == (match tracking_index(old(self).tracking@, mint@, 0) {
                Some(i) => old(self).tracking@.update(
                    i,
                    TrackingEntryView {
                        mint: old(self).tracking@[i].mint,
                        info: TokenTrackingView {
                            top_pnl: old(self).tracking@[i].info.top_pnl,
                            last_sell_time: now_ms,
                            completed_intervals: old(self).tracking@[i].info.completed_intervals,
                        },
                    },
                ),
                None => old(self).tracking@,
            }),
    {
        match self.store.find(mint) {
            Some(p) => {
                let updated = Position {
                    mint: p.mint,
                    buy_price: p.buy_price,
                    sell_price: p.sell_price,
                    status: p.status,
                    opened_at: Some(now_ms),
                };
                let ghost pre = self.store@;
                self.store.insert(updated);
                proof {
                    lemma_position_index_found(pre, mint@, 0);
                    lemma_gate_insensitive_to_clock(pre, self.store@, mint@);
                }
            },
            None => {},
        }
        self.tracking.set_last_sell(mint, now_ms);
    }

    /// The five-second reconciliation: reopen or close the buy gate to mirror
    /// exposure, and hand back the mints whose positions have exceeded the
    /// maximum holding time, for the force-sell path.
    pub fn reconcile(&mut self, now_ms: u64, max_wait_ms: u64) -> (r: Vec<String>)
        requires
            old(self).wf(),
        ensures
            final(self).wf(),
            final(self).store@ == old(self).store@,
            final(self).tracking@ == old(self).tracking@,
            final(self).buy_in_flight == old(self).buy_in_flight,
            final(self).buying_enabled == !any_bought(old(self).store@),
            Seq::new(r@.len(), |i: int| r@[i]@) == timed_out_mints(
                old(self).store@,
                now_ms,
                max_wait_ms,
            ),
    {
        self.buying_enabled = !self.store.any_open();
        let ghost s = self.store@;
        let mut out: Vec<String> = Vec::new();
        let mut i: usize = 0;
        proof {
            assert(s.take(0) =~= Seq::<PositionView>::empty());
            assert(Seq::new(out@.len(), |k: int| out@[k]@) =~= Seq::<Seq<char>>::empty());
        }
        while i < self.store.positions.len()
            invariant
                0 <= i <= self.store.positions@.len(),
                s == self.store@,
                s.len() == self.store.positions@.len(),
                Seq::new(out@.len(), |k: int| out@[k]@) == timed_out_mints(
                    s.take(i as int),
                    now_ms,
                    max_wait_ms,
                ),
            decreases self.store.positions@.len() - i,
        {
            proof {
                assert(s[i as int] == self.store.positions@[i as int]@);
                assert(s.take(i as int + 1).drop_last() =~= s.take(i as int));
                assert(s.take(i as int + 1).last() == s[i as int]);
            }
            let p = &self.store.positions[i];
            let timed_out: bool = p.status == Status::Bought && (match p.opened_at {
                Some(t) => now_ms >= t && now_ms - t > max_wait_ms,
                None => false,
            });
            if timed_out {
                let ghost before = Seq::new(out@.len(), |k: int| out@[k]@);
                out.push(p.mint.clone());
                proof {
                    assert(Seq::new(out@.len(), |k: int| out@[k]@) =~= before.push(
                        s[i as int].mint,
                    ));
                }
            }
            i = i + 1;
        }
        proof {
            assert(s.take(s.len() as int) =~= s);
        }
        out
    }

    /// One PNL tick for one mint: recompute the PNL from the entry and
    /// current price, raise the tracked peak, and take the exit decision;
    /// a consumed take-profit tier is recorded at once. A mint without a
    /// `Bought` position holds and changes nothing.
    pub fn pnl_tick(&mut self, mint: &String, current_price: u64, now_ms: u64) -> (r: Decision)
        requires
            old(self).wf(),
        ensures
            final(self).wf(),
            final(self).store@ == old(self).store@,
            final(self).buying_enabled == old(self).buying_enabled,
            final(self).buy_in_flight == old(self).buy_in_flight,
            ({
                match position_index(old(self).store@, mint@, 0) {
                    Some(i) => {
                        let p = old(self).store@[i];
                        if p.status == Status::Bought {
                            let pnl = pnl_pct_spec(p.buy_price, current_price);
                            let secs = held_secs_spec(p.opened_at, now_ms);
                            let prior = match tracking_index(old(self).tracking@, mint@, 0) {
                                Some(t) => old(self).tracking@[t].info,
                                None => TokenTrackingView {
                                    top_pnl: pnl,
                                    last_sell_time: now_ms,
                                    completed_intervals: Seq::empty(),
                                },
                            };
                            let top: i64 = if pnl > prior.top_pnl {
                                pnl
                            } else {
                                prior.top_pnl
                            };
                            let dt = decide_exit_spec(
                                pnl as int,
                                top as int,
                                secs as int,
                                prior.completed_intervals,
                            );
                            &&& r == dt.0
                            &&& top >= prior.top_pnl
                            &&& ({
                                let m2 = final(self).tracking@;
                                tracking_index(m2, mint@, 0) matches Some(j) && m2[j].info.top_pnl
                                    == top && m2[j].info.completed_intervals == (match dt.1 {
                                    Some(th) => prior.completed_intervals.push(th),
                                    None => prior.completed_intervals,
                                })
                            })
                        } else {
                            r == Decision::Hold && final(self).tracking@ == old(self).tracking@
                        }
                    },
                    None => r == Decision::Hold && final(self).tracking@ == old(self).tracking@,
                }
            }),
    {
        let pos = match self.store.find(mint) {
            Some(p) => p,
            None => {
                return Decision::Hold;
            },
        };
        if pos.status != Status::Bought {
            return Decision::Hold;
        }
        let ghost pre_tr = self.tracking@;
        let pnl = pnl_pct(pos.buy_price, current_price);
        let secs = match pos.opened_at {
            Some(t) => if now_ms >= t {
                (now_ms - t) / 1000
            } else {
                0
            },
            None => 0,
        };
        let info = self.tracking.get_or_insert(mint, pnl, now_ms);
        let top = self.tracking.update_peak(mint, pnl);
        let (decision, tier) = decide_exit(pnl, top, secs, &info.completed_intervals);
        proof {
            lemma_tracking_index_found(pre_tr, mint@, 0);
            match tracking_index(pre_tr, mint@, 0) {
                Some(t) => {
                    assert(tracking_index(self.tracking@, mint@, 0) == Some(t)) by {
                        lemma_tracking_index_stable_under_update(pre_tr, self.tracking@, mint@);
                    }
                },
                None => {
                    lemma_tracking_index_pushed(pre_tr, mint@);
                    lemma_tracking_index_stable_under_update(
                        pre_tr.push(
                            TrackingEntryView {
                                mint: mint@,
                                info: TokenTrackingView {
                                    top_pnl: pnl,
                                    last_sell_time: now_ms,
                                    completed_intervals: Seq::empty(),
                                },
                            },
                        ),
                        self.tracking@,
                        mint@,
                    );
                },
            }
        }
        match tier {
            Some(th) => {
                let ghost mid_tr = self.tracking@;
                self.tracking.mark_tier(mint, th);
                proof {
                    lemma_tracking_index_stable_under_update(mid_tr, self.tracking@, mint@);
                }
            },
            None => {},
        }
        decision
    }
}

/// The `Bought` record a successful buy inserts.
pub open spec fn bought_view(mint: Seq<char>, buy_price: u64, now_ms: u64) -> PositionView {
    PositionView {
        mint,
        buy_price,
        sell_price: 0,
        status: Status::Bought,
        opened_at: Some(now_ms),
    }
}

/// The `Failure` record a failed buy inserts.
pub open spec fn failure_view(mint: Seq<char>) -> PositionView {
    PositionView { mint, buy_price: 0, sell_price: 0, status: Status::Failure, opened_at: None }
}

/// After replacing a mint's record, that mint's index points at the pushed
/// record.
proof fn lemma_remove_push_index(pre: Seq<PositionView>, m: Seq<char>, s: Seq<PositionView>, j: int)
    requires
        unique_mints(pre),
        j == s.len() - 1,
        s == (match position_index(pre, m, 0) {
            Some(i) => pre.remove(i).push(s[j]),
            None => pre.push(s[j]),
        }),
        s[j].mint == m,
    ensures
        position_index(s, m, 0) == Some(j),
{
    lemma_position_index_found(pre, m, 0);
    lemma_position_index_none(pre, m, 0);
    let mid = match position_index(pre, m, 0) {
        Some(i) => pre.remove(i),
        None => pre,
    };
    assert forall|k: int| 0 <= k < mid.len() implies (#[trigger] mid[k].mint) != m by {
        match position_index(pre, m, 0) {
            Some(i) => {
                if k < i {
                    assert(mid[k] == pre[k]);
                } else {
                    assert(mid[k] == pre[k + 1]);
                }
            },
            None => {},
        }
    }
    lemma_position_index_skips(s, m, 0, j);
}

/// Scanning past records that do not hold the mint reaches the one that
/// does.
proof fn lemma_position_index_skips(s: Seq<PositionView>, m: Seq<char>, i: int, j: int)
    requires
        0 <= i <= j < s.len(),
        forall|k: int| 0 <= k < j ==> (#[trigger] s[k].mint) != m,
        s[j].mint == m,
    ensures
        position_index(s, m, i) == Some(j),
    decreases j - i,
{
    if i == j {
    } else {
        lemma_position_index_skips(s, m, i + 1, j);
    }
}

/// Restarting a position's clock neither adds nor removes a `Bought`
/// record, so the buy gate condition is unchanged.
proof fn lemma_gate_insensitive_to_clock(pre: Seq<PositionView>, s: Seq<PositionView>, m: Seq<char>)
    requires
        position_index(pre, m, 0) matches Some(i) && s == pre.remove(i).push(
            PositionView {
                mint: pre[i].mint,
                buy_price: pre[i].buy_price,
                sell_price: pre[i].sell_price,
                status: pre[i].status,
                opened_at: s[s.len() - 1].opened_at,
            },
        ),
    ensures
        any_bought(s) == any_bought(pre),
{
    lemma_position_index_found(pre, m, 0);
    let i = position_index(pre, m, 0)->Some_0;
    if any_bought(pre) {
        let w = choose|k: int| 0 <= k < pre.len() && (#[trigger] pre[k].status) == Status::Bought;
        if w == i {
            assert(s[s.len() - 1].status == Status::Bought);
        } else if w < i {
            assert(s[w] == pre[w]);
        } else {
            assert(s[w - 1] == pre[w]);
        }
    }
    if any_bought(s) {
        let w = choose|k: int| 0 <= k < s.len() && (#[trigger] s[k].status) == Status::Bought;
        if w == s.len() - 1 {
            assert(pre[i].status == Status::Bought);
        } else if w < i {
            assert(s[w] == pre[w]);
        } else {
            assert(s[w] == pre[w + 1]);
        }
    }
}

/// A mint's tracking index survives in-place updates and stays at the
/// position of its entry.
proof fn lemma_tracking_index_stable_under_update(
    pre: Seq<TrackingEntryView>,
    s: Seq<TrackingEntryView>,
    m: Seq<char>,
)
    requires
        s.len() == pre.len(),
        forall|k: int| 0 <= k < pre.len() ==> (#[trigger] s[k].mint) == pre[k].mint,
    ensures
        tracking_index(s, m, 0) == tracking_index(pre, m, 0),
{
    lemma_tracking_index_eq_from(pre, s, m, 0);
}

proof fn lemma_tracking_index_eq_from(
    pre: Seq<TrackingEntryView>,
    s: Seq<TrackingEntryView>,
    m: Seq<char>,
    i: int,
)
    requires
        s.len() == pre.len(),
        forall|k: int| 0 <= k < pre.len() ==> (#[trigger] s[k].mint) == pre[k].mint,
    ensures
        tracking_index(s, m, i) == tracking_index(pre, m, i),
    decreases pre.len() - i,
{
    if i < 0 || i >= pre.len() {
    } else {
        lemma_tracking_index_eq_from(pre, s, m, i + 1);
    }
}

/// A pushed entry for a fresh mint is found at the end.
proof fn lemma_tracking_index_pushed(pre: Seq<TrackingEntryView>, m: Seq<char>)
    requires
        tracking_index(pre, m, 0) is None,
    ensures
        forall|e: TrackingEntryView|
            e.mint == m ==> tracking_index(pre.push(e), m, 0) == Some(pre.len() as int),
{
    assert forall|e: TrackingEntryView| e.mint == m implies tracking_index(
        pre.push(e),
        m,
        0,
    ) == Some(pre.len() as int) by {
        lemma_tracking_index_none(pre, m, 0);
        lemma_tracking_index_skips(pre.push(e), m, 0, pre.len() as int);
    }
}

proof fn lemma_tracking_index_skips(
    s: Seq<TrackingEntryView>,
    m: Seq<char>,
    i: int,
    j: int,
)
    requires
        0 <= i <= j < s.len(),
        forall|k: int| 0 <= k < j ==> (#[trigger] s[k].mint) != m,
        s[j].mint == m,
    ensures
        tracking_index(s, m, i) == Some(j),
    decreases j - i,
{
    if i == j {
    } else {
        lemma_tracking_index_skips(s, m, i + 1, j);
    }
}

/// With no buy in flight the buy gate mirrors exposure: buying is enabled
/// exactly when no position is `Bought`. Every transition above preserves
/// this; it is the engine invariant read off directly.
pub proof fn lemma_gate_mirrors_exposure(e: &Engine)
    requires
        e.wf(),
        !e.buy_in_flight,
    ensures
        e.buying_enabled <==> !any_bought(e.store@),
{
}

/// A position already `Sold` is never selected by the force-sell sweep: its
/// mint is not among the timed-out mints.
pub proof fn lemma_sold_not_swept(
    s: Seq<PositionView>,
    m: Seq<char>,
    now_ms: u64,
    max_wait_ms: u64,
)
    requires
        unique_mints(s),
        position_index(s, m, 0) matches Some(i) && s[i].status != Status::Bought,
    ensures
        !timed_out_mints(s, now_ms, max_wait_ms).contains(m),
{
    lemma_position_index_found(s, m, 0);
    let i = position_index(s, m, 0)->Some_0;
    lemma_timed_out_only_bought(s, now_ms, max_wait_ms, i);
}

/// If the record at `i` holds a mint and is not `Bought`, the sweep does
/// not select that mint (no other record can hold it).
proof fn lemma_timed_out_only_bought(
    s: Seq<PositionView>,
    now_ms: u64,
    max_wait_ms: u64,
    i: int,
)
    requires
        unique_mints(s),
        0 <= i < s.len(),
        s[i].status != Status::Bought,
    ensures
        !timed_out_mints(s, now_ms, max_wait_ms).contains(s[i].mint),
    decreases s.len(),
{
    if s.len() == 0 {
    } else {
        let rest = timed_out_mints(s.drop_last(), now_ms, max_wait_ms);
        lemma_timed_out_members(s.drop_last(), now_ms, max_wait_ms);
        if i == s.len() - 1 {
            // the record itself is last and not Bought; any earlier record
            // with the same mint would break uniqueness
            assert forall|k: int|
                0 <= k < s.drop_last().len() implies (#[trigger] s.drop_last()[k].mint)
                != s[i].mint by {
                assert(s.drop_last()[k] == s[k]);
            }
            if rest.contains(s[i].mint) {
                let w = choose|k: int| 0 <= k < rest.len() && rest[k] == s[i].mint;
            }
        } else {
            assert forall|a: int, b: int|
                0 <= a < s.drop_last().len() && 0 <= b < s.drop_last().len() && a != b implies (
            #[trigger] s.drop_last()[a].mint) != (#[trigger] s.drop_last()[b].mint) by {
                assert(s.drop_last()[a] == s[a]);
                assert(s.drop_last()[b] == s[b]);
            }
            assert(s.drop_last()[i] == s[i]);
            lemma_timed_out_only_bought(s.drop_last(), now_ms, max_wait_ms, i);
            if is_timed_out(s.last(), now_ms, max_wait_ms) {
                assert(s.last().mint != s[i].mint);
            }
        }
    }
}

/// Every mint the sweep selects is the mint of some record it selected.
proof fn lemma_timed_out_members(s: Seq<PositionView>, now_ms: u64, max_wait_ms: u64)
    ensures
        forall|x: Seq<char>|
            #[trigger] timed_out_mints(s, now_ms, max_wait_ms).contains(x) ==> exists|k: int|
                0 <= k < s.len() && s[k].mint == x && is_timed_out(#[trigger] s[k], now_ms, max_wait_ms),
    decreases s.len(),
{
    if s.len() == 0 {
    } else {
        lemma_timed_out_members(s.drop_last(), now_ms, max_wait_ms);
        let rest = timed_out_mints(s.drop_last(), now_ms, max_wait_ms);
        assert forall|x: Seq<char>|
            #[trigger] timed_out_mints(s, now_ms, max_wait_ms).contains(x) implies exists|k: int|
            0 <= k < s.len() && s[k].mint == x && is_timed_out(
                #[trigger] s[k],
                now_ms,
                max_wait_ms,
            ) by {
            let all = timed_out_mints(s, now_ms, max_wait_ms);
            let w = choose|k: int| 0 <= k < all.len() && all[k] == x;
            if is_timed_out(s.last(), now_ms, max_wait_ms) && w == all.len() - 1 {
                assert(s[s.len() - 1].mint == x && is_timed_out(s[s.len() - 1], now_ms, max_wait_ms));
            } else {
                assert(rest.contains(x)) by {
                    assert(rest[w] == x);
                }
                let k0 = choose|k: int|
                    0 <= k < s.drop_last().len() && s.drop_last()[k].mint == x && is_timed_out(
                        #[trigger] s.drop_last()[k],
                        now_ms,
                        max_wait_ms,
                    );
                assert(s[k0] == s.drop_last()[k0]);
            }
        }
    }
}

} // verus!
