//! In-memory position store and per-position exit tracking. The store keys
//! positions by mint and keeps at most one record per mint — the invariant
//! behind "at most one position per mint is ever `Bought`". The tracking map
//! owns each open position's peak PNL and consumed take-profit tiers; its
//! peak only ever rises while the position is held.

use vstd::prelude::*;

verus! {

/// Lifecycle of our own exposure in one token.
#[derive(Debug, Clone, Copy, PartialEq, Eq, Structural)]
pub enum Status {
    /// Bought and not yet fully sold.
    Bought,
    /// Fully sold.
    Sold,
    /// The buy failed.
    Failure,
}

/// One position: the token bought, the prices in billionths of the quote
/// currency per token, its lifecycle status, and when it was opened
/// (milliseconds; absent for a failed buy).
#[derive(Debug, Clone, PartialEq, Eq)]
pub struct Position {
    pub mint: String,
    pub buy_price: u64,
    pub sell_price: u64,
    pub status: Status,
    pub opened_at: Option<u64>,
}

/// Ghost image of [`Position`].
pub struct PositionView {
    pub mint: Seq<char>,
    pub buy_price: u64,
    pub sell_price: u64,
    pub status: Status,
    pub opened_at: Option<u64>,
}

impl View for Position {
    type V = PositionView;

    open spec fn view(&self) -> PositionView {
        PositionView {
            mint: self.mint@,
            buy_price: self.buy_price,
            sell_price: self.sell_price,
            status: self.status,
            opened_at: self.opened_at,
        }
    }
}

impl Position {
    /// An equal copy of the record.
    pub fn duplicate(&self) -> (r: Position)
        ensures
            r@ == self@,
    {
        Position {
            mint: self.mint.clone(),
            buy_price: self.buy_price,
            sell_price: self.sell_price,
            status: self.status,
            opened_at: self.opened_at,
        }
    }
}

/// Index of the first position holding this mint, from `i` on.
pub open spec fn position_index(s: Seq<PositionView>, m: Seq<char>, i: int) -> Option<int>
    decreases s.len() - i,
{
    if i < 0 || i >= s.len() {
        None
    } else if s[i].mint == m {
        Some(i)
    } else {
        position_index(s, m, i + 1)
    }
}

/// The mints are pairwise distinct: at most one record per token.
pub open spec fn unique_mints(s: Seq<PositionView>) -> bool {
    forall|i: int, j: int|
        0 <= i < s.len() && 0 <= j < s.len() && i != j ==> (#[trigger] s[i].mint) != (
        #[trigger] s[j].mint)
}

/// Some position is still `Bought`.
pub open spec fn any_bought(s: Seq<PositionView>) -> bool {
    exists|i: int| 0 <= i < s.len() && (#[trigger] s[i].status) == Status::Bought
}

/// The in-memory set of positions, keyed by mint.
#[derive(Debug)]
pub struct PositionStore {
    pub positions: Vec<Position>,
}

impl View for PositionStore {
    type V = Seq<PositionView>;

    open spec fn view(&self) -> Seq<PositionView> {
        Seq::new(self.positions@.len(), |i: int| self.positions@[i]@)
    }
}

impl PositionStore {
    /// The store never holds two records for one mint.
    pub open spec fn wf(&self) -> bool {
        unique_mints(self@)
    }

    /// An empty store.
    pub fn new() -> (r: PositionStore)
        ensures
            r.wf(),
            r@.len() == 0,
    {
        let r = PositionStore { positions: Vec::new() };
        proof {
            assert(r@ =~= Seq::<PositionView>::empty());
        }
        r
    }

    /// Find the index of this mint's record.
    fn index_of(&self, mint: &String) -> (r: Option<usize>)
        ensures
            match r {
                Some(i) => position_index(self@, mint@, 0) == Some(i as int) && i < self@.len(),
                None => position_index(self@, mint@, 0) is None,
            },
    {
        let mut i: usize = 0;
        while i < self.positions.len()
            invariant
                0 <= i <= self.positions@.len(),
                position_index(self@, mint@, 0) == position_index(self@, mint@, i as int),
                self@.len() == self.positions@.len(),
            decreases self.positions@.len() - i,
        {
            proof {
                assert(self@[i as int] == self.positions@[i as int]@);
            }
            if self.positions[i].mint == *mint {
                return Some(i);
            }
            i = i + 1;
        }
        None
    }

    /// The record for this mint, if any.
    pub fn find(&self, mint: &String) -> (r: Option<Position>)
        ensures
            match r {
                Some(p) => position_index(self@, mint@, 0) matches Some(i) && p@ == self@[i],
                None => position_index(self@, mint@, 0) is None,
            },
    {
        match self.index_of(mint) {
            Some(i) => Some(self.positions[i].duplicate()),
            None => None,
        }
    }

    /// Insert a record, replacing any record with the same mint.
    pub fn insert(&mut self, p: Position)
        requires
            old(self).wf(),
        ensures
            final(self).wf(),
            final(self)@ == (match position_index(old(self)@, p@.mint, 0) {
                Some(i) => old(self)@.remove(i).push(p@),
                None => old(self)@.push(p@),
            }),
    {
        let ghost pre = self@;
        match self.index_of(&p.mint) {
            Some(i) => {
                let _ = self.positions.remove(i);
                proof {
                    assert(self@ =~= pre.remove(i as int));
                }
            },
            None => {},
        }
        let ghost mid = self@;
        self.positions.push(p);
        proof {
            assert(self@ =~= mid.push(p@));
            lemma_position_index_found(pre, p@.mint, 0);
            assert forall|a: int, b: int|
                0 <= a < self@.len() && 0 <= b < self@.len() && a != b implies (
            #[trigger] self@[a].mint) != (#[trigger] self@[b].mint) by {
                lemma_remove_keeps_unique(pre, p@.mint, mid);
            }
        }
    }

    /// Remove this mint's record, if present.
    pub fn remove(&mut self, mint: &String)
        requires
            old(self).wf(),
        ensures
            final(self).wf(),
            final(self)@ == (match position_index(old(self)@, mint@, 0) {
                Some(i) => old(self)@.remove(i),
                None => old(self)@,
            }),
    {
        let ghost pre = self@;
        match self.index_of(mint) {
            Some(i) => {
                let _ = self.positions.remove(i);
                proof {
                    assert(self@ =~= pre.remove(i as int));
                }
            },
            None => {},
        }
    }

    /// A copy of every record.
    pub fn snapshot(&self) -> (r: Vec<Position>)
        ensures
            Seq::new(r@.len(), |i: int| r@[i]@) == self@,
    {
        let mut out: Vec<Position> = Vec::new();
        let mut i: usize = 0;
        while i < self.positions.len()
            invariant
                0 <= i <= self.positions@.len(),
                out@.len() == i,
                self@.len() == self.positions@.len(),
                forall|k: int| 0 <= k < i ==> (#[trigger] out@[k])@ == self@[k],
            decreases self.positions@.len() - i,
        {
            proof {
                assert(self@[i as int] == self.positions@[i as int]@);
            }
            out.push(self.positions[i].duplicate());
            i = i + 1;
        }
        proof {
            assert(Seq::new(out@.len(), |i: int| out@[i]@) =~= self@);
        }
        out
    }

    /// Whether some position is still `Bought`.
    pub fn any_open(&self) -> (r: bool)
        ensures
            r == any_bought(self@),
    {
        let mut i: usize = 0;
        while i < self.positions.len()
            invariant
                0 <= i <= self.positions@.len(),
                self@.len() == self.positions@.len(),
                forall|k: int| 0 <= k < i ==> (#[trigger] self@[k].status) != Status::Bought,
            decreases self.positions@.len() - i,
        {
            proof {
                assert(self@[i as int] == self.positions@[i as int]@);
            }
            if self.positions[i].status == Status::Bought {
                proof {
                    assert(self@[i as int].status == Status::Bought);
                }
                return true;
            }
            i = i + 1;
        }
        false
    }
}

/// A found index holds the mint it was found by.
pub proof fn lemma_position_index_found(s: Seq<PositionView>, m: Seq<char>, i: int)
    ensures
        position_index(s, m, i) matches Some(j) ==> i <= j < s.len() && s[j].mint == m,
    decreases s.len() - i,
{
    if i < 0 || i >= s.len() {
    } else if s[i].mint == m {
    } else {
        lemma_position_index_found(s, m, i + 1);
    }
}

/// A missing index means no record holds the mint.
pub proof fn lemma_position_index_none(s: Seq<PositionView>, m: Seq<char>, i: int)
    ensures
        0 <= i && position_index(s, m, i) is None ==> forall|j: int|
            i <= j < s.len() ==> (#[trigger] s[j].mint) != m,
    decreases s.len() - i,
{
    if i < 0 || i >= s.len() {
    } else if s[i].mint == m {
    } else {
        lemma_position_index_none(s, m, i + 1);
    }
}

/// Removing the record found for a mint leaves no record with that mint,
/// so pushing a fresh record for it keeps mints unique.
proof fn lemma_remove_keeps_unique(pre: Seq<PositionView>, m: Seq<char>, mid: Seq<PositionView>)
    requires
        unique_mints(pre),
        mid == (match position_index(pre, m, 0) {
            Some(i) => pre.remove(i),
            None => pre,
        }),
    ensures
        unique_mints(mid),
        forall|j: int| 0 <= j < mid.len() ==> (#[trigger] mid[j].mint) != m,
{
    lemma_position_index_found(pre, m, 0);
    lemma_position_index_none(pre, m, 0);
    match position_index(pre, m, 0) {
        Some(i) => {
            assert forall|j: int| 0 <= j < mid.len() implies (#[trigger] mid[j].mint) != m by {
                if j < i {
                    assert(mid[j] == pre[j]);
                } else {
                    assert(mid[j] == pre[j + 1]);
                }
            }
            assert forall|a: int, b: int|
                0 <= a < mid.len() && 0 <= b < mid.len() && a != b implies (
            #[trigger] mid[a].mint) != (#[trigger] mid[b].mint) by {
                let pa: int = if a < i {
                    a
                } else {
                    a + 1
                };
                let pb: int = if b < i {
                    b
                } else {
                    b + 1
                };
                assert(mid[a] == pre[pa]);
                assert(mid[b] == pre[pb]);
            }
        },
        None => {},
    }
}

/// At most one position per mint is ever `Bought`: in a well-formed store,
/// two `Bought` records with the same mint are the same record.
pub proof fn lemma_at_most_one_bought_per_mint(s: Seq<PositionView>, i: int, j: int)
    requires
        unique_mints(s),
        0 <= i < s.len(),
        0 <= j < s.len(),
        s[i].mint == s[j].mint,
        s[i].status == Status::Bought,
        s[j].status == Status::Bought,
    ensures
        i == j,
{
}

/// Per-position exit state: the peak PNL seen while held, when the last
/// partial sell happened (milliseconds), and the take-profit tiers already
/// consumed.
#[derive(Debug, Clone, PartialEq, Eq)]
pub struct TokenTrackingInfo {
    pub top_pnl: i64,
    pub last_sell_time: u64,
    pub completed_intervals: Vec<u64>,
}

/// Ghost image of [`TokenTrackingInfo`].
pub struct TokenTrackingView {
    pub top_pnl: i64,
    pub last_sell_time: u64,
    pub completed_intervals: Seq<u64>,
}

impl View for TokenTrackingInfo {
    type V = TokenTrackingView;

    open spec fn view(&self) -> TokenTrackingView {
        TokenTrackingView {
            top_pnl: self.top_pnl,
            last_sell_time: self.last_sell_time,
            completed_intervals: self.completed_intervals@,
        }
    }
}

/// One tracked token: its mint and its exit state.
#[derive(Debug)]
pub struct TrackingEntry {
    pub mint: String,
    pub info: TokenTrackingInfo,
}

/// Ghost image of [`TrackingEntry`].
pub struct TrackingEntryView {
    pub mint: Seq<char>,
    pub info: TokenTrackingView,
}

impl View for TrackingEntry {
    type V = TrackingEntryView;

    open spec fn view(&self) -> TrackingEntryView {
        TrackingEntryView { mint: self.mint@, info: self.info@ }
    }
}

/// Index of the first tracking entry for this mint, from `i` on.
pub open spec fn tracking_index(s: Seq<TrackingEntryView>, m: Seq<char>, i: int) -> Option<int>
    decreases s.len() - i,
{
    if i < 0 || i >= s.len() {
        None
    } else if s[i].mint == m {
        Some(i)
    } else {
        tracking_index(s, m, i + 1)
    }
}

/// The tracking mints are pairwise distinct.
pub open spec fn unique_tracking_mints(s: Seq<TrackingEntryView>) -> bool {
    forall|i: int, j: int|
        0 <= i < s.len() && 0 <= j < s.len() && i != j ==> (#[trigger] s[i].mint) != (
        #[trigger] s[j].mint)
}

/// Exit state for every open position, keyed by mint.
#[derive(Debug)]
pub struct TrackingMap {
    pub entries: Vec<TrackingEntry>,
}

impl View for TrackingMap {
    type V = Seq<TrackingEntryView>;

    open spec fn view(&self) -> Seq<TrackingEntryView> {
        Seq::new(self.entries@.len(), |i: int| self.entries@[i]@)
    }
}

impl TrackingMap {
    /// The map never holds two entries for one mint.
    pub open spec fn wf(&self) -> bool {
        unique_tracking_mints(self@)
    }

    /// An empty map.
    pub fn new() -> (r: TrackingMap)
        ensures
            r.wf(),
            r@.len() == 0,
    {
        let r = TrackingMap { entries: Vec::new() };
        proof {
            assert(r@ =~= Seq::<TrackingEntryView>::empty());
        }
        r
    }

    /// Find the index of this mint's entry.
    fn index_of(&self, mint: &String) -> (r: Option<usize>)
        ensures
            match r {
                Some(i) => tracking_index(self@, mint@, 0) == Some(i as int) && i < self@.len(),
                None => tracking_index(self@, mint@, 0) is None,
            },
    {
        let mut i: usize = 0;
        while i < self.entries.len()
            invariant
                0 <= i <= self.entries@.len(),
                tracking_index(self@, mint@, 0) == tracking_index(self@, mint@, i as int),
                self@.len() == self.entries@.len(),
            decreases self.entries@.len() - i,
        {
            proof {
                assert(self@[i as int] == self.entries@[i as int]@);
            }
            if self.entries[i].mint == *mint {
                return Some(i);
            }
            i = i + 1;
        }
        None
    }

    /// The exit state for a mint, creating it with the given initial peak
    /// and time when absent, as the first PNL tick after a buy does.
    pub fn get_or_insert(&mut self, mint: &String, initial_pnl: i64, now_ms: u64) -> (r:
        TokenTrackingInfo)
        requires
            old(self).wf(),
        ensures
            final(self).wf(),
            match tracking_index(old(self)@, mint@, 0) {
                Some(i) => final(self)@ == old(self)@ && r@ == old(self)@[i].info,
                None => final(self)@ == old(self)@.push(
                    TrackingEntryView {
                        mint: mint@,
                        info: TokenTrackingView {
                            top_pnl: initial_pnl,
                            last_sell_time: now_ms,
                            completed_intervals: Seq::empty(),
                        },
                    },
                ) && r@ == (TokenTrackingView {
                    top_pnl: initial_pnl,
                    last_sell_time: now_ms,
                    completed_intervals: Seq::empty(),
                }),
            },
    {
        let ghost pre = self@;
        match self.index_of(mint) {
            Some(i) => {
                let e = &self.entries[i];
                proof {
                    assert(pre[i as int] == self.entries@[i as int]@);
                }
                TokenTrackingInfo {
                    top_pnl: e.info.top_pnl,
                    last_sell_time: e.info.last_sell_time,
                    completed_intervals: vstd::slice::slice_to_vec(
                        e.info.completed_intervals.as_slice(),
                    ),
                }
            },
            None => {
                let info = TokenTrackingInfo {
                    top_pnl: initial_pnl,
                    last_sell_time: now_ms,
                    completed_intervals: Vec::new(),
                };
                let copy = TokenTrackingInfo {
                    top_pnl: initial_pnl,
                    last_sell_time: now_ms,
                    completed_intervals: Vec::new(),
                };
                self.entries.push(TrackingEntry { mint: mint.clone(), info });
                proof {
                    assert(self@ =~= pre.push(
                        TrackingEntryView {
                            mint: mint@,
                            info: TokenTrackingView {
                                top_pnl: initial_pnl,
                                last_sell_time: now_ms,
                                completed_intervals: Seq::empty(),
                            },
                        },
                    ));
                    lemma_tracking_index_none(pre, mint@, 0);
                    assert forall|a: int, b: int|
                        0 <= a < self@.len() && 0 <= b < self@.len() && a != b implies (
                    #[trigger] self@[a].mint) != (#[trigger] self@[b].mint) by {}
                }
                copy
            },
        }
    }

    /// Raise the peak PNL for a mint to the current PNL if it is higher:
    /// the peak never decreases while the position is tracked.
    pub fn update_peak(&mut self, mint: &String, pnl: i64) -> (r: i64)
        requires
            old(self).wf(),
        ensures
            final(self).wf(),
            match tracking_index(old(self)@, mint@, 0) {
                Some(i) => {
                    &&& r == (if pnl > old(self)@[i].info.top_pnl {
                        pnl
                    } else {
                        old(self)@[i].info.top_pnl
                    })
                    &&& r >= old(self)@[i].info.top_pnl
                    &&& final(self)@ == old(self)@.update(
                        i,
                        TrackingEntryView {
                            mint: old(self)@[i].mint,
                            info: TokenTrackingView {
                                top_pnl: r,
                                last_sell_time: old(self)@[i].info.last_sell_time,
                                completed_intervals: old(self)@[i].info.completed_intervals,
                            },
                        },
                    )
                },
                None => final(self)@ == old(self)@ && r == pnl,
            },
    {
        let ghost pre = self@;
        match self.index_of(mint) {
            Some(i) => {
                proof {
                    assert(pre[i as int] == self.entries@[i as int]@);
                }
                let cur = self.entries[i].info.top_pnl;
                let top = if pnl > cur {
                    pnl
                } else {
                    cur
                };
                if pnl > cur {
                    self.entries[i].info.top_pnl = pnl;
                }
                proof {
                    assert(self@ =~= pre.update(
                        i as int,
                        TrackingEntryView {
                            mint: pre[i as int].mint,
                            info: TokenTrackingView {
                                top_pnl: top as i64,
                                last_sell_time: pre[i as int].info.last_sell_time,
                                completed_intervals: pre[i as int].info.completed_intervals,
                            },
                        },
                    ));
                    assert forall|a: int, b: int|
                        0 <= a < self@.len() && 0 <= b < self@.len() && a != b implies (
                    #[trigger] self@[a].mint) != (#[trigger] self@[b].mint) by {
                        assert(self@[a].mint == pre[a].mint);
                        assert(self@[b].mint == pre[b].mint);
                    }
                }
                top
            },
            None => pnl,
        }
    }

    /// Record a consumed take-profit tier for a mint.
    pub fn mark_tier(&mut self, mint: &String, tier: u64)
        requires
            old(self).wf(),
        ensures
            final(self).wf(),
            match tracking_index(old(self)@, mint@, 0) {
                Some(i) => final(self)@ == old(self)@.update(
                    i,
                    TrackingEntryView {
                        mint: old(self)@[i].mint,
                        info: TokenTrackingView {
                            top_pnl: old(self)@[i].info.top_pnl,
                            last_sell_time: old(self)@[i].info.last_sell_time,
                            completed_intervals: old(self)@[i].info.completed_intervals.push(tier),
                        },
                    },
                ),
                None => final(self)@ == old(self)@,
            },
    {
        let ghost pre = self@;
        match self.index_of(mint) {
            Some(i) => {
                proof {
                    assert(pre[i as int] == self.entries@[i as int]@);
                }
                self.entries[i].info.completed_intervals.push(tier);
                proof {
                    assert(self@ =~= pre.update(
                        i as int,
                        TrackingEntryView {
                            mint: pre[i as int].mint,
                            info: TokenTrackingView {
                                top_pnl: pre[i as int].info.top_pnl,
                                last_sell_time: pre[i as int].info.last_sell_time,
                                completed_intervals: pre[i as int].info.completed_intervals.push(
                                    tier,
                                ),
                            },
                        },
                    ));
                    assert forall|a: int, b: int|
                        0 <= a < self@.len() && 0 <= b < self@.len() && a != b implies (
                    #[trigger] self@[a].mint) != (#[trigger] self@[b].mint) by {
                        assert(self@[a].mint == pre[a].mint);
                        assert(self@[b].mint == pre[b].mint);
                    }
                }
            },
            None => {},
        }
    }

    /// Record the time of a partial sell for a mint.
    pub fn set_last_sell(&mut self, mint: &String, now_ms: u64)
        requires
            old(self).wf(),
        ensures
            final(self).wf(),
            match tracking_index(old(self)@, mint@, 0) {
                Some(i) => final(self)@ == old(self)@.update(
                    i,
                    TrackingEntryView {
                        mint: old(self)@[i].mint,
                        info: TokenTrackingView {
                            top_pnl: old(self)@[i].info.top_pnl,
                            last_sell_time: now_ms,
                            completed_intervals: old(self)@[i].info.completed_intervals,
                        },
                    },
                ),
                None => final(self)@ == old(self)@,
            },
    {
        let ghost pre = self@;
        match self.index_of(mint) {
            Some(i) => {
                proof {
                    assert(pre[i as int] == self.entries@[i as int]@);
                }
                self.entries[i].info.last_sell_time = now_ms;
                proof {
                    assert(self@ =~= pre.update(
                        i as int,
                        TrackingEntryView {
                            mint: pre[i as int].mint,
                            info: TokenTrackingView {
                                top_pnl: pre[i as int].info.top_pnl,
                                last_sell_time: now_ms,
                                completed_intervals: pre[i as int].info.completed_intervals,
                            },
                        },
                    ));
                    assert forall|a: int, b: int|
                        0 <= a < self@.len() && 0 <= b < self@.len() && a != b implies (
                    #[trigger] self@[a].mint) != (#[trigger] self@[b].mint) by {
                        assert(self@[a].mint == pre[a].mint);
                        assert(self@[b].mint == pre[b].mint);
                    }
                }
            },
            None => {},
        }
    }

    /// Drop a mint's exit state, as a completed full sell does.
    pub fn remove(&mut self, mint: &String)
        requires
            old(self).wf(),
        ensures
            final(self).wf(),
            final(self)@ == (match tracking_index(old(self)@, mint@, 0) {
                Some(i) => old(self)@.remove(i),
                None => old(self)@,
            }),
    {
        let ghost pre = self@;
        match self.index_of(mint) {
            Some(i) => {
                let _ = self.entries.remove(i);
                proof {
                    assert(self@ =~= pre.remove(i as int));
                    assert forall|a: int, b: int|
                        0 <= a < self@.len() && 0 <= b < self@.len() && a != b implies (
                    #[trigger] self@[a].mint) != (#[trigger] self@[b].mint) by {
                        let pa: int = if a < i {
                            a
                        } else {
                            a + 1
                        };
                        let pb: int = if b < i {
                            b
                        } else {
                            b + 1
                        };
                        assert(self@[a] == pre[pa]);
                        assert(self@[b] == pre[pb]);
                    }
                }
            },
            None => {},
        }
    }
}

/// A missing tracking index means no entry holds the mint.
pub proof fn lemma_tracking_index_none(s: Seq<TrackingEntryView>, m: Seq<char>, i: int)
    ensures
        0 <= i && tracking_index(s, m, i) is None ==> forall|j: int|
            i <= j < s.len() ==> (#[trigger] s[j].mint) != m,
    decreases s.len() - i,
{
    if i < 0 || i >= s.len() {
    } else if s[i].mint == m {
    } else {
        lemma_tracking_index_none(s, m, i + 1);
    }
}

/// A found tracking index holds the mint it was found by.
pub proof fn lemma_tracking_index_found(s: Seq<TrackingEntryView>, m: Seq<char>, i: int)
    ensures
        tracking_index(s, m, i) matches Some(j) ==> i <= j < s.len() && s[j].mint == m,
    decreases s.len() - i,
{
    if i < 0 || i >= s.len() {
    } else if s[i].mint == m {
    } else {
        lemma_tracking_index_found(s, m, i + 1);
    }
}

} // verus!
