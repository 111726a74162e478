//! Pure decision parts of the stream supervisor: the subscription filter
//! (watched programs and leader addresses, exclusions, commitment), the
//! keepalive ping-pong, the connection watchdog, and the reconnect policy.
//! The surrounding I/O — connecting, sending, receiving — lives outside
//! this crate and only carries these values.

use vstd::prelude::*;
use vstd::slice::slice_subrange;
use crate::bytes::{find_first, trim_spec};
use crate::encoding::{utf8_or_empty, utf8_or_empty_spec};
use crate::patterns::{jupiter_program_id, okx_dex_program_id};

verus! {

/// Default lamport threshold for buys.
pub const DEFAULT_THRESHOLD_BUY: u64 = 1_000_000_000;

/// Default lamport threshold for sells.
pub const DEFAULT_THRESHOLD_SELL: u64 = 1_000_000_000;

/// Default maximum holding time before the force-sell sweep fires, in
/// milliseconds.
pub const DEFAULT_MAX_WAIT_MS: u64 = 60_000;

/// Default retracement percentage for the deepest ladder rung.
pub const DEFAULT_DOWNING_PERCENT: u64 = 42;

/// How long the feed may stay silent before the watchdog calls the
/// connection stale, in milliseconds.
pub const STALE_AFTER_MS: u64 = 300_000;

/// How many subscribe attempts are made before giving up.
pub const MAX_SUBSCRIBE_RETRIES: u32 = 3;

/// The wait between subscribe attempts, in milliseconds.
pub const SUBSCRIBE_RETRY_DELAY_MS: u64 = 5_000;

/// What the subscription watches: the monitored program and leader
/// addresses, the instruction discriminators of interest, and whether
/// several leaders are mirrored.
#[derive(Debug)]
pub struct FilterConfig {
    pub program_ids: Vec<String>,
    pub instruction_discriminators: Vec<Vec<u8>>,
    pub copy_trading_target_addresses: Vec<String>,
    pub is_multi_copy_trading: bool,
}

/// The leader addresses named by a configuration string: with several
/// leaders enabled, the comma-separated entries, trimmed, empties dropped;
/// otherwise the whole string as one address, when non-empty.
pub open spec fn targets_of(s: Seq<u8>, is_multi: bool) -> Seq<Seq<u8>> {
    if is_multi {
        comma_targets(s)
    } else {
        if s.len() > 0 {
            seq![s]
        } else {
            Seq::empty()
        }
    }
}

/// The trimmed, non-empty comma-separated entries of `s`, in order.
pub open spec fn comma_targets(s: Seq<u8>) -> Seq<Seq<u8>>
    decreases s.len(),
    via comma_targets_decreases
{
    match find_first(s, seq![44u8]) {
        Some(i) => {
            let head = trim_spec(s.take(i));
            let rest = comma_targets(s.skip(i + 1));
            if head.len() > 0 {
                seq![head] + rest
            } else {
                rest
            }
        },
        None => {
            let head = trim_spec(s);
            if head.len() > 0 {
                seq![head]
            } else {
                Seq::empty()
            }
        },
    }
}

#[via_fn]
proof fn comma_targets_decreases(s: Seq<u8>) {
    crate::bytes::lemma_find_first(s, seq![44u8]);
}

/// Encoding a text and decoding it again yields the text.
proof fn lemma_valid_text_decodes(t: Seq<char>)
    ensures
        utf8_or_empty_spec(vstd::utf8::encode_utf8(t)) == t,
{
    vstd::utf8::encode_utf8_valid_utf8(t);
    vstd::utf8::encode_utf8_decode_utf8(t);
}

/// Parse the configured leader addresses: comma-separated entries, each
/// trimmed, empties dropped, in multi-leader mode; the whole string as the
/// single address otherwise.
pub fn parse_target_addresses(addr: &String, is_multi: bool) -> (r: Vec<String>)
    ensures
        ({
            let ts = targets_of(vstd::utf8::encode_utf8(addr@), is_multi);
            &&& r@.len() == ts.len()
            &&& forall|i: int|
                0 <= i < ts.len() ==> (#[trigger] r@[i])@ == utf8_or_empty_spec(ts[i])
        }),
{
    let b = addr.as_str().as_bytes();
    let ghost full = targets_of(b@, is_multi);
    let mut out: Vec<String> = Vec::new();
    if !is_multi {
        if b.len() > 0 {
            out.push(addr.clone());
            proof {
                lemma_valid_text_decodes(addr@);
                assert(out@[0]@ == addr@);
            }
        }
        return out;
    }
    let comma: Vec<u8> = vec![44u8];
    let mut off: usize = 0;
    proof {
        assert(comma@ =~= seq![44u8]);
        assert(b@.skip(0) =~= b@);
    }
    loop
        invariant
            comma@ == seq![44u8],
            0 <= off <= b@.len(),
            full == comma_targets(b@),
            full == targets_of(vstd::utf8::encode_utf8(addr@), is_multi),
            out@.len() <= full.len(),
            full.skip(out@.len() as int) == comma_targets(b@.skip(off as int)),
            forall|i: int|
                0 <= i < out@.len() ==> (#[trigger] out@[i])@ == utf8_or_empty_spec(full[i]),
        decreases b@.len() - off,
    {
        let window = slice_subrange(b, off, b.len());
        let ghost w = window@;
        let ghost ndone = out@.len() as int;
        match crate::bytes::find_seq(window, comma.as_slice()) {
            Some(i) => {
                proof {
                    crate::bytes::lemma_find_first(w, seq![44u8]);
                }
                let seg = crate::bytes::trim_bytes(slice_subrange(window, 0, i));
                proof {
                    assert(w.take(i as int) =~= window@.subrange(0, i as int));
                    assert(w.skip(i as int + 1) =~= b@.skip(off as int + i + 1));
                }
                if seg.len() > 0 {
                    let t = utf8_or_empty(seg);
                    proof {
                        assert(full.skip(ndone).len() >= 1);
                        assert(full.skip(ndone)[0] == full[ndone]);
                        assert(full[ndone] == trim_spec(w.take(i as int)));
                    }
                    out.push(t);
                    proof {
                        assert(full.skip(ndone).drop_first() =~= full.skip(ndone + 1));
                    }
                }
                off = off + i + 1;
            },
            None => {
                let seg = crate::bytes::trim_bytes(window);
                if seg.len() > 0 {
                    let t = utf8_or_empty(seg);
                    proof {
                        assert(full.skip(ndone).len() >= 1);
                        assert(full.skip(ndone)[0] == full[ndone]);
                        assert(full[ndone] == trim_spec(w));
                    }
                    out.push(t);
                    proof {
                        assert(full.skip(ndone).drop_first() =~= full.skip(ndone + 1));
                        assert(full.skip(out@.len() as int).len() == 0);
                        assert(out@[ndone]@ == utf8_or_empty_spec(full[ndone]));
                        assert forall|k: int|
                            0 <= k < out@.len() implies (#[trigger] out@[k])@
                            == utf8_or_empty_spec(full[k]) by {}
                    }
                } else {
                    proof {
                        assert(full.skip(ndone).len() == 0);
                    }
                }
                proof {
                    assert(out@.len() == full.len());
                    assert(full == targets_of(vstd::utf8::encode_utf8(addr@), is_multi));
                }
                return out;
            },
        }
    }
}

/// The plain subscription request the supervisor sends: watch the given
/// addresses, exclude the aggregator programs, only non-vote, non-failed
/// transactions, at processed commitment.
#[derive(Debug)]
pub struct SubscribePlan {
    pub vote: Option<bool>,
    pub failed: Option<bool>,
    pub account_watch: Vec<String>,
    pub account_exclude: Vec<String>,
    pub account_required: Vec<String>,
    pub commitment_processed: bool,
}

/// Build the subscription request for the watched addresses.
pub fn build_subscribe_plan(program_ids: &Vec<String>) -> (r: SubscribePlan)
    ensures
        r.vote is None,
        r.failed == Some(false),
        r.account_watch@.len() == program_ids@.len(),
        forall|i: int|
            0 <= i < program_ids@.len() ==> (#[trigger] r.account_watch@[i])@
                == program_ids@[i]@,
        r.account_exclude@.len() == 2,
        r.account_exclude@[0]@ == crate::patterns::jupiter_program_id_spec(),
        r.account_exclude@[1]@ == crate::patterns::okx_dex_program_id_spec(),
        r.account_required@.len() == 0,
        r.commitment_processed,
{
    let mut watched: Vec<String> = Vec::new();
    let mut i: usize = 0;
    while i < program_ids.len()
        invariant
            0 <= i <= program_ids@.len(),
            watched@.len() == i,
            forall|k: int| 0 <= k < i ==> (#[trigger] watched@[k])@ == program_ids@[k]@,
        decreases program_ids@.len() - i,
    {
        watched.push(program_ids[i].clone());
        i = i + 1;
    }
    let mut exclude: Vec<String> = Vec::new();
    exclude.push(jupiter_program_id());
    exclude.push(okx_dex_program_id());
    SubscribePlan {
        vote: None,
        failed: Some(false),
        account_watch: watched,
        account_exclude: exclude,
        account_required: Vec::new(),
        commitment_processed: true,
    }
}

/// The kind of an inbound stream message, as far as the keepalive cares.
#[derive(Debug, Clone, Copy, PartialEq, Eq, Structural)]
pub enum UpdateKind {
    /// A server ping that wants an immediate reply.
    Ping,
    /// A reply to one of our pings.
    Pong,
    /// A transaction update.
    Transaction,
    /// Anything else.
    Other,
}

/// The body of a keepalive ping on the control channel.
#[derive(Debug, Clone, Copy, PartialEq, Eq, Structural)]
pub struct PingRequest {
    pub id: i32,
}

/// The keepalive reply to a server ping: a ping body with id 1.
pub fn handle_ping_message() -> (r: PingRequest)
    ensures
        r.id == 1,
{
    PingRequest { id: 1 }
}

/// The periodic heartbeat ping: the same body with id 1.
pub fn send_heartbeat_ping() -> (r: PingRequest)
    ensures
        r.id == 1,
{
    PingRequest { id: 1 }
}

/// The watchdog's view of the connection: when the last inbound message
/// arrived, in milliseconds.
#[derive(Debug, Clone, Copy, PartialEq, Eq, Structural)]
pub struct ConnectionWatch {
    pub last_message_at: u64,
}

impl ConnectionWatch {
    /// A fresh watch that saw a message now.
    pub fn new(now_ms: u64) -> (r: ConnectionWatch)
        ensures
            r.last_message_at == now_ms,
    {
        ConnectionWatch { last_message_at: now_ms }
    }

    /// Record an inbound message.
    pub fn update_last_message_time(&mut self, now_ms: u64)
        ensures
            final(self).last_message_at == now_ms,
    {
        self.last_message_at = now_ms;
    }

    /// Whether the connection looks stale: more than the staleness window
    /// has passed since the last inbound message.
    pub fn check_connection_health(&self, now_ms: u64) -> (stale: bool)
        ensures
            stale == (now_ms > self.last_message_at && now_ms - self.last_message_at
                > STALE_AFTER_MS),
    {
        now_ms > self.last_message_at && now_ms - self.last_message_at > STALE_AFTER_MS
    }

    /// Handle one inbound message: every message refreshes the watchdog,
    /// and a server ping is answered with a ping body of id 1.
    pub fn process_stream_message(&mut self, kind: UpdateKind, now_ms: u64) -> (reply: Option<
        PingRequest,
    >)
        ensures
            final(self).last_message_at == now_ms,
            reply == (if kind == UpdateKind::Ping {
                Some(PingRequest { id: 1 })
            } else {
                None::<PingRequest>
            }),
    {
        self.update_last_message_time(now_ms);
        if kind == UpdateKind::Ping {
            Some(handle_ping_message())
        } else {
            None
        }
    }
}

/// Whether a failed subscribe attempt is retried: after `retry_count`
/// failures, retry (after the backoff delay) until the limit, then give up.
pub fn should_retry_subscribe(retry_count: u32) -> (r: Option<u64>)
    ensures
        r == (if retry_count < MAX_SUBSCRIBE_RETRIES {
            Some(SUBSCRIBE_RETRY_DELAY_MS)
        } else {
            None::<u64>
        }),
{
    if retry_count < MAX_SUBSCRIBE_RETRIES {
        Some(SUBSCRIBE_RETRY_DELAY_MS)
    } else {
        None
    }
}

/// Assemble the filter configuration a trader runs with: the parsed leader
/// addresses, watched alongside an optional base program (the bonding-curve
/// program for the new-token trader).
pub fn build_filter_config(address: &String, is_multi: bool, base_program: Option<String>) -> (r:
    FilterConfig)
    ensures
        r.instruction_discriminators@.len() == 0,
        r.is_multi_copy_trading == is_multi,
        ({
            let ts = targets_of(vstd::utf8::encode_utf8(address@), is_multi);
            &&& r.copy_trading_target_addresses@.len() == ts.len()
            &&& forall|i: int|
                0 <= i < ts.len() ==> (#[trigger] r.copy_trading_target_addresses@[i])@
                    == utf8_or_empty_spec(ts[i])
            &&& match base_program {
                Some(p) => {
                    &&& r.program_ids@.len() == ts.len() + 1
                    &&& r.program_ids@[0]@ == p@
                    &&& forall|i: int|
                        0 <= i < ts.len() ==> (#[trigger] r.program_ids@[i + 1])@
                            == utf8_or_empty_spec(ts[i])
                },
                None => {
                    &&& r.program_ids@.len() == ts.len()
                    &&& forall|i: int|
                        0 <= i < ts.len() ==> (#[trigger] r.program_ids@[i])@
                            == utf8_or_empty_spec(ts[i])
                },
            }
        }),
{
    let targets = parse_target_addresses(address, is_multi);
    let ghost basev: Option<Seq<char>> = match base_program {
        Some(ref p) => Some(p@),
        None => None,
    };
    let mut program_ids: Vec<String> = Vec::new();
    let base_len: usize = match base_program {
        Some(p) => {
            program_ids.push(p);
            1
        },
        None => 0,
    };
    let mut i: usize = 0;
    while i < targets.len()
        invariant
            0 <= i <= targets@.len(),
            program_ids@.len() == base_len + i,
            base_len == (if basev is Some {
                1int
            } else {
                0int
            }),
            basev matches Some(pv) ==> program_ids@[0]@ == pv,
            forall|k: int| 0 <= k < i ==> (#[trigger] program_ids@[base_len + k])@ == targets@[k]@,
        decreases targets@.len() - i,
    {
        program_ids.push(targets[i].clone());
        i = i + 1;
    }
    proof {
        match basev {
            Some(_) => {
                assert forall|k: int|
                    0 <= k < targets@.len() implies (#[trigger] program_ids@[k + 1])@
                    == targets@[k]@ by {
                    assert(program_ids@[base_len + k]@ == targets@[k]@);
                }
            },
            None => {
                assert forall|k: int|
                    0 <= k < targets@.len() implies (#[trigger] program_ids@[k])@
                    == targets@[k]@ by {
                    assert(program_ids@[base_len + k]@ == targets@[k]@);
                }
            },
        }
    }
    FilterConfig {
        program_ids,
        instruction_discriminators: Vec::new(),
        copy_trading_target_addresses: targets,
        is_multi_copy_trading: is_multi,
    }
}

} // verus!

