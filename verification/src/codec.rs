//! Log classification and payload decoding. A transaction's log lines are
//! scanned in order and the first line matching the classification table
//! decides the instruction kind; the matching venue's base64 payload and
//! `key: value` log text then yield the event's fields. Every function here
//! is specified exactly by a spec-level mirror of the scan.

use vstd::prelude::*;
use vstd::bytes::{spec_u32_from_le_bytes, spec_u64_from_le_bytes, u32_from_le_bytes, u64_from_le_bytes};
use vstd::slice::{slice_subrange, slice_to_vec};
use crate::bytes::{
    contains_bytes, is_prefix_of, parse_u64, parse_u64_spec, seq_has, split_marker_second,
    split_second, starts_with_bytes, trim_bytes, trim_spec,
};
use crate::encoding::{b58_encode, b58_of, utf8_or_empty, utf8_or_empty_spec};
use crate::patterns::{
    buy_event_marker, buy_event_marker_spec, buy_log_marker, buy_log_marker_spec,
    curve_data_prefix, curve_data_prefix_spec, mint_data_prefix, mint_data_prefix_spec,
    pool_buy_data_prefix, pool_buy_data_prefix_spec, pool_program_marker,
    pool_program_marker_spec, pool_sell_data_prefix, pool_sell_data_prefix_spec,
    sell_event_marker, sell_event_marker_spec, sell_log_marker, sell_log_marker_spec,
};
use crate::trade::InstructionType;

verus! {

/// The bytes of each log line, in order.
pub open spec fn logs_view(logs: Seq<String>) -> Seq<Seq<u8>> {
    Seq::new(logs.len(), |i: int| vstd::utf8::encode_utf8(logs[i]@))
}

/// Index of the first log line at or after `i` that contains `p`.
pub open spec fn first_with(ls: Seq<Seq<u8>>, p: Seq<u8>, i: int) -> Option<int>
    decreases ls.len() - i,
{
    if i < 0 || i >= ls.len() {
        None
    } else if seq_has(ls[i], p) {
        Some(i)
    } else {
        first_with(ls, p, i + 1)
    }
}

/// Some log line contains `p`.
pub open spec fn any_log_has(ls: Seq<Seq<u8>>, p: Seq<u8>) -> bool {
    first_with(ls, p, 0) is Some
}

/// The pool-event fallback: the first log line naming a buy or sell event
/// decides, buy taking precedence within a line.
pub open spec fn fallback_event(ls: Seq<Seq<u8>>, i: int) -> Option<InstructionType>
    decreases ls.len() - i,
{
    if i < 0 || i >= ls.len() {
        None
    } else if seq_has(ls[i], buy_event_marker_spec()) {
        Some(InstructionType::PumpSwapBuy)
    } else if seq_has(ls[i], sell_event_marker_spec()) {
        Some(InstructionType::PumpSwapSell)
    } else {
        fallback_event(ls, i + 1)
    }
}

/// The classification table, applied to one log line `l` with the full log
/// list `ls` supplying the guards: a creation-event payload prefix means a
/// mint; a buy or sell instruction line is a curve trade when some line
/// carries the curve trade payload, and a pool trade when some line carries
/// the pool payload; a bare pool-program invocation falls back to the event
/// scan.
pub open spec fn log_classifies(ls: Seq<Seq<u8>>, l: Seq<u8>) -> Option<InstructionType> {
    if is_prefix_of(mint_data_prefix_spec(), l) {
        Some(InstructionType::PumpMint)
    } else if seq_has(l, buy_log_marker_spec()) && any_log_has(ls, curve_data_prefix_spec()) {
        Some(InstructionType::PumpBuy)
    } else if seq_has(l, sell_log_marker_spec()) && any_log_has(ls, curve_data_prefix_spec()) {
        Some(InstructionType::PumpSell)
    } else if seq_has(l, buy_log_marker_spec()) && any_log_has(ls, pool_buy_data_prefix_spec()) {
        Some(InstructionType::PumpSwapBuy)
    } else if seq_has(l, sell_log_marker_spec()) && any_log_has(ls, pool_sell_data_prefix_spec()) {
        Some(InstructionType::PumpSwapSell)
    } else if seq_has(l, pool_program_marker_spec()) {
        fallback_event(ls, 0)
    } else {
        None
    }
}

/// First-match classification over the log lines from index `i` on: the
/// kind, and the index of the deciding line.
pub open spec fn classify_at(ls: Seq<Seq<u8>>, i: int) -> Option<(InstructionType, int)>
    decreases ls.len() - i,
{
    if i < 0 || i >= ls.len() {
        None
    } else {
        match log_classifies(ls, ls[i]) {
            Some(t) => Some((t, i)),
            None => classify_at(ls, i + 1),
        }
    }
}

/// Whether some log line contains `p`.
fn any_log_contains(logs: &Vec<String>, p: &Vec<u8>) -> (r: bool)
    ensures
        r == any_log_has(logs_view(logs@), p@),
{
    let ghost ls = logs_view(logs@);
    let mut j: usize = 0;
    while j < logs.len()
        invariant
            0 <= j <= logs@.len(),
            ls == logs_view(logs@),
            first_with(ls, p@, 0) == first_with(ls, p@, j as int),
        decreases logs@.len() - j,
    {
        let lb = logs[j].as_str().as_bytes();
        proof {
            assert(lb@ == ls[j as int]);
        }
        if contains_bytes(lb, p.as_slice()) {
            return true;
        }
        j = j + 1;
    }
    false
}

/// The pool-event fallback scan, executable form.
fn fallback_scan(logs: &Vec<String>) -> (r: Option<InstructionType>)
    ensures
        r == fallback_event(logs_view(logs@), 0),
{
    let buy_marker = buy_event_marker();
    let sell_marker = sell_event_marker();
    let ghost ls = logs_view(logs@);
    let mut j: usize = 0;
    while j < logs.len()
        invariant
            0 <= j <= logs@.len(),
            ls == logs_view(logs@),
            buy_marker@ == buy_event_marker_spec(),
            sell_marker@ == sell_event_marker_spec(),
            fallback_event(ls, 0) == fallback_event(ls, j as int),
        decreases logs@.len() - j,
    {
        let lb = logs[j].as_str().as_bytes();
        proof {
            assert(lb@ == ls[j as int]);
        }
        if contains_bytes(lb, buy_marker.as_slice()) {
            return Some(InstructionType::PumpSwapBuy);
        }
        if contains_bytes(lb, sell_marker.as_slice()) {
            return Some(InstructionType::PumpSwapSell);
        }
        j = j + 1;
    }
    None
}

/// Classify a transaction by its log lines: the first line matching the
/// classification table decides the kind; the index of that line is
/// returned with it.
pub fn classify_logs(logs: &Vec<String>) -> (r: Option<(InstructionType, usize)>)
    ensures
        match r {
            Some(ti) => classify_at(logs_view(logs@), 0) == Some((ti.0, ti.1 as int)),
            None => classify_at(logs_view(logs@), 0) is None,
        },
{
    let mint_prefix = mint_data_prefix();
    let buy_log = buy_log_marker();
    let sell_log = sell_log_marker();
    let curve_data = curve_data_prefix();
    let pool_buy_data = pool_buy_data_prefix();
    let pool_sell_data = pool_sell_data_prefix();
    let pool_marker = pool_program_marker();
    let ghost ls = logs_view(logs@);
    let mut i: usize = 0;
    while i < logs.len()
        invariant
            0 <= i <= logs@.len(),
            ls == logs_view(logs@),
            mint_prefix@ == mint_data_prefix_spec(),
            buy_log@ == buy_log_marker_spec(),
            sell_log@ == sell_log_marker_spec(),
            curve_data@ == curve_data_prefix_spec(),
            pool_buy_data@ == pool_buy_data_prefix_spec(),
            pool_sell_data@ == pool_sell_data_prefix_spec(),
            pool_marker@ == pool_program_marker_spec(),
            classify_at(ls, 0) == classify_at(ls, i as int),
        decreases logs@.len() - i,
    {
        let lb = logs[i].as_str().as_bytes();
        proof {
            assert(lb@ == ls[i as int]);
        }
        if starts_with_bytes(lb, mint_prefix.as_slice()) {
            return Some((InstructionType::PumpMint, i));
        }
        let has_buy_log = contains_bytes(lb, buy_log.as_slice());
        let has_sell_log = contains_bytes(lb, sell_log.as_slice());
        if has_buy_log && any_log_contains(logs, &curve_data) {
            return Some((InstructionType::PumpBuy, i));
        }
        if has_sell_log && any_log_contains(logs, &curve_data) {
            return Some((InstructionType::PumpSell, i));
        }
        if has_buy_log && any_log_contains(logs, &pool_buy_data) {
            return Some((InstructionType::PumpSwapBuy, i));
        }
        if has_sell_log && any_log_contains(logs, &pool_sell_data) {
            return Some((InstructionType::PumpSwapSell, i));
        }
        if contains_bytes(lb, pool_marker.as_slice()) {
            match fallback_scan(logs) {
                Some(t) => {
                    return Some((t, i));
                },
                None => {},
            }
        }
        i = i + 1;
    }
    None
}

/// One length-prefixed string field of a creation payload at `off`: the raw
/// bytes and the offset after them. A missing length leaves the offset in
/// place; string bytes running past the end advance past the length alone.
pub open spec fn str_step(d: Seq<u8>, off: int) -> (Seq<u8>, int) {
    if off + 4 <= d.len() {
        let n = spec_u32_from_le_bytes(d.subrange(off, off + 4)) as int;
        if off + 4 + n <= d.len() {
            (d.subrange(off + 4, off + 4 + n), off + 4 + n)
        } else {
            (Seq::empty(), off + 4)
        }
    } else {
        (Seq::empty(), off)
    }
}

/// One 32-byte key field of a creation payload at `off`: the key bytes if
/// present, and the offset after them.
pub open spec fn key_step(d: Seq<u8>, off: int) -> (Option<Seq<u8>>, int) {
    if off + 32 <= d.len() {
        (Some(d.subrange(off, off + 32)), off + 32)
    } else {
        (None, off)
    }
}

/// Base58 text of a key field, or empty where the field was missing.
pub open spec fn key_text(k: Option<Seq<u8>>) -> Seq<char> {
    match k {
        Some(b) => b58_of(b),
        None => Seq::empty(),
    }
}

/// The decoded fields of a token-creation payload: three length-prefixed
/// strings, then the mint, bonding-curve and creator keys in base58. Fields
/// the payload is too short for are left empty.
#[derive(Debug, Clone, PartialEq, Eq)]
pub struct MintPayload {
    pub name: String,
    pub symbol: String,
    pub uri: String,
    pub mint: String,
    pub bonding_curve: String,
    pub target: String,
}

/// Ghost image of [`MintPayload`].
pub struct MintPayloadView {
    pub name: Seq<char>,
    pub symbol: Seq<char>,
    pub uri: Seq<char>,
    pub mint: Seq<char>,
    pub bonding_curve: Seq<char>,
    pub target: Seq<char>,
}

impl View for MintPayload {
    type V = MintPayloadView;

    open spec fn view(&self) -> MintPayloadView {
        MintPayloadView {
            name: self.name@,
            symbol: self.symbol@,
            uri: self.uri@,
            mint: self.mint@,
            bonding_curve: self.bonding_curve@,
            target: self.target@,
        }
    }
}

/// What decoding a creation payload yields: the six fields read in order
/// from offset 8 (after the event discriminator).
pub open spec fn decode_mint_payload_spec(d: Seq<u8>) -> MintPayloadView {
    let (nb, o1) = str_step(d, 8);
    let (sb, o2) = str_step(d, o1);
    let (ub, o3) = str_step(d, o2);
    let (mk, o4) = key_step(d, o3);
    let (ck, o5) = key_step(d, o4);
    let (tk, o6) = key_step(d, o5);
    MintPayloadView {
        name: utf8_or_empty_spec(nb),
        symbol: utf8_or_empty_spec(sb),
        uri: utf8_or_empty_spec(ub),
        mint: key_text(mk),
        bonding_curve: key_text(ck),
        target: key_text(tk),
    }
}

/// One executable string-field step.
fn str_step_exec(d: &[u8], off: usize) -> (r: (Vec<u8>, usize))
    requires
        off <= d@.len(),
    ensures
        r.0@ == str_step(d@, off as int).0,
        r.1 == str_step(d@, off as int).1,
        r.1 <= d@.len(),
{
    if d.len() - off >= 4 {
        let n = u32_from_le_bytes(slice_subrange(d, off, off + 4)) as usize;
        let off2 = off + 4;
        if n <= d.len() - off2 {
            (slice_to_vec(slice_subrange(d, off2, off2 + n)), off2 + n)
        } else {
            (Vec::new(), off2)
        }
    } else {
        (Vec::new(), off)
    }
}

/// One executable key-field step.
fn key_step_exec(d: &[u8], off: usize) -> (r: (Option<Vec<u8>>, usize))
    requires
        off <= d@.len(),
    ensures
        match r.0 {
            Some(v) => key_step(d@, off as int).0 == Some(v@),
            None => key_step(d@, off as int).0 is None,
        },
        r.1 == key_step(d@, off as int).1,
        r.1 <= d@.len(),
{
    if d.len() - off >= 32 {
        (Some(slice_to_vec(slice_subrange(d, off, off + 32))), off + 32)
    } else {
        (None, off)
    }
}

/// Render a key field: base58 of the bytes, or empty where missing.
fn key_text_exec(k: Option<Vec<u8>>) -> (r: String)
    ensures
        r@ == key_text(
            match k {
                Some(v) => Some(v@),
                None => None,
            },
        ),
{
    match k {
        Some(v) => b58_encode(v.as_slice()),
        None => String::new(),
    }
}

/// Decode a token-creation payload. Works on any byte string: fields the
/// payload is too short for come back empty, and nothing panics.
pub fn decode_mint_payload(d: &[u8]) -> (r: MintPayload)
    ensures
        r@ == decode_mint_payload_spec(d@),
{
    let start: usize = if d.len() < 8 {
        d.len()
    } else {
        8
    };
    proof {
        if d@.len() < 8 {
            assert(str_step(d@, 8).1 == 8);
        }
    }
    if d.len() < 8 {
        // every field is out of range: all steps leave the offset at 8
        return MintPayload {
            name: utf8_or_empty(Vec::new()),
            symbol: utf8_or_empty(Vec::new()),
            uri: utf8_or_empty(Vec::new()),
            mint: String::new(),
            bonding_curve: String::new(),
            target: String::new(),
        };
    }
    let (nb, o1) = str_step_exec(d, 8);
    let (sb, o2) = str_step_exec(d, o1);
    let (ub, o3) = str_step_exec(d, o2);
    let (mk, o4) = key_step_exec(d, o3);
    let (ck, o5) = key_step_exec(d, o4);
    let (tk, _o6) = key_step_exec(d, o5);
    MintPayload {
        name: utf8_or_empty(nb),
        symbol: utf8_or_empty(sb),
        uri: utf8_or_empty(ub),
        mint: key_text_exec(mk),
        bonding_curve: key_text_exec(ck),
        target: key_text_exec(tk),
    }
}

/// The framing of a creation payload: an 8-byte discriminator, three
/// strings each prefixed by its little-endian 32-bit byte length, then
/// three 32-byte keys.
pub open spec fn mint_payload_bytes(
    disc: Seq<u8>,
    nb: Seq<u8>,
    sb: Seq<u8>,
    ub: Seq<u8>,
    m: Seq<u8>,
    c: Seq<u8>,
    t: Seq<u8>,
) -> Seq<u8> {
    disc + vstd::bytes::spec_u32_to_le_bytes(nb.len() as u32) + nb
        + vstd::bytes::spec_u32_to_le_bytes(sb.len() as u32) + sb
        + vstd::bytes::spec_u32_to_le_bytes(ub.len() as u32) + ub + m + c + t
}

/// The creation payload round-trips: a payload assembled from a name, a
/// symbol, a uri and the mint, curve and creator keys decodes back to
/// exactly those six fields — the texts themselves, the keys in base58.
pub proof fn lemma_mint_payload_round_trip(
    disc: Seq<u8>,
    name: Seq<char>,
    symbol: Seq<char>,
    uri: Seq<char>,
    m: Seq<u8>,
    c: Seq<u8>,
    t: Seq<u8>,
)
    requires
        disc.len() == 8,
        m.len() == 32,
        c.len() == 32,
        t.len() == 32,
        vstd::utf8::encode_utf8(name).len() <= u32::MAX,
        vstd::utf8::encode_utf8(symbol).len() <= u32::MAX,
        vstd::utf8::encode_utf8(uri).len() <= u32::MAX,
    ensures
        ({
            let d = mint_payload_bytes(
                disc,
                vstd::utf8::encode_utf8(name),
                vstd::utf8::encode_utf8(symbol),
                vstd::utf8::encode_utf8(uri),
                m,
                c,
                t,
            );
            let mp = decode_mint_payload_spec(d);
            &&& mp.name == name
            &&& mp.symbol == symbol
            &&& mp.uri == uri
            &&& mp.mint == b58_of(m)
            &&& mp.bonding_curve == b58_of(c)
            &&& mp.target == b58_of(t)
        }),
{
    vstd::bytes::lemma_auto_spec_u32_to_from_le_bytes();
    let nb = vstd::utf8::encode_utf8(name);
    let sb = vstd::utf8::encode_utf8(symbol);
    let ub = vstd::utf8::encode_utf8(uri);
    let d = mint_payload_bytes(disc, nb, sb, ub, m, c, t);
    let o1 = 12 + nb.len() as int;
    let o2 = o1 + 4 + sb.len();
    let o3 = o2 + 4 + ub.len();
    assert(d.len() == o3 + 96);
    // the name field
    assert(d.subrange(8, 12) =~= vstd::bytes::spec_u32_to_le_bytes(nb.len() as u32));
    assert(d.subrange(12, o1) =~= nb);
    assert(str_step(d, 8) == (nb, o1));
    // the symbol field
    assert(d.subrange(o1, o1 + 4) =~= vstd::bytes::spec_u32_to_le_bytes(sb.len() as u32));
    assert(d.subrange(o1 + 4, o2) =~= sb);
    assert(str_step(d, o1) == (sb, o2));
    // the uri field
    assert(d.subrange(o2, o2 + 4) =~= vstd::bytes::spec_u32_to_le_bytes(ub.len() as u32));
    assert(d.subrange(o2 + 4, o3) =~= ub);
    assert(str_step(d, o2) == (ub, o3));
    // the three keys
    assert(d.subrange(o3, o3 + 32) =~= m);
    assert(d.subrange(o3 + 32, o3 + 64) =~= c);
    assert(d.subrange(o3 + 64, o3 + 96) =~= t);
    assert(key_step(d, o3) == (Some(m), o3 + 32));
    assert(key_step(d, o3 + 32) == (Some(c), o3 + 64));
    assert(key_step(d, o3 + 64) == (Some(t), o3 + 96));
    // a text encoded to UTF-8 decodes back to itself
    vstd::utf8::encode_utf8_valid_utf8(name);
    vstd::utf8::encode_utf8_decode_utf8(name);
    vstd::utf8::encode_utf8_valid_utf8(symbol);
    vstd::utf8::encode_utf8_decode_utf8(symbol);
    vstd::utf8::encode_utf8_valid_utf8(uri);
    vstd::utf8::encode_utf8_decode_utf8(uri);
}

/// The decoded fields of a curve trade payload: the mint key in base58
/// (empty when absent), the token amount, and the lamport limit (the
/// maximum spent on a buy, the minimum received on a sell); a numeric field
/// whose trailing bytes the payload is too short for is absent.
#[derive(Debug, Clone, PartialEq, Eq)]
pub struct CurvePayload {
    pub mint: String,
    pub amount: Option<u64>,
    pub limit: Option<u64>,
}

/// Ghost image of [`CurvePayload`].
pub struct CurvePayloadView {
    pub mint: Seq<char>,
    pub amount: Option<u64>,
    pub limit: Option<u64>,
}

impl View for CurvePayload {
    type V = CurvePayloadView;

    open spec fn view(&self) -> CurvePayloadView {
        CurvePayloadView { mint: self.mint@, amount: self.amount, limit: self.limit }
    }
}

/// What decoding a curve trade payload yields: the mint key at bytes 8..40,
/// the amount at 40..48 and the limit at 48..56, little endian; missing
/// trailing bytes leave the field absent.
pub open spec fn decode_trade_payload_spec(d: Seq<u8>) -> CurvePayloadView {
    CurvePayloadView {
        mint: if d.len() >= 40 {
            b58_of(d.subrange(8, 40))
        } else {
            Seq::empty()
        },
        amount: if d.len() >= 48 {
            Some(spec_u64_from_le_bytes(d.subrange(40, 48)))
        } else {
            None
        },
        limit: if d.len() >= 56 {
            Some(spec_u64_from_le_bytes(d.subrange(48, 56)))
        } else {
            None
        },
    }
}

/// Decode a curve trade payload. Works on any byte string: missing trailing
/// fields come back empty or absent, and nothing panics.
pub fn decode_trade_payload(d: &[u8]) -> (r: CurvePayload)
    ensures
        r@ == decode_trade_payload_spec(d@),
{
    let mint: String = if d.len() >= 40 {
        b58_encode(slice_subrange(d, 8, 40))
    } else {
        String::new()
    };
    let amount: Option<u64> = if d.len() >= 48 {
        Some(u64_from_le_bytes(slice_subrange(d, 40, 48)))
    } else {
        None
    };
    let limit: Option<u64> = if d.len() >= 56 {
        Some(u64_from_le_bytes(slice_subrange(d, 48, 56)))
    } else {
        None
    };
    CurvePayload { mint, amount, limit }
}

/// The `key: value` number scraped from one log line: the text after the
/// first occurrence of the marker (up to its next occurrence), trimmed and
/// parsed as a decimal.
pub open spec fn scrape_val(l: Seq<u8>, m: Seq<u8>) -> Option<u64> {
    match split_second(l, m) {
        Some(seg) => parse_u64_spec(trim_spec(seg)),
        None => None,
    }
}

/// The value the scan is left with after reading every log line in order
/// and keeping each successful parse: the last line that parses wins.
pub open spec fn scraped_u64(ls: Seq<Seq<u8>>, m: Seq<u8>) -> Option<u64>
    decreases ls.len(),
{
    if ls.len() == 0 {
        None
    } else {
        match scrape_val(ls.last(), m) {
            Some(v) => Some(v),
            None => scraped_u64(ls.drop_last(), m),
        }
    }
}

/// The text the scan is left with: from the last line containing the
/// marker, the trimmed segment after it (up to a repeated marker).
pub open spec fn scraped_text(ls: Seq<Seq<u8>>, m: Seq<u8>) -> Option<Seq<u8>>
    decreases ls.len(),
{
    if ls.len() == 0 {
        None
    } else {
        match split_second(ls.last(), m) {
            Some(seg) => Some(trim_spec(seg)),
            None => scraped_text(ls.drop_last(), m),
        }
    }
}

/// Scrape a `marker: number` value from the logs, the last successful parse
/// winning.
pub fn scrape_number(logs: &Vec<String>, m: &Vec<u8>) -> (r: Option<u64>)
    ensures
        r == scraped_u64(logs_view(logs@), m@),
{
    let ghost ls = logs_view(logs@);
    let mut i: usize = logs.len();
    proof {
        assert(ls.take(logs@.len() as int) =~= ls);
    }
    while i > 0
        invariant
            0 <= i <= logs@.len(),
            ls == logs_view(logs@),
            scraped_u64(ls, m@) == scraped_u64(ls.take(i as int), m@),
        decreases i,
    {
        i = i - 1;
        let lb = logs[i].as_str().as_bytes();
        proof {
            assert(lb@ == ls[i as int]);
            assert(ls.take(i as int + 1).last() == ls[i as int]);
            assert(ls.take(i as int + 1).drop_last() =~= ls.take(i as int));
        }
        match split_marker_second(lb, m.as_slice()) {
            Some(seg) => {
                let trimmed = trim_bytes(seg.as_slice());
                match parse_u64(trimmed.as_slice()) {
                    Some(v) => {
                        return Some(v);
                    },
                    None => {},
                }
            },
            None => {},
        }
    }
    proof {
        assert(ls.take(0) =~= Seq::<Seq<u8>>::empty());
    }
    None
}

/// Scrape the trimmed text after a marker from the logs, the last line
/// containing the marker winning.
pub fn scrape_text(logs: &Vec<String>, m: &Vec<u8>) -> (r: Option<Vec<u8>>)
    ensures
        match r {
            Some(v) => scraped_text(logs_view(logs@), m@) == Some(v@),
            None => scraped_text(logs_view(logs@), m@) is None,
        },
{
    let ghost ls = logs_view(logs@);
    let mut i: usize = logs.len();
    proof {
        assert(ls.take(logs@.len() as int) =~= ls);
    }
    while i > 0
        invariant
            0 <= i <= logs@.len(),
            ls == logs_view(logs@),
            scraped_text(ls, m@) == scraped_text(ls.take(i as int), m@),
        decreases i,
    {
        i = i - 1;
        let lb = logs[i].as_str().as_bytes();
        proof {
            assert(lb@ == ls[i as int]);
            assert(ls.take(i as int + 1).last() == ls[i as int]);
            assert(ls.take(i as int + 1).drop_last() =~= ls.take(i as int));
        }
        match split_marker_second(lb, m.as_slice()) {
            Some(seg) => {
                return Some(trim_bytes(seg.as_slice()));
            },
            None => {},
        }
    }
    proof {
        assert(ls.take(0) =~= Seq::<Seq<u8>>::empty());
    }
    None
}

/// The whitespace-separated field of a log line that carries its base64
/// payload (the third field of `Program data: <payload>`), or empty when
/// the line has fewer fields.
pub open spec fn payload_field(l: Seq<u8>) -> Seq<u8> {
    if crate::bytes::ws_fields(l).len() > 2 {
        crate::bytes::ws_fields(l)[2]
    } else {
        Seq::empty()
    }
}

/// Extract the base64 payload field of a log line.
pub fn payload_field_exec(l: &[u8]) -> (r: Vec<u8>)
    ensures
        r@ == payload_field(l@),
{
    match crate::bytes::nth_field(l, 2) {
        Some(v) => v,
        None => Vec::new(),
    }
}

/// A classification result points at a log line in range.
pub proof fn lemma_classify_at_bounds(ls: Seq<Seq<u8>>, i: int)
    ensures
        classify_at(ls, i) matches Some(ti) ==> i <= ti.1 < ls.len(),
    decreases ls.len() - i,
{
    if i < 0 || i >= ls.len() {
    } else {
        match log_classifies(ls, ls[i]) {
            Some(t) => {},
            None => {
                lemma_classify_at_bounds(ls, i + 1);
            },
        }
    }
}

} // verus!

