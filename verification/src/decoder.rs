//! Reconstruction of a full trade event from a transaction update and its
//! log lines: `TradeInfoFromToken::from_json`. The decoder is specified
//! exactly by [`decode_spec`], a spec-level mirror of the whole
//! reconstruction, and proved to return precisely what it says, including
//! which error each malformed input yields.

use vstd::prelude::*;
use crate::codec::{
    classify_at, decode_mint_payload, decode_mint_payload_spec, decode_trade_payload,
    decode_trade_payload_spec, classify_logs, first_with, logs_view, payload_field,
    payload_field_exec, scrape_number, scrape_text, scraped_text, scraped_u64,
};
use crate::encoding::{
    b58_decode, b58_decode_of, b58_encode, b58_of, b64_decode, b64_decode_of, utf8_or_empty,
    utf8_or_empty_spec,
};
use crate::patterns::{
    INITIAL_VIRTUAL_SOL_RESERVES, INITIAL_VIRTUAL_TOKEN_RESERVES, base_amount_in_marker,
    base_amount_in_marker_spec, base_amount_out_marker, base_amount_out_marker_spec,
    bonding_curve_marker, bonding_curve_marker_spec, curve_data_prefix, curve_data_prefix_spec,
    max_quote_amount_in_marker, max_quote_amount_in_marker_spec, min_quote_amount_out_marker,
    min_quote_amount_out_marker_spec, pool_amm_program_id, pool_amm_program_id_spec,
    pool_base_reserves_marker, pool_base_reserves_marker_spec, pool_quote_reserves_marker,
    pool_quote_reserves_marker_spec,
};
use crate::trade::{
    BondingCurveInfo, BondingCurveInfoView, DecodeError, InstructionType, PoolInfo, PoolInfoView,
    TradeInfoFromToken, TradeInfoView,
};
use crate::txn::{
    InstructionDataView, TokenBalanceData, TokenBalanceView, TxnMessage, TxnMessageView, TxnMeta,
    TxnMetaView, TxnUpdate, TxnUpdateView,
};

verus! {

/// The all-zero 32-byte key, standing in for an account the transaction
/// did not carry.
pub open spec fn zero_key() -> Seq<u8> {
    Seq::new(32, |i: int| 0u8)
}

/// Executable form of [`zero_key`].
pub fn zero_key_exec() -> (r: Vec<u8>)
    ensures
        r@ == zero_key(),
{
    let mut v: Vec<u8> = Vec::new();
    let mut i: usize = 0;
    while i < 32
        invariant
            0 <= i <= 32,
            v@.len() == i,
            forall|k: int| 0 <= k < i ==> v@[k] == 0u8,
        decreases 32 - i,
    {
        v.push(0u8);
        i = i + 1;
    }
    proof {
        assert(v@ =~= zero_key());
    }
    v
}

/// The balance at an index, zero when the index is out of range.
pub open spec fn balance_at(b: Seq<u64>, i: int) -> u64 {
    if 0 <= i < b.len() {
        b[i]
    } else {
        0
    }
}

/// Executable form of [`balance_at`].
pub fn balance_at_exec(b: &Vec<u64>, i: usize) -> (r: u64)
    ensures
        r == balance_at(b@, i as int),
{
    if i < b.len() {
        b[i]
    } else {
        0
    }
}

/// The lamport change of the account at `idx`: its post-balance minus its
/// pre-balance, truncated to a signed 64-bit value.
pub open spec fn vol_change(meta: TxnMetaView, idx: int) -> i64 {
    ((balance_at(meta.post_balances, idx) - balance_at(meta.pre_balances, idx)) as i64)
}

/// Compute the lamport change of the account at `idx`.
pub fn vol_change_exec(meta: &TxnMeta, idx: usize) -> (r: i64)
    ensures
        r == vol_change(meta@, idx as int),
{
    let post = balance_at_exec(&meta.post_balances, idx);
    let pre = balance_at_exec(&meta.pre_balances, idx);
    #[verifier::truncate]
    let r: i64 = ((post as i128) - (pre as i128)) as i64;
    r
}

/// The key bytes render to this base58 text and are well-formed (32 bytes).
pub open spec fn key_matches_text(k: Seq<u8>, t: Seq<char>) -> bool {
    k.len() == 32 && b58_of(k) == t
}

/// Index of the first account key rendering to `t`, from `i` on.
pub open spec fn first_key_index(keys: Seq<Seq<u8>>, t: Seq<char>, i: int) -> Option<int>
    decreases keys.len() - i,
{
    if i < 0 || i >= keys.len() {
        None
    } else if key_matches_text(keys[i], t) {
        Some(i)
    } else {
        first_key_index(keys, t, i + 1)
    }
}

/// Index of the first account key rendering to `t`, or zero when none does:
/// how the decoder falls back when an address is absent.
pub open spec fn key_index_or_zero(keys: Seq<Seq<u8>>, t: Seq<char>) -> int {
    match first_key_index(keys, t, 0) {
        Some(i) => i,
        None => 0,
    }
}

/// Find the account index of the key rendering to `t`, or zero.
pub fn key_index_or_zero_exec(keys: &Vec<Vec<u8>>, t: &String) -> (r: usize)
    ensures
        r == key_index_or_zero(Seq::new(keys@.len(), |i: int| keys@[i]@), t@),
{
    let ghost ks = Seq::new(keys@.len(), |i: int| keys@[i]@);
    let mut i: usize = 0;
    while i < keys.len()
        invariant
            0 <= i <= keys@.len(),
            ks == Seq::new(keys@.len(), |j: int| keys@[j]@),
            first_key_index(ks, t@, 0) == first_key_index(ks, t@, i as int),
        decreases keys@.len() - i,
    {
        proof {
            assert(ks[i as int] == keys@[i as int]@);
        }
        if keys[i].len() == 32 {
            let enc = b58_encode(keys[i].as_slice());
            if enc == *t {
                return i;
            }
        }
        i = i + 1;
    }
    0
}

/// The key bytes equal `kb` and are well-formed.
pub open spec fn key_matches_bytes(k: Seq<u8>, kb: Seq<u8>) -> bool {
    k.len() == 32 && k == kb
}

/// Index of the first account key equal to `kb`, from `i` on.
pub open spec fn first_key_bytes_index(keys: Seq<Seq<u8>>, kb: Seq<u8>, i: int) -> Option<int>
    decreases keys.len() - i,
{
    if i < 0 || i >= keys.len() {
        None
    } else if key_matches_bytes(keys[i], kb) {
        Some(i)
    } else {
        first_key_bytes_index(keys, kb, i + 1)
    }
}

/// Index of the first account key equal to `kb`, or zero when none is.
pub open spec fn key_bytes_index_or_zero(keys: Seq<Seq<u8>>, kb: Seq<u8>) -> int {
    match first_key_bytes_index(keys, kb, 0) {
        Some(i) => i,
        None => 0,
    }
}

/// Find the account index of the key equal to `kb`, or zero.
pub fn key_bytes_index_or_zero_exec(keys: &Vec<Vec<u8>>, kb: &Vec<u8>) -> (r: usize)
    ensures
        r == key_bytes_index_or_zero(Seq::new(keys@.len(), |i: int| keys@[i]@), kb@),
{
    let ghost ks = Seq::new(keys@.len(), |i: int| keys@[i]@);
    let mut i: usize = 0;
    while i < keys.len()
        invariant
            0 <= i <= keys@.len(),
            ks == Seq::new(keys@.len(), |j: int| keys@[j]@),
            first_key_bytes_index(ks, kb@, 0) == first_key_bytes_index(ks, kb@, i as int),
        decreases keys@.len() - i,
    {
        proof {
            assert(ks[i as int] == keys@[i as int]@);
        }
        if keys[i].len() == 32 && crate::bytes::eq_bytes(keys[i].as_slice(), kb.as_slice()) {
            return i;
        }
        i = i + 1;
    }
    0
}

/// The wallet's token balance: from the first entry owned by `owner` that
/// carries an amount, zero when there is none.
pub open spec fn token_amount_for(bals: Seq<TokenBalanceView>, owner: Seq<char>, i: int) -> u64
    decreases bals.len() - i,
{
    if i < 0 || i >= bals.len() {
        0
    } else {
        match bals[i].ui_amount {
            Some(v) => if bals[i].owner == owner {
                v
            } else {
                token_amount_for(bals, owner, i + 1)
            },
            None => token_amount_for(bals, owner, i + 1),
        }
    }
}

/// Find the wallet's token balance among the post-transaction balances.
pub fn token_amount_for_exec(bals: &Vec<TokenBalanceData>, owner: &String) -> (r: u64)
    ensures
        r == token_amount_for(Seq::new(bals@.len(), |i: int| bals@[i]@), owner@, 0),
{
    let ghost bs = Seq::new(bals@.len(), |i: int| bals@[i]@);
    let mut i: usize = 0;
    while i < bals.len()
        invariant
            0 <= i <= bals@.len(),
            bs == Seq::new(bals@.len(), |j: int| bals@[j]@),
            token_amount_for(bs, owner@, 0) == token_amount_for(bs, owner@, i as int),
        decreases bals@.len() - i,
    {
        proof {
            assert(bs[i as int] == bals@[i as int]@);
        }
        match bals[i].ui_amount {
            Some(v) => {
                if bals[i].owner == *owner {
                    return v;
                }
            },
            None => {},
        }
        i = i + 1;
    }
    0
}

/// The first non-empty mint named by a token balance entry, or empty.
pub open spec fn first_nonempty_mint(bals: Seq<TokenBalanceView>, i: int) -> Seq<char>
    decreases bals.len() - i,
{
    if i < 0 || i >= bals.len() {
        Seq::empty()
    } else if bals[i].mint.len() > 0 {
        bals[i].mint
    } else {
        first_nonempty_mint(bals, i + 1)
    }
}

/// Find the first non-empty mint among the token balance entries.
pub fn first_nonempty_mint_exec(bals: &Vec<TokenBalanceData>) -> (r: String)
    ensures
        r@ == first_nonempty_mint(Seq::new(bals@.len(), |i: int| bals@[i]@), 0),
{
    let ghost bs = Seq::new(bals@.len(), |i: int| bals@[i]@);
    let mut i: usize = 0;
    while i < bals.len()
        invariant
            0 <= i <= bals@.len(),
            bs == Seq::new(bals@.len(), |j: int| bals@[j]@),
            first_nonempty_mint(bs, 0) == first_nonempty_mint(bs, i as int),
        decreases bals@.len() - i,
    {
        proof {
            assert(bs[i as int] == bals@[i as int]@);
        }
        if !bals[i].mint.as_str().is_empty() {
            return bals[i].mint.clone();
        }
        i = i + 1;
    }
    String::new()
}

/// The new virtual quote reserve after a curve trade: the initial virtual
/// reserve plus the curve account's post-balance, truncated to 64 bits.
pub open spec fn virtual_sol_after(post: u64) -> u64 {
    (((INITIAL_VIRTUAL_SOL_RESERVES as int) + (post as int)) as u64)
}

/// The new virtual base reserve: the constant product of the initial
/// virtual reserves divided by the new virtual quote reserve, truncated.
pub open spec fn virtual_token_after(post: u64) -> u64 {
    ((((INITIAL_VIRTUAL_SOL_RESERVES as int) * (INITIAL_VIRTUAL_TOKEN_RESERVES as int)) / ((
    INITIAL_VIRTUAL_SOL_RESERVES as int) + (post as int))) as u64)
}

/// Recompute both virtual reserves from the curve account's post-balance,
/// with 128-bit intermediates.
pub fn virtual_reserves_after(post: u64) -> (r: (u64, u64))
    ensures
        r.0 == virtual_sol_after(post),
        r.1 == virtual_token_after(post),
{
    let q: u128 = (INITIAL_VIRTUAL_SOL_RESERVES as u128) + (post as u128);
    let p: u128 = (INITIAL_VIRTUAL_SOL_RESERVES as u128) * (INITIAL_VIRTUAL_TOKEN_RESERVES
        as u128);
    #[verifier::truncate]
    let q64: u64 = q as u64;
    #[verifier::truncate]
    let t64: u64 = (p / q) as u64;
    (q64, t64)
}

/// Base58 text of the transaction signature when it is a well-formed
/// 64-byte signature, empty otherwise.
pub open spec fn signature_text(sig: Seq<u8>) -> Seq<char> {
    if sig.len() == 64 {
        b58_of(sig)
    } else {
        Seq::empty()
    }
}

/// Render the transaction signature.
pub fn signature_text_exec(sig: &Vec<u8>) -> (r: String)
    ensures
        r@ == signature_text(sig@),
{
    if sig.len() == 64 {
        b58_encode(sig.as_slice())
    } else {
        String::new()
    }
}

/// The text is a well-formed base58 account key: it decodes to 32 bytes.
pub open spec fn valid_key_text(t: Seq<char>) -> bool {
    match b58_decode_of(vstd::utf8::encode_utf8(t)) {
        Some(b) => b.len() == 32,
        None => false,
    }
}

/// Validate an account-key text by base58-decoding it.
pub fn valid_key_text_exec(t: &String) -> (r: bool)
    ensures
        r == valid_key_text(t@),
{
    match b58_decode(t.as_str().as_bytes()) {
        Some(v) => v.len() == 32,
        None => false,
    }
}

/// The value, or zero where there is none.
pub open spec fn unwrap_or_zero(v: Option<u64>) -> u64 {
    match v {
        Some(x) => x,
        None => 0,
    }
}

/// The instruction names the given program: its program-id index points at
/// a well-formed key rendering to `pid`.
pub open spec fn ix_program_matches(msg: TxnMessageView, ix: InstructionDataView, pid: Seq<char>) -> bool {
    (ix.program_id_index as int) < msg.account_keys.len() && key_matches_text(
        msg.account_keys[ix.program_id_index as int],
        pid,
    )
}

/// Index of the first instruction naming program `pid`, from `i` on.
pub open spec fn pool_ix_index(msg: TxnMessageView, pid: Seq<char>, i: int) -> Option<int>
    decreases msg.instructions.len() - i,
{
    if i < 0 || i >= msg.instructions.len() {
        None
    } else if ix_program_matches(msg, msg.instructions[i], pid) {
        Some(i)
    } else {
        pool_ix_index(msg, pid, i + 1)
    }
}

/// Find the first instruction of the AMM pool program.
pub fn pool_ix_index_exec(msg: &TxnMessage) -> (r: Option<usize>)
    ensures
        match r {
            Some(i) => pool_ix_index(msg@, pool_amm_program_id_spec(), 0) == Some(i as int)
                && i < msg.instructions@.len(),
            None => pool_ix_index(msg@, pool_amm_program_id_spec(), 0) is None,
        },
{
    let pid = pool_amm_program_id();
    let mut i: usize = 0;
    while i < msg.instructions.len()
        invariant
            0 <= i <= msg.instructions@.len(),
            pid@ == pool_amm_program_id_spec(),
            pool_ix_index(msg@, pool_amm_program_id_spec(), 0) == pool_ix_index(
                msg@,
                pool_amm_program_id_spec(),
                i as int,
            ),
        decreases msg.instructions@.len() - i,
    {
        proof {
            assert(msg@.instructions[i as int] == msg.instructions@[i as int]@);
        }
        let pi = msg.instructions[i].program_id_index as usize;
        if pi < msg.account_keys.len() && msg.account_keys[pi].len() == 32 {
            proof {
                assert(msg@.account_keys[pi as int] == msg.account_keys@[pi as int]@);
            }
            let enc = b58_encode(msg.account_keys[pi].as_slice());
            if enc == pid {
                return Some(i);
            }
        }
        i = i + 1;
    }
    None
}

/// The well-formed key an instruction's account slot `pos` points at, if
/// the slot and the key exist.
pub open spec fn account_key_at(msg: TxnMessageView, ixi: Option<int>, pos: int) -> Option<
    Seq<u8>,
> {
    match ixi {
        Some(i) => {
            let ix = msg.instructions[i];
            if pos < ix.accounts.len() {
                let ki = ix.accounts[pos] as int;
                if 0 <= ki < msg.account_keys.len() && msg.account_keys[ki].len() == 32 {
                    Some(msg.account_keys[ki])
                } else {
                    None
                }
            } else {
                None
            }
        },
        None => None,
    }
}

/// Look up the key an instruction's account slot points at.
pub fn account_key_at_exec(msg: &TxnMessage, ixi: Option<usize>, pos: usize) -> (r: Option<
    Vec<u8>,
>)
    requires
        ixi matches Some(i) ==> i < msg.instructions@.len(),
    ensures
        ({
            let gixi = match ixi {
                Some(i) => Some(i as int),
                None => None::<int>,
            };
            match r {
                Some(v) => account_key_at(msg@, gixi, pos as int) == Some(v@),
                None => account_key_at(msg@, gixi, pos as int) is None,
            }
        }),
{
    match ixi {
        Some(i) => {
            proof {
                assert(msg@.instructions[i as int] == msg.instructions@[i as int]@);
            }
            if pos < msg.instructions[i].accounts.len() {
                let ki = msg.instructions[i].accounts[pos] as usize;
                if ki < msg.account_keys.len() {
                    proof {
                        assert(msg@.account_keys[ki as int] == msg.account_keys@[ki as int]@);
                    }
                    if msg.account_keys[ki].len() == 32 {
                        return Some(vstd::slice::slice_to_vec(msg.account_keys[ki].as_slice()));
                    }
                }
                None
            } else {
                None
            }
        },
        None => None,
    }
}

/// The key bytes, or the zero key where the account was missing.
pub open spec fn key_or_zero(k: Option<Seq<u8>>) -> Seq<u8> {
    match k {
        Some(b) => b,
        None => zero_key(),
    }
}

/// Base58 text of a pool account, the zero key standing in for a missing
/// one.
pub open spec fn pool_key_text(k: Option<Seq<u8>>) -> Seq<char> {
    b58_of(key_or_zero(k))
}

/// Render a pool account key, the zero key standing in for a missing one.
pub fn pool_key_text_exec(k: &Option<Vec<u8>>) -> (r: String)
    ensures
        r@ == pool_key_text(
            match k {
                Some(v) => Some(v@),
                None => None,
            },
        ),
{
    match k {
        Some(v) => b58_encode(v.as_slice()),
        None => {
            let z = zero_key_exec();
            b58_encode(z.as_slice())
        },
    }
}

/// What decoding a creation event yields from the update and the deciding
/// log line: the payload's fields, the curve snapshot recomputed from the
/// curve account's post-balance, and the creator's token balance.
pub open spec fn decode_mint_spec(u: TxnUpdateView, ls: Seq<Seq<u8>>, idx: int) -> Result<
    TradeInfoView,
    DecodeError,
> {
    let payload = payload_field(ls[idx]);
    if payload.len() == 0 {
        Err(DecodeError::Unclassified)
    } else {
        let d = match b64_decode_of(payload) {
            Some(d) => d,
            None => Seq::<u8>::empty(),
        };
        if d.len() <= 8 {
            Err(DecodeError::Unclassified)
        } else {
            let mp = decode_mint_payload_spec(d);
            match u.transaction {
                None => Err(DecodeError::MissingTransaction),
                Some(txd) => match txd.message {
                    None => Err(DecodeError::MissingBlockhash),
                    Some(msg) => if !valid_key_text(mp.bonding_curve) {
                        Err(DecodeError::InvalidKey)
                    } else {
                        let curve_idx = key_index_or_zero(msg.account_keys, mp.bonding_curve);
                        let post = match txd.meta {
                            Some(m) => balance_at(m.post_balances, curve_idx),
                            None => 0,
                        };
                        let volume = match txd.meta {
                            Some(m) => vol_change(m, curve_idx),
                            None => 0,
                        };
                        let token_amount = match txd.meta {
                            Some(m) => token_amount_for(m.post_token_balances, mp.target, 0),
                            None => 0,
                        };
                        Ok(
                            TradeInfoView {
                                instruction_type: InstructionType::PumpMint,
                                slot: u.slot,
                                recent_blockhash: msg.recent_blockhash,
                                signature: signature_text(txd.signature),
                                target: mp.target,
                                mint: mp.mint,
                                bonding_curve: mp.bonding_curve,
                                volume_change: volume,
                                bonding_curve_info: Some(
                                    BondingCurveInfoView {
                                        bonding_curve: mp.bonding_curve,
                                        new_virtual_sol_reserve: virtual_sol_after(post),
                                        new_virtual_token_reserve: virtual_token_after(post),
                                    },
                                ),
                                pool_info: None,
                                token_amount,
                                amount: None,
                                max_sol_cost: None,
                                min_sol_output: None,
                                base_amount_in: None,
                                min_quote_amount_out: None,
                                base_amount_out: None,
                                max_quote_amount_in: None,
                            },
                        )
                    },
                },
            }
        }
    }
}

/// Decode a creation event, the log line at `idx` having classified the
/// update as one.
fn decode_mint_exec(txn: TxnUpdate, logs: &Vec<String>, idx: usize) -> (r: Result<
    TradeInfoFromToken,
    DecodeError,
>)
    requires
        idx < logs@.len(),
    ensures
        match r {
            Ok(t) => decode_mint_spec(txn@, logs_view(logs@), idx as int) == Ok::<
                TradeInfoView,
                DecodeError,
            >(t@),
            Err(e) => decode_mint_spec(txn@, logs_view(logs@), idx as int) == Err::<
                TradeInfoView,
                DecodeError,
            >(e),
        },
{
    let ghost ls = logs_view(logs@);
    let lb = logs[idx].as_str().as_bytes();
    proof {
        assert(lb@ == ls[idx as int]);
    }
    let payload = payload_field_exec(lb);
    if payload.len() == 0 {
        return Err(DecodeError::Unclassified);
    }
    let d: Vec<u8> = match b64_decode(payload.as_slice()) {
        Some(d) => d,
        None => Vec::new(),
    };
    if d.len() <= 8 {
        return Err(DecodeError::Unclassified);
    }
    let mp = decode_mint_payload(d.as_slice());
    match txn.transaction {
        None => Err(DecodeError::MissingTransaction),
        Some(txd) => match txd.message {
            None => Err(DecodeError::MissingBlockhash),
            Some(msg) => {
                if !valid_key_text_exec(&mp.bonding_curve) {
                    return Err(DecodeError::InvalidKey);
                }
                let curve_idx = key_index_or_zero_exec(&msg.account_keys, &mp.bonding_curve);
                let (post, volume, token_amount): (u64, i64, u64) = match &txd.meta {
                    Some(m) => (
                        balance_at_exec(&m.post_balances, curve_idx),
                        vol_change_exec(m, curve_idx),
                        token_amount_for_exec(&m.post_token_balances, &mp.target),
                    ),
                    None => (0u64, 0i64, 0u64),
                };
                let (vs, vt) = virtual_reserves_after(post);
                let out = TradeInfoFromToken {
                    instruction_type: InstructionType::PumpMint,
                    slot: txn.slot,
                    recent_blockhash: msg.recent_blockhash,
                    signature: signature_text_exec(&txd.signature),
                    target: mp.target,
                    mint: mp.mint,
                    bonding_curve: mp.bonding_curve.clone(),
                    volume_change: volume,
                    bonding_curve_info: Some(
                        BondingCurveInfo {
                            bonding_curve: mp.bonding_curve,
                            new_virtual_sol_reserve: vs,
                            new_virtual_token_reserve: vt,
                        },
                    ),
                    pool_info: None,
                    token_amount,
                    amount: None,
                    max_sol_cost: None,
                    min_sol_output: None,
                    base_amount_in: None,
                    min_quote_amount_out: None,
                    base_amount_out: None,
                    max_quote_amount_in: None,
                };
                Ok(out)
            },
        },
    }
}

/// What decoding a bonding-curve trade yields: the trade payload from the
/// first curve-event log line (numeric fields whose trailing bytes are
/// missing stay absent), the acting wallet and its balance from the last
/// token-balance entry, the curve address scraped from log text, and the
/// curve snapshot when that address is present and valid.
pub open spec fn decode_curve_spec(u: TxnUpdateView, ls: Seq<Seq<u8>>, is_buy: bool) -> Result<
    TradeInfoView,
    DecodeError,
> {
    let enc = match first_with(ls, curve_data_prefix_spec(), 0) {
        Some(i) => payload_field(ls[i]),
        None => Seq::<u8>::empty(),
    };
    let have_payload = enc.len() > 0;
    let d = if have_payload {
        match b64_decode_of(enc) {
            Some(d) => d,
            None => Seq::<u8>::empty(),
        }
    } else {
        Seq::<u8>::empty()
    };
    let cp = decode_trade_payload_spec(d);
    let mint0 = if have_payload {
        cp.mint
    } else {
        Seq::<char>::empty()
    };
    let amount = if have_payload {
        cp.amount
    } else {
        None::<u64>
    };
    let limit = if have_payload {
        cp.limit
    } else {
        None::<u64>
    };
    match u.transaction {
        None => Err(DecodeError::MissingTransaction),
        Some(txd) => match txd.message {
            None => Err(DecodeError::MissingBlockhash),
            Some(msg) => {
                let target = match txd.meta {
                    Some(m) => if m.post_token_balances.len() > 0 {
                        m.post_token_balances.last().owner
                    } else {
                        Seq::<char>::empty()
                    },
                    None => Seq::<char>::empty(),
                };
                let token_amount = match txd.meta {
                    Some(m) => if m.post_token_balances.len() > 0 {
                        unwrap_or_zero(m.post_token_balances.last().ui_amount)
                    } else {
                        0
                    },
                    None => 0,
                };
                let mint = match txd.meta {
                    Some(m) => if mint0.len() == 0 {
                        first_nonempty_mint(m.post_token_balances, 0)
                    } else {
                        mint0
                    },
                    None => mint0,
                };
                let bc = match txd.meta {
                    Some(m) => match scraped_text(ls, bonding_curve_marker_spec()) {
                        Some(b) => utf8_or_empty_spec(b),
                        None => Seq::<char>::empty(),
                    },
                    None => Seq::<char>::empty(),
                };
                let curve_idx = key_index_or_zero(msg.account_keys, bc);
                let post = if bc.len() > 0 {
                    match txd.meta {
                        Some(m) => balance_at(m.post_balances, curve_idx),
                        None => 0,
                    }
                } else {
                    0
                };
                let volume = if bc.len() > 0 {
                    match txd.meta {
                        Some(m) => vol_change(m, curve_idx),
                        None => 0,
                    }
                } else {
                    0
                };
                if bc.len() > 0 && !valid_key_text(bc) {
                    Err(DecodeError::InvalidKey)
                } else {
                    let info = if bc.len() > 0 {
                        Some(
                            BondingCurveInfoView {
                                bonding_curve: bc,
                                new_virtual_sol_reserve: virtual_sol_after(post),
                                new_virtual_token_reserve: virtual_token_after(post),
                            },
                        )
                    } else {
                        None::<BondingCurveInfoView>
                    };
                    Ok(
                        TradeInfoView {
                            instruction_type: if is_buy {
                                InstructionType::PumpBuy
                            } else {
                                InstructionType::PumpSell
                            },
                            slot: u.slot,
                            recent_blockhash: msg.recent_blockhash,
                            signature: signature_text(txd.signature),
                            target,
                            mint,
                            bonding_curve: bc,
                            volume_change: volume,
                            bonding_curve_info: info,
                            pool_info: None,
                            token_amount,
                            amount,
                            max_sol_cost: if is_buy {
                                limit
                            } else {
                                None
                            },
                            min_sol_output: if is_buy {
                                None
                            } else {
                                limit
                            },
                            base_amount_in: None,
                            min_quote_amount_out: None,
                            base_amount_out: None,
                            max_quote_amount_in: None,
                        },
                    )
                }
            },
        },
    }
}

/// Find the first log line carrying the curve trade payload and extract its
/// base64 payload field.
fn curve_payload_field(logs: &Vec<String>) -> (r: Vec<u8>)
    ensures
        r@ == (match first_with(logs_view(logs@), curve_data_prefix_spec(), 0) {
            Some(i) => payload_field(logs_view(logs@)[i]),
            None => Seq::<u8>::empty(),
        }),
{
    let marker = curve_data_prefix();
    let ghost ls = logs_view(logs@);
    let mut j: usize = 0;
    while j < logs.len()
        invariant
            0 <= j <= logs@.len(),
            ls == logs_view(logs@),
            marker@ == curve_data_prefix_spec(),
            first_with(ls, curve_data_prefix_spec(), 0) == first_with(
                ls,
                curve_data_prefix_spec(),
                j as int,
            ),
        decreases logs@.len() - j,
    {
        let lb = logs[j].as_str().as_bytes();
        proof {
            assert(lb@ == ls[j as int]);
        }
        if crate::bytes::contains_bytes(lb, marker.as_slice()) {
            return payload_field_exec(lb);
        }
        j = j + 1;
    }
    Vec::new()
}

/// Decode a bonding-curve trade.
fn decode_curve_exec(txn: TxnUpdate, logs: &Vec<String>, is_buy: bool) -> (r: Result<
    TradeInfoFromToken,
    DecodeError,
>)
    ensures
        match r {
            Ok(t) => decode_curve_spec(txn@, logs_view(logs@), is_buy) == Ok::<
                TradeInfoView,
                DecodeError,
            >(t@),
            Err(e) => decode_curve_spec(txn@, logs_view(logs@), is_buy) == Err::<
                TradeInfoView,
                DecodeError,
            >(e),
        },
{
    let ghost ls = logs_view(logs@);
    let enc = curve_payload_field(logs);
    let have_payload = enc.len() > 0;
    let d: Vec<u8> = if have_payload {
        match b64_decode(enc.as_slice()) {
            Some(d) => d,
            None => Vec::new(),
        }
    } else {
        Vec::new()
    };
    let cp = decode_trade_payload(d.as_slice());
    let mint0: String = if have_payload {
        cp.mint
    } else {
        String::new()
    };
    let amount: Option<u64> = if have_payload {
        cp.amount
    } else {
        None
    };
    let limit: Option<u64> = if have_payload {
        cp.limit
    } else {
        None
    };
    match txn.transaction {
        None => Err(DecodeError::MissingTransaction),
        Some(txd) => match txd.message {
            None => Err(DecodeError::MissingBlockhash),
            Some(msg) => {
                let (target, token_amount, mint): (String, u64, String) = match &txd.meta {
                    Some(m) => {
                        let n = m.post_token_balances.len();
                        let target: String = if n > 0 {
                            m.post_token_balances[n - 1].owner.clone()
                        } else {
                            String::new()
                        };
                        let token_amount: u64 = if n > 0 {
                            match m.post_token_balances[n - 1].ui_amount {
                                Some(v) => v,
                                None => 0,
                            }
                        } else {
                            0
                        };
                        let mint: String = if mint0.as_str().is_empty() {
                            first_nonempty_mint_exec(&m.post_token_balances)
                        } else {
                            mint0
                        };
                        (target, token_amount, mint)
                    },
                    None => (String::new(), 0, mint0),
                };
                let bc_marker = bonding_curve_marker();
                let bc: String = match &txd.meta {
                    Some(_) => match scrape_text(logs, &bc_marker) {
                        Some(b) => utf8_or_empty(b),
                        None => String::new(),
                    },
                    None => String::new(),
                };
                let curve_idx = key_index_or_zero_exec(&msg.account_keys, &bc);
                let have_bc = !bc.as_str().is_empty();
                let (post, volume): (u64, i64) = if have_bc {
                    match &txd.meta {
                        Some(m) => (
                            balance_at_exec(&m.post_balances, curve_idx),
                            vol_change_exec(m, curve_idx),
                        ),
                        None => (0u64, 0i64),
                    }
                } else {
                    (0u64, 0i64)
                };
                if have_bc && !valid_key_text_exec(&bc) {
                    return Err(DecodeError::InvalidKey);
                }
                let info: Option<BondingCurveInfo> = if have_bc {
                    let (vs, vt) = virtual_reserves_after(post);
                    Some(
                        BondingCurveInfo {
                            bonding_curve: bc.clone(),
                            new_virtual_sol_reserve: vs,
                            new_virtual_token_reserve: vt,
                        },
                    )
                } else {
                    None
                };
                let out = TradeInfoFromToken {
                    instruction_type: if is_buy {
                        InstructionType::PumpBuy
                    } else {
                        InstructionType::PumpSell
                    },
                    slot: txn.slot,
                    recent_blockhash: msg.recent_blockhash,
                    signature: signature_text_exec(&txd.signature),
                    target,
                    mint,
                    bonding_curve: bc,
                    volume_change: volume,
                    bonding_curve_info: info,
                    pool_info: None,
                    token_amount,
                    amount,
                    max_sol_cost: if is_buy {
                        limit
                    } else {
                        None
                    },
                    min_sol_output: if is_buy {
                        None
                    } else {
                        limit
                    },
                    base_amount_in: None,
                    min_quote_amount_out: None,
                    base_amount_out: None,
                    max_quote_amount_in: None,
                };
                Ok(out)
            },
        },
    }
}

/// What decoding an AMM pool trade yields: the pool accounts read
/// positionally from the first pool instruction (zero keys standing in for
/// missing ones), the numeric limits and reserves scraped from `key: value`
/// log text, the acting wallet from the instruction's user slot, and the
/// quote vault's lamport change.
pub open spec fn decode_swap_spec(u: TxnUpdateView, ls: Seq<Seq<u8>>, is_buy: bool) -> Result<
    TradeInfoView,
    DecodeError,
> {
    match u.transaction {
        None => Err(DecodeError::MissingTransaction),
        Some(txd) => match txd.message {
            None => Err(DecodeError::MissingBlockhash),
            Some(msg) => {
                let ixi = pool_ix_index(msg, pool_amm_program_id_spec(), 0);
                let pool_id_k = account_key_at(msg, ixi, 0);
                let user_k = account_key_at(msg, ixi, 1);
                let base_mint_k = account_key_at(msg, ixi, 3);
                let quote_mint_k = account_key_at(msg, ixi, 4);
                let base_vault_k = account_key_at(msg, ixi, 7);
                let quote_vault_k = account_key_at(msg, ixi, 8);
                let base_amount_out = if is_buy {
                    scraped_u64(ls, base_amount_out_marker_spec())
                } else {
                    None::<u64>
                };
                let max_quote_amount_in = if is_buy {
                    scraped_u64(ls, max_quote_amount_in_marker_spec())
                } else {
                    None::<u64>
                };
                let base_amount_in = if is_buy {
                    None::<u64>
                } else {
                    scraped_u64(ls, base_amount_in_marker_spec())
                };
                let min_quote_amount_out = if is_buy {
                    None::<u64>
                } else {
                    scraped_u64(ls, min_quote_amount_out_marker_spec())
                };
                let base_reserve = unwrap_or_zero(scraped_u64(ls, pool_base_reserves_marker_spec()));
                let quote_reserve = unwrap_or_zero(
                    scraped_u64(ls, pool_quote_reserves_marker_spec()),
                );
                let target = match user_k {
                    Some(b) => b58_of(b),
                    None => Seq::<char>::empty(),
                };
                let volume = match txd.meta {
                    Some(m) => vol_change(
                        m,
                        key_bytes_index_or_zero(msg.account_keys, key_or_zero(quote_vault_k)),
                    ),
                    None => 0,
                };
                let token_amount = match txd.meta {
                    Some(m) => token_amount_for(m.post_token_balances, target, 0),
                    None => 0,
                };
                let pool = PoolInfoView {
                    pool_id: pool_key_text(pool_id_k),
                    base_mint: pool_key_text(base_mint_k),
                    quote_mint: pool_key_text(quote_mint_k),
                    pool_base_token_account: pool_key_text(base_vault_k),
                    pool_quote_token_account: pool_key_text(quote_vault_k),
                    base_reserve,
                    quote_reserve,
                    coin_creator: b58_of(zero_key()),
                };
                Ok(
                    TradeInfoView {
                        instruction_type: if is_buy {
                            InstructionType::PumpSwapBuy
                        } else {
                            InstructionType::PumpSwapSell
                        },
                        slot: u.slot,
                        recent_blockhash: msg.recent_blockhash,
                        signature: signature_text(txd.signature),
                        target,
                        mint: pool_key_text(base_mint_k),
                        bonding_curve: Seq::<char>::empty(),
                        volume_change: volume,
                        bonding_curve_info: None,
                        pool_info: Some(pool),
                        token_amount,
                        amount: None,
                        max_sol_cost: None,
                        min_sol_output: None,
                        base_amount_in,
                        min_quote_amount_out,
                        base_amount_out,
                        max_quote_amount_in,
                    },
                )
            },
        },
    }
}

/// Decode an AMM pool trade.
fn decode_swap_exec(txn: TxnUpdate, logs: &Vec<String>, is_buy: bool) -> (r: Result<
    TradeInfoFromToken,
    DecodeError,
>)
    ensures
        match r {
            Ok(t) => decode_swap_spec(txn@, logs_view(logs@), is_buy) == Ok::<
                TradeInfoView,
                DecodeError,
            >(t@),
            Err(e) => decode_swap_spec(txn@, logs_view(logs@), is_buy) == Err::<
                TradeInfoView,
                DecodeError,
            >(e),
        },
{
    let ghost ls = logs_view(logs@);
    match txn.transaction {
        None => Err(DecodeError::MissingTransaction),
        Some(txd) => match txd.message {
            None => Err(DecodeError::MissingBlockhash),
            Some(msg) => {
                let ixi = pool_ix_index_exec(&msg);
                let pool_id_k = account_key_at_exec(&msg, ixi, 0);
                let user_k = account_key_at_exec(&msg, ixi, 1);
                let base_mint_k = account_key_at_exec(&msg, ixi, 3);
                let quote_mint_k = account_key_at_exec(&msg, ixi, 4);
                let base_vault_k = account_key_at_exec(&msg, ixi, 7);
                let quote_vault_k = account_key_at_exec(&msg, ixi, 8);
                let base_amount_out: Option<u64> = if is_buy {
                    let m = base_amount_out_marker();
                    scrape_number(logs, &m)
                } else {
                    None
                };
                let max_quote_amount_in: Option<u64> = if is_buy {
                    let m = max_quote_amount_in_marker();
                    scrape_number(logs, &m)
                } else {
                    None
                };
                let base_amount_in: Option<u64> = if is_buy {
                    None
                } else {
                    let m = base_amount_in_marker();
                    scrape_number(logs, &m)
                };
                let min_quote_amount_out: Option<u64> = if is_buy {
                    None
                } else {
                    let m = min_quote_amount_out_marker();
                    scrape_number(logs, &m)
                };
                let base_reserve: u64 = {
                    let m = pool_base_reserves_marker();
                    match scrape_number(logs, &m) {
                        Some(v) => v,
                        None => 0,
                    }
                };
                let quote_reserve: u64 = {
                    let m = pool_quote_reserves_marker();
                    match scrape_number(logs, &m) {
                        Some(v) => v,
                        None => 0,
                    }
                };
                let target: String = match &user_k {
                    Some(b) => b58_encode(b.as_slice()),
                    None => String::new(),
                };
                let quote_vault_bytes: Vec<u8> = match &quote_vault_k {
                    Some(b) => vstd::slice::slice_to_vec(b.as_slice()),
                    None => zero_key_exec(),
                };
                let volume: i64 = match &txd.meta {
                    Some(m) => {
                        let qi = key_bytes_index_or_zero_exec(&msg.account_keys, &quote_vault_bytes);
                        vol_change_exec(m, qi)
                    },
                    None => 0,
                };
                let token_amount: u64 = match &txd.meta {
                    Some(m) => token_amount_for_exec(&m.post_token_balances, &target),
                    None => 0,
                };
                let mint = pool_key_text_exec(&base_mint_k);
                let pool = PoolInfo {
                    pool_id: pool_key_text_exec(&pool_id_k),
                    base_mint: pool_key_text_exec(&base_mint_k),
                    quote_mint: pool_key_text_exec(&quote_mint_k),
                    pool_base_token_account: pool_key_text_exec(&base_vault_k),
                    pool_quote_token_account: pool_key_text_exec(&quote_vault_k),
                    base_reserve,
                    quote_reserve,
                    coin_creator: {
                        let z = zero_key_exec();
                        b58_encode(z.as_slice())
                    },
                };
                let out = TradeInfoFromToken {
                    instruction_type: if is_buy {
                        InstructionType::PumpSwapBuy
                    } else {
                        InstructionType::PumpSwapSell
                    },
                    slot: txn.slot,
                    recent_blockhash: msg.recent_blockhash,
                    signature: signature_text_exec(&txd.signature),
                    target,
                    mint,
                    bonding_curve: String::new(),
                    volume_change: volume,
                    bonding_curve_info: None,
                    pool_info: Some(pool),
                    token_amount,
                    amount: None,
                    max_sol_cost: None,
                    min_sol_output: None,
                    base_amount_in,
                    min_quote_amount_out,
                    base_amount_out,
                    max_quote_amount_in,
                };
                Ok(out)
            },
        },
    }
}

/// What decoding a transaction update yields: the first log line matching
/// the classification table picks the venue, whose reconstruction then
/// runs; an update matching nothing is unclassified.
pub open spec fn decode_spec(u: TxnUpdateView, ls: Seq<Seq<u8>>) -> Result<
    TradeInfoView,
    DecodeError,
> {
    match classify_at(ls, 0) {
        None => Err(DecodeError::Unclassified),
        Some((t, idx)) => match t {
            InstructionType::PumpMint => decode_mint_spec(u, ls, idx),
            InstructionType::PumpBuy => decode_curve_spec(u, ls, true),
            InstructionType::PumpSell => decode_curve_spec(u, ls, false),
            InstructionType::PumpSwapBuy => decode_swap_spec(u, ls, true),
            InstructionType::PumpSwapSell => decode_swap_spec(u, ls, false),
        },
    }
}

impl TradeInfoFromToken {
    /// Reconstruct a trade event from a transaction update and its log
    /// lines. Returns exactly what [`decode_spec`] says: the decoded event,
    /// or the error naming what was missing or malformed.
    pub fn from_json(txn: TxnUpdate, log_messages: Vec<String>) -> (r: Result<
        TradeInfoFromToken,
        DecodeError,
    >)
        ensures
            match r {
                Ok(t) => decode_spec(txn@, logs_view(log_messages@)) == Ok::<
                    TradeInfoView,
                    DecodeError,
                >(t@),
                Err(e) => decode_spec(txn@, logs_view(log_messages@)) == Err::<
                    TradeInfoView,
                    DecodeError,
                >(e),
            },
    {
        proof {
            crate::codec::lemma_classify_at_bounds(logs_view(log_messages@), 0);
        }
        match classify_logs(&log_messages) {
            None => Err(DecodeError::Unclassified),
            Some((t, idx)) => match t {
                InstructionType::PumpMint => decode_mint_exec(txn, &log_messages, idx),
                InstructionType::PumpBuy => decode_curve_exec(txn, &log_messages, true),
                InstructionType::PumpSell => decode_curve_exec(txn, &log_messages, false),
                InstructionType::PumpSwapBuy => decode_swap_exec(txn, &log_messages, true),
                InstructionType::PumpSwapSell => decode_swap_exec(txn, &log_messages, false),
            },
        }
    }
}

} // verus!
