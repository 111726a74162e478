//! Decoded trade events: the instruction kind, the reserve snapshots for the
//! two venues, and the full `TradeInfoFromToken` record the decoder builds
//! from a transaction update and its log lines.

use vstd::prelude::*;

verus! {

/// The kind of activity a transaction's logs show: a token creation, a
/// bonding-curve buy or sell, or an AMM pool buy or sell.
#[derive(Clone, Debug, PartialEq, Eq, Copy, Structural)]
pub enum InstructionType {
    PumpMint,
    PumpBuy,
    PumpSell,
    PumpSwapBuy,
    PumpSwapSell,
}

/// Why a transaction update could not be decoded.
#[derive(Clone, Debug, PartialEq, Eq, Copy, Structural)]
pub enum DecodeError {
    /// The update carried no transaction.
    MissingTransaction,
    /// The transaction carried no message, so no recent blockhash.
    MissingBlockhash,
    /// The transaction carried no account key list.
    MissingAccounts,
    /// No log line matched any known pattern, or the matched payload was
    /// absent or too short.
    Unclassified,
    /// A scraped bonding-curve address is not a valid 32-byte base58 key.
    InvalidKey,
}

/// Bonding-curve snapshot recomputed from the curve account's
/// post-transaction balance: the curve address (base58) and the new virtual
/// reserves.
#[derive(Clone, Debug, PartialEq, Eq)]
pub struct BondingCurveInfo {
    pub bonding_curve: String,
    pub new_virtual_sol_reserve: u64,
    pub new_virtual_token_reserve: u64,
}

/// Ghost image of [`BondingCurveInfo`].
pub struct BondingCurveInfoView {
    pub bonding_curve: Seq<char>,
    pub new_virtual_sol_reserve: u64,
    pub new_virtual_token_reserve: u64,
}

impl View for BondingCurveInfo {
    type V = BondingCurveInfoView;

    open spec fn view(&self) -> BondingCurveInfoView {
        BondingCurveInfoView {
            bonding_curve: self.bonding_curve@,
            new_virtual_sol_reserve: self.new_virtual_sol_reserve,
            new_virtual_token_reserve: self.new_virtual_token_reserve,
        }
    }
}

/// AMM pool snapshot: the pool account addresses (base58; a zero key where
/// the transaction did not carry the account) and the reserves scraped from
/// log text.
#[derive(Clone, Debug, PartialEq, Eq)]
pub struct PoolInfo {
    pub pool_id: String,
    pub base_mint: String,
    pub quote_mint: String,
    pub pool_base_token_account: String,
    pub pool_quote_token_account: String,
    pub base_reserve: u64,
    pub quote_reserve: u64,
    pub coin_creator: String,
}

/// Ghost image of [`PoolInfo`].
pub struct PoolInfoView {
    pub pool_id: Seq<char>,
    pub base_mint: Seq<char>,
    pub quote_mint: Seq<char>,
    pub pool_base_token_account: Seq<char>,
    pub pool_quote_token_account: Seq<char>,
    pub base_reserve: u64,
    pub quote_reserve: u64,
    pub coin_creator: Seq<char>,
}

impl View for PoolInfo {
    type V = PoolInfoView;

    open spec fn view(&self) -> PoolInfoView {
        PoolInfoView {
            pool_id: self.pool_id@,
            base_mint: self.base_mint@,
            quote_mint: self.quote_mint@,
            pool_base_token_account: self.pool_base_token_account@,
            pool_quote_token_account: self.pool_quote_token_account@,
            base_reserve: self.base_reserve,
            quote_reserve: self.quote_reserve,
            coin_creator: self.coin_creator@,
        }
    }
}

/// A decoded trade observation: the instruction kind, transaction identity
/// (slot, signature, blockhash), the acting wallet and token, the lamport
/// change of the venue's reserve account, the wallet's post-transaction
/// token balance (billionths), protocol-specific limit fields, and the
/// venue snapshot (exactly one of curve or pool for trade kinds).
#[derive(Clone, Debug, PartialEq, Eq)]
pub struct TradeInfoFromToken {
    pub instruction_type: InstructionType,
    pub slot: u64,
    pub recent_blockhash: Vec<u8>,
    pub signature: String,
    pub target: String,
    pub mint: String,
    pub bonding_curve: String,
    pub volume_change: i64,
    pub bonding_curve_info: Option<BondingCurveInfo>,
    pub pool_info: Option<PoolInfo>,
    pub token_amount: u64,
    pub amount: Option<u64>,
    pub max_sol_cost: Option<u64>,
    pub min_sol_output: Option<u64>,
    pub base_amount_in: Option<u64>,
    pub min_quote_amount_out: Option<u64>,
    pub base_amount_out: Option<u64>,
    pub max_quote_amount_in: Option<u64>,
}

/// Ghost image of [`TradeInfoFromToken`].
pub struct TradeInfoView {
    pub instruction_type: InstructionType,
    pub slot: u64,
    pub recent_blockhash: Seq<u8>,
    pub signature: Seq<char>,
    pub target: Seq<char>,
    pub mint: Seq<char>,
    pub bonding_curve: Seq<char>,
    pub volume_change: i64,
    pub bonding_curve_info: Option<BondingCurveInfoView>,
    pub pool_info: Option<PoolInfoView>,
    pub token_amount: u64,
    pub amount: Option<u64>,
    pub max_sol_cost: Option<u64>,
    pub min_sol_output: Option<u64>,
    pub base_amount_in: Option<u64>,
    pub min_quote_amount_out: Option<u64>,
    pub base_amount_out: Option<u64>,
    pub max_quote_amount_in: Option<u64>,
}

impl View for TradeInfoFromToken {
    type V = TradeInfoView;

    open spec fn view(&self) -> TradeInfoView {
        TradeInfoView {
            instruction_type: self.instruction_type,
            slot: self.slot,
            recent_blockhash: self.recent_blockhash@,
            signature: self.signature@,
            target: self.target@,
            mint: self.mint@,
            bonding_curve: self.bonding_curve@,
            volume_change: self.volume_change,
            bonding_curve_info: match self.bonding_curve_info {
                Some(ref b) => Some(b@),
                None => None,
            },
            pool_info: match self.pool_info {
                Some(ref p) => Some(p@),
                None => None,
            },
            token_amount: self.token_amount,
            amount: self.amount,
            max_sol_cost: self.max_sol_cost,
            min_sol_output: self.min_sol_output,
            base_amount_in: self.base_amount_in,
            min_quote_amount_out: self.min_quote_amount_out,
            base_amount_out: self.base_amount_out,
            max_quote_amount_in: self.max_quote_amount_in,
        }
    }
}

/// The subset of a decoded event that a copy-trade dispatch needs.
#[derive(Clone, Debug, PartialEq, Eq)]
pub struct CopyTradeInfo {
    pub slot: u64,
    pub recent_blockhash: Vec<u8>,
    pub signature: String,
    pub target: String,
    pub mint: String,
    pub bonding_curve: String,
    pub volume_change: i64,
    pub bonding_curve_info: Option<BondingCurveInfo>,
}

impl CopyTradeInfo {
    /// Project the dispatch-relevant fields out of a full decoded event.
    pub fn from_trade_info(t: &TradeInfoFromToken) -> (r: CopyTradeInfo)
        ensures
            r.slot == t.slot,
            r.recent_blockhash@ == t.recent_blockhash@,
            r.signature@ == t.signature@,
            r.target@ == t.target@,
            r.mint@ == t.mint@,
            r.bonding_curve@ == t.bonding_curve@,
            r.volume_change == t.volume_change,
            r.bonding_curve_info is Some <==> t.bonding_curve_info is Some,
            t.bonding_curve_info matches Some(b) ==> (r.bonding_curve_info matches Some(rb)
                && rb@ == b@),
    {
        CopyTradeInfo {
            slot: t.slot,
            recent_blockhash: vstd::slice::slice_to_vec(t.recent_blockhash.as_slice()),
            signature: t.signature.clone(),
            target: t.target.clone(),
            mint: t.mint.clone(),
            bonding_curve: t.bonding_curve.clone(),
            volume_change: t.volume_change,
            bonding_curve_info: match &t.bonding_curve_info {
                Some(b) => Some(
                    BondingCurveInfo {
                        bonding_curve: b.bonding_curve.clone(),
                        new_virtual_sol_reserve: b.new_virtual_sol_reserve,
                        new_virtual_token_reserve: b.new_virtual_token_reserve,
                    },
                ),
                None => None,
            },
        }
    }
}

} // verus!
