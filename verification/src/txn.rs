//! The slice of a streamed transaction update that the decoder reads: slot,
//! signature, message (blockhash, account keys, instructions) and metadata
//! (balances, token balances). Addresses are raw key bytes; token amounts are
//! integers in billionths of a token, the same scale as lamports.

use vstd::prelude::*;

verus! {

/// One compiled instruction: which account key is the program, and which
/// keys (by index) it references.
#[derive(Debug, Clone, PartialEq, Eq)]
pub struct InstructionData {
    pub program_id_index: u32,
    pub accounts: Vec<u8>,
}

/// Ghost image of [`InstructionData`].
pub struct InstructionDataView {
    pub program_id_index: u32,
    pub accounts: Seq<u8>,
}

impl View for InstructionData {
    type V = InstructionDataView;

    open spec fn view(&self) -> InstructionDataView {
        InstructionDataView { program_id_index: self.program_id_index, accounts: self.accounts@ }
    }
}

/// A post-transaction token balance entry: owning wallet, token mint, and
/// the owner's balance in billionths of a token (absent when the feed gave
/// no amount).
#[derive(Debug, Clone, PartialEq, Eq)]
pub struct TokenBalanceData {
    pub owner: String,
    pub mint: String,
    pub ui_amount: Option<u64>,
}

/// Ghost image of [`TokenBalanceData`].
pub struct TokenBalanceView {
    pub owner: Seq<char>,
    pub mint: Seq<char>,
    pub ui_amount: Option<u64>,
}

impl View for TokenBalanceData {
    type V = TokenBalanceView;

    open spec fn view(&self) -> TokenBalanceView {
        TokenBalanceView { owner: self.owner@, mint: self.mint@, ui_amount: self.ui_amount }
    }
}

/// The transaction message: recent blockhash bytes, the account key list
/// (each key raw bytes, 32 for a well-formed key), and the instruction list.
#[derive(Debug, Clone, PartialEq, Eq)]
pub struct TxnMessage {
    pub recent_blockhash: Vec<u8>,
    pub account_keys: Vec<Vec<u8>>,
    pub instructions: Vec<InstructionData>,
}

/// Ghost image of [`TxnMessage`].
pub struct TxnMessageView {
    pub recent_blockhash: Seq<u8>,
    pub account_keys: Seq<Seq<u8>>,
    pub instructions: Seq<InstructionDataView>,
}

impl View for TxnMessage {
    type V = TxnMessageView;

    open spec fn view(&self) -> TxnMessageView {
        TxnMessageView {
            recent_blockhash: self.recent_blockhash@,
            account_keys: Seq::new(self.account_keys@.len(), |i: int| self.account_keys@[i]@),
            instructions: Seq::new(self.instructions@.len(), |i: int| self.instructions@[i]@),
        }
    }
}

/// Transaction metadata: native balances before and after, and token
/// balances after.
#[derive(Debug, Clone, PartialEq, Eq)]
pub struct TxnMeta {
    pub pre_balances: Vec<u64>,
    pub post_balances: Vec<u64>,
    pub post_token_balances: Vec<TokenBalanceData>,
}

/// Ghost image of [`TxnMeta`].
pub struct TxnMetaView {
    pub pre_balances: Seq<u64>,
    pub post_balances: Seq<u64>,
    pub post_token_balances: Seq<TokenBalanceView>,
}

impl View for TxnMeta {
    type V = TxnMetaView;

    open spec fn view(&self) -> TxnMetaView {
        TxnMetaView {
            pre_balances: self.pre_balances@,
            post_balances: self.post_balances@,
            post_token_balances: Seq::new(
                self.post_token_balances@.len(),
                |i: int| self.post_token_balances@[i]@,
            ),
        }
    }
}

/// The transaction carried by an update: signature bytes (64 for a
/// well-formed signature), the message, and metadata, either of which the
/// feed may omit.
#[derive(Debug, Clone, PartialEq, Eq)]
pub struct TxnData {
    pub signature: Vec<u8>,
    pub message: Option<TxnMessage>,
    pub meta: Option<TxnMeta>,
}

/// Ghost image of [`TxnData`].
pub struct TxnDataView {
    pub signature: Seq<u8>,
    pub message: Option<TxnMessageView>,
    pub meta: Option<TxnMetaView>,
}

impl View for TxnData {
    type V = TxnDataView;

    open spec fn view(&self) -> TxnDataView {
        TxnDataView {
            signature: self.signature@,
            message: match self.message {
                Some(ref m) => Some(m@),
                None => None,
            },
            meta: match self.meta {
                Some(ref m) => Some(m@),
                None => None,
            },
        }
    }
}

/// A streamed transaction update: the slot it was observed in and the
/// transaction, which the feed may omit.
#[derive(Debug, Clone, PartialEq, Eq)]
pub struct TxnUpdate {
    pub slot: u64,
    pub transaction: Option<TxnData>,
}

/// Ghost image of [`TxnUpdate`].
pub struct TxnUpdateView {
    pub slot: u64,
    pub transaction: Option<TxnDataView>,
}

impl View for TxnUpdate {
    type V = TxnUpdateView;

    open spec fn view(&self) -> TxnUpdateView {
        TxnUpdateView {
            slot: self.slot,
            transaction: match self.transaction {
                Some(ref t) => Some(t@),
                None => None,
            },
        }
    }
}

} // verus!
