//! Protocol constants: the log-line markers the decoder classifies by, the
//! program addresses the subscription watches, and the initial virtual
//! reserves of a fresh bonding curve. Each byte-string marker is given twice,
//! as a spec sequence the contracts mention and an executable vector with the
//! same bytes.

use vstd::prelude::*;

verus! {

/// Virtual quote (lamport) reserve a bonding curve starts with.
pub const INITIAL_VIRTUAL_SOL_RESERVES: u64 = 30_000_000_000;

/// Virtual base (token) reserve a bonding curve starts with.
pub const INITIAL_VIRTUAL_TOKEN_RESERVES: u64 = 1_073_000_000_000_000;

/// Bytes of `"Program data: G3KpTd7rY3"`:
/// the log-line prefix carrying a token-creation event payload (base64 of the create-event discriminator begins the third field).
pub open spec fn mint_data_prefix_spec() -> Seq<u8> {
    seq![
        80u8, 114, 111, 103, 114, 97, 109, 32, 100, 97, 116, 97, 58, 32, 71, 51, 75, 112, 84,
        100, 55, 114, 89, 51,
    ]
}

/// Executable form of [`mint_data_prefix_spec`].
pub fn mint_data_prefix() -> (r: Vec<u8>)
    ensures
        r@ == mint_data_prefix_spec(),
{
    let v: Vec<u8> = vec![
        80u8, 114, 111, 103, 114, 97, 109, 32, 100, 97, 116, 97, 58, 32, 71, 51, 75, 112, 84,
        100, 55, 114, 89, 51,
    ];
    proof {
        assert(v@ =~= mint_data_prefix_spec());
    }
    v
}

/// Bytes of `"Program log: Instruction: Buy"`:
/// the instruction log line of a buy, on either venue.
pub open spec fn buy_log_marker_spec() -> Seq<u8> {
    seq![
        80u8, 114, 111, 103, 114, 97, 109, 32, 108, 111, 103, 58, 32, 73, 110, 115, 116, 114,
        117, 99, 116, 105, 111, 110, 58, 32, 66, 117, 121,
    ]
}

/// Executable form of [`buy_log_marker_spec`].
pub fn buy_log_marker() -> (r: Vec<u8>)
    ensures
        r@ == buy_log_marker_spec(),
{
    let v: Vec<u8> = vec![
        80u8, 114, 111, 103, 114, 97, 109, 32, 108, 111, 103, 58, 32, 73, 110, 115, 116, 114,
        117, 99, 116, 105, 111, 110, 58, 32, 66, 117, 121,
    ];
    proof {
        assert(v@ =~= buy_log_marker_spec());
    }
    v
}

/// Bytes of `"Program log: Instruction: Sell"`:
/// the instruction log line of a sell, on either venue.
pub open spec fn sell_log_marker_spec() -> Seq<u8> {
    seq![
        80u8, 114, 111, 103, 114, 97, 109, 32, 108, 111, 103, 58, 32, 73, 110, 115, 116, 114,
        117, 99, 116, 105, 111, 110, 58, 32, 83, 101, 108, 108,
    ]
}

/// Executable form of [`sell_log_marker_spec`].
pub fn sell_log_marker() -> (r: Vec<u8>)
    ensures
        r@ == sell_log_marker_spec(),
{
    let v: Vec<u8> = vec![
        80u8, 114, 111, 103, 114, 97, 109, 32, 108, 111, 103, 58, 32, 73, 110, 115, 116, 114,
        117, 99, 116, 105, 111, 110, 58, 32, 83, 101, 108, 108,
    ];
    proof {
        assert(v@ =~= sell_log_marker_spec());
    }
    v
}

/// Bytes of `"Program data: vdt/007mYe"`:
/// the log-line prefix carrying a bonding-curve trade event payload.
pub open spec fn curve_data_prefix_spec() -> Seq<u8> {
    seq![
        80u8, 114, 111, 103, 114, 97, 109, 32, 100, 97, 116, 97, 58, 32, 118, 100, 116, 47,
        48, 48, 55, 109, 89, 101,
    ]
}

/// Executable form of [`curve_data_prefix_spec`].
pub fn curve_data_prefix() -> (r: Vec<u8>)
    ensures
        r@ == curve_data_prefix_spec(),
{
    let v: Vec<u8> = vec![
        80u8, 114, 111, 103, 114, 97, 109, 32, 100, 97, 116, 97, 58, 32, 118, 100, 116, 47,
        48, 48, 55, 109, 89, 101,
    ];
    proof {
        assert(v@ =~= curve_data_prefix_spec());
    }
    v
}

/// Bytes of `"Program data: Z/RSHyz1d3"`:
/// the log-line prefix carrying an AMM pool buy event payload.
pub open spec fn pool_buy_data_prefix_spec() -> Seq<u8> {
    seq![
        80u8, 114, 111, 103, 114, 97, 109, 32, 100, 97, 116, 97, 58, 32, 90, 47, 82, 83, 72,
        121, 122, 49, 100, 51,
    ]
}

/// Executable form of [`pool_buy_data_prefix_spec`].
pub fn pool_buy_data_prefix() -> (r: Vec<u8>)
    ensures
        r@ == pool_buy_data_prefix_spec(),
{
    let v: Vec<u8> = vec![
        80u8, 114, 111, 103, 114, 97, 109, 32, 100, 97, 116, 97, 58, 32, 90, 47, 82, 83, 72,
        121, 122, 49, 100, 51,
    ];
    proof {
        assert(v@ =~= pool_buy_data_prefix_spec());
    }
    v
}

/// Bytes of `"Program data: Pi83CqUD3C"`:
/// the log-line prefix carrying an AMM pool sell event payload.
pub open spec fn pool_sell_data_prefix_spec() -> Seq<u8> {
    seq![
        80u8, 114, 111, 103, 114, 97, 109, 32, 100, 97, 116, 97, 58, 32, 80, 105, 56, 51, 67,
        113, 85, 68, 51, 67,
    ]
}

/// Executable form of [`pool_sell_data_prefix_spec`].
pub fn pool_sell_data_prefix() -> (r: Vec<u8>)
    ensures
        r@ == pool_sell_data_prefix_spec(),
{
    let v: Vec<u8> = vec![
        80u8, 114, 111, 103, 114, 97, 109, 32, 100, 97, 116, 97, 58, 32, 80, 105, 56, 51, 67,
        113, 85, 68, 51, 67,
    ];
    proof {
        assert(v@ =~= pool_sell_data_prefix_spec());
    }
    v
}

/// Bytes of `"Program pAMMBay6oceH9fJKBRHGP5D4bD4sWpmSwMn52FMfXEA"`:
/// an invocation log line of the AMM pool program.
pub open spec fn pool_program_marker_spec() -> Seq<u8> {
    seq![
        80u8, 114, 111, 103, 114, 97, 109, 32, 112, 65, 77, 77, 66, 97, 121, 54, 111, 99, 101,
        72, 57, 102, 74, 75, 66, 82, 72, 71, 80, 53, 68, 52, 98, 68, 52, 115, 87, 112, 109,
        83, 119, 77, 110, 53, 50, 70, 77, 102, 88, 69, 65,
    ]
}

/// Executable form of [`pool_program_marker_spec`].
pub fn pool_program_marker() -> (r: Vec<u8>)
    ensures
        r@ == pool_program_marker_spec(),
{
    let v: Vec<u8> = vec![
        80u8, 114, 111, 103, 114, 97, 109, 32, 112, 65, 77, 77, 66, 97, 121, 54, 111, 99, 101,
        72, 57, 102, 74, 75, 66, 82, 72, 71, 80, 53, 68, 52, 98, 68, 52, 115, 87, 112, 109,
        83, 119, 77, 110, 53, 50, 70, 77, 102, 88, 69, 65,
    ];
    proof {
        assert(v@ =~= pool_program_marker_spec());
    }
    v
}

/// Bytes of `"BuyEvent"`:
/// fallback marker naming a pool buy event.
pub open spec fn buy_event_marker_spec() -> Seq<u8> {
    seq![
        66u8, 117, 121, 69, 118, 101, 110, 116,
    ]
}

/// Executable form of [`buy_event_marker_spec`].
pub fn buy_event_marker() -> (r: Vec<u8>)
    ensures
        r@ == buy_event_marker_spec(),
{
    let v: Vec<u8> = vec![
        66u8, 117, 121, 69, 118, 101, 110, 116,
    ];
    proof {
        assert(v@ =~= buy_event_marker_spec());
    }
    v
}

/// Bytes of `"SellEvent"`:
/// fallback marker naming a pool sell event.
pub open spec fn sell_event_marker_spec() -> Seq<u8> {
    seq![
        83u8, 101, 108, 108, 69, 118, 101, 110, 116,
    ]
}

/// Executable form of [`sell_event_marker_spec`].
pub fn sell_event_marker() -> (r: Vec<u8>)
    ensures
        r@ == sell_event_marker_spec(),
{
    let v: Vec<u8> = vec![
        83u8, 101, 108, 108, 69, 118, 101, 110, 116,
    ];
    proof {
        assert(v@ =~= sell_event_marker_spec());
    }
    v
}

/// Bytes of `"bonding curve:"`:
/// key prefixing a bonding-curve address in log text.
pub open spec fn bonding_curve_marker_spec() -> Seq<u8> {
    seq![
        98u8, 111, 110, 100, 105, 110, 103, 32, 99, 117, 114, 118, 101, 58,
    ]
}

/// Executable form of [`bonding_curve_marker_spec`].
pub fn bonding_curve_marker() -> (r: Vec<u8>)
    ensures
        r@ == bonding_curve_marker_spec(),
{
    let v: Vec<u8> = vec![
        98u8, 111, 110, 100, 105, 110, 103, 32, 99, 117, 114, 118, 101, 58,
    ];
    proof {
        assert(v@ =~= bonding_curve_marker_spec());
    }
    v
}

/// Bytes of `"base_amount_out:"`:
/// key prefixing the pool buy base output amount.
pub open spec fn base_amount_out_marker_spec() -> Seq<u8> {
    seq![
        98u8, 97, 115, 101, 95, 97, 109, 111, 117, 110, 116, 95, 111, 117, 116, 58,
    ]
}

/// Executable form of [`base_amount_out_marker_spec`].
pub fn base_amount_out_marker() -> (r: Vec<u8>)
    ensures
        r@ == base_amount_out_marker_spec(),
{
    let v: Vec<u8> = vec![
        98u8, 97, 115, 101, 95, 97, 109, 111, 117, 110, 116, 95, 111, 117, 116, 58,
    ];
    proof {
        assert(v@ =~= base_amount_out_marker_spec());
    }
    v
}

/// Bytes of `"max_quote_amount_in:"`:
/// key prefixing the pool buy quote input limit.
pub open spec fn max_quote_amount_in_marker_spec() -> Seq<u8> {
    seq![
        109u8, 97, 120, 95, 113, 117, 111, 116, 101, 95, 97, 109, 111, 117, 110, 116, 95, 105,
        110, 58,
    ]
}

/// Executable form of [`max_quote_amount_in_marker_spec`].
pub fn max_quote_amount_in_marker() -> (r: Vec<u8>)
    ensures
        r@ == max_quote_amount_in_marker_spec(),
{
    let v: Vec<u8> = vec![
        109u8, 97, 120, 95, 113, 117, 111, 116, 101, 95, 97, 109, 111, 117, 110, 116, 95, 105,
        110, 58,
    ];
    proof {
        assert(v@ =~= max_quote_amount_in_marker_spec());
    }
    v
}

/// Bytes of `"base_amount_in:"`:
/// key prefixing the pool sell base input amount.
pub open spec fn base_amount_in_marker_spec() -> Seq<u8> {
    seq![
        98u8, 97, 115, 101, 95, 97, 109, 111, 117, 110, 116, 95, 105, 110, 58,
    ]
}

/// Executable form of [`base_amount_in_marker_spec`].
pub fn base_amount_in_marker() -> (r: Vec<u8>)
    ensures
        r@ == base_amount_in_marker_spec(),
{
    let v: Vec<u8> = vec![
        98u8, 97, 115, 101, 95, 97, 109, 111, 117, 110, 116, 95, 105, 110, 58,
    ];
    proof {
        assert(v@ =~= base_amount_in_marker_spec());
    }
    v
}

/// Bytes of `"min_quote_amount_out:"`:
/// key prefixing the pool sell quote output limit.
pub open spec fn min_quote_amount_out_marker_spec() -> Seq<u8> {
    seq![
        109u8, 105, 110, 95, 113, 117, 111, 116, 101, 95, 97, 109, 111, 117, 110, 116, 95,
        111, 117, 116, 58,
    ]
}

/// Executable form of [`min_quote_amount_out_marker_spec`].
pub fn min_quote_amount_out_marker() -> (r: Vec<u8>)
    ensures
        r@ == min_quote_amount_out_marker_spec(),
{
    let v: Vec<u8> = vec![
        109u8, 105, 110, 95, 113, 117, 111, 116, 101, 95, 97, 109, 111, 117, 110, 116, 95,
        111, 117, 116, 58,
    ];
    proof {
        assert(v@ =~= min_quote_amount_out_marker_spec());
    }
    v
}

/// Bytes of `"pool_base_token_reserves:"`:
/// key prefixing the pool base reserve.
pub open spec fn pool_base_reserves_marker_spec() -> Seq<u8> {
    seq![
        112u8, 111, 111, 108, 95, 98, 97, 115, 101, 95, 116, 111, 107, 101, 110, 95, 114, 101,
        115, 101, 114, 118, 101, 115, 58,
    ]
}

/// Executable form of [`pool_base_reserves_marker_spec`].
pub fn pool_base_reserves_marker() -> (r: Vec<u8>)
    ensures
        r@ == pool_base_reserves_marker_spec(),
{
    let v: Vec<u8> = vec![
        112u8, 111, 111, 108, 95, 98, 97, 115, 101, 95, 116, 111, 107, 101, 110, 95, 114, 101,
        115, 101, 114, 118, 101, 115, 58,
    ];
    proof {
        assert(v@ =~= pool_base_reserves_marker_spec());
    }
    v
}

/// Bytes of `"pool_quote_token_reserves:"`:
/// key prefixing the pool quote reserve.
pub open spec fn pool_quote_reserves_marker_spec() -> Seq<u8> {
    seq![
        112u8, 111, 111, 108, 95, 113, 117, 111, 116, 101, 95, 116, 111, 107, 101, 110, 95,
        114, 101, 115, 101, 114, 118, 101, 115, 58,
    ]
}

/// Executable form of [`pool_quote_reserves_marker_spec`].
pub fn pool_quote_reserves_marker() -> (r: Vec<u8>)
    ensures
        r@ == pool_quote_reserves_marker_spec(),
{
    let v: Vec<u8> = vec![
        112u8, 111, 111, 108, 95, 113, 117, 111, 116, 101, 95, 116, 111, 107, 101, 110, 95,
        114, 101, 115, 101, 114, 118, 101, 115, 58,
    ];
    proof {
        assert(v@ =~= pool_quote_reserves_marker_spec());
    }
    v
}

/// Address of the bonding-curve DEX program.
pub open spec fn pump_program_id_spec() -> Seq<char> {
    "6EF8rrecthR5Dkzon8Nwu78hRvfCKubJ14M5uBEwF6P"@
}

/// Executable form of [`pump_program_id_spec`].
pub fn pump_program_id() -> (r: String)
    ensures
        r@ == pump_program_id_spec(),
{
    "6EF8rrecthR5Dkzon8Nwu78hRvfCKubJ14M5uBEwF6P".to_owned()
}

/// Address of the AMM pool program that succeeds the bonding curve.
pub open spec fn pool_amm_program_id_spec() -> Seq<char> {
    "pAMMBay6oceH9fJKBRHGP5D4bD4sWpmSwMn52FMfXEA"@
}

/// Executable form of [`pool_amm_program_id_spec`].
pub fn pool_amm_program_id() -> (r: String)
    ensures
        r@ == pool_amm_program_id_spec(),
{
    "pAMMBay6oceH9fJKBRHGP5D4bD4sWpmSwMn52FMfXEA".to_owned()
}

/// Address of an aggregator program whose transactions the subscription
/// excludes.
pub open spec fn jupiter_program_id_spec() -> Seq<char> {
    "JUP6LkbZbjS1jKKwapdHNy74zcZ3tLUZoi5QNyVTaV4"@
}

/// Executable form of [`jupiter_program_id_spec`].
pub fn jupiter_program_id() -> (r: String)
    ensures
        r@ == jupiter_program_id_spec(),
{
    "JUP6LkbZbjS1jKKwapdHNy74zcZ3tLUZoi5QNyVTaV4".to_owned()
}

/// Address of a second aggregator program the subscription excludes.
pub open spec fn okx_dex_program_id_spec() -> Seq<char> {
    "6m2CDdhRgxpH4WjvdzxAYbGxwdGUz5MziiL5jek2kBWz"@
}

/// Executable form of [`okx_dex_program_id_spec`].
pub fn okx_dex_program_id() -> (r: String)
    ensures
        r@ == okx_dex_program_id_spec(),
{
    "6m2CDdhRgxpH4WjvdzxAYbGxwdGUz5MziiL5jek2kBWz".to_owned()
}

} // verus!

