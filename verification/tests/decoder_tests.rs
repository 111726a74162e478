use copytrader::codec::{decode_mint_payload, decode_trade_payload, scrape_number};
use copytrader::trade::{DecodeError, InstructionType, TradeInfoFromToken};
use copytrader::txn::{InstructionData, TokenBalanceData, TxnData, TxnMessage, TxnMeta, TxnUpdate};

fn le32(n: u32) -> Vec<u8> {
    n.to_le_bytes().to_vec()
}

fn le64(n: u64) -> Vec<u8> {
    n.to_le_bytes().to_vec()
}

fn mint_payload(name: &str, symbol: &str, uri: &str, k1: [u8; 32], k2: [u8; 32], k3: [u8; 32]) -> Vec<u8> {
    // create-event discriminator, then three strings, then three keys
    let mut p: Vec<u8> = vec![27, 114, 169, 77, 222, 235, 99, 118];
    for s in [name, symbol, uri] {
        p.extend(le32(s.len() as u32));
        p.extend(s.as_bytes());
    }
    p.extend(k1);
    p.extend(k2);
    p.extend(k3);
    p
}

fn basic_message() -> TxnMessage {
    TxnMessage {
        recent_blockhash: vec![5; 32],
        account_keys: Vec::new(),
        instructions: Vec::new(),
    }
}

fn update_with(message: Option<TxnMessage>, meta: Option<TxnMeta>) -> TxnUpdate {
    TxnUpdate {
        slot: 42,
        transaction: Some(TxnData { signature: vec![9; 64], message, meta }),
    }
}

#[test]
fn mint_log_round_trips() {
    let k1 = [1u8; 32];
    let k2 = [2u8; 32];
    let k3 = [3u8; 32];
    let payload = mint_payload("TOKEN", "TKN", "https://x/t.json", k1, k2, k3);
    let log = format!("Program data: {}", base64::encode(&payload));
    let r = TradeInfoFromToken::from_json(update_with(Some(basic_message()), None), vec![log])
        .expect("mint decodes");
    assert_eq!(r.instruction_type, InstructionType::PumpMint);
    assert_eq!(r.slot, 42);
    assert_eq!(r.mint, bs58::encode(k1).into_string());
    assert_eq!(r.bonding_curve, bs58::encode(k2).into_string());
    assert_eq!(r.target, bs58::encode(k3).into_string());
    assert_eq!(r.signature, bs58::encode([9u8; 64]).into_string());
    assert_eq!(r.recent_blockhash, vec![5; 32]);
    let info = r.bonding_curve_info.expect("curve info");
    assert_eq!(info.bonding_curve, bs58::encode(k2).into_string());
    // post balance 0: the fresh virtual reserves
    assert_eq!(info.new_virtual_sol_reserve, 30_000_000_000);
    assert_eq!(info.new_virtual_token_reserve, 1_073_000_000_000_000);
    // the payload's text fields survive the round trip
    let mp = decode_mint_payload(&payload);
    assert_eq!(mp.name, "TOKEN");
    assert_eq!(mp.symbol, "TKN");
    assert_eq!(mp.uri, "https://x/t.json");
    assert_eq!(mp.mint, bs58::encode(k1).into_string());
}

#[test]
fn mint_payload_truncated_after_first_string_defaults_rest() {
    let mut p: Vec<u8> = vec![27, 114, 169, 77, 222, 235, 99, 118];
    p.extend(le32(5));
    p.extend(b"TOKEN");
    let mp = decode_mint_payload(&p);
    assert_eq!(mp.name, "TOKEN");
    assert_eq!(mp.symbol, "");
    assert_eq!(mp.uri, "");
    assert_eq!(mp.mint, "");
    assert_eq!(mp.bonding_curve, "");
    assert_eq!(mp.target, "");
}

#[test]
fn curve_buy_payload_round_trips() {
    let k = [7u8; 32];
    // trade-event discriminator, mint key, amount, max quote in
    let mut p: Vec<u8> = vec![189, 219, 127, 211, 78, 230, 97, 238];
    p.extend(k);
    p.extend(le64(1234));
    p.extend(le64(5678));
    let cp = decode_trade_payload(&p);
    assert_eq!(cp.mint, bs58::encode(k).into_string());
    assert_eq!(cp.amount, Some(1234));
    assert_eq!(cp.limit, Some(5678));

    let logs = vec![
        "Program log: Instruction: Buy".to_string(),
        format!("Program data: {}", base64::encode(&p)),
    ];
    let r = TradeInfoFromToken::from_json(update_with(Some(basic_message()), None), logs)
        .expect("curve buy decodes");
    assert_eq!(r.instruction_type, InstructionType::PumpBuy);
    assert_eq!(r.mint, bs58::encode(k).into_string());
    assert_eq!(r.amount, Some(1234));
    assert_eq!(r.max_sol_cost, Some(5678));
    assert_eq!(r.min_sol_output, None);
}

#[test]
fn curve_sell_payload_decodes() {
    let k = [8u8; 32];
    let mut p: Vec<u8> = vec![189, 219, 127, 211, 78, 230, 97, 238];
    p.extend(k);
    p.extend(le64(999));
    p.extend(le64(111));
    let logs = vec![
        "Program log: Instruction: Sell".to_string(),
        format!("Program data: {}", base64::encode(&p)),
    ];
    let r = TradeInfoFromToken::from_json(update_with(Some(basic_message()), None), logs)
        .expect("curve sell decodes");
    assert_eq!(r.instruction_type, InstructionType::PumpSell);
    assert_eq!(r.amount, Some(999));
    assert_eq!(r.min_sol_output, Some(111));
    assert_eq!(r.max_sol_cost, None);
}

#[test]
fn curve_buy_reads_scraped_curve_and_balances() {
    let k = [7u8; 32];
    let curve_key = [4u8; 32];
    let curve_text = bs58::encode(curve_key).into_string();
    let mut p: Vec<u8> = vec![189, 219, 127, 211, 78, 230, 97, 238];
    p.extend(k);
    p.extend(le64(1234));
    p.extend(le64(5678));
    let logs = vec![
        "Program log: Instruction: Buy".to_string(),
        format!("Program data: {}", base64::encode(&p)),
        format!("Program log: bonding curve: {}", curve_text),
    ];
    let meta = TxnMeta {
        pre_balances: vec![100, 1_000_000],
        post_balances: vec![100, 6_000_000],
        post_token_balances: vec![TokenBalanceData {
            owner: "LEADER".to_string(),
            mint: "SOMEMINT".to_string(),
            ui_amount: Some(250),
        }],
    };
    let msg = TxnMessage {
        recent_blockhash: vec![5; 32],
        account_keys: vec![vec![0; 32], curve_key.to_vec()],
        instructions: Vec::new(),
    };
    let r = TradeInfoFromToken::from_json(update_with(Some(msg), Some(meta)), logs)
        .expect("curve buy decodes");
    assert_eq!(r.bonding_curve, curve_text);
    // the curve account (index 1) gained 5_000_000 lamports
    assert_eq!(r.volume_change, 5_000_000);
    assert_eq!(r.target, "LEADER");
    assert_eq!(r.token_amount, 250);
    let info = r.bonding_curve_info.expect("curve info");
    assert_eq!(info.new_virtual_sol_reserve, 30_000_000_000 + 6_000_000);
    assert_eq!(
        info.new_virtual_token_reserve,
        ((30_000_000_000u128 * 1_073_000_000_000_000u128)
            / (30_000_000_000u128 + 6_000_000u128)) as u64
    );
}

#[test]
fn invalid_scraped_curve_key_is_rejected() {
    let mut p: Vec<u8> = vec![189, 219, 127, 211, 78, 230, 97, 238];
    p.extend([7u8; 32]);
    let logs = vec![
        "Program log: Instruction: Buy".to_string(),
        format!("Program data: {}", base64::encode(&p)),
        // 0, I, O and l are not base58 digits
        "Program log: bonding curve: 0OIl!!notakey".to_string(),
    ];
    let meta = TxnMeta {
        pre_balances: Vec::new(),
        post_balances: Vec::new(),
        post_token_balances: Vec::new(),
    };
    let r = TradeInfoFromToken::from_json(update_with(Some(basic_message()), Some(meta)), logs);
    assert_eq!(r, Err(DecodeError::InvalidKey));
}

#[test]
fn missing_transaction_and_blockhash_are_reported() {
    let mut p: Vec<u8> = vec![189, 219, 127, 211, 78, 230, 97, 238];
    p.extend([7u8; 32]);
    let logs = || {
        vec![
            "Program log: Instruction: Buy".to_string(),
            format!("Program data: {}", base64::encode(&p)),
        ]
    };
    let no_txn = TxnUpdate { slot: 1, transaction: None };
    assert_eq!(
        TradeInfoFromToken::from_json(no_txn, logs()),
        Err(DecodeError::MissingTransaction)
    );
    assert_eq!(
        TradeInfoFromToken::from_json(update_with(None, None), logs()),
        Err(DecodeError::MissingBlockhash)
    );
}

#[test]
fn unmatched_logs_are_unclassified() {
    let r = TradeInfoFromToken::from_json(
        update_with(Some(basic_message()), None),
        vec!["Program log: something else".to_string()],
    );
    assert_eq!(r, Err(DecodeError::Unclassified));
}

#[test]
fn short_account_list_leaves_pool_addresses_zero() {
    // an AMM pool buy whose instruction references fewer than nine accounts
    let pool_program_key: Vec<u8> = bs58::decode("pAMMBay6oceH9fJKBRHGP5D4bD4sWpmSwMn52FMfXEA")
        .into_vec()
        .expect("valid program id");
    let mut event: Vec<u8> = vec![103, 244, 82, 31, 44, 245, 119, 119];
    event.extend([0u8; 16]);
    let logs = vec![
        "Program log: Instruction: Buy".to_string(),
        format!("Program data: {}", base64::encode(&event)),
        "Program log: base_amount_out: 1000".to_string(),
        "Program log: max_quote_amount_in: 2000".to_string(),
        "Program log: pool_base_token_reserves: 77".to_string(),
        "Program log: pool_quote_token_reserves: 88".to_string(),
    ];
    let msg = TxnMessage {
        recent_blockhash: vec![5; 32],
        account_keys: vec![pool_program_key, vec![7; 32], vec![8; 32]],
        instructions: vec![InstructionData { program_id_index: 0, accounts: vec![1, 2] }],
    };
    let r = TradeInfoFromToken::from_json(update_with(Some(msg), None), logs)
        .expect("pool buy decodes");
    assert_eq!(r.instruction_type, InstructionType::PumpSwapBuy);
    let zero = bs58::encode([0u8; 32]).into_string();
    let pool = r.pool_info.expect("pool info");
    assert_eq!(pool.pool_id, bs58::encode([7u8; 32]).into_string());
    assert_eq!(r.target, bs58::encode([8u8; 32]).into_string());
    // positions 3, 4, 7 and 8 are missing: zero keys stand in
    assert_eq!(pool.base_mint, zero);
    assert_eq!(pool.quote_mint, zero);
    assert_eq!(pool.pool_base_token_account, zero);
    assert_eq!(pool.pool_quote_token_account, zero);
    assert_eq!(pool.base_reserve, 77);
    assert_eq!(pool.quote_reserve, 88);
    assert_eq!(r.base_amount_out, Some(1000));
    assert_eq!(r.max_quote_amount_in, Some(2000));
    assert_eq!(r.mint, zero);
}

#[test]
fn pool_fallback_event_classifies() {
    let logs = vec![
        "Program pAMMBay6oceH9fJKBRHGP5D4bD4sWpmSwMn52FMfXEA invoke [1]".to_string(),
        "Program log: SellEvent fired".to_string(),
        "Program log: base_amount_in: 31".to_string(),
        "Program log: min_quote_amount_out: 17".to_string(),
    ];
    let r = TradeInfoFromToken::from_json(update_with(Some(basic_message()), None), logs)
        .expect("fallback decodes");
    assert_eq!(r.instruction_type, InstructionType::PumpSwapSell);
    assert_eq!(r.base_amount_in, Some(31));
    assert_eq!(r.min_quote_amount_out, Some(17));
}

#[test]
fn mint_balance_scan_skips_entries_without_amounts() {
    let k1 = [1u8; 32];
    let k2 = [2u8; 32];
    let k3 = [3u8; 32];
    let target = bs58::encode(k3).into_string();
    let payload = mint_payload("T", "T", "u", k1, k2, k3);
    let log = format!("Program data: {}", base64::encode(&payload));
    let meta = TxnMeta {
        pre_balances: Vec::new(),
        post_balances: Vec::new(),
        post_token_balances: vec![
            TokenBalanceData { owner: "other".to_string(), mint: String::new(), ui_amount: Some(7) },
            TokenBalanceData { owner: target.clone(), mint: String::new(), ui_amount: None },
            TokenBalanceData { owner: target.clone(), mint: String::new(), ui_amount: Some(42) },
        ],
    };
    let r = TradeInfoFromToken::from_json(update_with(Some(basic_message()), Some(meta)), vec![log])
        .expect("mint decodes");
    // the first entry for the creator that carries an amount wins
    assert_eq!(r.token_amount, 42);
}

#[test]
fn scraped_numbers_keep_the_last_parsable_value() {
    let marker: Vec<u8> = b"pool_base_token_reserves:".to_vec();
    let logs = vec![
        "pool_base_token_reserves: 11".to_string(),
        "pool_base_token_reserves: 22".to_string(),
    ];
    assert_eq!(scrape_number(&logs, &marker), Some(22));
    // a later line that does not parse leaves the earlier value standing
    let logs2 = vec![
        "pool_base_token_reserves: 11".to_string(),
        "pool_base_token_reserves: not-a-number".to_string(),
    ];
    assert_eq!(scrape_number(&logs2, &marker), Some(11));
    // a leading plus sign parses; overflow does not
    let logs3 = vec!["pool_base_token_reserves: +33".to_string()];
    assert_eq!(scrape_number(&logs3, &marker), Some(33));
    let logs4 = vec!["pool_base_token_reserves: 99999999999999999999999".to_string()];
    assert_eq!(scrape_number(&logs4, &marker), None);
    assert_eq!(scrape_number(&Vec::new(), &marker), None);
}

#[test]
fn classification_takes_the_first_matching_line() {
    let k1 = [1u8; 32];
    let mint_p = mint_payload("T", "T", "u", k1, [2u8; 32], [3u8; 32]);
    let mut trade_p: Vec<u8> = vec![189, 219, 127, 211, 78, 230, 97, 238];
    trade_p.extend(k1);
    let mint_log = format!("Program data: {}", base64::encode(&mint_p));
    let buy_log = "Program log: Instruction: Buy".to_string();
    let trade_log = format!("Program data: {}", base64::encode(&trade_p));

    // the buy instruction line comes first: a curve buy
    let r1 = TradeInfoFromToken::from_json(
        update_with(Some(basic_message()), None),
        vec![buy_log.clone(), trade_log.clone(), mint_log.clone()],
    )
    .expect("decodes");
    assert_eq!(r1.instruction_type, InstructionType::PumpBuy);

    // the creation payload line comes first: a mint
    let r2 = TradeInfoFromToken::from_json(
        update_with(Some(basic_message()), None),
        vec![mint_log, buy_log, trade_log],
    )
    .expect("decodes");
    assert_eq!(r2.instruction_type, InstructionType::PumpMint);
}

#[test]
fn truncated_curve_payload_leaves_missing_fields_absent() {
    let k = [6u8; 32];
    // discriminator and mint key only: both numeric fields absent
    let mut p: Vec<u8> = vec![189, 219, 127, 211, 78, 230, 97, 238];
    p.extend(k);
    let cp = decode_trade_payload(&p);
    assert_eq!(cp.mint, bs58::encode(k).into_string());
    assert_eq!(cp.amount, None);
    assert_eq!(cp.limit, None);

    let logs = |payload: &Vec<u8>| {
        vec![
            "Program log: Instruction: Buy".to_string(),
            format!("Program data: {}", base64::encode(payload)),
        ]
    };
    let r = TradeInfoFromToken::from_json(update_with(Some(basic_message()), None), logs(&p))
        .expect("decodes");
    assert_eq!(r.amount, None);
    assert_eq!(r.max_sol_cost, None);

    // amount bytes present, limit bytes absent
    let mut p2 = p.clone();
    p2.extend(le64(1234));
    let r2 = TradeInfoFromToken::from_json(update_with(Some(basic_message()), None), logs(&p2))
        .expect("decodes");
    assert_eq!(r2.amount, Some(1234));
    assert_eq!(r2.max_sol_cost, None);
}
