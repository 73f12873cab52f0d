use std::collections::hash_map::DefaultHasher;
use std::hash::{Hash, Hasher};

use candle_auction::candle::{cutoff_for, draw_cutoff, select_winner};
use candle_auction::error::ContractError;
use candle_auction::handler::execute;
use candle_auction::msg::{Fund, InstantiateMsg, RandQueryMsg};
use candle_auction::outgoing::{transfer_message, OutMsg};
use candle_auction::settlement::{candle_plan, Transfer};
use candle_auction::state::{Auction, Bid, Config, ContractVersion, PaymentType, Token};

const START: u64 = 1_000;

fn config() -> Config {
    execute::initial_config(
        InstantiateMsg {
            min_auction_duration: 0,
            max_auction_duration: 1_000_000,
            enable_auction: true,
            fee_rate: 2,
            default_denom: "ugtb".to_string(),
            support_contract: vec!["nft_contract".to_string()],
            oracle_contract: "oracle".to_string(),
        },
        "admin".to_string(),
        ContractVersion { contract: "crates.io:candle_auction".to_string(), version: "0.1.0".to_string() },
    )
}

fn auction_with_assets(cfg: &mut Config, payment_type: PaymentType, payment: &str, n_assets: usize) -> Auction {
    let mut a = execute::auction(
        cfg,
        START - 10,
        "alice".to_string(),
        "item".to_string(),
        START,
        100,
        payment_type,
        payment.to_string(),
        None,
    )
    .unwrap()
    .1;
    for i in 0..n_assets {
        execute::handle_cw721(cfg, &mut a, START - 5, "nft_contract".to_string(), "alice".to_string(), format!("t{}", i))
            .unwrap();
    }
    a
}

fn bid(cfg: &Config, a: &mut Auction, at: u64, who: &str, amount: u128) {
    let fs = vec![Fund { denom: "ugtb".to_string(), amount }];
    execute::bid_for_denom(cfg, a, at, who.to_string(), None, &fs).unwrap();
}

fn bank(to: &str, amount: u128) -> OutMsg {
    OutMsg::BankSend { to_address: to.to_string(), denom: "ugtb".to_string(), amount }
}

fn nft(to: &str, token_id: &str) -> OutMsg {
    OutMsg::WasmExecute {
        contract_addr: "nft_contract".to_string(),
        msg: format!("{{\"transfer_nft\":{{\"recipient\":\"{}\",\"token_id\":\"{}\"}}}}", to, token_id).into_bytes(),
    }
}

#[test]
fn single_bid_wins_when_cutoff_is_after_it() {
    for h in [10u64, 55, 99, 210] {
        let mut cfg = config();
        let mut a = auction_with_assets(&mut cfg, PaymentType::Coin, "ugtb", 2);
        bid(&cfg, &mut a, START + 10, "bob", 500);
        let msgs = execute::settle_candle(&mut a, START + 101, h).unwrap();
        assert_eq!(msgs, vec![bank("alice", 500), nft("bob", "t0"), nft("bob", "t1")]);
        assert_eq!(a.curr_winner.as_ref().unwrap().bidder, "bob");
        assert!(a.is_candle_blow);
    }
}

#[test]
fn single_bid_after_cutoff_is_refunded() {
    let mut cfg = config();
    let mut a = auction_with_assets(&mut cfg, PaymentType::Coin, "ugtb", 1);
    bid(&cfg, &mut a, START + 10, "bob", 500);
    let msgs = execute::settle_candle(&mut a, START + 101, 5).unwrap();
    assert_eq!(msgs, vec![bank("bob", 500)]);
    assert_eq!(a.curr_winner, None);
    assert!(a.is_candle_blow);
}

#[test]
fn earlier_bid_wins_when_cutoff_precedes_higher_bid() {
    let mut cfg = config();
    let mut a = auction_with_assets(&mut cfg, PaymentType::Coin, "ugtb", 1);
    bid(&cfg, &mut a, START + 5, "bob", 100);
    bid(&cfg, &mut a, START + 50, "carol", 200);
    assert_eq!(cutoff_for(START, 100, 20), START + 20);
    let msgs = execute::settle_candle(&mut a, START + 200, 20).unwrap();
    assert_eq!(msgs, vec![bank("carol", 200), bank("alice", 100), nft("bob", "t0")]);
    assert_eq!(
        a.curr_winner,
        Some(Bid { bidder: "bob".to_string(), timestamp: START + 5, amount: 100 })
    );
}

#[test]
fn refunds_come_latest_first() {
    let mut cfg = config();
    let mut a = auction_with_assets(&mut cfg, PaymentType::Coin, "ugtb", 0);
    bid(&cfg, &mut a, START + 1, "b1", 10);
    bid(&cfg, &mut a, START + 2, "b2", 20);
    bid(&cfg, &mut a, START + 30, "b3", 30);
    bid(&cfg, &mut a, START + 40, "b4", 40);
    let msgs = execute::settle_candle(&mut a, START + 101, 2).unwrap();
    assert_eq!(msgs, vec![bank("b4", 40), bank("b3", 30), bank("b1", 10), bank("alice", 20)]);
}

#[test]
fn settlement_conserves_funds() {
    let mut cfg = config();
    let mut a = auction_with_assets(&mut cfg, PaymentType::Coin, "ugtb", 3);
    let amounts = [7u128, 9, 9, 30, 31];
    for (i, amt) in amounts.iter().enumerate() {
        bid(&cfg, &mut a, START + 20 * i as u64, &format!("b{}", i), *amt);
    }
    let total: u128 = amounts.iter().sum();
    for h in 0u64..100 {
        let mut b = a.clone();
        let msgs = execute::settle_candle(&mut b, START + 101, h).unwrap();
        let moved: u128 = msgs
            .iter()
            .map(|m| match m {
                OutMsg::BankSend { amount, .. } => *amount,
                OutMsg::WasmExecute { .. } => 0,
            })
            .sum();
        assert_eq!(moved, total);
    }
}

#[test]
fn winner_exists_when_first_bid_opens_window() {
    let mut cfg = config();
    let mut a = auction_with_assets(&mut cfg, PaymentType::Coin, "ugtb", 1);
    bid(&cfg, &mut a, START, "b0", 1);
    bid(&cfg, &mut a, START + 60, "b1", 2);
    for h in [0u64, 1, 59, 60, 99, u64::MAX] {
        let cutoff = cutoff_for(START, 100, h);
        let w = select_winner(&a.bidders, cutoff).unwrap();
        assert!(a.bidders[w].timestamp <= cutoff);
        for later in &a.bidders[w + 1..] {
            assert!(later.timestamp > cutoff);
        }
    }
}

#[test]
fn selection_is_deterministic() {
    let mut cfg = config();
    let mut a = auction_with_assets(&mut cfg, PaymentType::Coin, "ugtb", 1);
    bid(&cfg, &mut a, START, "b0", 1);
    bid(&cfg, &mut a, START + 33, "b1", 2);
    bid(&cfg, &mut a, START + 66, "b2", 3);
    let randomness = b"beacon round 11".to_vec();
    let mut first = a.clone();
    let mut second = a.clone();
    let m1 = execute::blow_candle(&mut first, START + 101, &randomness).unwrap();
    let m2 = execute::blow_candle(&mut second, START + 101, &randomness).unwrap();
    assert_eq!(m1, m2);
    assert_eq!(first, second);
    let cutoff = draw_cutoff(START, 100, &randomness);
    assert!(first.curr_winner.as_ref().unwrap().timestamp <= cutoff);
}

#[test]
fn cutoff_uses_default_hasher_of_randomness() {
    let randomness = b"gio1qdgzfy4vta5p43l4urdtmawka3qv2ldh4h0jat".to_vec();
    let mut hasher = DefaultHasher::new();
    randomness.hash(&mut hasher);
    let h = hasher.finish();
    assert_eq!(draw_cutoff(START, 1_000_003, &randomness), START + h % 1_000_003);
    assert_eq!(draw_cutoff(START, 0, &randomness), START);
    assert_eq!(cutoff_for(u64::MAX - 1, 100, 50), u64::MAX);
}

#[test]
fn second_blow_is_refused() {
    let mut cfg = config();
    let mut a = auction_with_assets(&mut cfg, PaymentType::Coin, "ugtb", 1);
    bid(&cfg, &mut a, START + 1, "bob", 5);
    execute::settle_candle(&mut a, START + 101, 3).unwrap();
    let settled = a.clone();
    assert_eq!(execute::settle_candle(&mut a, START + 500, 3), Err(ContractError::AlreadySettled {}));
    assert_eq!(execute::blow_candle(&mut a, START + 500, &vec![1, 2]), Err(ContractError::AlreadySettled {}));
    assert_eq!(execute::auction_flow(&mut a, START + 500), Err(ContractError::AlreadySettled {}));
    assert_eq!(a, settled);
}

#[test]
fn second_flow_is_refused() {
    let mut cfg = config();
    let mut a = auction_with_assets(&mut cfg, PaymentType::Coin, "ugtb", 1);
    execute::auction_flow(&mut a, START + 101).unwrap();
    let settled = a.clone();
    assert_eq!(execute::auction_flow(&mut a, START + 102), Err(ContractError::AlreadySettled {}));
    assert_eq!(execute::settle_candle(&mut a, START + 102, 1), Err(ContractError::AlreadySettled {}));
    assert_eq!(a, settled);
}

#[test]
fn flow_returns_assets_to_seller() {
    let mut cfg = config();
    let mut a = auction_with_assets(&mut cfg, PaymentType::Coin, "ugtb", 3);
    let msgs = execute::auction_flow(&mut a, START + 101).unwrap();
    assert_eq!(msgs, vec![nft("alice", "t0"), nft("alice", "t1"), nft("alice", "t2")]);
    assert!(msgs.iter().all(|m| !matches!(m, OutMsg::BankSend { .. })));
    assert!(a.is_candle_blow);
}

#[test]
fn flow_with_bids_is_refused() {
    let mut cfg = config();
    let mut a = auction_with_assets(&mut cfg, PaymentType::Coin, "ugtb", 1);
    bid(&cfg, &mut a, START + 1, "bob", 5);
    assert_eq!(
        execute::auction_flow(&mut a, START + 101),
        Err(ContractError::BadRequest { msg: "Auction not flow".to_string() })
    );
    assert!(!a.is_candle_blow);
}

#[test]
fn blow_without_bids_is_refused() {
    let mut cfg = config();
    let mut a = auction_with_assets(&mut cfg, PaymentType::Coin, "ugtb", 1);
    assert!(matches!(execute::settle_candle(&mut a, START + 101, 1), Err(ContractError::BadRequest { .. })));
    assert!(matches!(execute::blow_candle_request(&a, 1, START + 101), Err(ContractError::BadRequest { .. })));
}

#[test]
fn settlement_before_end_is_refused() {
    let mut cfg = config();
    let mut a = auction_with_assets(&mut cfg, PaymentType::Coin, "ugtb", 1);
    bid(&cfg, &mut a, START + 1, "bob", 5);
    let not_ended = Err(ContractError::AuctionNotEnded { end: START + 100, now: START + 100 });
    assert_eq!(execute::settle_candle(&mut a, START + 100, 1), not_ended);
    assert_eq!(execute::blow_candle_request(&a, 1, START + 100), Err(ContractError::AuctionNotEnded { end: START + 100, now: START + 100 }));
    assert_eq!(
        execute::winner_claim(&mut a, START + 100, "bob".to_string(), None),
        Err(ContractError::AuctionNotEnded { end: START + 100, now: START + 100 })
    );
    assert!(!a.is_candle_blow);
}

#[test]
fn randomness_round_is_offset_from_id() {
    let mut cfg = config();
    let mut a = auction_with_assets(&mut cfg, PaymentType::Coin, "ugtb", 0);
    bid(&cfg, &mut a, START + 1, "bob", 5);
    assert_eq!(execute::blow_candle_request(&a, 7, START + 101), Ok(RandQueryMsg::Get { round: 17 }));
    assert!(matches!(execute::blow_candle_request(&a, u64::MAX, START + 101), Err(ContractError::BadRequest { .. })));
}

#[test]
fn token_auction_settles_with_token_transfers() {
    let mut cfg = config();
    let mut a = auction_with_assets(&mut cfg, PaymentType::Cw20, "token", 1);
    execute::handle_cw20_bid(&cfg, &mut a, START + 1, "token".to_string(), "bob".to_string(), 300, None).unwrap();
    execute::handle_cw20_bid(&cfg, &mut a, START + 2, "token".to_string(), "keven".to_string(), 400, None).unwrap();
    let msgs = execute::settle_candle(&mut a, START + 101, 50).unwrap();
    let cw20 = |to: &str, amount: u128| OutMsg::WasmExecute {
        contract_addr: "token".to_string(),
        msg: format!("{{\"transfer\":{{\"recipient\":\"{}\",\"amount\":\"{}\"}}}}", to, amount).into_bytes(),
    };
    assert_eq!(msgs, vec![cw20("bob", 300), cw20("alice", 400), nft("keven", "t0")]);
}

#[test]
fn transfer_messages_encode_recipient_and_amount() {
    let t = Transfer::Funds { recipient: "bob".to_string(), amount: 12 };
    let m = transfer_message(PaymentType::Cw20, &"token".to_string(), &t);
    assert_eq!(
        m,
        OutMsg::WasmExecute {
            contract_addr: "token".to_string(),
            msg: b"{\"transfer\":{\"recipient\":\"bob\",\"amount\":\"12\"}}".to_vec()
        }
    );
    let t = Transfer::Asset { contract: "nft_contract".to_string(), token_id: "x".to_string(), recipient: "bob".to_string() };
    assert_eq!(transfer_message(PaymentType::Coin, &"ugtb".to_string(), &t), nft("bob", "x"));
    let t = Transfer::Funds { recipient: "bob".to_string(), amount: 12 };
    assert_eq!(transfer_message(PaymentType::Coin, &"ugtb".to_string(), &t), bank("bob", 12));
}

#[test]
fn candle_plan_without_winner_refunds_all() {
    let bids = vec![
        Bid { bidder: "a".to_string(), timestamp: 1, amount: 1 },
        Bid { bidder: "b".to_string(), timestamp: 2, amount: 2 },
    ];
    let tokens = vec![Token { contract: "c".to_string(), token_id: "t".to_string() }];
    let plan = candle_plan(&bids, &tokens, &"s".to_string(), None);
    assert_eq!(
        plan,
        vec![
            Transfer::Funds { recipient: "b".to_string(), amount: 2 },
            Transfer::Funds { recipient: "a".to_string(), amount: 1 },
        ]
    );
}

#[test]
fn winner_claim_delivers_assets() {
    let mut cfg = config();
    let mut a = auction_with_assets(&mut cfg, PaymentType::Coin, "ugtb", 1);
    bid(&cfg, &mut a, START + 1, "bob", 300);
    bid(&cfg, &mut a, START + 2, "keven", 400);
    let r = execute::winner_claim(&mut a, START + 101, "bob".to_string(), None);
    assert_eq!(r, Err(ContractError::BadRequest { msg: "Not Winner".to_string() }));
    assert!(!a.is_candle_blow);
    let msgs = execute::winner_claim(&mut a, START + 101, "anyone".to_string(), Some("keven".to_string())).unwrap();
    assert_eq!(msgs, vec![nft("keven", "t0")]);
    assert!(a.is_candle_blow);
    assert_eq!(
        execute::winner_claim(&mut a, START + 102, "keven".to_string(), None),
        Err(ContractError::AlreadySettled {})
    );
}

#[test]
fn flow_with_provisional_winner_is_refused() {
    let mut cfg = config();
    let mut a = auction_with_assets(&mut cfg, PaymentType::Coin, "ugtb", 1);
    a.curr_winner = Some(Bid { bidder: "bob".to_string(), timestamp: START + 1, amount: 5 });
    assert_eq!(
        execute::auction_flow(&mut a, START + 101),
        Err(ContractError::BadRequest { msg: "Auction not flow".to_string() })
    );
    assert!(!a.is_candle_blow);
}

#[test]
fn blow_without_bids_names_the_flow() {
    let mut cfg = config();
    let mut a = auction_with_assets(&mut cfg, PaymentType::Coin, "ugtb", 1);
    let flow = Err(ContractError::BadRequest { msg: "Auction flow".to_string() });
    assert_eq!(execute::blow_candle(&mut a, START + 101, &vec![9]), flow);
    assert!(!a.is_candle_blow);
}
