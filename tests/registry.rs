use candle_auction::error::ContractError;
use candle_auction::handler::{execute, query};
use candle_auction::msg::InstantiateMsg;
use candle_auction::state::{Auction, AuctionStatus, Config, ContractVersion, PaymentType};

fn config() -> Config {
    execute::initial_config(
        InstantiateMsg {
            min_auction_duration: 10,
            max_auction_duration: 1_000,
            enable_auction: true,
            fee_rate: 2,
            default_denom: "ugtb".to_string(),
            support_contract: vec!["nft_contract".to_string()],
            oracle_contract: "oracle".to_string(),
        },
        "admin".to_string(),
        ContractVersion { contract: "crates.io:candle_auction".to_string(), version: "0.1.0".to_string() },
    )
}

fn create(cfg: &mut Config, now: u64, start: u64, duration: u64) -> Result<(u64, Auction), ContractError> {
    execute::auction(
        cfg,
        now,
        "alice".to_string(),
        "item".to_string(),
        start,
        duration,
        PaymentType::Coin,
        "ugtb".to_string(),
        Some(123),
    )
}

#[test]
fn initial_config_has_no_auction() {
    let cfg = config();
    assert_eq!(cfg.auction_num, 0);
    assert_eq!(cfg.owner, "admin");
    assert_eq!(cfg.oracle_contract, "oracle");
    let r = query::config(&cfg);
    assert_eq!(r.auction_num, 0);
    assert_eq!(r.support_contract, vec!["nft_contract".to_string()]);
    assert_eq!(r.default_denom, "ugtb");
}

#[test]
fn ids_are_dense_from_one() {
    let mut cfg = config();
    for expected in 1..=3u64 {
        let (id, a) = create(&mut cfg, 0, 100, 50).unwrap();
        assert_eq!(id, expected);
        assert_eq!(cfg.auction_num, expected);
        assert_eq!(a.seller, "alice");
        assert_eq!(a.bid_num, 0);
        assert!(a.bidders.is_empty());
        assert!(a.tokens.is_empty());
        assert_eq!(a.min_price, Some(123));
        assert!(!a.is_candle_blow);
    }
}

#[test]
fn creation_after_window_is_refused() {
    let mut cfg = config();
    assert!(matches!(create(&mut cfg, 151, 100, 50), Err(ContractError::BadRequest { .. })));
    assert!(create(&mut cfg, 150, 100, 50).is_ok());
    assert_eq!(cfg.auction_num, 1);
}

#[test]
fn creation_duration_bounds() {
    let mut cfg = config();
    assert_eq!(
        create(&mut cfg, 0, 100, 9),
        Err(ContractError::DurationTooShort { input_duration: 9, min_duration: 10 })
    );
    assert_eq!(
        create(&mut cfg, 0, 100, 1_001),
        Err(ContractError::DurationTooLong { input_duration: 1_001, max_duration: 1_000 })
    );
    assert!(create(&mut cfg, 0, 100, 10).is_ok());
    assert!(create(&mut cfg, 0, 100, 1_000).is_ok());
    assert_eq!(cfg.auction_num, 2);
}

#[test]
fn creation_while_disabled_is_refused() {
    let mut cfg = config();
    cfg.enable_auction = false;
    assert_eq!(create(&mut cfg, 0, 100, 50), Err(ContractError::AuctionDisabled {}));
    assert_eq!(cfg.auction_num, 0);
}

#[test]
fn creation_with_exhausted_ids_is_refused() {
    let mut cfg = config();
    cfg.auction_num = u64::MAX;
    assert!(matches!(create(&mut cfg, 0, 100, 50), Err(ContractError::BadRequest { .. })));
}

#[test]
fn deposit_rules() {
    let mut cfg = config();
    let (_, mut a) = create(&mut cfg, 0, 100, 50).unwrap();
    let bad = |m: &str| Err(ContractError::BadRequest { msg: m.to_string() });
    let r = execute::handle_cw721(&cfg, &mut a, 10, "other_nft".to_string(), "alice".to_string(), "t".to_string());
    assert_eq!(r, bad("Unsupported contract"));
    let r = execute::handle_cw721(&cfg, &mut a, 10, "nft_contract".to_string(), "mallory".to_string(), "t".to_string());
    assert_eq!(r, bad("Not the seller"));
    let r = execute::handle_cw721(&cfg, &mut a, 100, "nft_contract".to_string(), "alice".to_string(), "t".to_string());
    assert_eq!(r, bad("Auction has started"));
    assert!(a.tokens.is_empty());
    let r = execute::receive(&cfg, &mut a, 99, "nft_contract".to_string(), "alice".to_string(), None, Some("t".to_string()), None);
    assert_eq!(r, Ok(()));
    assert_eq!(a.tokens.len(), 1);
    assert_eq!(a.tokens[0].contract, "nft_contract");
    assert_eq!(a.tokens[0].token_id, "t");
    let r = execute::receive(&cfg, &mut a, 99, "nft_contract".to_string(), "alice".to_string(), None, None, None);
    assert!(matches!(r, Err(ContractError::BadRequest { .. })));
    cfg.enable_auction = false;
    let r = execute::handle_cw721(&cfg, &mut a, 10, "nft_contract".to_string(), "alice".to_string(), "u".to_string());
    assert_eq!(r, Err(ContractError::AuctionDisabled {}));
}

#[test]
fn config_update_by_owner_only() {
    let mut cfg = config();
    let r = execute::update_config(&mut cfg, "mallory".to_string(), Some(1), None, Some(false), None, None, None);
    assert_eq!(r, Err(ContractError::NotOwner { sender: "mallory".to_string(), owner: "admin".to_string() }));
    assert!(cfg.enable_auction);
    let r = execute::update_config(
        &mut cfg,
        "admin".to_string(),
        Some(1),
        None,
        Some(false),
        Some(7),
        Some("uatom".to_string()),
        Some(vec![]),
    );
    assert_eq!(r, Ok(()));
    assert_eq!(cfg.min_auction_duration, 1);
    assert_eq!(cfg.max_auction_duration, 1_000);
    assert!(!cfg.enable_auction);
    assert_eq!(cfg.fee_rate, 7);
    assert_eq!(cfg.default_denom, "uatom");
    assert!(cfg.support_contract.is_empty());
}

fn five_auctions() -> Vec<Auction> {
    // ids 1..=5; ids 2 and 4 have not started at time 50, the others are open.
    let mut cfg = config();
    let mut v = vec![];
    for id in 1..=5u64 {
        let start = if id % 2 == 0 { 100 } else { 0 };
        v.push(create(&mut cfg, 0, start, 500).unwrap().1);
        v.last_mut().unwrap().name = format!("a{}", id);
    }
    v
}

fn names(r: &[candle_auction::msg::response::Auction]) -> Vec<String> {
    r.iter().map(|a| a.name.clone()).collect()
}

#[test]
fn listing_is_most_recent_first() {
    let all = five_auctions();
    assert_eq!(query::auction_list_ids(&all, 50, None, 0, 10), vec![5, 4, 3, 2, 1]);
    assert_eq!(query::auction_list_ids(&all, 50, None, 0, 2), vec![5, 4]);
    assert_eq!(query::auction_list_ids(&all, 50, None, 1, 2), vec![3, 2]);
    assert_eq!(query::auction_list_ids(&all, 50, None, 2, 2), vec![1]);
    assert_eq!(query::auction_list_ids(&all, 50, None, 3, 2), Vec::<u64>::new());
    assert_eq!(query::auction_list_ids(&all, 50, None, 0, 0), Vec::<u64>::new());
    assert_eq!(names(&query::auction_list(&all, 50, None, 1, 2)), vec!["a3", "a2"]);
}

#[test]
fn listing_filters_by_status() {
    let all = five_auctions();
    let open = Some(AuctionStatus::OpeningPeriod);
    assert_eq!(query::auction_list_ids(&all, 50, open, 0, 10), vec![5, 3, 1]);
    assert_eq!(query::auction_list_ids(&all, 50, open, 1, 2), vec![1]);
    let waiting = Some(AuctionStatus::NotStarted);
    assert_eq!(names(&query::auction_list(&all, 50, waiting, 0, 10)), vec!["a4", "a2"]);
    assert_eq!(query::auction_list_ids(&all, 50, Some(AuctionStatus::Ended), 0, 10), Vec::<u64>::new());
    assert_eq!(query::auction_list_ids(&all, 700, Some(AuctionStatus::Ended), 0, 10), vec![5, 4, 3, 2, 1]);
}

#[test]
fn lookup_reports_or_is_absent() {
    let all = five_auctions();
    let r = query::auction(all.get(2)).unwrap();
    assert_eq!(r.name, "a3");
    assert_eq!(r.seller, "alice");
    assert_eq!(r.min_price, Some(123));
    assert_eq!(r.payment_type, PaymentType::Coin);
    assert!(query::auction(all.get(9)).is_none());
}
