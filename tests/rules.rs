use peerswap::contract::{
    execute, instantiate, remove_expired, try_cancel_otc, try_create_otc, try_set_active, try_swap,
};
use peerswap::error::ContractError;
use peerswap::expiry::{Block, Expiry};
use peerswap::fixed::{fee_of, remaining_fraction, scale, FRACTIONAL};
use peerswap::msg::{Balance, Coin, Cw20Coin, Event, ExecuteMsg, InstantiateMsg, NewOTC, QueryMsg, Refund, Transfer};
use peerswap::query::{query, query_addr_otcs, query_config, query_otc, query_otcs};
use peerswap::state::AssetId;
use peerswap::store::Store;

fn at(height: u64) -> Block {
    Block { height, time: 1_000_000_000 }
}

fn coin(amount: u128, denom: &str) -> Coin {
    Coin { denom: denom.to_string(), amount }
}

fn store() -> Store {
    let (store, _) = instantiate(&"admin".to_string(), InstantiateMsg { taker_fee: Some(2), maker_fee: Some(1) });
    store
}

fn create(store: &mut Store, seller: &str, deposit: Balance, asks: Vec<Balance>, expires: Option<Expiry>) -> Result<u32, ContractError> {
    try_create_otc(store, at(100), &seller.to_string(), deposit, asks, expires, None, None)
        .map(|r| r.data.unwrap().id)
}

fn simple_offer(store: &mut Store, seller: &str, expires: Option<Expiry>) -> u32 {
    create(
        store,
        seller,
        Balance::Native(vec![coin(1_000_000, "sell")]),
        vec![Balance::Native(vec![coin(2_000_000, "ask")])],
        expires,
    )
    .unwrap()
}

#[test]
fn fixed_point_ratio_and_scale() {
    assert_eq!(remaining_fraction(10, 4), 600_000_000_000_000_000);
    assert_eq!(remaining_fraction(3, 1), 666_666_666_666_666_666);
    assert_eq!(remaining_fraction(4, 4), 0);
    assert_eq!(remaining_fraction(4, 9), 0);
    assert_eq!(scale(5_000_000, 600_000_000_000_000_000), 3_000_000);
    assert_eq!(scale(10, 666_666_666_666_666_666), 6);
    assert_eq!(scale(7, FRACTIONAL), 7);
    assert_eq!(fee_of(5_000_000, 2), 1000);
    assert_eq!(fee_of(9_999, 1), 0);
    assert_eq!(fee_of(123_456_789, 10000), 123_456_789);
}

#[test]
fn create_refused_when_paused() {
    let mut s = store();
    assert_eq!(try_set_active(&mut s, &"mallory".to_string(), false).unwrap_err(), ContractError::Unauthorized);
    let res = try_set_active(&mut s, &"admin".to_string(), false).unwrap();
    assert_eq!(res.event, Event::ActiveSet { active: false });
    assert!(!query_config(&s).active);
    let r = create(&mut s, "alice", Balance::Native(vec![coin(50_000, "x")]), vec![Balance::Native(vec![coin(1, "y")])], None);
    assert_eq!(r, Err(ContractError::Stopped));
    try_set_active(&mut s, &"admin".to_string(), true).unwrap();
    let r = create(&mut s, "alice", Balance::Native(vec![coin(50_000, "x")]), vec![Balance::Native(vec![coin(1, "y")])], None);
    assert_eq!(r, Ok(0));
}

#[test]
fn create_refused_when_already_expired() {
    let mut s = store();
    let asks = vec![Balance::Native(vec![coin(1, "y")])];
    let r = create(&mut s, "alice", Balance::Native(vec![coin(50_000, "x")]), asks.clone(), Some(Expiry::AtHeight(100)));
    assert_eq!(r, Err(ContractError::Expired));
    let r = create(&mut s, "alice", Balance::Native(vec![coin(50_000, "x")]), asks, Some(Expiry::AtTime(999_999_999)));
    assert_eq!(r, Err(ContractError::Expired));
    assert_eq!(s.otcs.len(), 0);
}

#[test]
fn create_dust_floor() {
    let mut s = store();
    let asks = vec![Balance::Native(vec![coin(1, "y")])];
    let r = create(&mut s, "alice", Balance::Native(vec![coin(9_999, "x")]), asks.clone(), None);
    assert_eq!(r, Err(ContractError::TooSmall));
    let token = Balance::Cw20(Cw20Coin { address: "tok".to_string(), amount: 9_999 });
    assert_eq!(create(&mut s, "alice", token, asks.clone(), None), Err(ContractError::TooSmall));
    assert_eq!(create(&mut s, "alice", Balance::Native(vec![]), asks.clone(), None), Err(ContractError::TooSmall));
    assert_eq!(create(&mut s, "alice", Balance::Native(vec![coin(10_000, "x")]), asks, None), Ok(0));
}

#[test]
fn create_refuses_many_give_tokens() {
    let mut s = store();
    let deposit = Balance::Native(vec![coin(50_000, "x"), coin(50_000, "z")]);
    let r = create(&mut s, "alice", deposit, vec![Balance::Native(vec![coin(1, "y")])], None);
    assert_eq!(r, Err(ContractError::TooManyGiveTokens));
}

#[test]
fn create_refuses_self_swap() {
    let mut s = store();
    let token = |amount| Balance::Cw20(Cw20Coin { address: "tok".to_string(), amount });
    let r = create(&mut s, "alice", token(50_000), vec![Balance::Native(vec![coin(1, "y")]), token(5)], None);
    assert_eq!(r, Err(ContractError::SameToken));
    let r = create(
        &mut s,
        "alice",
        Balance::Native(vec![coin(50_000, "x")]),
        vec![Balance::Native(vec![coin(1, "y"), coin(2, "x")])],
        None,
    );
    assert_eq!(r, Err(ContractError::SameToken));
    // Same identifier, other kind: no self-swap.
    let r = create(&mut s, "alice", Balance::Native(vec![coin(50_000, "tok")]), vec![token(5)], None);
    assert_eq!(r, Ok(0));
}

#[test]
fn create_refuses_duplicate_asks() {
    let mut s = store();
    let deposit = || Balance::Native(vec![coin(50_000, "x")]);
    let token = |amount| Balance::Cw20(Cw20Coin { address: "tok".to_string(), amount });
    // the same coin twice in one request
    let r = create(&mut s, "alice", deposit(), vec![Balance::Native(vec![coin(5_000_000, "b"), coin(6_000_000, "b")])], None);
    assert_eq!(r, Err(ContractError::SameToken));
    // the same coin in two requests
    let asks = vec![Balance::Native(vec![coin(5_000_000, "b")]), Balance::Native(vec![coin(6_000_000, "b")])];
    assert_eq!(create(&mut s, "alice", deposit(), asks, None), Err(ContractError::SameToken));
    // the same token twice
    assert_eq!(create(&mut s, "alice", deposit(), vec![token(5), token(6)], None), Err(ContractError::SameToken));
    assert_eq!(s.otcs.len(), 0);
    // an empty native request met first is refused for that
    let asks = vec![Balance::Native(vec![]), token(5), token(6)];
    assert_eq!(create(&mut s, "alice", deposit(), asks, None), Err(ContractError::NoAskTokens));
    // one coin and one token with the same identifier are different assets
    let asks = vec![Balance::Native(vec![coin(5, "tok")]), token(6)];
    assert_eq!(create(&mut s, "alice", deposit(), asks, None), Ok(0));
    assert_eq!(s.otcs[0].1.ask_for.len(), 2);
}

#[test]
fn create_flattens_asks_in_order() {
    let mut s = store();
    let asks = vec![
        Balance::Native(vec![coin(3, "p"), coin(4, "q")]),
        Balance::Cw20(Cw20Coin { address: "tok".to_string(), amount: 5 }),
    ];
    let res = try_create_otc(&mut s, at(1), &"alice".to_string(), Balance::Native(vec![coin(20_000, "x")]), asks, None, None, Some("hi".to_string()))
        .unwrap();
    let offer = res.data.unwrap().otc;
    let assets: Vec<(AssetId, u128)> = offer.ask_for.iter().map(|a| (a.asset.clone(), a.amount)).collect();
    assert_eq!(
        assets,
        vec![
            (AssetId::Native("p".to_string()), 3),
            (AssetId::Native("q".to_string()), 4),
            (AssetId::Cw20("tok".to_string()), 5),
        ]
    );
    assert_eq!(offer.description, Some("hi".to_string()));
    assert_eq!(res.event, Event::Created { otc_id: 0, seller: "alice".to_string(), amount: 20_000, token: AssetId::Native("x".to_string()) });
}

#[test]
fn ids_probe_past_taken_ones() {
    let mut s = store();
    assert_eq!(simple_offer(&mut s, "alice", None), 0);
    assert_eq!(simple_offer(&mut s, "alice", None), 1);
    assert_eq!(simple_offer(&mut s, "alice", None), 2);
    try_cancel_otc(&mut s, &"alice".to_string(), 1).unwrap();
    // The cursor stays on the last id given and probes upward from there.
    assert_eq!(simple_offer(&mut s, "alice", None), 3);
    s.state.index = 0;
    assert_eq!(simple_offer(&mut s, "alice", None), 1);
    let ids: Vec<u32> = s.otcs.iter().map(|(id, _)| *id).collect();
    assert_eq!(ids, vec![0, 1, 2, 3]);
}

#[test]
fn ids_wrap_at_the_top() {
    let mut s = store();
    s.state.index = u32::MAX;
    assert_eq!(simple_offer(&mut s, "alice", None), u32::MAX);
    assert_eq!(simple_offer(&mut s, "alice", None), 0);
    let ids: Vec<u32> = s.otcs.iter().map(|(id, _)| *id).collect();
    assert_eq!(ids, vec![0, u32::MAX]);
}

#[test]
fn swap_errors() {
    let mut s = store();
    let bob = "bob".to_string();
    let pay = |amount, denom: &str| Balance::Native(vec![coin(amount, denom)]);
    assert_eq!(try_swap(&mut s, at(100), &bob, 7, pay(2_000_000, "ask"), true).unwrap_err(), ContractError::NotFound);
    let id = simple_offer(&mut s, "alice", Some(Expiry::AtHeight(200)));
    assert_eq!(try_swap(&mut s, at(200), &bob, id, pay(2_000_000, "ask"), true).unwrap_err(), ContractError::Expired);
    assert_eq!(try_swap(&mut s, at(100), &bob, id, Balance::Native(vec![]), true).unwrap_err(), ContractError::WrongDenom);
    assert_eq!(try_swap(&mut s, at(100), &bob, id, pay(2_000_000, "other"), true).unwrap_err(), ContractError::WrongDenom);
    let token = Balance::Cw20(Cw20Coin { address: "ask".to_string(), amount: 2_000_000 });
    assert_eq!(try_swap(&mut s, at(100), &bob, id, token, false).unwrap_err(), ContractError::WrongDenom);
    assert_eq!(try_swap(&mut s, at(100), &bob, id, pay(9_999, "ask"), true).unwrap_err(), ContractError::TooSmall);
    assert_eq!(s.otcs[0].1.sell_amount, 1_000_000);
}

#[test]
fn swap_exact_small_remainder_is_accepted() {
    let mut s = store();
    let id = create(
        &mut s,
        "alice",
        Balance::Native(vec![coin(1_000_000, "sell")]),
        vec![Balance::Native(vec![coin(5_000, "ask")])],
        None,
    )
    .unwrap();
    let res = try_swap(&mut s, at(100), &"bob".to_string(), id, Balance::Native(vec![coin(5_000, "ask")]), true).unwrap();
    assert!(matches!(res.event, Event::Swapped { completed: true, given_amount: 1_000_000, .. }));
    assert_eq!(s.otcs.len(), 0);
}

#[test]
fn swap_overpayment_releases_everything() {
    let mut s = store();
    let id = simple_offer(&mut s, "alice", None);
    let res = try_swap(&mut s, at(100), &"bob".to_string(), id, Balance::Native(vec![coin(3_000_000, "ask")]), true).unwrap();
    assert!(matches!(res.event, Event::Swapped { completed: true, given_amount: 1_000_000, sent_amount: 3_000_000, .. }));
    assert_eq!(s.otcs.len(), 0);
}

#[test]
fn partial_swap_shrinks_every_leg() {
    let mut s = store();
    let asks = vec![Balance::Native(vec![coin(4_000_000, "p"), coin(1_000_000, "q")])];
    let id = create(&mut s, "alice", Balance::Native(vec![coin(2_000_000, "x")]), asks, None).unwrap();
    let res = try_swap(&mut s, at(100), &"bob".to_string(), id, Balance::Native(vec![coin(1_000_000, "p")]), true).unwrap();
    let offer = &s.otcs[0].1;
    assert_eq!(offer.sell_amount, 1_500_000);
    assert_eq!(offer.ask_for[0].amount, 3_000_000);
    assert_eq!(offer.ask_for[1].amount, 750_000);
    // every leg and the escrow keep the same share of what they started with
    for leg in &offer.ask_for {
        assert_eq!(leg.amount * 4, leg.initial_amount * 3);
    }
    assert_eq!(offer.sell_amount * 4, offer.initial_sell_amount * 3);
    // conservation: payment and release are split without leakage
    assert_eq!(res.messages[0].amount + res.messages[1].amount, 1_000_000);
    assert_eq!(res.messages[2].amount + res.messages[3].amount, 500_000);
    assert_eq!(res.messages[1].amount, 200);
    assert_eq!(res.messages[3].amount, 50);
}

#[test]
fn cancel_errors() {
    let mut s = store();
    assert_eq!(try_cancel_otc(&mut s, &"alice".to_string(), 3).unwrap_err(), ContractError::NotFound);
}

#[test]
fn sweep_refunds_expired_once() {
    let mut s = store();
    let a = simple_offer(&mut s, "alice", Some(Expiry::AtHeight(150)));
    let b = simple_offer(&mut s, "bob", None);
    let c = simple_offer(&mut s, "carol", Some(Expiry::AtTime(2_000_000_000)));
    let later = Block { height: 150, time: 2_000_000_000 };
    let res = remove_expired(&mut s, later);
    let sell = AssetId::Native("sell".to_string());
    assert_eq!(
        res.messages,
        vec![
            Transfer { recipient: "alice".to_string(), asset: sell.clone(), amount: 1_000_000 },
            Transfer { recipient: "carol".to_string(), asset: sell.clone(), amount: 1_000_000 },
        ]
    );
    assert_eq!(
        res.event,
        Event::ExpiredRemoved {
            refunded: vec![
                Refund { otc_id: a, amount: 1_000_000, token: sell.clone(), seller: "alice".to_string() },
                Refund { otc_id: c, amount: 1_000_000, token: sell, seller: "carol".to_string() },
            ]
        }
    );
    let ids: Vec<u32> = s.otcs.iter().map(|(id, _)| *id).collect();
    assert_eq!(ids, vec![b]);
    let again = execute(&mut s, later, &"anyone".to_string(), vec![], ExecuteMsg::RemoveExpired).unwrap();
    assert_eq!(again.messages.len(), 0);
    assert_eq!(s.otcs.len(), 1);
}

#[test]
fn listing_filters_and_caps() {
    let mut s = store();
    for i in 0..70u32 {
        let seller = if i % 2 == 0 { "alice" } else { "bob" };
        simple_offer(&mut s, seller, if i == 3 { Some(Expiry::AtHeight(101)) } else { None });
    }
    assert_eq!(query_otcs(&s, at(100), false, None, None).otcs.len(), 20);
    assert_eq!(query_otcs(&s, at(100), false, None, Some(1000)).otcs.len(), 60);
    assert_eq!(query_otcs(&s, at(200), false, None, Some(1000)).otcs.len(), 60);
    let page = query_otcs(&s, at(200), false, Some(60), Some(1000)).otcs;
    assert_eq!(page.len(), 9);
    let page = query_otcs(&s, at(200), false, None, Some(5)).otcs;
    let ids: Vec<u32> = page.iter().map(|(id, _)| *id).collect();
    assert_eq!(ids, vec![0, 1, 2, 4, 5]);
    let page = query_otcs(&s, at(200), true, None, Some(5)).otcs;
    let ids: Vec<u32> = page.iter().map(|(id, _)| *id).collect();
    assert_eq!(ids, vec![0, 1, 2, 3, 4]);
    let bobs = query_addr_otcs(&s, at(200), &"bob".to_string(), false, Some(10), Some(3)).otcs;
    let ids: Vec<u32> = bobs.iter().map(|(id, _)| *id).collect();
    assert_eq!(ids, vec![11, 13, 15]);
}

#[test]
fn single_offer_and_config_queries() {
    let mut s = store();
    assert_eq!(query_otc(&s, 0).unwrap_err(), ContractError::NotFound);
    assert!(query(&s, at(1), QueryMsg::GetOtc { otc_id: 0 }).is_err());
    let id = simple_offer(&mut s, "alice", None);
    assert_eq!(query_otc(&s, id).unwrap(), s.otcs[0].1);
    let cfg = query_config(&s);
    assert_eq!((cfg.taker_fee, cfg.maker_fee, cfg.active, cfg.admin.as_str()), (2, 1, true, "admin"));
}

#[test]
fn create_through_execute_uses_attached_funds() {
    let mut s = store();
    let msg = ExecuteMsg::Create(NewOTC {
        ask_balances: vec![Balance::Native(vec![coin(10, "y")])],
        expires: None,
        user_info: None,
        description: None,
    });
    let res = execute(&mut s, at(1), &"alice".to_string(), vec![coin(10_000, "x")], msg).unwrap();
    assert_eq!(res.data.unwrap().otc.sell_asset, AssetId::Native("x".to_string()));
}
