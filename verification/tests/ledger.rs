use dextr::AccountId;
use dextr::DextrStorage;
use dextr::MatchError;
use dextr::RateDirection;

fn admin() -> AccountId {
    AccountId { value: 0x01 }
}

fn token() -> AccountId {
    AccountId { value: 0x0A }
}

fn alice() -> AccountId {
    AccountId { value: 0xAC }
}

fn bob() -> AccountId {
    AccountId { value: 0xB0 }
}

#[test]
fn test_order_book() {
    let admin = admin();
    let token = token();

    let mut contract = DextrStorage::new(admin);

    let id = contract.create_order(token, 1_000_000_000_000, 7, alice()).id;

    let ord = contract.get_order(id).expect("order must exist");
    assert_eq!(ord.id, id);
    assert_eq!(ord.token, token);
    assert_eq!(ord.amount, 1_000_000_000_000);
    assert_eq!(ord.creator, alice());
}

#[test]
fn mint_and_liquidity() {
    let mut dex = DextrStorage::new(admin());
    let (usdc, weth) = dex.token_addresses();

    assert_eq!(dex.mint_usdc(300_000_000, alice()), 300_000_000);
    assert_eq!(
        dex.mint_weth(2_000_000_000_000_000_000, alice()),
        2_000_000_000_000_000_000
    );

    let lid1 = dex.create_liquidity(usdc, 200_000_000, alice()).unwrap().position_id();
    let l1 = dex.my_liquidity(usdc, alice()).unwrap();
    assert_eq!(l1.id, lid1);
    assert_eq!(l1.amount, 200_000_000);
    assert_eq!(dex.my_balance(usdc, alice()), 100_000_000);

    let lid2 = dex.create_liquidity(usdc, 50_000_000, alice()).unwrap().position_id();
    let l2 = dex.my_liquidity(usdc, alice()).unwrap();
    assert_eq!(lid1, lid2);
    assert_eq!(l2.amount, 250_000_000);
    assert_eq!(dex.my_balance(usdc, alice()), 50_000_000);

    let lid3 = dex.create_liquidity(weth, 1_500_000_000_000_000_000, alice()).unwrap().position_id();
    let l3 = dex.my_liquidity(weth, alice()).unwrap();
    assert_eq!(l3.id, lid3);
    assert_eq!(l3.amount, 1_500_000_000_000_000_000);
    assert_eq!(dex.my_balance(weth, alice()), 500_000_000_000_000_000);
}

#[test]
fn match_order_weth_to_usdc_success() {
    let mut dex = DextrStorage::new(admin());
    let (usdc, weth) = dex.token_addresses();

    let lp = alice();
    let taker = bob();

    dex.mint_usdc(1_000_000, lp);
    dex.mint_weth(10, lp);
    dex.create_liquidity(usdc, 1_000_000, lp).unwrap();
    dex.create_liquidity(weth, 1, lp).unwrap();

    dex.set_oracle_usdc_per_weth(200, admin()).unwrap();
    dex.set_oracle_weth_per_usdc(1, admin()).unwrap();

    dex.mint_weth(3, taker);
    let oid = dex.create_order(weth, 2, 0, taker).id;

    let ev = dex.admin_match_order(oid, lp, admin()).unwrap();
    assert_eq!(ev.amount_in, 2);
    assert_eq!(ev.amount_out, 400);
    assert_eq!(ev.price_used, 200);
    assert_eq!(ev.seller, taker);

    assert_eq!(dex.my_balance(weth, taker), 1);
    assert_eq!(dex.my_balance(usdc, taker), 400);

    let lp_usdc = dex.get_liquidity(lp, usdc).unwrap().amount;
    let lp_weth = dex.get_liquidity(lp, weth).unwrap().amount;
    assert_eq!(lp_usdc, 1_000_000 - 400);
    assert_eq!(lp_weth, 1 + 2);

    let ord = dex.get_order(oid).unwrap();
    assert_eq!(ord.status, false);
}

#[test]
fn match_order_panics_when_not_admin() {
    let mut dex = DextrStorage::new(admin());
    let (_usdc, weth) = dex.token_addresses();

    dex.mint_weth(2, bob());
    let oid = dex.create_order(weth, 2, 0, bob()).id;

    let res = dex.admin_match_order(oid, alice(), bob());
    assert_eq!(res, Err(MatchError::NotAuthorized));
}

#[test]
fn match_order_panics_when_lp_token_in_pool_missing() {
    let mut dex = DextrStorage::new(admin());
    let (usdc, weth) = dex.token_addresses();
    let lp = alice();

    dex.mint_usdc(1_000_000, lp);
    dex.create_liquidity(usdc, 1_000_000, lp).unwrap();

    dex.set_oracle_usdc_per_weth(200, admin()).unwrap();

    dex.mint_weth(2, bob());
    let oid = dex.create_order(weth, 2, 0, bob()).id;

    let res = dex.admin_match_order(oid, lp, admin());
    assert_eq!(res, Err(MatchError::NotFound));
    // nothing moved
    assert_eq!(dex.my_balance(weth, bob()), 2);
    assert_eq!(dex.get_liquidity(lp, usdc).unwrap().amount, 1_000_000);
    assert!(dex.get_order(oid).unwrap().status);
}

#[test]
fn match_order_panics_when_lp_liquidity_insufficient() {
    let mut dex = DextrStorage::new(admin());
    let (usdc, weth) = dex.token_addresses();
    let lp = alice();

    dex.mint_usdc(100, lp);
    dex.mint_weth(1, lp);
    dex.create_liquidity(usdc, 100, lp).unwrap();
    dex.create_liquidity(weth, 1, lp).unwrap();

    dex.set_oracle_usdc_per_weth(200, admin()).unwrap();

    dex.mint_weth(2, bob());
    let oid = dex.create_order(weth, 2, 0, bob()).id;

    let res = dex.admin_match_order(oid, lp, admin());
    assert_eq!(res, Err(MatchError::InsufficientLiquidity));
    // every balance and position is as it was before the attempt
    assert_eq!(dex.my_balance(weth, bob()), 2);
    assert_eq!(dex.my_balance(usdc, bob()), 0);
    assert_eq!(dex.get_liquidity(lp, usdc).unwrap().amount, 100);
    assert_eq!(dex.get_liquidity(lp, weth).unwrap().amount, 1);
    assert!(dex.get_order(oid).unwrap().status);
}

#[test]
fn match_order_panics_when_oracle_not_set_for_weth_side() {
    let mut dex = DextrStorage::new(admin());
    let (usdc, weth) = dex.token_addresses();
    let lp = alice();

    dex.mint_usdc(1_000_000, lp);
    dex.mint_weth(5, lp);
    dex.create_liquidity(usdc, 1_000_000, lp).unwrap();
    dex.create_liquidity(weth, 1, lp).unwrap();

    dex.mint_weth(2, bob());
    let oid = dex.create_order(weth, 2, 0, bob()).id;

    let res = dex.admin_match_order(oid, lp, admin());
    assert_eq!(res, Err(MatchError::OracleUnset(RateDirection::UsdcPerWeth)));
}
