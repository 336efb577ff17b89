use curve_launchpad::curve::{Curve, CurveType};
use curve_launchpad::error::CustomError;
use curve_launchpad::identity::{authorize, Address};
use curve_launchpad::launch::{
    buy, buy_tokens, create, initialize, initialize_launch, sell, sell_tokens, set_params,
    withdraw, LaunchInitialized, Launchpad, Payment, TokensPurchased, TokensSold,
};

fn address(tag: u8) -> Address {
    let mut bytes = [0u8; 32];
    bytes[31] = tag;
    Address { bytes }
}

/// A linear pool that holds 1_000_000 of the quote asset and 50_000 of the base asset.
fn pool() -> Curve {
    let mut c = Curve::new();
    c.initialize(CurveType::Linear, 1_000_000, 100_000_000, [0, 0, 0]).unwrap();
    c.update_reserves(-99_000_000, 50_000).unwrap();
    c
}

fn launchpad() -> Launchpad {
    Launchpad {
        authority: address(1),
        mint: address(2),
        curve: pool(),
        fee_recipient: address(3),
        withdraw_authority: address(4),
        fee_basis_points: 100,
        bump: 254,
    }
}

#[test]
fn addresses_compare_byte_for_byte() {
    assert!(address(1).same_as(&address(1)));
    assert!(!address(1).same_as(&address(2)));
    let mut first = address(1);
    first.bytes[0] = 9;
    assert!(!first.same_as(&address(1)));
    assert!(first.same_as(&first.clone()));
}

#[test]
fn authorize_lets_only_the_authority_through() {
    assert_eq!(authorize(&address(7), &address(7)), Ok(()));
    assert_eq!(authorize(&address(7), &address(8)), Err(CustomError::UnauthorizedAccess));
}

#[test]
fn default_curve_is_the_new_curve() {
    assert_eq!(Curve::default(), Curve::new());
}

#[test]
fn initialize_launch_creates_the_curve() {
    let (launch, record) = initialize_launch(
        address(1),
        address(2),
        255,
        5_000,
        1_000_000,
        100_000_000,
        CurveType::Custom,
        [1, 2, 3],
        77,
    )
    .unwrap();
    assert_eq!(launch.creator, address(1));
    assert_eq!(launch.mint, address(2));
    assert_eq!(launch.total_supply, 5_000);
    assert!(launch.is_initialized);
    assert_eq!(launch.bump, 255);
    let mut expected = Curve::new();
    expected.initialize(CurveType::Custom, 1_000_000, 100_000_000, [1, 2, 3]).unwrap();
    assert_eq!(launch.curve, expected);
    assert_eq!(
        record,
        LaunchInitialized { creator: address(1), mint: address(2), total_supply: 5_000, timestamp: 77 }
    );
}

#[test]
fn initialize_launch_rejects_a_zero_reserve() {
    let r = initialize_launch(address(1), address(2), 0, 5, 0, 1, CurveType::Linear, [0, 0, 0], 0);
    assert_eq!(r.err(), Some(CustomError::InvalidCurveParameters));
    let r = initialize_launch(address(1), address(2), 0, 5, 1, 0, CurveType::Linear, [0, 0, 0], 0);
    assert_eq!(r.err(), Some(CustomError::InvalidCurveParameters));
}

#[test]
fn buy_commits_the_trade() {
    let mut c = pool();
    let r = buy(&mut c, address(9), 10_000, 1_000_000, 77);
    assert_eq!(
        r,
        Ok(TokensPurchased { trader: address(9), token_amount: 10_000, sol_amount: 1_000_000, timestamp: 77 })
    );
    assert_eq!(c.real_quote_reserve, 2_000_000);
    assert_eq!(c.real_base_reserve, 40_000);
}

#[test]
fn buy_fails_above_the_stated_cost() {
    let mut c = pool();
    assert_eq!(buy(&mut c, address(9), 10_000, 999_999, 77), Err(CustomError::InsufficientBalance));
    assert_eq!(c, pool());
}

#[test]
fn buy_fails_for_nothing() {
    let mut c = pool();
    assert_eq!(buy(&mut c, address(9), 0, 999_999, 77), Err(CustomError::InvalidAmount));
    assert_eq!(c, pool());
}

#[test]
fn buy_fails_where_the_pool_lacks_the_tokens() {
    let mut c = pool();
    assert_eq!(buy(&mut c, address(9), 50_001, u64::MAX, 77), Err(CustomError::CalculationError));
    assert_eq!(c, pool());
    assert!(buy(&mut c, address(9), 50_000, u64::MAX, 77).is_ok());
    assert_eq!(c.real_base_reserve, 0);
}

#[test]
fn buy_fails_where_an_amount_has_no_signed_form() {
    let mut c = Curve::new();
    c.initialize(CurveType::Linear, u64::MAX, 1, [0, 0, 0]).unwrap();
    c.update_reserves(0, i64::MAX).unwrap();
    c.update_reserves(0, i64::MAX).unwrap();
    let before = c;
    // the price is 0 and the pool holds the tokens, but the amount exceeds i64::MAX
    assert_eq!(
        buy(&mut c, address(9), i64::MAX as u64 + 1, 10, 77),
        Err(CustomError::CalculationError)
    );
    assert_eq!(c, before);
    assert!(buy(&mut c, address(9), i64::MAX as u64, 10, 77).is_ok());
}

#[test]
fn buy_tokens_holds_the_price_against_the_balance() {
    let mut c = pool();
    assert_eq!(
        buy_tokens(&mut c, address(9), 10_000, 999_999, 77),
        Err(CustomError::InsufficientBalance)
    );
    assert_eq!(c, pool());
    assert_eq!(
        buy_tokens(&mut c, address(9), 10_000, 1_000_000, 77),
        Ok(TokensPurchased { trader: address(9), token_amount: 10_000, sol_amount: 1_000_000, timestamp: 77 })
    );
    assert_eq!(c.real_quote_reserve, 2_000_000);
    assert_eq!(c.real_base_reserve, 40_000);
}

#[test]
fn sell_commits_the_trade_and_pays() {
    let mut c = pool();
    let r = sell(&mut c, address(9), 5_000, 500_000, 3_000_000, 10, 77);
    assert_eq!(
        r,
        Ok((
            TokensSold { trader: address(9), token_amount: 5_000, sol_amount: 500_000, timestamp: 77 },
            Payment { amount: 500_000, source_balance: 2_500_000, destination_balance: 500_010 },
        ))
    );
    assert_eq!(c.real_quote_reserve, 500_000);
    assert_eq!(c.real_base_reserve, 55_000);
}

#[test]
fn sell_fails_below_the_stated_output() {
    let mut c = pool();
    assert_eq!(
        sell(&mut c, address(9), 5_000, 500_001, 3_000_000, 10, 77),
        Err(CustomError::InsufficientBalance)
    );
    assert_eq!(c, pool());
}

#[test]
fn sell_pays_no_more_than_the_reserve() {
    let mut c = pool();
    // the formula gives 2_000_000; the pool holds 1_000_000
    let (record, payment) = sell(&mut c, address(9), 20_000, 0, 3_000_000, 0, 77).unwrap();
    assert_eq!(record.sol_amount, 1_000_000);
    assert_eq!(payment.amount, 1_000_000);
    assert_eq!(c.real_quote_reserve, 0);
}

#[test]
fn sell_fails_where_the_vault_cannot_pay() {
    let mut c = pool();
    assert_eq!(
        sell(&mut c, address(9), 5_000, 0, 499_999, 10, 77),
        Err(CustomError::CalculationError)
    );
    assert_eq!(c, pool());
}

#[test]
fn sell_fails_where_the_trader_balance_overflows() {
    let mut c = pool();
    assert_eq!(
        sell(&mut c, address(9), 5_000, 0, 500_000, u64::MAX, 77),
        Err(CustomError::CalculationError)
    );
    assert_eq!(c, pool());
}

#[test]
fn sell_tokens_holds_the_proceeds_against_the_vault() {
    let mut c = pool();
    assert_eq!(
        sell_tokens(&mut c, address(9), 5_000, 499_999, 10, 77),
        Err(CustomError::InsufficientBalance)
    );
    assert_eq!(c, pool());
    assert_eq!(
        sell_tokens(&mut c, address(9), 5_000, 500_000, 10, 77),
        Ok((
            TokensSold { trader: address(9), token_amount: 5_000, sol_amount: 500_000, timestamp: 77 },
            Payment { amount: 500_000, source_balance: 0, destination_balance: 500_010 },
        ))
    );
    assert_eq!(c.real_quote_reserve, 500_000);
    assert_eq!(c.real_base_reserve, 55_000);
}

#[test]
fn sell_tokens_fails_for_nothing() {
    let mut c = pool();
    assert_eq!(sell_tokens(&mut c, address(9), 0, 1, 1, 77), Err(CustomError::InvalidAmount));
}

#[test]
fn withdraw_empties_the_quote_reserve() {
    let mut l = launchpad();
    let r = withdraw(&mut l, &address(1), 1_500_000, 7);
    assert_eq!(
        r,
        Ok(Payment { amount: 1_000_000, source_balance: 500_000, destination_balance: 1_000_007 })
    );
    assert_eq!(l.curve.real_quote_reserve, 0);
    assert_eq!(l.curve.real_base_reserve, 50_000);
    assert_eq!(l.authority, address(1));
}

#[test]
fn withdraw_is_for_the_authority_only() {
    let mut l = launchpad();
    assert_eq!(
        withdraw(&mut l, &address(4), 1_500_000, 7),
        Err(CustomError::UnauthorizedAccess)
    );
    assert_eq!(l, launchpad());
}

#[test]
fn withdraw_fails_where_the_vault_holds_too_little() {
    let mut l = launchpad();
    assert_eq!(withdraw(&mut l, &address(1), 999_999, 7), Err(CustomError::CalculationError));
    assert_eq!(l, launchpad());
    assert_eq!(
        withdraw(&mut l, &address(1), 1_000_000, u64::MAX),
        Err(CustomError::CalculationError)
    );
    assert_eq!(l, launchpad());
}

#[test]
fn set_params_replaces_the_curve() {
    let mut l = launchpad();
    assert_eq!(set_params(&mut l, &address(1), address(5), address(6), 10, 20, 30, 250), Ok(()));
    assert_eq!(l.curve.curve_type, CurveType::Linear);
    assert_eq!(l.curve.virtual_base_reserve, 10);
    assert_eq!(l.curve.virtual_quote_reserve, 20);
    assert_eq!(l.curve.real_base_reserve, 30);
    assert_eq!(l.curve.real_quote_reserve, 0);
    assert_eq!(l.curve.initial_virtual_quote_reserve, 20);
    assert_eq!(l.curve.shape_params, [0, 0, 0]);
    assert_eq!(l.fee_recipient, address(5));
    assert_eq!(l.withdraw_authority, address(6));
    assert_eq!(l.fee_basis_points, 250);
    assert_eq!(l.authority, address(1));
    assert_eq!(l.mint, address(2));
    assert_eq!(l.bump, 254);
}

#[test]
fn set_params_is_for_the_authority_only() {
    let mut l = launchpad();
    assert_eq!(
        set_params(&mut l, &address(3), address(5), address(6), 10, 20, 30, 250),
        Err(CustomError::UnauthorizedAccess)
    );
    assert_eq!(l, launchpad());
}

#[test]
fn initialize_names_the_authority() {
    let mut l = launchpad();
    initialize(&mut l, address(42));
    assert_eq!(l.authority, address(42));
    assert_eq!(l.curve, pool());
    assert_eq!(l.fee_recipient, address(3));
}

#[test]
fn create_keeps_the_three_strings() {
    let m = create("Coin".to_string(), "CN".to_string(), "https://example.org/c".to_string());
    assert_eq!(m.name, "Coin");
    assert_eq!(m.symbol, "CN");
    assert_eq!(m.uri, "https://example.org/c");
}

#[test]
fn set_params_needs_positive_virtual_reserves() {
    let mut l = launchpad();
    assert_eq!(
        set_params(&mut l, &address(1), address(5), address(6), 0, 20, 30, 250),
        Err(CustomError::InvalidCurveParameters)
    );
    assert_eq!(
        set_params(&mut l, &address(1), address(5), address(6), 10, 0, 30, 250),
        Err(CustomError::InvalidCurveParameters)
    );
    assert_eq!(l, launchpad());
    // the caller is asked for first
    assert_eq!(
        set_params(&mut l, &address(2), address(5), address(6), 0, 0, 30, 250),
        Err(CustomError::UnauthorizedAccess)
    );
}
