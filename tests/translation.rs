use clob_client::fixed::{amount_text, fixed6_text, ratio_text};
use clob_client::order::{build_request, token_id_text, translate, Order, OrderError, Side};

fn order(side: Side, maker_amount: u128, taker_amount: u128) -> Order {
    let mut token_id = [0u8; 32];
    token_id[30] = 0x12;
    token_id[31] = 0x34;
    Order { token_id, side, maker_amount, taker_amount }
}

#[test]
fn buy_order_price_and_size() {
    let ps = translate(&order(Side::Buy, 150_000, 100_000)).unwrap();
    assert_eq!(ps.price, "1.500000");
    assert_eq!(ps.size, "0.100000");
}

#[test]
fn sell_order_price_and_size() {
    let ps = translate(&order(Side::Sell, 100_000, 120_000)).unwrap();
    assert_eq!(ps.price, "1.200000");
    assert_eq!(ps.size, "0.100000");
}

#[test]
fn buy_with_zero_taker_is_degenerate() {
    assert_eq!(translate(&order(Side::Buy, 150_000, 0)).unwrap_err(), OrderError::DegenerateOrder);
    assert_eq!(translate(&order(Side::Buy, 0, 0)).unwrap_err(), OrderError::DegenerateOrder);
}

#[test]
fn sell_with_zero_maker_is_degenerate() {
    assert_eq!(translate(&order(Side::Sell, 0, 120_000)).unwrap_err(), OrderError::DegenerateOrder);
    assert!(build_request(&order(Side::Sell, 0, 5)).is_err());
}

#[test]
fn zero_dividend_prices_at_zero() {
    let ps = translate(&order(Side::Buy, 0, 100_000)).unwrap();
    assert_eq!(ps.price, "0.000000");
    assert_eq!(ps.size, "0.100000");
}

#[test]
fn price_rounds_to_nearest_millionth() {
    assert_eq!(ratio_text(1, 3), "0.333333");
    assert_eq!(ratio_text(2, 3), "0.666667");
    assert_eq!(ratio_text(1, 2_000_000), "0.000001");
    assert_eq!(ratio_text(1, 2_000_001), "0.000000");
    assert_eq!(ratio_text(1_999_999, 2_000_000), "1.000000");
    assert_eq!(ratio_text(45, 100), "0.450000");
}

#[test]
fn price_of_largest_amounts() {
    assert_eq!(ratio_text(u128::MAX, 1), format!("{}.000000", u128::MAX));
    assert_eq!(ratio_text(u128::MAX, u128::MAX), "1.000000");
    assert_eq!(ratio_text(u128::MAX - 1, u128::MAX), "1.000000");
    assert_eq!(ratio_text(1, u128::MAX), "0.000000");
}

#[test]
fn amount_text_has_six_places() {
    assert_eq!(amount_text(0), "0.000000");
    assert_eq!(amount_text(1), "0.000001");
    assert_eq!(amount_text(1_000_000), "1.000000");
    assert_eq!(amount_text(123_456_789), "123.456789");
    assert_eq!(fixed6_text(7, 50), "7.000050");
}

#[test]
fn token_id_hex_drops_leading_zeros() {
    assert_eq!(token_id_text(&[0u8; 32]), "0x0");
    let mut id = [0u8; 32];
    id[30] = 0x01;
    id[31] = 0xab;
    assert_eq!(token_id_text(&id), "0x1ab");
    assert_eq!(token_id_text(&[0xffu8; 32]), format!("0x{}", "f".repeat(64)));
    let mut high = [0u8; 32];
    high[0] = 0x0c;
    assert_eq!(token_id_text(&high), format!("0xc{}", "0".repeat(62)));
}

#[test]
fn request_for_buy_and_sell() {
    let buy = build_request(&order(Side::Buy, 150_000, 100_000)).unwrap();
    assert_eq!(buy.token_id, "0x1234");
    assert_eq!(buy.side, "BUY");
    assert_eq!(buy.price, "1.500000");
    assert_eq!(buy.size, "0.100000");
    assert_eq!(buy.order_type, "FOK");
    let sell = build_request(&order(Side::Sell, 100_000, 120_000)).unwrap();
    assert_eq!(sell.side, "SELL");
    assert_eq!(sell.price, "1.200000");
    assert_eq!(sell.size, "0.100000");
}
