use clob_client::client::{ClientError, ClobClient, Submission};
use clob_client::execution::{interpret_reply, OrderResponse, SubmitError};
use clob_client::order::{Order, Side};

const EXCHANGE: &str = "0x4bFb41d5B3570DeFd03C39a9A4D8dE6Bd8B8982E";

fn order(side: Side, maker_amount: u128, taker_amount: u128) -> Order {
    let mut token_id = [0u8; 32];
    token_id[31] = 0x2a;
    Order { token_id, side, maker_amount, taker_amount }
}

fn reply(success: bool, order_id: Option<&str>, error: Option<&str>) -> Option<OrderResponse> {
    Some(OrderResponse {
        success,
        order_id: order_id.map(|s| s.to_string()),
        error: error.map(|s| s.to_string()),
    })
}

#[test]
fn refused_order_reports_backend_reason() {
    let r = interpret_reply(200, String::new(), reply(false, None, Some("bad price")));
    match r {
        Err(SubmitError::OrderRejected { reason }) => assert_eq!(reason, "bad price"),
        other => panic!("unexpected {:?}", other),
    }
}

#[test]
fn refused_order_without_reason_is_unknown_error() {
    let r = interpret_reply(200, String::new(), reply(false, None, None));
    match r {
        Err(SubmitError::OrderRejected { reason }) => assert_eq!(reason, "Unknown error"),
        other => panic!("unexpected {:?}", other),
    }
}

#[test]
fn server_error_is_backend_rejection() {
    let r = interpret_reply(500, "internal error".to_string(), None);
    match r {
        Err(SubmitError::BackendRejected { status, body }) => {
            assert_eq!(status, 500);
            assert_eq!(body, "internal error");
        }
        other => panic!("unexpected {:?}", other),
    }
    assert!(matches!(
        interpret_reply(404, String::new(), reply(true, Some("x"), None)),
        Err(SubmitError::BackendRejected { status: 404, .. })
    ));
}

#[test]
fn accepted_order_returns_its_id() {
    let r = interpret_reply(200, String::new(), reply(true, Some("abc"), None));
    assert_eq!(r.unwrap(), Some("abc".to_string()));
    let r = interpret_reply(201, String::new(), reply(true, None, None));
    assert_eq!(r.unwrap(), None);
}

#[test]
fn unreadable_success_body_is_malformed() {
    let r = interpret_reply(200, "not json".to_string(), None);
    match r {
        Err(SubmitError::MalformedResponse { body }) => assert_eq!(body, "not json"),
        other => panic!("unexpected {:?}", other),
    }
}

#[test]
fn client_parses_proxy_address() {
    let c = ClobClient::new(EXCHANGE, false, "http://localhost:8765".to_string()).unwrap();
    let a = c.proxy_address();
    assert_eq!(a[0], 0x4b);
    assert_eq!(a[1], 0xfb);
    assert_eq!(a[19], 0x2e);
    assert!(!c.is_read_only());
    let bare = ClobClient::new(&EXCHANGE[2..], true, String::new()).unwrap();
    assert_eq!(bare.proxy_address(), a);
    assert!(bare.is_read_only());
}

#[test]
fn client_refuses_bad_address() {
    assert_eq!(
        ClobClient::new("0x1234", false, String::new()).unwrap_err(),
        ClientError::InvalidAddress
    );
    assert_eq!(
        ClobClient::new("0x4bFb41d5B3570DeFd03C39a9A4D8dE6Bd8B8982G", false, String::new())
            .unwrap_err(),
        ClientError::InvalidAddress
    );
    assert_eq!(ClobClient::new("", false, String::new()).unwrap_err(), ClientError::InvalidAddress);
}

#[test]
fn read_only_client_simulates_every_order() {
    let c = ClobClient::new(EXCHANGE, true, "http://localhost:8765".to_string()).unwrap();
    match c.submit_order(&order(Side::Buy, 150_000, 100_000)).unwrap() {
        Submission::Simulated { request: Some(req) } => assert_eq!(req.price, "1.500000"),
        other => panic!("unexpected {:?}", other),
    }
    match c.submit_order(&order(Side::Buy, 150_000, 0)).unwrap() {
        Submission::Simulated { request: None } => {}
        other => panic!("unexpected {:?}", other),
    }
}

#[test]
fn live_client_posts_to_order_path() {
    let c = ClobClient::new(EXCHANGE, false, "http://localhost:8765".to_string()).unwrap();
    match c.submit_order(&order(Side::Sell, 100_000, 120_000)).unwrap() {
        Submission::Post { url, request } => {
            assert_eq!(url, "http://localhost:8765/order");
            assert_eq!(request.token_id, "0x2a");
            assert_eq!(request.side, "SELL");
            assert_eq!(request.price, "1.200000");
            assert_eq!(request.size, "0.100000");
            assert_eq!(request.order_type, "FOK");
        }
        other => panic!("unexpected {:?}", other),
    }
    assert!(matches!(
        c.submit_order(&order(Side::Sell, 0, 120_000)),
        Err(SubmitError::DegenerateOrder)
    ));
}

#[test]
fn orderbook_and_pricing_are_unsupported() {
    let c = ClobClient::new(EXCHANGE, false, String::new()).unwrap();
    assert_eq!(c.get_orderbook("0x1").unwrap_err(), ClientError::OrderbookUnsupported);
    assert_eq!(c.best_price(0).unwrap_err(), ClientError::PricingUnsupported);
}
