//! The trading client: readiness checks and order submission for one wallet.
use vstd::prelude::*;
use crate::execution::SubmitError;
use crate::order::{build_request, divisor, is_request_for, Order, OrderError, OrderRequest};
use crate::readiness::{ChainAction, ReadinessCheck, Stage};

verus! {

/// Why a client cannot be made or cannot serve a call.
#[derive(Clone, Copy, Debug, PartialEq, Eq, Structural)]
pub enum ClientError {
    /// The proxy wallet is not a 20-byte hex address.
    InvalidAddress,
    /// Order books are served elsewhere.
    OrderbookUnsupported,
    /// Prices are discovered elsewhere.
    PricingUnsupported,
}

/// What to do with an order.
#[derive(Debug)]
pub enum Submission {
    /// Nothing is sent: the client is read-only. Holds the request that would
    /// have been sent, where the order can be priced.
    Simulated { request: Option<OrderRequest> },
    /// POST `request` as JSON to `url`, with a ten-second timeout.
    Post { url: String, request: OrderRequest },
}

/// A trading client for one proxy wallet.
#[derive(Debug)]
pub struct ClobClient {
    proxy_wallet: [u8; 20],
    read_only: bool,
    python_executor_url: String,
}

/// A space, carriage return, line feed or tab, which an address may hold
/// anywhere.
pub open spec fn is_blank(c: char) -> bool {
    c == ' ' || c == '\r' || c == '\n' || c == '\t'
}

/// The value of a hex digit of either case.
pub open spec fn hex_value(c: char) -> Option<nat> {
    if '0' <= c <= '9' {
        Some((c as nat - '0' as nat) as nat)
    } else if 'a' <= c <= 'f' {
        Some((c as nat - 'a' as nat + 10) as nat)
    } else if 'A' <= c <= 'F' {
        Some((c as nat - 'A' as nat + 10) as nat)
    } else {
        None
    }
}

/// The hex digits of an address text: one leading `0x` dropped, and blanks.
pub open spec fn address_digits(s: Seq<char>) -> Seq<char> {
    let body = if s.len() >= 2 && s[0] == '0' && s[1] == 'x' {
        s.subrange(2, s.len() as int)
    } else {
        s
    };
    body.filter(|c: char| !is_blank(c))
}

/// Whether `s` is an address: forty hex digits.
pub open spec fn is_address_text(s: Seq<char>) -> bool {
    let d = address_digits(s);
    d.len() == 40 && forall|i: int| 0 <= i < 40 ==> (#[trigger] hex_value(d[i])) is Some
}

/// The address that `s` spells, byte by byte, high digit first.
pub open spec fn address_of(s: Seq<char>, a: Seq<u8>) -> bool {
    let d = address_digits(s);
    a.len() == 20 && forall|j: int|
        0 <= j < 20 ==> #[trigger] a[j] == hex_value(d[2 * j])->0 * 16 + hex_value(d[2 * j + 1])->0
}

/// The path that orders are posted to under the backend's base URL.
pub open spec fn order_url(base: Seq<char>) -> Seq<char> {
    base + "/order"@
}

/// Relies on `ethers::types::Address::from_str` (fixed-hash's `FromStr`):
/// drops one leading `0x`, skips blanks, and takes exactly forty hex digits.
#[verifier::external_body]
fn parse_address(s: &str) -> (r: Option<[u8; 20]>)
    ensures
        r is Some <==> is_address_text(s@),
        r matches Some(a) ==> address_of(s@, a@),
{
    <ethers::types::Address as std::str::FromStr>::from_str(s).ok().map(|a| a.0)
}

impl ClobClient {
    /// A client for the proxy wallet at `proxy_wallet`, which simulates orders
    /// when `read_only` holds and otherwise posts them to the backend at
    /// `python_executor_url`.
    pub fn new(proxy_wallet: &str, read_only: bool, python_executor_url: String) -> (r: Result<
        ClobClient,
        ClientError,
    >)
        ensures
            r is Err <==> !is_address_text(proxy_wallet@),
            r matches Err(e) ==> e == ClientError::InvalidAddress,
            r matches Ok(c) ==> {
                &&& address_of(proxy_wallet@, c.proxy_wallet()@)
                &&& c.read_only() == read_only
                &&& c.executor_url() == python_executor_url@
            },
    {
        match parse_address(proxy_wallet) {
            Some(a) => Ok(ClobClient { proxy_wallet: a, read_only, python_executor_url }),
            None => Err(ClientError::InvalidAddress),
        }
    }

    /// The wallet whose balance and approvals are checked.
    pub closed spec fn proxy_wallet(&self) -> [u8; 20] {
        self.proxy_wallet
    }

    /// Whether orders are simulated instead of sent.
    pub closed spec fn read_only(&self) -> bool {
        self.read_only
    }

    /// The execution backend's base URL.
    pub closed spec fn executor_url(&self) -> Seq<char> {
        self.python_executor_url@
    }

    /// The wallet whose balance and approvals are checked.
    pub fn proxy_address(&self) -> (r: [u8; 20])
        ensures
            r == self.proxy_wallet(),
    {
        self.proxy_wallet
    }

    /// Whether orders are simulated instead of sent.
    pub fn is_read_only(&self) -> (r: bool)
        ensures
            r == self.read_only(),
    {
        self.read_only
    }

    /// Begins a check that the wallet holds `required_usdc` millionths of
    /// collateral and has granted the exchange what trading needs. The caller
    /// runs it by performing each action and handing back what came of it.
    pub fn ensure_trading_ready(&self, required_usdc: u128) -> (r: (ReadinessCheck, ChainAction))
        ensures
            r.0.required == required_usdc,
            r.0.stage == Stage::AwaitBalance,
            r.1 is ReadBalance,
    {
        ReadinessCheck::start(required_usdc)
    }

    /// What submitting `order` takes. A read-only client simulates every
    /// order and sends nothing. Otherwise the order is priced and posted to
    /// the backend's `/order` path; one that cannot be priced fails with
    /// `DegenerateOrder` before anything is sent.
    pub fn submit_order(&self, order: &Order) -> (r: Result<Submission, SubmitError>)
        ensures
            self.read_only() ==> (r matches Ok(Submission::Simulated { request }) && (
            request is Some <==> divisor(*order) != 0) && (request matches Some(req)
                ==> is_request_for(req, *order))),
            !self.read_only() ==> (r is Err <==> divisor(*order) == 0),
            !self.read_only() ==> (r matches Err(e) ==> e is DegenerateOrder),
            !self.read_only() ==> (r matches Ok(s) ==> (s matches Submission::Post { url, request }
                && url@ == order_url(self.executor_url()) && is_request_for(request, *order))),
    {
        let built = build_request(order);
        if self.read_only {
            let request = match built {
                Ok(req) => Some(req),
                Err(_) => None,
            };
            return Ok(Submission::Simulated { request });
        }
        match built {
            Ok(request) => {
                let mut url = self.python_executor_url.clone();
                url.append("/order");
                Ok(Submission::Post { url, request })
            },
            Err(OrderError::DegenerateOrder) => Err(SubmitError::DegenerateOrder),
        }
    }

    /// Order books are not served by this client: always fails with
    /// `OrderbookUnsupported`.
    pub fn get_orderbook(&self, token_id: &str) -> (r: Result<(), ClientError>)
        ensures
            r == Err::<(), ClientError>(ClientError::OrderbookUnsupported),
    {
        Err(ClientError::OrderbookUnsupported)
    }

    /// Prices are not discovered by this client: always fails with
    /// `PricingUnsupported`.
    pub fn best_price(&self, side: u8) -> (r: Result<(), ClientError>)
        ensures
            r == Err::<(), ClientError>(ClientError::PricingUnsupported),
    {
        Err(ClientError::PricingUnsupported)
    }
}

} // verus!
