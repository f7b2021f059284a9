//! Orders and their translation into the execution backend's request.
use vstd::prelude::*;
use crate::fixed::{amount_text, fixed6, ratio_text, scaled_ratio};

verus! {

/// The side of an order.
#[derive(Clone, Copy, Debug, PartialEq, Eq, Structural)]
pub enum Side {
    Buy,
    Sell,
}

/// An order in on-chain units: amounts are in millionths.
#[derive(Clone, Copy, Debug)]
pub struct Order {
    /// The market position, as a 256-bit big-endian integer.
    pub token_id: [u8; 32],
    pub side: Side,
    pub maker_amount: u128,
    pub taker_amount: u128,
}

/// Why an order cannot be translated.
#[derive(Clone, Copy, Debug, PartialEq, Eq, Structural)]
pub enum OrderError {
    /// The amount that the price is divided by is zero.
    DegenerateOrder,
}

/// An order's price and size as six-decimal text.
#[derive(Debug)]
pub struct PriceSize {
    pub price: String,
    pub size: String,
}

/// The request body that the execution backend takes.
#[derive(Debug)]
pub struct OrderRequest {
    pub token_id: String,
    pub side: String,
    pub price: String,
    pub size: String,
    pub order_type: String,
}

/// The lower-case hex digit of a nibble.
pub open spec fn hex_digit(n: nat) -> char {
    if n < 10 {
        crate::fixed::digit_char(n)
    } else if n == 10 {
        'a'
    } else if n == 11 {
        'b'
    } else if n == 12 {
        'c'
    } else if n == 13 {
        'd'
    } else if n == 14 {
        'e'
    } else {
        'f'
    }
}

/// Two lower-case hex digits per byte, high nibble first.
pub open spec fn hex_of(b: Seq<u8>) -> Seq<char>
    decreases b.len(),
{
    if b.len() == 0 {
        Seq::empty()
    } else {
        hex_of(b.drop_last()) + seq![
            hex_digit((b.last() / 16) as nat),
            hex_digit((b.last() % 16) as nat),
        ]
    }
}

/// `s` without its leading `'0'` characters.
pub open spec fn trim_zeros(s: Seq<char>) -> Seq<char>
    decreases s.len(),
{
    if s.len() > 0 && s[0] == '0' {
        trim_zeros(s.drop_first())
    } else {
        s
    }
}

/// The `0x`-prefixed lower-case hex text of a big-endian integer, without
/// leading zeros (`0x0` for zero).
pub open spec fn hex_integer(b: Seq<u8>) -> Seq<char> {
    let t = trim_zeros(hex_of(b));
    seq!['0', 'x'] + if t.len() == 0 {
        seq!['0']
    } else {
        t
    }
}

/// What an order's price is divided by: the taker amount of a buy, the maker
/// amount of a sell. It is also the order's size.
pub open spec fn divisor(o: Order) -> u128 {
    match o.side {
        Side::Buy => o.taker_amount,
        Side::Sell => o.maker_amount,
    }
}

/// The other amount: what a buy pays, or what a sell receives.
pub open spec fn dividend(o: Order) -> u128 {
    match o.side {
        Side::Buy => o.maker_amount,
        Side::Sell => o.taker_amount,
    }
}

/// The order's price in millionths, rounded to the nearest millionth.
pub open spec fn price_of(o: Order) -> nat {
    scaled_ratio(dividend(o) as nat, divisor(o) as nat)
}

/// The side as the backend writes it.
pub open spec fn side_text(s: Side) -> Seq<char> {
    match s {
        Side::Buy => seq!['B', 'U', 'Y'],
        Side::Sell => seq!['S', 'E', 'L', 'L'],
    }
}

/// `req` is the fill-or-kill request for `o`.
pub open spec fn is_request_for(req: OrderRequest, o: Order) -> bool {
    &&& req.token_id@ == hex_integer(o.token_id@)
    &&& req.side@ == side_text(o.side)
    &&& req.price@ == fixed6(price_of(o))
    &&& req.size@ == fixed6(divisor(o) as nat)
    &&& req.order_type@ == seq!['F', 'O', 'K']
}

/// Relies on `hex::encode`: two lower-case hex digits for each byte, in order.
#[verifier::external_body]
fn hex_encode(b: &[u8]) -> (r: String)
    ensures
        r@ == hex_of(b@),
{
    hex::encode(b)
}

proof fn lemma_trim_zeros_skip(s: Seq<char>, i: int)
    requires
        0 <= i < s.len(),
        s[i] == '0',
    ensures
        trim_zeros(s.subrange(i, s.len() as int)) == trim_zeros(
            s.subrange(i + 1, s.len() as int),
        ),
{
    assert(s.subrange(i, s.len() as int).drop_first() =~= s.subrange(i + 1, s.len() as int));
}

/// The token id as `0x`-prefixed hex without leading zeros.
pub fn token_id_text(token_id: &[u8; 32]) -> (r: String)
    ensures
        r@ == hex_integer(token_id@),
{
    let digits = hex_encode(token_id.as_slice());
    let text = digits.as_str();
    let n = text.unicode_len();
    let mut i: usize = 0;
    assert(text@.subrange(0, n as int) =~= text@);
    while i < n && text.get_char(i) == '0'
        invariant
            n == text@.len(),
            i <= n,
            trim_zeros(text@) == trim_zeros(text@.subrange(i as int, n as int)),
        decreases n - i,
    {
        proof {
            lemma_trim_zeros_skip(text@, i as int);
        }
        i = i + 1;
    }
    let mut r = String::from_str("0x");
    proof {
        reveal_strlit("0x");
        reveal_strlit("0");
        assert(text@ =~= digits@);
        assert(text@.subrange(n as int, n as int) =~= Seq::<char>::empty());
    }
    if i == n {
        r.append("0");
    } else {
        let rest = text.substring_char(i, n);
        r.append(rest);
    }
    assert(r@ =~= hex_integer(token_id@));
    r
}

/// The order's price and size: a buy is priced at maker / taker and sized by
/// its taker amount, a sell at taker / maker and sized by its maker amount.
pub fn translate(order: &Order) -> (r: Result<PriceSize, OrderError>)
    ensures
        r is Err <==> divisor(*order) == 0,
        r matches Err(e) ==> e == OrderError::DegenerateOrder,
        r matches Ok(ps) ==> ps.price@ == fixed6(price_of(*order)) && ps.size@ == fixed6(
            divisor(*order) as nat,
        ),
{
    let (num, den) = match order.side {
        Side::Buy => (order.maker_amount, order.taker_amount),
        Side::Sell => (order.taker_amount, order.maker_amount),
    };
    if den == 0 {
        return Err(OrderError::DegenerateOrder);
    }
    Ok(PriceSize { price: ratio_text(num, den), size: amount_text(den) })
}

/// The backend's request for an order, as a fill-or-kill order.
pub fn build_request(order: &Order) -> (r: Result<OrderRequest, OrderError>)
    ensures
        divisor(*order) == 0 <==> r is Err,
        r matches Err(e) ==> e == OrderError::DegenerateOrder,
        r matches Ok(req) ==> is_request_for(req, *order),
{
    let ps = match translate(order) {
        Ok(ps) => ps,
        Err(e) => return Err(e),
    };
    proof {
        reveal_strlit("BUY");
        reveal_strlit("SELL");
        reveal_strlit("FOK");
    }
    let side = match order.side {
        Side::Buy => String::from_str("BUY"),
        Side::Sell => String::from_str("SELL"),
    };
    let order_type = String::from_str("FOK");
    assert(order_type@ =~= seq!['F', 'O', 'K']);
    assert(side@ =~= side_text(order.side));
    Ok(
        OrderRequest {
            token_id: token_id_text(&order.token_id),
            side,
            price: ps.price,
            size: ps.size,
            order_type,
        },
    )
}

} // verus!
