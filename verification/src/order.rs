//! Orders: the payload that an order note carries.
//!
//! An order is a random 128-bit identifier, an amount and a price. The
//! amount and the price are drawn from configured ranges; the identifier is
//! drawn from a second, independent generator. On the ledger the order is the
//! six-element input vector `[id_high, id_low, 0, 0, amount, price]`.

use rand::rngs::StdRng;
use rand::Rng;
use vstd::prelude::*;

verus! {

/// `rand::rngs::StdRng`, the generator that both draws are made from. Its state is
/// opaque here: nothing is claimed of which value a draw yields.
#[verifier::external_type_specification]
#[verifier::external_body]
pub struct ExStdRng(StdRng);

/// Number of elements in the input vector of an order note.
pub const ORDER_INPUT_LEN: usize = 6;

/// The least amount that the desk's market offers.
pub const MIN_AMOUNT: u64 = 10;

/// The greatest amount that the desk's market offers.
pub const MAX_AMOUNT: u64 = 100;

/// The least price that the desk's market offers.
pub const MIN_PRICE: u64 = 99_000;

/// The greatest price that the desk's market offers.
pub const MAX_PRICE: u64 = 150_000;

/// The seed of the generator that amounts and prices are drawn from. The
/// generator of identifiers is seeded by the operating system.
pub const OFFER_SEED: u64 = 43;

/// Two to the power 64: the weight of the high half of an identifier.
pub open spec fn half_weight() -> int {
    0x1_0000_0000_0000_0000
}

/// The number that the two 64-bit halves of an identifier stand for.
pub open spec fn join_id_spec(high: u64, low: u64) -> int {
    high as int * half_weight() + low as int
}

/// The high half of an identifier: its quotient by two to the power 64.
pub open spec fn id_high_spec(id: u128) -> int {
    id as int / half_weight()
}

/// The low half of an identifier: its remainder by two to the power 64.
pub open spec fn id_low_spec(id: u128) -> int {
    id as int % half_weight()
}

/// Splits a 128-bit identifier into its high and low 64-bit halves.
pub fn split_id(id: u128) -> (halves: (u64, u64))
    ensures
        halves.0 as int == id_high_spec(id),
        halves.1 as int == id_low_spec(id),
        join_id_spec(halves.0, halves.1) == id as int,
{
    let shifted: u128 = id >> 64;
    let masked: u128 = id & 0xffff_ffff_ffff_ffff;
    assert(shifted == id / 0x1_0000_0000_0000_0000) by (bit_vector)
        requires
            shifted == id >> 64,
    ;
    assert(masked == id % 0x1_0000_0000_0000_0000) by (bit_vector)
        requires
            masked == id & 0xffff_ffff_ffff_ffff,
    ;
    assert(shifted <= 0xffff_ffff_ffff_ffff) by (bit_vector)
        requires
            shifted == id >> 64,
    ;
    let high: u64 = shifted as u64;
    let low: u64 = masked as u64;
    (high, low)
}

/// Puts the two halves of an identifier together again.
pub fn join_id(high: u64, low: u64) -> (id: u128)
    ensures
        id as int == join_id_spec(high, low),
        id_high_spec(id) == high as int,
        id_low_spec(id) == low as int,
{
    let wide_high: u128 = high as u128;
    let wide_low: u128 = low as u128;
    let upper: u128 = wide_high << 64;
    assert(upper == wide_high * 0x1_0000_0000_0000_0000) by (bit_vector)
        requires
            upper == wide_high << 64,
            wide_high <= 0xffff_ffff_ffff_ffff,
    ;
    let id: u128 = upper + wide_low;
    id
}

/// Splitting an identifier and joining the halves gives the identifier back,
/// and joining two halves and splitting the result gives the halves back.
pub proof fn lemma_id_round_trip(id: u128, high: u64, low: u64)
    ensures
        0 <= id_high_spec(id) <= u64::MAX,
        0 <= id_low_spec(id) <= u64::MAX,
        join_id_spec(id_high_spec(id) as u64, id_low_spec(id) as u64) == id as int,
        0 <= join_id_spec(high, low) <= u128::MAX,
        id_high_spec(join_id_spec(high, low) as u128) == high as int,
        id_low_spec(join_id_spec(high, low) as u128) == low as int,
{
}

/// The ranges that amounts and prices are drawn from, bounds included.
#[derive(Clone, Copy, Debug, PartialEq, Eq, Structural)]
pub struct OrderParams {
    pub min_amount: u64,
    pub max_amount: u64,
    pub min_price: u64,
    pub max_price: u64,
}

impl OrderParams {
    /// Neither range is empty.
    pub open spec fn wf(self) -> bool {
        self.min_amount <= self.max_amount && self.min_price <= self.max_price
    }

    /// `amount` and `price` lie in their ranges.
    pub open spec fn admits(self, amount: u64, price: u64) -> bool {
        self.min_amount <= amount <= self.max_amount && self.min_price <= price
            <= self.max_price
    }

    /// The ranges, if neither is empty.
    pub fn new(min_amount: u64, max_amount: u64, min_price: u64, max_price: u64) -> (params:
        Option<OrderParams>)
        ensures
            params is Some <==> min_amount <= max_amount && min_price <= max_price,
            params matches Some(p) ==> p == (OrderParams {
                min_amount,
                max_amount,
                min_price,
                max_price,
            }) && p.wf(),
    {
        if min_amount <= max_amount && min_price <= max_price {
            Some(OrderParams { min_amount, max_amount, min_price, max_price })
        } else {
            None
        }
    }

    /// The ranges of the desk's market.
    pub fn market() -> (params: OrderParams)
        ensures
            params == (OrderParams {
                min_amount: MIN_AMOUNT,
                max_amount: MAX_AMOUNT,
                min_price: MIN_PRICE,
                max_price: MAX_PRICE,
            }),
            params.wf(),
    {
        OrderParams {
            min_amount: MIN_AMOUNT,
            max_amount: MAX_AMOUNT,
            min_price: MIN_PRICE,
            max_price: MAX_PRICE,
        }
    }

    /// Whether `amount` and `price` lie in their ranges.
    pub fn accepts(&self, amount: u64, price: u64) -> (ok: bool)
        ensures
            ok == self.admits(amount, price),
    {
        self.min_amount <= amount && amount <= self.max_amount && self.min_price <= price
            && price <= self.max_price
    }
}

/// An order: identifier, amount and price.
#[derive(Clone, Copy, Debug, PartialEq, Eq, Structural)]
pub struct Order {
    pub id: u128,
    pub amount: u64,
    pub price: u64,
}

/// The input vector of an order: the identifier's high and low halves, two
/// reserved zeros, the amount and the price.
pub open spec fn order_inputs_spec(order: Order) -> Seq<u64> {
    seq![
        id_high_spec(order.id) as u64,
        id_low_spec(order.id) as u64,
        0u64,
        0u64,
        order.amount,
        order.price,
    ]
}

impl Order {
    /// The order with the given identifier, amount and price.
    pub fn new(id: u128, amount: u64, price: u64) -> (order: Order)
        ensures
            order == (Order { id, amount, price }),
    {
        Order { id, amount, price }
    }

    /// The input vector that a note for this order carries.
    pub fn inputs(&self) -> (inputs: Vec<u64>)
        ensures
            inputs@ == order_inputs_spec(*self),
            inputs@.len() == ORDER_INPUT_LEN,
    {
        let halves: (u64, u64) = split_id(self.id);
        let mut inputs: Vec<u64> = Vec::new();
        inputs.push(halves.0);
        inputs.push(halves.1);
        inputs.push(0);
        inputs.push(0);
        inputs.push(self.amount);
        inputs.push(self.price);
        assert(inputs@ =~= order_inputs_spec(*self));
        inputs
    }

    /// Reads an order back from an input vector. The vector must have six
    /// elements, the third and fourth zero.
    pub fn from_inputs(inputs: &Vec<u64>) -> (order: Option<Order>)
        ensures
            order is Some <==> inputs@.len() == ORDER_INPUT_LEN && inputs@[2] == 0 && inputs@[3]
                == 0,
            order matches Some(o) ==> order_inputs_spec(o) == inputs@,
    {
        if inputs.len() != ORDER_INPUT_LEN || inputs[2] != 0 || inputs[3] != 0 {
            return None;
        }
        let id: u128 = join_id(inputs[0], inputs[1]);
        let order = Order { id, amount: inputs[4], price: inputs[5] };
        assert(order_inputs_spec(order) =~= inputs@);
        Some(order)
    }
}

/// An order's input vector determines the order: no two orders share one.
pub proof fn lemma_inputs_injective(a: Order, b: Order)
    requires
        order_inputs_spec(a) == order_inputs_spec(b),
    ensures
        a == b,
{
    let s = order_inputs_spec(a);
    let t = order_inputs_spec(b);
    assert(s[0] == t[0] && s[1] == t[1] && s[4] == t[4] && s[5] == t[5]);
    lemma_id_round_trip(a.id, 0, 0);
    lemma_id_round_trip(b.id, 0, 0);
}

/// `rand::Rng::random_range` on the inclusive range from `low` to `high`: the value
/// drawn lies in the range. Which value it is depends on the generator's state, of
/// which nothing is said. The outside function panics on an empty range, which
/// `requires` leaves out.
#[verifier::external_body]
fn draw_in_range(rng: &mut StdRng, low: u64, high: u64) -> (value: u64)
    requires
        low <= high,
    ensures
        low <= value <= high,
{
    rng.random_range(low..=high)
}

/// `rand::Rng::random` for `u128`: any 128-bit value may come back.
#[verifier::external_body]
fn draw_id(rng: &mut StdRng) -> (id: u128) {
    rng.random()
}

/// Draws an order: the amount, then the price, from `offer_rng`, each from its range;
/// the identifier from `id_rng`.
pub fn generate_order(params: &OrderParams, offer_rng: &mut StdRng, id_rng: &mut StdRng) -> (order:
    Order)
    requires
        params.wf(),
    ensures
        params.admits(order.amount, order.price),
{
    let amount: u64 = draw_in_range(offer_rng, params.min_amount, params.max_amount);
    let price: u64 = draw_in_range(offer_rng, params.min_price, params.max_price);
    let id: u128 = draw_id(id_rng);
    Order::new(id, amount, price)
}

} // verus!
