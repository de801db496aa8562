use edfi::order::{
    generate_order, join_id, split_id, Order, OrderParams, MAX_AMOUNT, MAX_PRICE, MIN_AMOUNT,
    MIN_PRICE, OFFER_SEED, ORDER_INPUT_LEN,
};
use rand::rngs::StdRng;
use rand::SeedableRng;

#[test]
fn split_gives_high_and_low_halves() {
    let id: u128 = 0x0123_4567_89ab_cdef_fedc_ba98_7654_3210;
    assert_eq!(split_id(id), (0x0123_4567_89ab_cdef, 0xfedc_ba98_7654_3210));
}

#[test]
fn split_of_extremes() {
    assert_eq!(split_id(0), (0, 0));
    assert_eq!(split_id(u128::MAX), (u64::MAX, u64::MAX));
    assert_eq!(split_id(1u128 << 64), (1, 0));
    assert_eq!(split_id(u64::MAX as u128), (0, u64::MAX));
}

#[test]
fn join_puts_halves_together() {
    assert_eq!(join_id(0, 0), 0);
    assert_eq!(join_id(1, 0), 1u128 << 64);
    assert_eq!(join_id(u64::MAX, u64::MAX), u128::MAX);
    assert_eq!(
        join_id(0x0123_4567_89ab_cdef, 0xfedc_ba98_7654_3210),
        0x0123_4567_89ab_cdef_fedc_ba98_7654_3210
    );
}

#[test]
fn split_then_join_is_identity() {
    let mut rng = StdRng::seed_from_u64(7);
    let params = OrderParams::market();
    for _ in 0..200 {
        let mut other = rng.clone();
        let order = generate_order(&params, &mut other, &mut rng);
        let (high, low) = split_id(order.id);
        assert_eq!(join_id(high, low), order.id);
    }
}

#[test]
fn join_then_split_is_identity() {
    let halves = [(0u64, 0u64), (1, 2), (u64::MAX, 0), (0, u64::MAX), (42, 0x8000_0000_0000_0000)];
    for (high, low) in halves {
        assert_eq!(split_id(join_id(high, low)), (high, low));
    }
}

#[test]
fn inputs_have_six_elements_in_order() {
    let order = Order::new(0x0000_0000_0000_0005_0000_0000_0000_0009, 42, 100_000);
    assert_eq!(order.inputs(), vec![5, 9, 0, 0, 42, 100_000]);
    assert_eq!(order.inputs().len(), ORDER_INPUT_LEN);
}

#[test]
fn order_is_read_back_from_its_inputs() {
    let order = Order::new(u128::MAX - 17, 10, 99_000);
    assert_eq!(Order::from_inputs(&order.inputs()), Some(order));
}

#[test]
fn from_inputs_refuses_other_vectors() {
    assert_eq!(Order::from_inputs(&vec![]), None);
    assert_eq!(Order::from_inputs(&vec![1, 2, 0, 0, 3]), None);
    assert_eq!(Order::from_inputs(&vec![1, 2, 0, 0, 3, 4, 5]), None);
    assert_eq!(Order::from_inputs(&vec![1, 2, 1, 0, 3, 4]), None);
    assert_eq!(Order::from_inputs(&vec![1, 2, 0, 1, 3, 4]), None);
    assert_eq!(
        Order::from_inputs(&vec![1, 2, 0, 0, 3, 4]),
        Some(Order { id: (1u128 << 64) + 2, amount: 3, price: 4 })
    );
}

#[test]
fn params_need_non_empty_ranges() {
    assert_eq!(
        OrderParams::new(10, 100, 99_000, 150_000),
        Some(OrderParams { min_amount: 10, max_amount: 100, min_price: 99_000, max_price: 150_000 })
    );
    assert_eq!(OrderParams::new(5, 5, 6, 6).map(|p| p.min_amount), Some(5));
    assert_eq!(OrderParams::new(11, 10, 1, 2), None);
    assert_eq!(OrderParams::new(1, 2, 3, 2), None);
}

#[test]
fn market_params_are_the_configured_ranges() {
    let params = OrderParams::market();
    assert_eq!((MIN_AMOUNT, MAX_AMOUNT, MIN_PRICE, MAX_PRICE), (10, 100, 99_000, 150_000));
    assert_eq!(params, OrderParams::new(10, 100, 99_000, 150_000).unwrap());
    assert_eq!(OFFER_SEED, 43);
}

#[test]
fn accepts_tells_bounds_from_outside() {
    let params = OrderParams::market();
    assert!(params.accepts(10, 99_000));
    assert!(params.accepts(100, 150_000));
    assert!(!params.accepts(9, 99_000));
    assert!(!params.accepts(101, 99_000));
    assert!(!params.accepts(10, 98_999));
    assert!(!params.accepts(10, 150_001));
}

#[test]
fn generated_orders_lie_in_their_ranges() {
    let params = OrderParams::market();
    let mut offer_rng = StdRng::seed_from_u64(OFFER_SEED);
    let mut id_rng = StdRng::seed_from_u64(1);
    for _ in 0..1000 {
        let order = generate_order(&params, &mut offer_rng, &mut id_rng);
        assert!(10 <= order.amount && order.amount <= 100);
        assert!(99_000 <= order.price && order.price <= 150_000);
        assert!(params.accepts(order.amount, order.price));
    }
}

#[test]
fn one_point_ranges_give_that_point() {
    let params = OrderParams::new(7, 7, 9, 9).unwrap();
    let mut offer_rng = StdRng::seed_from_u64(3);
    let mut id_rng = StdRng::seed_from_u64(4);
    let order = generate_order(&params, &mut offer_rng, &mut id_rng);
    assert_eq!((order.amount, order.price), (7, 9));
}

#[test]
fn draws_take_values_apart_from_the_bounds() {
    let params = OrderParams::market();
    let mut offer_rng = StdRng::seed_from_u64(OFFER_SEED);
    let mut id_rng = StdRng::seed_from_u64(1);
    let mut amounts = Vec::new();
    let mut ids = Vec::new();
    for _ in 0..50 {
        let order = generate_order(&params, &mut offer_rng, &mut id_rng);
        amounts.push(order.amount);
        ids.push(order.id);
    }
    amounts.sort();
    amounts.dedup();
    ids.sort();
    ids.dedup();
    assert!(amounts.len() > 10);
    assert_eq!(ids.len(), 50);
}

#[test]
fn first_draw_with_seed_43_is_reproducible() {
    let params = OrderParams::new(10, 100, 99_000, 150_000).unwrap();
    let mut first_ids = StdRng::seed_from_u64(100);
    let mut second_ids = StdRng::seed_from_u64(200);
    let mut first_rng = StdRng::seed_from_u64(43);
    let mut second_rng = StdRng::seed_from_u64(43);
    let first = generate_order(&params, &mut first_rng, &mut first_ids);
    let second = generate_order(&params, &mut second_rng, &mut second_ids);
    assert_eq!((first.amount, first.price), (second.amount, second.price));
    assert_ne!(first.id, second.id);
    assert_eq!((first.amount, first.price), (78, 120_422));
}

#[test]
fn whole_sequence_with_seed_43_is_reproducible() {
    let params = OrderParams::market();
    let mut ids = StdRng::seed_from_u64(5);
    let mut first_rng = StdRng::seed_from_u64(OFFER_SEED);
    let mut second_rng = StdRng::seed_from_u64(OFFER_SEED);
    for _ in 0..100 {
        let first = generate_order(&params, &mut first_rng, &mut ids);
        let second = generate_order(&params, &mut second_rng, &mut ids);
        assert_eq!((first.amount, first.price), (second.amount, second.price));
    }
}
