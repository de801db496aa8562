use edfi::book::Word;
use edfi::note::{
    build_note, order_note, order_secret, AccountId, ExecutionHint, NoteBuildError, OrderNote,
    LOCAL_PUBLIC_PREFIX, MAX_NOTE_INPUTS, ORDER_TAG_PAYLOAD, ORDER_USE_CASE, USE_CASE_LIMIT,
};
use edfi::notes::NoteType;
use edfi::order::Order;
use miden_objects::note::{NoteExecutionMode, NoteInputs, NoteTag};
use miden_objects::Felt;

fn sender() -> AccountId {
    AccountId { prefix: 11, suffix: 22 }
}

#[test]
fn order_note_has_the_fixed_envelope() {
    let order = Order::new((7u128 << 64) + 8, 55, 120_000);
    let note = order_note(&order, sender());
    let expected = OrderNote {
        sender: sender(),
        note_type: NoteType::Public,
        tag: 0x8000_0000,
        execution_hint: ExecutionHint::Always,
        aux: 0,
        secret: Word { e0: 3, e1: 3, e2: 3, e3: 3 },
        inputs: vec![7, 8, 0, 0, 55, 120_000],
        assets: vec![],
    };
    assert_eq!(note, expected);
}

#[test]
fn order_note_is_the_built_note_of_use_case_zero() {
    let order = Order::new(99, 10, 99_000);
    let built = build_note(sender(), order.inputs(), ORDER_USE_CASE, ORDER_TAG_PAYLOAD);
    assert_eq!(built, Ok(order_note(&order, sender())));
    assert_eq!((ORDER_USE_CASE, ORDER_TAG_PAYLOAD), (0, 0));
}

#[test]
fn secret_is_four_threes() {
    assert_eq!(order_secret(), Word::new(3, 3, 3, 3));
}

#[test]
fn tag_packs_prefix_use_case_and_payload() {
    let note = build_note(sender(), vec![], 1, 2).unwrap();
    assert_eq!(note.tag, 0x8001_0002);
    let note = build_note(sender(), vec![], 0x3fff, 0xffff).unwrap();
    assert_eq!(note.tag, 0xbfff_ffff);
    let note = build_note(sender(), vec![], 0, 0).unwrap();
    assert_eq!(note.tag, LOCAL_PUBLIC_PREFIX);
    assert_eq!(LOCAL_PUBLIC_PREFIX, 0x8000_0000);
}

#[test]
fn tag_is_the_ledgers_tag() {
    for (use_case_id, payload) in [(0u16, 0u16), (1, 0), (0, 1), (300, 4000), (0x3fff, 0xffff)] {
        let tag =
            NoteTag::for_public_use_case(use_case_id, payload, NoteExecutionMode::Local).unwrap();
        let note = build_note(sender(), vec![1, 2, 3], use_case_id, payload).unwrap();
        assert_eq!(note.tag, tag.as_u32());
    }
}

#[test]
fn use_case_of_more_than_14_bits_is_refused() {
    assert_eq!(USE_CASE_LIMIT, 0x4000);
    assert_eq!(
        build_note(sender(), vec![], 0x4000, 0),
        Err(NoteBuildError::UseCaseTooLarge { use_case_id: 0x4000 })
    );
    assert_eq!(
        build_note(sender(), vec![1], u16::MAX, 7),
        Err(NoteBuildError::UseCaseTooLarge { use_case_id: u16::MAX })
    );
    assert!(NoteTag::for_public_use_case(0x4000, 0, NoteExecutionMode::Local).is_err());
}

#[test]
fn at_most_128_inputs_are_accepted() {
    assert_eq!(MAX_NOTE_INPUTS, 128);
    let full: Vec<u64> = (0..128).collect();
    let note = build_note(sender(), full.clone(), 0, 0).unwrap();
    assert_eq!(note.inputs, full);
    let over: Vec<u64> = (0..129).collect();
    assert_eq!(
        build_note(sender(), over.clone(), 0, 0),
        Err(NoteBuildError::TooManyInputs { len: 129 })
    );
    assert!(NoteInputs::new(full.iter().map(|v| Felt::new(*v)).collect()).is_ok());
    assert!(NoteInputs::new(over.iter().map(|v| Felt::new(*v)).collect()).is_err());
}

#[test]
fn too_many_inputs_is_reported_before_the_use_case() {
    let over: Vec<u64> = vec![0; 200];
    assert_eq!(
        build_note(sender(), over, 0x4000, 0),
        Err(NoteBuildError::TooManyInputs { len: 200 })
    );
}

#[test]
fn built_note_keeps_sender_and_inputs() {
    let other = AccountId { prefix: u64::MAX, suffix: 0 };
    let note = build_note(other, vec![9, 8, 7], 5, 6).unwrap();
    assert_eq!(note.sender, other);
    assert_eq!(note.inputs, vec![9, 8, 7]);
    assert_eq!(note.note_type, NoteType::Public);
    assert_eq!(note.execution_hint, ExecutionHint::Always);
    assert_eq!(note.aux, 0);
    assert!(note.assets.is_empty());
}

#[test]
fn ledger_accepts_the_inputs_of_an_order_note() {
    let note = order_note(&Order::new(u128::MAX, 100, 150_000), sender());
    let inputs = NoteInputs::new(note.inputs.iter().map(|v| Felt::new(*v)).collect()).unwrap();
    assert_eq!(inputs.values().len(), 6);
    assert_eq!(inputs.values()[4].as_int(), 100);
    assert_eq!(inputs.values()[5].as_int(), 150_000);
}
