//! The note factory: an order wrapped as a ledger note.
//!
//! A note for an order carries the order's input vector, a fixed secret, no
//! assets, and metadata: the sender, public visibility, the routing tag of the
//! public use case, the hint that the note may be executed at any time, and a
//! zero auxiliary value. The program that runs when the note is consumed is
//! attached by the caller who sends the note.

use crate::book::Word;
use crate::notes::NoteType;
use crate::order::{order_inputs_spec, Order};
use miden_objects::note::{NoteExecutionMode, NoteInputs, NoteTag};
use miden_objects::{Felt, NoteError};
use vstd::prelude::*;

verus! {

/// `miden_objects::NoteError`, the error of the ledger's note constructors. Opaque:
/// it is mapped to `NoteBuildError` by the call that produced it.
#[verifier::external_type_specification]
#[verifier::external_body]
pub struct ExNoteError(NoteError);

/// `miden_objects::note::NoteInputs`, a validated input vector with its
/// commitment. Opaque: it is only tested for having been built.
#[verifier::external_type_specification]
#[verifier::external_body]
pub struct ExNoteInputs(NoteInputs);

/// The most inputs that a note may carry.
pub const MAX_NOTE_INPUTS: usize = 128;

/// Use-case identifiers are below this bound: they have 14 bits.
pub const USE_CASE_LIMIT: u16 = 0x4000;

/// The use case that order notes are tagged with.
pub const ORDER_USE_CASE: u16 = 0;

/// The payload that order notes are tagged with.
pub const ORDER_TAG_PAYLOAD: u16 = 0;

/// The two high bits of the tag of a public use case that is executed locally.
pub const LOCAL_PUBLIC_PREFIX: u32 = 0x8000_0000;

/// An account's identifier, as the canonical integers of its two field elements.
#[derive(Clone, Copy, Debug, PartialEq, Eq, Structural)]
pub struct AccountId {
    pub prefix: u64,
    pub suffix: u64,
}

/// When a note may be executed.
#[derive(Clone, Copy, Debug, PartialEq, Eq, Structural)]
pub enum ExecutionHint {
    /// Nothing is said.
    Unspecified,
    /// At any time.
    Always,
}

/// Why a note could not be built.
#[derive(Clone, Copy, Debug, PartialEq, Eq, Structural)]
pub enum NoteBuildError {
    /// The input vector has more than `MAX_NOTE_INPUTS` elements; `len` is how
    /// many it has.
    TooManyInputs { len: usize },
    /// The use-case identifier does not fit in 14 bits.
    UseCaseTooLarge { use_case_id: u16 },
}

/// A note that is ready to be sent, but for its program.
#[derive(Clone, Debug, PartialEq, Eq)]
pub struct OrderNote {
    pub sender: AccountId,
    pub note_type: NoteType,
    pub tag: u32,
    pub execution_hint: ExecutionHint,
    pub aux: u64,
    pub secret: Word,
    pub inputs: Vec<u64>,
    pub assets: Vec<Word>,
}

/// An `OrderNote` as a mathematical value.
pub struct OrderNoteModel {
    pub sender: AccountId,
    pub note_type: NoteType,
    pub tag: u32,
    pub execution_hint: ExecutionHint,
    pub aux: u64,
    pub secret: Word,
    pub inputs: Seq<u64>,
    pub assets: Seq<Word>,
}

impl View for OrderNote {
    type V = OrderNoteModel;

    open spec fn view(&self) -> OrderNoteModel {
        OrderNoteModel {
            sender: self.sender,
            note_type: self.note_type,
            tag: self.tag,
            execution_hint: self.execution_hint,
            aux: self.aux,
            secret: self.secret,
            inputs: self.inputs@,
            assets: self.assets@,
        }
    }
}

/// The tag of a public use case that is executed locally: the two high bits are
/// `10`, the next 14 bits are the use case, the low 16 bits the payload.
pub open spec fn public_tag_spec(use_case_id: u16, payload: u16) -> int {
    LOCAL_PUBLIC_PREFIX as int + use_case_id as int * 0x1_0000 + payload as int
}

/// The secret that every order note is built with.
pub open spec fn order_secret_spec() -> Word {
    Word { e0: 3, e1: 3, e2: 3, e3: 3 }
}

/// The note that `build_note` gives for a sender, an input vector and a tag.
pub open spec fn note_model(sender: AccountId, inputs: Seq<u64>, tag: u32) -> OrderNoteModel {
    OrderNoteModel {
        sender,
        note_type: NoteType::Public,
        tag,
        execution_hint: ExecutionHint::Always,
        aux: 0,
        secret: order_secret_spec(),
        inputs,
        assets: Seq::empty(),
    }
}

/// What `build_note` returns: the first reason to refuse, or the note.
pub open spec fn build_note_spec(
    sender: AccountId,
    inputs: Seq<u64>,
    use_case_id: u16,
    payload: u16,
) -> Result<OrderNoteModel, NoteBuildError> {
    if inputs.len() > MAX_NOTE_INPUTS {
        Err(NoteBuildError::TooManyInputs { len: inputs.len() as usize })
    } else if use_case_id >= USE_CASE_LIMIT {
        Err(NoteBuildError::UseCaseTooLarge { use_case_id })
    } else {
        Ok(note_model(sender, inputs, public_tag_spec(use_case_id, payload) as u32))
    }
}

/// `miden_objects::note::NoteInputs::new` on the field elements that
/// `miden_objects::Felt::new` makes of `values`: the inputs are accepted exactly
/// if there are at most 128 of them. Nothing is said of the commitment.
#[verifier::external_body]
fn validated_inputs(values: &Vec<u64>) -> (res: Result<NoteInputs, NoteError>)
    ensures
        res is Ok <==> values@.len() <= MAX_NOTE_INPUTS,
{
    NoteInputs::new(values.iter().map(|value| Felt::new(*value)).collect())
}

/// `miden_objects::note::NoteTag::for_public_use_case` with local execution, read
/// back by `NoteTag::as_u32`: a use case of 14 bits is accepted and no other; the
/// tag's two high bits are `10`, the next 14 the use case, the low 16 the
/// payload.
#[verifier::external_body]
fn local_public_tag(use_case_id: u16, payload: u16) -> (res: Result<u32, NoteError>)
    ensures
        res is Ok <==> use_case_id < USE_CASE_LIMIT,
        res matches Ok(tag) ==> tag as int == public_tag_spec(use_case_id, payload),
{
    match NoteTag::for_public_use_case(use_case_id, payload, NoteExecutionMode::Local) {
        Ok(tag) => Ok(tag.as_u32()),
        Err(error) => Err(error),
    }
}

/// The secret that every order note is built with.
pub fn order_secret() -> (secret: Word)
    ensures
        secret == order_secret_spec(),
{
    Word::new(3, 3, 3, 3)
}

/// Builds a public note with the given inputs, tagged for a public use case.
/// The inputs must pass the ledger's validation and the use case must fit in
/// 14 bits.
pub fn build_note(sender: AccountId, inputs: Vec<u64>, use_case_id: u16, payload: u16) -> (res:
    Result<OrderNote, NoteBuildError>)
    ensures
        match build_note_spec(sender, inputs@, use_case_id, payload) {
            Ok(model) => res matches Ok(note) && note@ == model,
            Err(error) => res matches Err(e) && e == error,
        },
{
    match validated_inputs(&inputs) {
        Err(_) => {
            return Err(NoteBuildError::TooManyInputs { len: inputs.len() });
        },
        Ok(_) => {},
    }
    let tag: u32 = match local_public_tag(use_case_id, payload) {
        Err(_) => {
            return Err(NoteBuildError::UseCaseTooLarge { use_case_id });
        },
        Ok(tag) => tag,
    };
    Ok(
        OrderNote {
            sender,
            note_type: NoteType::Public,
            tag,
            execution_hint: ExecutionHint::Always,
            aux: 0,
            secret: order_secret(),
            inputs,
            assets: Vec::new(),
        },
    )
}

/// The note for an order: its six inputs, the tag of use case 0 with payload 0.
/// This never fails.
pub fn order_note(order: &Order, sender: AccountId) -> (note: OrderNote)
    ensures
        note@ == note_model(sender, order_inputs_spec(*order), LOCAL_PUBLIC_PREFIX),
        build_note_spec(sender, order_inputs_spec(*order), ORDER_USE_CASE, ORDER_TAG_PAYLOAD)
            == Ok::<OrderNoteModel, NoteBuildError>(note@),
{
    let inputs: Vec<u64> = order.inputs();
    build_note(sender, inputs, ORDER_USE_CASE, ORDER_TAG_PAYLOAD).unwrap()
}

} // verus!
