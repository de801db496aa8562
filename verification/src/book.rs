//! The desk account's storage and what is read from it.
//!
//! The book account has three slots: a reserved scalar, the map of resting
//! orders, and the head scalar. Only the contents of the slots change over the
//! account's life; their kinds are fixed when the account is built. A
//! `BookView` is what a reader reports after each consumption: the head's
//! first element and every entry of the map.

use vstd::prelude::*;

verus! {

/// Index of the reserved scalar slot.
pub const RESERVED_SLOT: usize = 0;

/// Index of the map slot that holds the resting orders.
pub const BOOK_SLOT: usize = 1;

/// Index of the scalar slot that holds the head.
pub const HEAD_SLOT: usize = 2;

/// Number of slots of the book account.
pub const BOOK_SLOT_COUNT: usize = 3;

/// A tuple of four field elements, each by its canonical integer.
#[derive(Clone, Copy, Debug, PartialEq, Eq, Structural)]
pub struct Word {
    pub e0: u64,
    pub e1: u64,
    pub e2: u64,
    pub e3: u64,
}

impl Word {
    /// The word of four zeros.
    pub open spec fn zero_spec() -> Word {
        Word { e0: 0, e1: 0, e2: 0, e3: 0 }
    }

    /// The word of four zeros.
    pub fn zero() -> (word: Word)
        ensures
            word == Word::zero_spec(),
    {
        Word { e0: 0, e1: 0, e2: 0, e3: 0 }
    }

    /// The word with the given elements.
    pub fn new(e0: u64, e1: u64, e2: u64, e3: u64) -> (word: Word)
        ensures
            word == (Word { e0, e1, e2, e3 }),
    {
        Word { e0, e1, e2, e3 }
    }
}

/// One entry of a map slot.
#[derive(Clone, Copy, Debug, PartialEq, Eq, Structural)]
pub struct MapEntry {
    pub key: Word,
    pub value: Word,
}

/// The kind of a slot: what is fixed when the account is built.
#[derive(Clone, Copy, Debug, PartialEq, Eq, Structural)]
pub enum SlotKind {
    Scalar,
    Mapping,
}

/// A typed cell of an account's storage.
#[derive(Clone, Debug, PartialEq, Eq)]
pub enum StorageSlot {
    /// A scalar: one word.
    Scalar(Word),
    /// A map from words to words.
    Mapping(Vec<MapEntry>),
}

/// Why a storage could not be read as a book.
#[derive(Clone, Copy, Debug, PartialEq, Eq, Structural)]
pub enum DecodeError {
    /// The storage has fewer than three slots; `found` is how many it has.
    MissingSlot { found: usize },
    /// The slot of the resting orders is a scalar.
    BookNotMap,
    /// The head slot is a map.
    HeadNotScalar,
}

/// No key occurs in two entries.
pub open spec fn keys_unique(entries: Seq<MapEntry>) -> bool {
    forall|i: int, j: int|
        0 <= i < j < entries.len() ==> (#[trigger] entries[i]).key != (#[trigger] entries[j]).key
}

impl StorageSlot {
    /// The kind of this slot.
    pub open spec fn kind_spec(self) -> SlotKind {
        match self {
            StorageSlot::Scalar(_) => SlotKind::Scalar,
            StorageSlot::Mapping(_) => SlotKind::Mapping,
        }
    }

    /// A map slot holds each key once.
    pub open spec fn wf(self) -> bool {
        match self {
            StorageSlot::Scalar(_) => true,
            StorageSlot::Mapping(entries) => keys_unique(entries@),
        }
    }

    /// The kind of this slot.
    pub fn kind(&self) -> (kind: SlotKind)
        ensures
            kind == self.kind_spec(),
    {
        match self {
            StorageSlot::Scalar(_) => SlotKind::Scalar,
            StorageSlot::Mapping(_) => SlotKind::Mapping,
        }
    }
}

/// The kinds of the slots of a storage, in order.
pub open spec fn slot_kinds(slots: Seq<StorageSlot>) -> Seq<SlotKind> {
    Seq::new(slots.len(), |i: int| slots[i].kind_spec())
}

/// The kinds that the book account is built with.
pub open spec fn book_kinds() -> Seq<SlotKind> {
    seq![SlotKind::Scalar, SlotKind::Mapping, SlotKind::Scalar]
}

/// The storage that the book account is built with: a zero scalar, an empty map, a
/// zero scalar.
pub fn book_layout() -> (slots: Vec<StorageSlot>)
    ensures
        slots@.len() == BOOK_SLOT_COUNT,
        slots@[0] == StorageSlot::Scalar(Word::zero_spec()),
        slots@[1] matches StorageSlot::Mapping(entries) && entries@.len() == 0,
        slots@[2] == StorageSlot::Scalar(Word::zero_spec()),
        slot_kinds(slots@) == book_kinds(),
        forall|i: int| 0 <= i < slots@.len() ==> (#[trigger] slots@[i]).wf(),
{
    let mut slots: Vec<StorageSlot> = Vec::new();
    slots.push(StorageSlot::Scalar(Word::zero()));
    slots.push(StorageSlot::Mapping(Vec::new()));
    slots.push(StorageSlot::Scalar(Word::zero()));
    assert(slot_kinds(slots@) =~= book_kinds());
    slots
}

/// Whether no key occurs in two entries.
pub fn has_unique_keys(entries: &Vec<MapEntry>) -> (unique: bool)
    ensures
        unique == keys_unique(entries@),
{
    let n: usize = entries.len();
    let mut j: usize = 0;
    while j < n
        invariant
            n == entries@.len(),
            j <= n,
            forall|a: int, b: int|
                0 <= a < b < j ==> (#[trigger] entries@[a]).key != (#[trigger] entries@[b]).key,
        decreases n - j,
    {
        let mut i: usize = 0;
        while i < j
            invariant
                n == entries@.len(),
                j < n,
                i <= j,
                forall|a: int|
                    0 <= a < i ==> (#[trigger] entries@[a]).key != entries@[j as int].key,
            decreases j - i,
        {
            if entries[i].key == entries[j].key {
                return false;
            }
            i = i + 1;
        }
        j = j + 1;
    }
    true
}

/// What a reader reports of the book: the head and the resting orders.
#[derive(Clone, Debug, PartialEq, Eq)]
pub struct BookView {
    /// The first element of the head slot.
    pub head: u64,
    /// Every entry of the map slot, in the order in which the storage holds them.
    pub entries: Vec<MapEntry>,
}

/// A `BookView` as a mathematical value.
pub struct BookViewModel {
    pub head: u64,
    pub entries: Seq<MapEntry>,
}

impl View for BookView {
    type V = BookViewModel;

    open spec fn view(&self) -> BookViewModel {
        BookViewModel { head: self.head, entries: self.entries@ }
    }
}

/// What reading a storage as a book gives: the head's first element and the map's
/// entries, or the first reason why the storage is no book.
pub open spec fn book_view_spec(slots: Seq<StorageSlot>) -> Result<BookViewModel, DecodeError> {
    if slots.len() < BOOK_SLOT_COUNT {
        Err(DecodeError::MissingSlot { found: slots.len() as usize })
    } else {
        match (slots[BOOK_SLOT as int], slots[HEAD_SLOT as int]) {
            (StorageSlot::Scalar(_), _) => Err(DecodeError::BookNotMap),
            (StorageSlot::Mapping(_), StorageSlot::Mapping(_)) => Err(DecodeError::HeadNotScalar),
            (StorageSlot::Mapping(entries), StorageSlot::Scalar(head)) => Ok(
                BookViewModel { head: head.e0, entries: entries@ },
            ),
        }
    }
}

/// A copy of `entries`.
fn copy_entries(entries: &Vec<MapEntry>) -> (copy: Vec<MapEntry>)
    ensures
        copy@ == entries@,
{
    let mut copy: Vec<MapEntry> = Vec::new();
    let mut i: usize = 0;
    while i < entries.len()
        invariant
            i <= entries@.len(),
            copy@ == entries@.take(i as int),
        decreases entries@.len() - i,
    {
        copy.push(entries[i]);
        assert(entries@.take(i + 1) =~= entries@.take(i as int).push(entries@[i as int]));
        i = i + 1;
    }
    assert(entries@.take(entries@.len() as int) =~= entries@);
    copy
}

/// Reads a storage as a book. The slot of the resting orders must be a map and the
/// head slot a scalar; the reserved slot is not looked at.
pub fn read_book(slots: &Vec<StorageSlot>) -> (res: Result<BookView, DecodeError>)
    ensures
        match book_view_spec(slots@) {
            Ok(model) => res matches Ok(view) && view@ == model,
            Err(error) => res matches Err(e) && e == error,
        },
{
    if slots.len() < BOOK_SLOT_COUNT {
        return Err(DecodeError::MissingSlot { found: slots.len() });
    }
    match &slots[BOOK_SLOT] {
        StorageSlot::Scalar(_) => Err(DecodeError::BookNotMap),
        StorageSlot::Mapping(entries) => match &slots[HEAD_SLOT] {
            StorageSlot::Mapping(_) => Err(DecodeError::HeadNotScalar),
            StorageSlot::Scalar(head) => Ok(
                BookView { head: head.e0, entries: copy_entries(entries) },
            ),
        },
    }
}

/// A storage reads as a book exactly if it has the book's three slots with a map in
/// the second place and a scalar in the third.
pub proof fn lemma_read_needs_shape(slots: Seq<StorageSlot>)
    ensures
        book_view_spec(slots) is Ok <==> slots.len() >= BOOK_SLOT_COUNT && slots[1].kind_spec()
            == SlotKind::Mapping && slots[2].kind_spec() == SlotKind::Scalar,
{
}

/// What is read depends on the map slot and the head slot alone: two storages that
/// agree on both read alike, so reading twice with no transaction in between
/// gives the same head and the same entries.
pub proof fn lemma_read_is_stable(first: Seq<StorageSlot>, second: Seq<StorageSlot>)
    requires
        first.len() >= BOOK_SLOT_COUNT,
        second.len() >= BOOK_SLOT_COUNT,
        first[1] == second[1],
        first[2] == second[2],
    ensures
        book_view_spec(first) == book_view_spec(second),
{
}

/// `after` has the slots of `before` with, at most, other contents: as many slots
/// and the same kind in each place.
pub open spec fn same_shape(before: Seq<StorageSlot>, after: Seq<StorageSlot>) -> bool {
    slot_kinds(before) == slot_kinds(after)
}

/// Each storage of `history` comes from the one before it by a change of contents.
pub open spec fn contents_only(history: Seq<Seq<StorageSlot>>) -> bool {
    forall|i: int|
        0 <= i < history.len() - 1 ==> same_shape(#[trigger] history[i], history[i + 1])
}

/// However many orders are processed, the book keeps its shape: after any number
/// of changes of contents to a storage with the book's kinds, the second slot is
/// still a map, the third still a scalar, and the storage still reads as a book.
pub proof fn lemma_shape_is_kept(history: Seq<Seq<StorageSlot>>, n: int)
    requires
        history.len() > 0,
        slot_kinds(history[0]) == book_kinds(),
        contents_only(history),
        0 <= n < history.len(),
    ensures
        slot_kinds(history[n]) == book_kinds(),
        history[n].len() == BOOK_SLOT_COUNT,
        history[n][1].kind_spec() == SlotKind::Mapping,
        history[n][2].kind_spec() == SlotKind::Scalar,
        book_view_spec(history[n]) is Ok,
    decreases n,
{
    if n > 0 {
        lemma_shape_is_kept(history, n - 1);
        assert(same_shape(history[n - 1], history[n - 1 + 1]));
    }
    let kinds = slot_kinds(history[n]);
    assert(kinds.len() == 3);
    assert(kinds[1] == SlotKind::Mapping);
    assert(kinds[2] == SlotKind::Scalar);
}

} // verus!
