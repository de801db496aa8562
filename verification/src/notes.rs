//! Abstract notes: the messages that a desk and its clients exchange, before
//! they are bound to a ledger.

use vstd::prelude::*;

verus! {

/// The side of the market that an order or a quote is on.
#[allow(non_camel_case_types)]
#[derive(Clone, Copy, Debug, PartialEq, Eq, Structural)]
pub enum Side {
    BUY,
    SELL,
}

/// Who may read a note on the ledger.
#[derive(Clone, Copy, Debug, PartialEq, Eq, Structural)]
pub enum NoteType {
    /// The note is published in full.
    Public,
    /// Only the note's hash is published.
    Private,
}

/// What a note says.
#[derive(Clone, Debug, PartialEq, Eq)]
pub enum Note {
    /// From the desk: the client passed the checks for a market.
    KYCPassed { market: String },
    /// From the desk: an offer in answer to a quote request.
    QuoteRequestOffer { market: String, uuid: String, side: Side, amount: u64, price: u64 },
    /// From the desk: no offer in answer to a quote request.
    QuoteRequestNoOffer { market: String, uuid: String },
    /// From the desk: a buy order was locked.
    LimitBuyOrderLocked,
    /// From the desk: a buy order was not locked; the order is firm.
    LimitBuyOrderNotLocked,
    /// From the desk: a sell order was locked.
    LimitSellOrderLocked,
    /// From the desk: a sell order was not locked.
    LimitSellOrderNotLocked,
    /// From a client: a request for a quote.
    QuoteRequest { market: String, uuid: String, side: Side, amount: u64 },
    /// From a client: a limit order.
    LimitOrder { market: String, uuid: String, side: Side, amount: u64, price: u64 },
}

/// A note together with the program that runs when it is consumed, by the
/// paths of the program's source and of the libraries it is linked with.
#[derive(Clone, Debug, PartialEq, Eq)]
pub struct MidenAbstractNote {
    pub schema: String,
    pub note: Note,
    pub note_type: NoteType,
    pub program: String,
    pub libraries: Vec<String>,
}

/// A sample abstract note: a private notice that a buy order was locked, with
/// one program and two libraries.
pub fn play() -> (sample: MidenAbstractNote)
    ensures
        sample.schema@ == "EDFI 0 MIDEN 0.18"@,
        sample.note is LimitBuyOrderLocked,
        sample.note_type == NoteType::Private,
        sample.program@ == "/abc.masm"@,
        sample.libraries@.len() == 2,
        sample.libraries@[0]@ == "/lib.masm"@,
        sample.libraries@[1]@ == "/lib2.masm"@,
{
    let mut libraries: Vec<String> = Vec::new();
    libraries.push("/lib.masm".to_owned());
    libraries.push("/lib2.masm".to_owned());
    MidenAbstractNote {
        schema: "EDFI 0 MIDEN 0.18".to_owned(),
        note: Note::LimitBuyOrderLocked,
        note_type: NoteType::Private,
        program: "/abc.masm".to_owned(),
        libraries,
    }
}

} // verus!
