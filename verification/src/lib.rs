//! A limit-order desk on a note-passing ledger.
//!
//! A desk account holds the resting orders in its storage. Clients send
//! orders as notes: single-use messages that carry the order's inputs and a
//! program, which changes the book when the note is consumed. This library
//! holds what the protocol decides and computes: how an order is drawn and
//! encoded (`order`), how it is wrapped as a note (`note`), how the book's
//! storage is laid out and read (`book`), and in which sequence the ledger is
//! driven for each order (`cycle`). `notes` holds the abstract messages between
//! desk and client. Talking to the ledger is left to the caller.

pub mod book;
pub mod cycle;
pub mod note;
pub mod notes;
pub mod order;
