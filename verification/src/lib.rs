//! Verified core of a rotating savings group ("Ajo").
//!
//! Members of a group contribute a fixed amount every cycle; each cycle one
//! member receives the pool, in join order, until every member has been paid
//! once. Around that rotation the library keeps late-payment penalties, an
//! insurance pool with claims, and the cancellation of a group by its creator
//! or by a vote of its members.
//!
//! The library decides and records; it moves no tokens and reads no clock.
//! Callers hand it the time and the authenticated address, and get back what
//! is owed to whom.
//!
//! * [`contract`] holds the operations, on a [`storage::Store`].
//! * [`transitions`], [`refund`] and [`insurance`] say what each operation
//!   does, as functions on the store's mathematical view.
//! * [`wellformed`] says what holds of a store between operations, and
//!   [`sound`] decides it at run time.
//! * [`theorems`] states what holds of the operations from any sound store.

pub mod address;
pub mod arith;
pub mod contract;
pub mod counting;
pub mod errors;
pub mod insurance;
pub mod pausable;
pub mod penalty;
pub mod refund;
pub mod security;
pub mod sound;
pub mod storage;
pub mod table;
pub mod theorems;
pub mod token;
pub mod transitions;
pub mod types;
pub mod wellformed;
