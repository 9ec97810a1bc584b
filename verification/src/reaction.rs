//! The uniform output of a reactor: either no action this tick, or a
//! fully-specified pending contract call handed to the external transaction
//! subsystem.

use vstd::prelude::*;
use crate::error::Error;
use crate::values::{Address, Concern, Uint256};

verus! {

/// One typed argument of a contract call.
#[derive(Clone, Debug, PartialEq, Eq)]
pub enum Token {
    Address(Address),
    FixedBytes(Vec<u8>),
    Uint(Uint256),
}

/// Ghost form of a call argument.
pub enum TokenView {
    Address(Address),
    FixedBytes(Seq<u8>),
    Uint(Uint256),
}

impl View for Token {
    type V = TokenView;

    open spec fn view(&self) -> TokenView {
        match self {
            Token::Address(a) => TokenView::Address(*a),
            Token::FixedBytes(b) => TokenView::FixedBytes(b@),
            Token::Uint(u) => TokenView::Uint(*u),
        }
    }
}

/// An enumerated submission policy for the external transaction subsystem.
/// Every call emitted by this core uses the simplest policy: no special
/// retry or backoff logic.
#[derive(Clone, Copy, Debug, PartialEq, Eq, Structural)]
pub enum Strategy {
    Simplest,
}

/// A fully-specified pending contract call: where to call, how much native
/// currency to attach, which function, with which ordered arguments, and
/// under which submission policy.
#[derive(Clone, Debug, PartialEq, Eq)]
pub struct TransactionRequest {
    pub concern: Concern,
    pub value: Uint256,
    pub function: String,
    pub data: Vec<Token>,
    pub strategy: Strategy,
}

/// Ghost form of a pending contract call.
pub struct TransactionRequestView {
    pub concern: Concern,
    pub value: Uint256,
    pub function: Seq<char>,
    pub data: Seq<TokenView>,
    pub strategy: Strategy,
}

impl View for TransactionRequest {
    type V = TransactionRequestView;

    open spec fn view(&self) -> TransactionRequestView {
        TransactionRequestView {
            concern: self.concern,
            value: self.value,
            function: self.function@,
            data: self.data@.map_values(|t: Token| t@),
            strategy: self.strategy,
        }
    }
}

/// The outcome of one evaluation: no action required, or a contract call to
/// submit.  Constructed fresh per tick and handed off; the reactor holds no
/// reference to its outcome.
#[derive(Clone, Debug, PartialEq, Eq)]
pub enum Reaction {
    Idle,
    Transaction(TransactionRequest),
}

/// Ghost form of a reaction.
pub enum ReactionView {
    Idle,
    Transaction(TransactionRequestView),
}

impl View for Reaction {
    type V = ReactionView;

    open spec fn view(&self) -> ReactionView {
        match self {
            Reaction::Idle => ReactionView::Idle,
            Reaction::Transaction(req) => ReactionView::Transaction(req@),
        }
    }
}

/// Relates an executable reaction result to its ghost description: success
/// agrees up to the view, and failures carry the same error.
pub open spec fn reaction_matches(r: Result<Reaction, Error>, m: Result<ReactionView, Error>) -> bool {
    match (r, m) {
        (Ok(re), Ok(mv)) => re@ == mv,
        (Err(e), Err(me)) => e == me,
        _ => false,
    }
}

} // verus!
