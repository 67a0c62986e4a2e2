//! Items that go into a model and come out of it.

use vstd::prelude::*;

use serde_json::Value;

verus! {

/// An item handed to the model: a message, a tool result and the like.
#[derive(Debug, Clone, PartialEq, Eq)]
pub enum InputItem {
    /// The item as it was received.
    Document(Value),
    Unknown,
}

/// An item that the model produced: a message, a tool call and the like.
#[derive(Debug, Clone, PartialEq, Eq)]
pub enum OutputItem {
    /// The item as it was produced.
    Document(Value),
    Unknown,
}

} // verus!
