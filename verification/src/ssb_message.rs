//! A Scuttlebutt message as the logic reads it.

use crate::json::JsonValue;
use vstd::prelude::*;

verus! {

/// The signed part of a message: who wrote it, its place in their feed, and
/// its content. The author's asserted timestamp is a float and stays with the
/// caller; nothing here reads it.
#[derive(Debug)]
pub struct SsbValue {
    pub author: String,
    pub sequence: u32,
    pub content: JsonValue,
}

/// A message and its key (the hash that names it). The time it was received
/// is a float and stays with the caller.
#[derive(Debug)]
pub struct SsbMessage {
    pub key: String,
    pub value: SsbValue,
}

} // verus!
