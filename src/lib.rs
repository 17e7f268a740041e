//! Decoder for recorded game demos: a header line, then length-framed packets
//! whose bodies hold protocol commands, entity updates and temp entities.
//! Every decoder states its result over a model decoder on byte sequences.

use vstd::prelude::*;

pub mod command;
pub mod cursor;
pub mod entity;
pub mod error;
pub mod packet;
pub mod temp_entity;
pub mod vector;

verus! {

} // verus!
