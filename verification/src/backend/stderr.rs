//! The sink that writes CEE frames to standard error.

use crate::backend::{cee_frame, to_cee_frame};
use crate::clock::Moment;
use crate::context::Context;
use crate::Level;
use vstd::prelude::*;

verus! {

/// The standard-error sink. It holds nothing: each message is encoded and
/// written on its own.
#[derive(Debug, Clone, Copy)]
pub struct Stderr {}

impl Stderr {
    /// The standard-error sink.
    pub fn new() -> (r: Self)
        ensures
            r == (Stderr {  }),
    {
        Stderr {  }
    }

    /// What this sink writes for a message: its CEE frame, or nothing where
    /// the message cannot be encoded.
    pub fn frame(&self, name: &String, level: Level, pairs: &Context, pid: i32, at: &Moment) -> (r:
        Option<String>)
        ensures
            match r {
                Some(s) => cee_frame(name@, level, pairs@, pid as int, *at) == Some(s@),
                None => cee_frame(name@, level, pairs@, pid as int, *at) is None,
            },
    {
        to_cee_frame(name, level, pairs, pid, at)
    }
}

} // verus!
