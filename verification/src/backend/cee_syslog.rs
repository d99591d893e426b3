//! The sink that sends CEE frames to a syslog socket.

use crate::backend::{cee_frame, to_cee_frame};
use crate::clock::Moment;
use crate::context::Context;
use crate::Level;
use vstd::prelude::*;

verus! {

/// The syslog sink: it knows the path of the Unix socket to which each frame
/// is sent as one datagram.
#[derive(Debug, Clone)]
pub struct CeeSyslog {
    destination: String,
}

impl CeeSyslog {
    /// The path of the socket, as a model.
    pub closed spec fn target(&self) -> Seq<char> {
        self.destination@
    }

    /// A syslog sink for the socket at `destination`.
    pub fn new(destination: String) -> (r: CeeSyslog)
        ensures
            r.target() == destination@,
    {
        CeeSyslog { destination: destination }
    }

    /// The path of the socket.
    pub fn destination(&self) -> (r: &String)
        ensures
            r@ == self.target(),
    {
        &self.destination
    }

    /// What this sink sends for a message: its CEE frame, or nothing where
    /// the message cannot be encoded.
    pub fn frame(&self, name: &String, level: Level, pairs: &Context, pid: i32, at: &Moment) -> (r:
        Option<String>)
        ensures
            match r {
                Some(s) => cee_frame(name@, level, pairs@, pid as int, *at) == Some(s@),
                None => cee_frame(name@, level, pairs@, pid as int, *at) is None,
            },
    {
        to_cee_frame(name, level, pairs, pid, at)
    }
}

} // verus!
