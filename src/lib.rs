//! The protocol layer of a peer-to-peer chat over a replicated document.
//!
//! - `message`: the messages and their byte encoding.
//! - `entry`: the document entries this layer writes.
//! - `names`: where display names are kept and how a lookup resolves.
//! - `channel`: ordered keys for sent messages, and the ticket announcement.
//! - `receive`: the update-stream state machine with its bounded retry.
//! - `session`: what a typed line does and how a message is shown.
use vstd::prelude::*;

pub mod channel;
pub mod entry;
pub mod message;
pub mod names;
pub mod receive;
pub mod session;

verus! {

/// The working directory in which the peer-to-peer engine keeps its keys and stores.
pub fn get_directory() -> (r: &'static str)
    ensures
        r@ == ".iroh-dir"@,
{
    ".iroh-dir"
}

} // verus!
