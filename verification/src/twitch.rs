//! Messages of the (yet unconnected) chat protocol session.

use vstd::prelude::*;

verus! {

/// A message travelling between the UI and a chat protocol session.
#[derive(Clone, Debug)]
pub enum Message {
    Connected,
    Disconnected,
    User(String),
}

} // verus!
