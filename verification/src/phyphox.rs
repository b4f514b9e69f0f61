//! The client under the name that programs written against sensors use.

use crate::client::PhyphoxClient;
use vstd::prelude::*;

verus! {

/// A connection to the experiment server.
///
/// This is [`PhyphoxClient`] itself: whatever is registered or retrieved
/// under one name is seen under the other.
pub type Phyphox = PhyphoxClient;

} // verus!
