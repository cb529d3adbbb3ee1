//! The outside types that a connection carries through and never looks
//! into.

use vstd::prelude::*;

verus! {

/// `capnp::message::ReaderOptions`: the limits under which the codec reads
/// a message. A connection keeps them and hands them to each read.
#[verifier::external_type_specification]
#[verifier::external_body]
pub struct ExReaderOptions(capnp::message::ReaderOptions);

/// `futures::sync::oneshot::Sender`: the sending end of a channel for one
/// value. A connection keeps the one on which it tells that it is gone.
#[verifier::external_type_specification]
#[verifier::external_body]
#[verifier::reject_recursive_types(T)]
pub struct ExSignalSender<T>(futures::sync::oneshot::Sender<T>);

} // verus!
