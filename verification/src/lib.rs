//! Message framing for an LDAP connection.
//!
//! Frames are cut out of an accumulating byte buffer, taken apart into
//! message id, operation and controls, and put together again for the way
//! out; messages that arrive are routed to the requests that await them.
//!
//! - [`tag`]: the element tree that a frame parses into.
//! - [`integer`]: integers as content bytes, and back.
//! - [`controls`]: raw controls and their place on the wire.
//! - [`protocol`]: the codec and the delivery of replies.
//! - [`table`]: the table of requests that await a reply.
//! - [`laws`]: what holds of all of it together.
//! - [`ber`], [`buffer`]: the calls into the BER parser and writer and into
//!   the byte buffer, whose contracts are believed rather than proved.
//! - [`error`]: the codec's errors.

pub mod ber;
pub mod buffer;
pub mod controls;
pub mod error;
pub mod integer;
pub mod laws;
pub mod protocol;
pub mod table;
pub mod tag;
