//! The requests of a connection that await a reply.
//!
//! The task that owns the connection owns the table: it notes each request
//! as it is issued, and asks the table where each message that arrives is
//! to go. A request leaves the table when its reply has come, or when it
//! is abandoned.

use std::collections::HashMap;
use vstd::prelude::*;
use crate::protocol::{Delivery, Issue, LdapOp, Message, RequestId};

verus! {

/// The requests that await a reply, by message id.
pub struct OpTable {
    ops: HashMap<RequestId, LdapOp>,
}

impl View for OpTable {
    type V = Map<RequestId, LdapOp>;

    closed spec fn view(&self) -> Map<RequestId, LdapOp> {
        self.ops@
    }
}

/// The table after the request `op` was issued under `id`: a request that
/// awaits a reply is entered; one that abandons another takes that one
/// out; one that ends the connection changes nothing.
pub open spec fn issued(table: Map<RequestId, LdapOp>, id: RequestId, op: LdapOp) -> Map<
    RequestId,
    LdapOp,
> {
    match op {
        LdapOp::Single => table.insert(id, op),
        LdapOp::Search(_) => table.insert(id, op),
        LdapOp::Abandon(target) => table.remove(target),
        LdapOp::Unbind => table,
    }
}

/// What becomes of a message that arrives: what the request under its id
/// makes of it, and nothing where no request is there.
pub open spec fn arrival(table: Map<RequestId, LdapOp>, msg: Message) -> Delivery {
    if table.contains_key(msg.id) {
        table[msg.id].route_of(msg).delivery()
    } else {
        Delivery::Unclaimed(msg)
    }
}

impl OpTable {
    /// A table without requests.
    pub fn new() -> (t: OpTable)
        ensures
            t@ == Map::<RequestId, LdapOp>::empty(),
    {
        OpTable { ops: HashMap::new() }
    }

    /// Whether a reply to `id` is awaited.
    pub fn awaits(&self, id: RequestId) -> (b: bool)
        ensures
            b == self@.contains_key(id),
    {
        self.ops.contains_key(&id)
    }

    /// Notes the request `op`, issued under `id`. Returns whether the
    /// connection goes on: it ends with an unbind.
    pub fn issue(&mut self, id: RequestId, op: LdapOp) -> (open: bool)
        ensures
            final(self)@ == issued(old(self)@, id, op),
            open == !(op is Unbind),
    {
        match op.on_issue() {
            Issue::Track => {
                self.ops.insert(id, op);
                true
            },
            Issue::Forget(target) => {
                self.ops.remove(&target);
                true
            },
            Issue::Close => false,
        }
    }

    /// Delivers a message that arrived to the request under its id. The
    /// request stays in the table while its items come, and leaves it with
    /// its reply.
    pub fn arrived(&mut self, msg: Message) -> (d: Delivery)
        ensures
            d == arrival(old(self)@, msg),
            final(self)@ == (if d.keeps_entry() {
                old(self)@
            } else {
                old(self)@.remove(msg.id)
            }),
    {
        let id = msg.id;
        let d = match self.ops.get(&id) {
            Some(op) => op.deliver(msg),
            None => {
                return Delivery::Unclaimed(msg);
            },
        };
        if !d.keeps() {
            self.ops.remove(&id);
        }
        d
    }
}

} // verus!
