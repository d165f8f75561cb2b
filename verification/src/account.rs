use vstd::prelude::*;
use crate::identity::Identity;

verus! {

/// One account record as handed in by the host for a single invocation: the
/// identity holding write authorization over the account, and the account's
/// persisted data region. The host owns the record between invocations; the
/// handler only mutates the data region in place.
#[derive(Debug)]
pub struct AccountRecord {
    /// The identity recorded as having exclusive write authorization.
    pub owner: Identity,
    /// The account's persisted byte buffer.
    pub data: Vec<u8>,
}

impl AccountRecord {
    /// Build a record from its owner and its persisted bytes.
    pub fn new(owner: Identity, data: Vec<u8>) -> (r: AccountRecord)
        ensures
            r.owner == owner,
            r.data == data,
    {
        AccountRecord { owner, data }
    }
}

} // verus!
