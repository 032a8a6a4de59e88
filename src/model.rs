use vstd::prelude::*;

verus! {

/// A UTC instant: whole seconds since the Unix epoch and the nanoseconds past them.
#[derive(Clone, Copy, Debug, PartialEq, Eq, Structural)]
pub struct Timestamp {
    pub secs: i64,
    pub nanos: u32,
}

/// Whether instant `a` comes strictly before instant `b`.
pub open spec fn before(a: Timestamp, b: Timestamp) -> bool {
    a.secs < b.secs || (a.secs == b.secs && a.nanos < b.nanos)
}

impl Timestamp {
    /// Whether this instant comes strictly before `other`.
    pub fn is_before(&self, other: &Timestamp) -> (r: bool)
        ensures
            r == before(*self, *other),
    {
        self.secs < other.secs || (self.secs == other.secs && self.nanos < other.nanos)
    }
}

/// A registered account: its name (the user store's key), a stable unique id,
/// the bcrypt digest of its password, and a free-form role.
#[derive(Clone, Debug)]
pub struct UserAccount {
    pub username: String,
    pub uuid: String,
    pub pass_hash: String,
    pub server_role: String,
}

impl UserAccount {
    /// A copy of this account, equal to it field by field.
    pub fn duplicate(&self) -> (r: UserAccount)
        ensures
            r == *self,
    {
        UserAccount {
            username: self.username.clone(),
            uuid: self.uuid.clone(),
            pass_hash: self.pass_hash.clone(),
            server_role: self.server_role.clone(),
        }
    }
}

/// One chat line as sent: when, by whom, and its raw bytes.
#[derive(Clone, Debug)]
pub struct MessageData {
    pub timestamp: Timestamp,
    pub username: String,
    pub message: Vec<u8>,
}

} // verus!
