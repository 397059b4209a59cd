//! Per-user allocator state: a monotonically increasing order-id counter.

use vstd::prelude::*;

use crate::errors::CreateError;

verus! {

/// Per-user allocator record. `last_id` is the identifier handed to the most
/// recently admitted order of this user, or 0 if the user has none yet.
/// Identifiers only increase, by exactly 1 per admitted order, and allocation
/// fails rather than wraps when the counter is exhausted.
#[derive(Clone, Copy, PartialEq, Eq, Structural, Debug)]
pub struct UserConfig {
    pub last_id: u64,
}

impl Default for UserConfig {
    /// A fresh user starts with no identifier issued.
    fn default() -> (r: UserConfig)
        ensures
            r.last_id == 0,
    {
        UserConfig { last_id: 0 }
    }
}

impl UserConfig {
    /// The identifier the next admitted order of this user will receive,
    /// as an unbounded integer (so it is meaningful even at the counter's cap).
    pub open spec fn next_id(self) -> int {
        self.last_id + 1
    }

    /// Whether another identifier can still be issued to this user.
    pub open spec fn can_allocate(self) -> bool {
        self.last_id < u64::MAX
    }

    /// Mints the next identifier: returns it together with the successor
    /// config to persist, or fails when the counter would wrap.
    pub fn allocate_id(&self) -> (r: Result<(u64, UserConfig), CreateError>)
        ensures
            self.can_allocate() ==> r == Ok::<(u64, UserConfig), CreateError>(
                ((self.last_id + 1) as u64, UserConfig { last_id: (self.last_id + 1) as u64 }),
            ),
            !self.can_allocate() ==> r == Err::<(u64, UserConfig), CreateError>(
                CreateError::CounterOverflow,
            ),
    {
        if self.last_id < u64::MAX {
            let id: u64 = self.last_id + 1;
            Ok((id, UserConfig { last_id: id }))
        } else {
            Err(CreateError::CounterOverflow)
        }
    }
}

} // verus!
