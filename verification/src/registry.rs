//! Registry: the admin principal and the allocator allow-list.
//!
//! A single source of truth for who administers the core and which principals
//! may move commitment funds into and out of external pools.  The flag list
//! mirrors a per-principal authorization flag store; its keys are unique.

use vstd::prelude::*;

verus! {

/// One principal's allocator-authorization flag.
#[derive(Clone, Copy, Debug, PartialEq, Eq, Structural)]
pub struct AllocatorFlag {
    pub allocator: u64,
    pub authorized: bool,
}

/// Admin principal, auxiliary token-service reference, and the allocator
/// allow-list.  `admin` is set once at initialization and never reassigned.
pub struct Registry {
    pub admin: Option<u64>,
    pub nft_service: u64,
    pub allocators: Vec<AllocatorFlag>,
}

impl Registry {
    /// The flag list names each principal at most once.
    pub open spec fn wf(self) -> bool {
        forall|i: int, j: int|
            0 <= i < j < self.allocators@.len() ==> self.allocators@[i].allocator
                != self.allocators@[j].allocator
    }

    /// One-time setup has happened.
    pub open spec fn is_initialized(self) -> bool {
        self.admin is Some
    }

    /// Whether `allocator` currently carries a `true` authorization flag;
    /// unknown principals default to unauthorized.
    pub open spec fn spec_is_allocator(self, allocator: u64) -> bool {
        exists|i: int|
            0 <= i < self.allocators@.len() && self.allocators@[i].allocator == allocator
                && self.allocators@[i].authorized
    }

    /// An uninitialized registry with no admin and an empty allow-list.
    pub fn new() -> (r: Registry)
        ensures
            r.admin is None,
            r.nft_service == 0,
            r.allocators@.len() == 0,
            r.wf(),
            forall|x: u64| !r.spec_is_allocator(x),
    {
        Registry { admin: None, nft_service: 0, allocators: Vec::new() }
    }

    /// Pure read of a principal's authorization flag.
    pub fn is_authorized_allocator(&self, allocator: u64) -> (r: bool)
        requires
            self.wf(),
        ensures
            r == self.spec_is_allocator(allocator),
    {
        let n: usize = self.allocators.len();
        let mut i: usize = 0;
        while i < n
            invariant
                self.wf(),
                n == self.allocators@.len(),
                0 <= i <= n,
                forall|j: int| 0 <= j < i ==> self.allocators@[j].allocator != allocator,
            decreases n - i,
        {
            let f: AllocatorFlag = self.allocators[i];
            if f.allocator == allocator {
                proof {
                    if f.authorized {
                        assert(self.spec_is_allocator(allocator)) by {
                            assert(self.allocators@[i as int].authorized);
                        }
                    } else {
                        assert(!self.spec_is_allocator(allocator)) by {
                            assert forall|w: int|
                                0 <= w < self.allocators@.len() && self.allocators@[w].allocator
                                    == allocator implies !self.allocators@[w].authorized by {
                                if w < i {
                                    assert(self.allocators@[w].allocator
                                        != self.allocators@[i as int].allocator);
                                } else if w > i {
                                    assert(self.allocators@[i as int].allocator
                                        != self.allocators@[w].allocator);
                                }
                            }
                        }
                    }
                }
                return f.authorized;
            }
            i = i + 1;
        }
        false
    }

    /// Writes a principal's authorization flag, keeping every other
    /// principal's flag as it was.  Idempotent: writing the value a flag
    /// already has changes nothing observable.
    pub fn set_authorized_allocator(&mut self, allocator: u64, authorized: bool)
        requires
            old(self).wf(),
        ensures
            final(self).wf(),
            final(self).admin == old(self).admin,
            final(self).nft_service == old(self).nft_service,
            forall|x: u64|
                final(self).spec_is_allocator(x) == if x == allocator {
                    authorized
                } else {
                    old(self).spec_is_allocator(x)
                },
    {
        let n: usize = self.allocators.len();
        let mut i: usize = 0;
        while i < n
            invariant
                *self == *old(self),
                self.wf(),
                n == self.allocators@.len(),
                0 <= i <= n,
                forall|j: int| 0 <= j < i ==> self.allocators@[j].allocator != allocator,
            decreases n - i,
        {
            if self.allocators[i].allocator == allocator {
                self.allocators.set(i, AllocatorFlag { allocator, authorized });
                proof {
                    assert(self.wf()) by {
                        assert forall|p: int, q: int|
                            0 <= p < q < self.allocators@.len() implies self.allocators@[p].allocator
                            != self.allocators@[q].allocator by {
                            assert(old(self).allocators@[p].allocator != old(
                                self,
                            ).allocators@[q].allocator);
                        }
                    }
                    assert forall|x: u64| x != allocator implies self.spec_is_allocator(x) == old(
                        self,
                    ).spec_is_allocator(x) by {
                        if old(self).spec_is_allocator(x) {
                            let w = choose|w: int|
                                0 <= w < old(self).allocators@.len() && old(
                                    self,
                                ).allocators@[w].allocator == x && old(
                                    self,
                                ).allocators@[w].authorized;
                            assert(self.allocators@[w].allocator == x);
                        }
                        if self.spec_is_allocator(x) {
                            let w = choose|w: int|
                                0 <= w < self.allocators@.len() && self.allocators@[w].allocator
                                    == x && self.allocators@[w].authorized;
                            assert(old(self).allocators@[w].allocator == x);
                        }
                    }
                    if authorized {
                        assert(self.spec_is_allocator(allocator)) by {
                            assert(self.allocators@[i as int].authorized);
                        }
                    } else {
                        assert(!self.spec_is_allocator(allocator)) by {
                            assert forall|w: int|
                                0 <= w < self.allocators@.len() && self.allocators@[w].allocator
                                    == allocator implies !self.allocators@[w].authorized by {
                                if w < i {
                                    assert(self.allocators@[w].allocator
                                        != self.allocators@[i as int].allocator);
                                } else if w > i {
                                    assert(self.allocators@[i as int].allocator
                                        != self.allocators@[w].allocator);
                                }
                            }
                        }
                    }
                }
                return ;
            }
            i = i + 1;
        }
        if authorized {
            self.allocators.push(AllocatorFlag { allocator, authorized: true });
            proof {
                assert(self.wf()) by {
                    assert forall|p: int, q: int|
                        0 <= p < q < self.allocators@.len() implies self.allocators@[p].allocator
                        != self.allocators@[q].allocator by {
                        if q == self.allocators@.len() - 1 {
                            assert(self.allocators@[p] == old(self).allocators@[p]);
                        } else {
                            assert(old(self).allocators@[p].allocator != old(
                                self,
                            ).allocators@[q].allocator);
                        }
                    }
                }
                assert forall|x: u64| x != allocator implies self.spec_is_allocator(x) == old(
                    self,
                ).spec_is_allocator(x) by {
                    if old(self).spec_is_allocator(x) {
                        let w = choose|w: int|
                            0 <= w < old(self).allocators@.len() && old(
                                self,
                            ).allocators@[w].allocator == x && old(self).allocators@[w].authorized;
                        assert(self.allocators@[w].allocator == x);
                    }
                    if self.spec_is_allocator(x) {
                        let w = choose|w: int|
                            0 <= w < self.allocators@.len() && self.allocators@[w].allocator == x
                                && self.allocators@[w].authorized;
                        assert(w < old(self).allocators@.len());
                        assert(old(self).allocators@[w].allocator == x);
                    }
                }
                assert(self.spec_is_allocator(allocator)) by {
                    let last: int = self.allocators@.len() - 1;
                    assert(self.allocators@[last].allocator == allocator);
                    assert(self.allocators@[last].authorized);
                }
            }
        } else {
            proof {
                assert(!self.spec_is_allocator(allocator)) by {
                    assert forall|w: int|
                        0 <= w < self.allocators@.len() && self.allocators@[w].allocator
                            == allocator implies !self.allocators@[w].authorized by {}
                }
            }
        }
    }
}

} // verus!
