//! The readiness bookkeeping of the reactor.
//!
//! Each socket registered with the reactor has a source with two
//! directions, read and write. For each direction the source remembers
//! whether the event loop has seen it ready (`triggered`) and the waker of
//! the task that waits for it. A task polls a direction: a triggered
//! direction is ready; otherwise the task's waker is registered and the task
//! waits. An event marks its directions triggered and hands out their
//! wakers, to be woken. An operation that would block clears the trigger of
//! its direction.
//!
//! The event loop, the sockets and the locks that protect a source live
//! outside the crate and call these methods. A task's poll holds the
//! source's lock from the check of the trigger to the registration of its
//! waker, so an event cannot fall between the two.

use vstd::prelude::*;

verus! {

/// The read direction of a source.
pub const READ: usize = 0;

/// The write direction of a source.
pub const WRITE: usize = 1;

/// The readiness state of one socket, for its two directions. `W` is the
/// type of the wakers of waiting tasks.
pub struct Source<W> {
    read_waker: Option<W>,
    write_waker: Option<W>,
    read_triggered: bool,
    write_triggered: bool,
}

/// What the next poll of a direction returns.
#[derive(Debug, PartialEq, Eq, Structural)]
pub enum Readiness {
    /// The direction is ready: the operation may be tried.
    Ready,
    /// The direction is not ready: the task waits for its waker.
    Pending,
}

impl<W> Source<W> {
    /// Whether direction `dir` has been seen ready and not cleared since.
    pub closed spec fn triggered(&self, dir: usize) -> bool {
        if dir == READ {
            self.read_triggered
        } else {
            self.write_triggered
        }
    }

    /// The waker registered for direction `dir`, if any.
    pub closed spec fn waker(&self, dir: usize) -> Option<W> {
        if dir == READ {
            self.read_waker
        } else {
            self.write_waker
        }
    }

    /// The two directions other than `dir` keep their state: `other` differs
    /// from `self` in direction `dir` at most.
    pub open spec fn same_except(&self, other: Self, dir: usize) -> bool {
        forall|d: usize|
            #![trigger other.triggered(d)]
            #![trigger other.waker(d)]
            d < 2 && d != dir ==> other.triggered(d) == self.triggered(d) && other.waker(d)
                == self.waker(d)
    }

    /// A new source: no direction triggered, no waker registered.
    pub fn new() -> (s: Self)
        ensures
            !s.triggered(READ),
            !s.triggered(WRITE),
            s.waker(READ) is None,
            s.waker(WRITE) is None,
    {
        Source { read_waker: None, write_waker: None, read_triggered: false, write_triggered: false }
    }

    /// Whether direction `dir` is triggered.
    pub fn is_triggered(&self, dir: usize) -> (b: bool)
        requires
            dir < 2,
        ensures
            b == self.triggered(dir),
    {
        if dir == READ {
            self.read_triggered
        } else {
            self.write_triggered
        }
    }

    /// The waker registered for direction `dir`, if any.
    pub fn registered_waker(&self, dir: usize) -> (w: Option<&W>)
        requires
            dir < 2,
        ensures
            match self.waker(dir) {
                Some(x) => w == Some(&x),
                None => w is None,
            },
    {
        if dir == READ {
            self.read_waker.as_ref()
        } else {
            self.write_waker.as_ref()
        }
    }

    /// Polls direction `dir` for a task.
    ///
    /// A triggered direction is ready and nothing changes. Otherwise the
    /// direction is pending; `new_waker` is the task's waker, or `None` where
    /// the registered waker already wakes that task, and a waker that is
    /// given replaces the registered one.
    pub fn poll_ready(&mut self, dir: usize, new_waker: Option<W>) -> (r: Readiness)
        requires
            dir < 2,
        ensures
            old(self).triggered(dir) ==> r == Readiness::Ready && *final(self) == *old(self),
            !old(self).triggered(dir) ==> {
                &&& r == Readiness::Pending
                &&& !final(self).triggered(dir)
                &&& final(self).waker(dir) == (match new_waker {
                    Some(w) => Some(w),
                    None => old(self).waker(dir),
                })
                &&& old(self).same_except(*final(self), dir)
            },
    {
        if self.is_triggered(dir) {
            return Readiness::Ready;
        }
        if let Some(w) = new_waker {
            if dir == READ {
                self.read_waker = Some(w);
            } else {
                self.write_waker = Some(w);
            }
        }
        Readiness::Pending
    }

    /// Takes the waker of direction `dir` and marks the direction triggered.
    fn trigger(&mut self, dir: usize, wakers: &mut Vec<W>)
        requires
            dir < 2,
        ensures
            final(self).triggered(dir),
            final(self).waker(dir) is None,
            old(self).same_except(*final(self), dir),
            final(wakers)@ == (match old(self).waker(dir) {
                Some(w) => old(wakers)@.push(w),
                None => old(wakers)@,
            }),
    {
        let taken = if dir == READ {
            self.read_triggered = true;
            self.read_waker.take()
        } else {
            self.write_triggered = true;
            self.write_waker.take()
        };
        if let Some(w) = taken {
            wakers.push(w);
        }
    }

    /// Records an event of the event loop on this source.
    ///
    /// A readable event marks the read direction triggered and hands out its
    /// waker; a writable event does the same for the write direction. The
    /// wakers handed out are appended to `wakers`, read before write.
    pub fn record_event(&mut self, readable: bool, writable: bool, wakers: &mut Vec<W>)
        ensures
            final(self).triggered(READ) == (old(self).triggered(READ) || readable),
            final(self).triggered(WRITE) == (old(self).triggered(WRITE) || writable),
            final(self).waker(READ) == (if readable {
                None
            } else {
                old(self).waker(READ)
            }),
            final(self).waker(WRITE) == (if writable {
                None
            } else {
                old(self).waker(WRITE)
            }),
            final(wakers)@ == old(wakers)@ + woken(old(self).waker(READ), readable) + woken(
                old(self).waker(WRITE),
                writable,
            ),
    {
        let ghost w0 = wakers@;
        if readable {
            self.trigger(READ, wakers);
        }
        let ghost w1 = wakers@;
        let ghost s1 = *self;
        assert(w1 =~= w0 + woken(old(self).waker(READ), readable));
        assert(s1.waker(WRITE) == old(self).waker(WRITE));
        if writable {
            self.trigger(WRITE, wakers);
        }
        assert(self.waker(READ) == s1.waker(READ));
        assert(self.triggered(READ) == s1.triggered(READ));
        assert(wakers@ =~= w0 + woken(old(self).waker(READ), readable) + woken(
            old(self).waker(WRITE),
            writable,
        ));
    }

    /// Clears the trigger of direction `dir`: the next poll registers and
    /// waits.
    pub fn clear_trigger(&mut self, dir: usize)
        requires
            dir < 2,
        ensures
            !final(self).triggered(dir),
            final(self).waker(dir) == old(self).waker(dir),
            old(self).same_except(*final(self), dir),
    {
        if dir == READ {
            self.read_triggered = false;
        } else {
            self.write_triggered = false;
        }
    }

    /// Goes on after an operation in direction `dir` was tried on a ready
    /// direction: an operation that would block clears the trigger and the
    /// task waits; any other outcome is handed to the task.
    pub fn after_attempt(&mut self, dir: usize, would_block: bool) -> (r: Readiness)
        requires
            dir < 2,
        ensures
            would_block ==> {
                &&& r == Readiness::Pending
                &&& !final(self).triggered(dir)
                &&& final(self).waker(dir) == old(self).waker(dir)
                &&& old(self).same_except(*final(self), dir)
            },
            !would_block ==> r == Readiness::Ready && *final(self) == *old(self),
    {
        if would_block {
            self.clear_trigger(dir);
            Readiness::Pending
        } else {
            Readiness::Ready
        }
    }
}

/// The reactor's table of registered sources, keyed by token, and the
/// counter that hands out tokens. `V` is the type of the entries.
pub struct SourceTable<V> {
    sources: std::collections::HashMap<usize, V>,
    next: usize,
}

impl<V> SourceTable<V> {
    /// The registered entries by token.
    pub closed spec fn entries(&self) -> Map<usize, V> {
        self.sources@
    }

    /// The token that the counter hands out next.
    pub closed spec fn next_token(&self) -> usize {
        self.next
    }

    /// Every registered token was handed out before the counter's current
    /// value, so the counter's next token is not in use.
    pub open spec fn tokens_fresh(&self) -> bool {
        forall|t: usize| #[trigger] self.entries().dom().contains(t) ==> t < self.next_token()
    }

    /// An empty table whose counter starts at 0.
    pub fn new() -> (table: Self)
        ensures
            table.entries() == Map::<usize, V>::empty(),
            table.next_token() == 0,
            table.tokens_fresh(),
    {
        SourceTable { sources: std::collections::HashMap::new(), next: 0 }
    }

    /// Hands out the next token; the counter wraps around after
    /// `usize::MAX`. Until it wraps, the token is not in use.
    pub fn allocate_token(&mut self) -> (token: usize)
        ensures
            token == old(self).next_token(),
            final(self).entries() == old(self).entries(),
            final(self).next_token() == (if old(self).next_token() < usize::MAX {
                (old(self).next_token() + 1) as usize
            } else {
                0usize
            }),
            old(self).tokens_fresh() && old(self).next_token() < usize::MAX ==> {
                &&& !old(self).entries().dom().contains(token)
                &&& final(self).tokens_fresh()
            },
    {
        let token = self.next;
        self.next = self.next.wrapping_add(1);
        proof {
            if old(self).tokens_fresh() && old(self).next_token() < usize::MAX {
                assert forall|t: usize| #[trigger]
                    self.entries().dom().contains(t) implies t < self.next_token() by {
                    assert(old(self).entries().dom().contains(t));
                }
            }
        }
        token
    }

    /// Registers `entry` under `token`, replacing an entry of that token.
    pub fn insert(&mut self, token: usize, entry: V)
        ensures
            final(self).entries() == old(self).entries().insert(token, entry),
            final(self).next_token() == old(self).next_token(),
            old(self).tokens_fresh() && token < old(self).next_token() ==> final(self).tokens_fresh(),
    {
        broadcast use vstd::std_specs::hash::group_hash_axioms;

        self.sources.insert(token, entry);
        proof {
            if old(self).tokens_fresh() && token < old(self).next_token() {
                assert forall|t: usize| #[trigger]
                    self.entries().dom().contains(t) implies t < self.next_token() by {
                    if t != token {
                        assert(old(self).entries().dom().contains(t));
                    }
                }
            }
        }
    }

    /// The entry registered under `token`, if any.
    pub fn get(&self, token: usize) -> (entry: Option<&V>)
        ensures
            match entry {
                Some(e) => self.entries().dom().contains(token) && *e == self.entries()[token],
                None => !self.entries().dom().contains(token),
            },
    {
        broadcast use vstd::std_specs::hash::group_hash_axioms;

        self.sources.get(&token)
    }

    /// Removes the entry registered under `token`, if any.
    pub fn remove(&mut self, token: usize) -> (entry: Option<V>)
        ensures
            final(self).entries() == old(self).entries().remove(token),
            final(self).next_token() == old(self).next_token(),
            match entry {
                Some(e) => old(self).entries().dom().contains(token) && e == old(self).entries()[token],
                None => !old(self).entries().dom().contains(token),
            },
            old(self).tokens_fresh() ==> final(self).tokens_fresh(),
    {
        broadcast use vstd::std_specs::hash::group_hash_axioms;

        let entry = self.sources.remove(&token);
        proof {
            if old(self).tokens_fresh() {
                assert forall|t: usize| #[trigger]
                    self.entries().dom().contains(t) implies t < self.next_token() by {
                    assert(old(self).entries().dom().contains(t));
                }
            }
        }
        entry
    }

    /// Whether no source is registered.
    pub fn is_empty(&self) -> (b: bool)
        ensures
            b == (self.entries().len() == 0),
    {
        broadcast use vstd::std_specs::hash::group_hash_axioms;

        self.sources.len() == 0
    }
}

/// The wakers that an event hands out for one direction: the registered one
/// when the event concerns the direction.
pub open spec fn woken<W>(waker: Option<W>, event: bool) -> Seq<W> {
    match waker {
        Some(w) => if event {
            seq![w]
        } else {
            Seq::<W>::empty()
        },
        None => Seq::<W>::empty(),
    }
}

} // verus!
