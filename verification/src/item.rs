//! A single cache entry: a stored object together with its expiry.
//!
//! An entry's expiry is fixed at construction. An entry built without a
//! duration never expires; one built with a duration expires once strictly
//! more time than that duration has passed since construction. The check
//! against the clock is split in two: `expired_after` decides from a given
//! elapsed time and is verified exactly, while `expired` feeds it a fresh
//! reading of the monotonic clock.

use vstd::prelude::*;

use crate::time::Duration;
use crate::time::monotonic_now;
use crate::time::nanos_since;

verus! {

/// When an entry built with a time-to-live runs out: `ttl` nanoseconds
/// after the instant `start`.
#[derive(Clone, Copy)]
pub(crate) struct Deadline {
    pub(crate) start: std::time::Instant,
    pub(crate) ttl: u128,
}

/// A stored object together with its expiry. `None` for the expiry means
/// the entry never expires.
#[derive(Clone)]
pub struct Item<T> {
    pub object: T,
    pub(crate) expiry: Option<Deadline>,
}

/// What an `Item` is mathematically: the stored object and the entry's
/// time-to-live in nanoseconds, where `None` means it never expires. The
/// instant the entry was created at is deliberately absent: no contract
/// may depend on when the clock was read.
pub ghost struct ItemView<T> {
    pub object: T,
    pub ttl: Option<u128>,
}

impl<T> View for Item<T> {
    type V = ItemView<T>;

    closed spec fn view(&self) -> ItemView<T> {
        ItemView {
            object: self.object,
            ttl: match self.expiry {
                None => None,
                Some(d) => Some(d.ttl),
            },
        }
    }
}

/// The time-to-live, in nanoseconds, that a given optional duration asks
/// for; `None` asks for an entry that never expires.
pub open spec fn ttl_of(duration: Option<Duration>) -> Option<u128> {
    match duration {
        None => None,
        Some(d) => Some(d@),
    }
}

/// Whether an entry with the given time-to-live is expired once `elapsed`
/// nanoseconds have passed since its construction. The boundary is strict:
/// an entry with a time-to-live of zero is expired only after a non-zero
/// wait.
pub open spec fn is_expired_after(ttl: Option<u128>, elapsed: u128) -> bool {
    match ttl {
        None => false,
        Some(t) => elapsed > t,
    }
}

impl<T> Item<T> {
    /// Creates a new cache item. With a duration of `None` the item never
    /// expires; otherwise it expires once the duration has passed, counted
    /// from now.
    pub fn new(object: T, item_duration: Option<Duration>) -> (item: Item<T>)
        ensures
            item@.object == object,
            item@.ttl == ttl_of(item_duration),
    {
        let expiry = match item_duration {
            None => None,
            Some(d) => Some(Deadline { start: monotonic_now(), ttl: d.as_nanos() }),
        };
        Item { object, expiry }
    }

    /// Whether the item is expired once `elapsed` nanoseconds have passed
    /// since its construction.
    pub fn expired_after(&self, elapsed: u128) -> (r: bool)
        ensures
            r == is_expired_after(self@.ttl, elapsed),
    {
        match &self.expiry {
            None => false,
            Some(d) => elapsed > d.ttl,
        }
    }

    /// Returns true if the item has expired. The answer depends on the
    /// clock, so only the clock-free half is promised: an item without a
    /// time-to-live is never expired.
    pub fn expired(&self) -> (r: bool)
        ensures
            self@.ttl is None ==> !r,
            r ==> self@.ttl is Some,
    {
        match &self.expiry {
            None => false,
            Some(d) => {
                let elapsed = nanos_since(&d.start);
                self.expired_after(elapsed)
            },
        }
    }
}

/// An entry without a time-to-live is not expired after any elapsed time
/// whatsoever: setting a value into a cache whose default duration is
/// `None`, with no per-call duration, yields an entry that stays visible.
pub proof fn lemma_no_ttl_never_expires(elapsed: u128)
    ensures
        !is_expired_after(None, elapsed),
{
}

/// An entry with a time-to-live of zero is expired after any non-zero
/// wait.
pub proof fn lemma_zero_ttl_expires(elapsed: u128)
    requires
        elapsed > 0,
    ensures
        is_expired_after(Some(0u128), elapsed),
{
}

} // verus!
