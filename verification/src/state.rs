//! The shared value and its expiry.
use std::time::Duration;
use tokio::time::Instant;
use vstd::prelude::*;

verus! {

/// The clock reading taken when a value is stored.
#[verifier::external_type_specification]
#[verifier::external_body]
pub struct ExInstant(tokio::time::Instant);

/// Reads the clock: `tokio::time::Instant::now`.
/// The reading depends on the time, so nothing is stated of it.
#[verifier::external_body]
pub(crate) fn instant_now() -> (r: Instant) {
    Instant::now()
}

/// The time from `earlier` to `later`, or zero when `later` comes first:
/// `tokio::time::Instant::saturating_duration_since`.
pub uninterp spec fn instant_since(later: Instant, earlier: Instant) -> Duration;

/// `tokio::time::Instant::saturating_duration_since`: the time from `earlier` to
/// `later`, as named by `instant_since`.
#[verifier::external_body]
fn instant_saturating_since(later: &Instant, earlier: &Instant) -> (r: Duration)
    ensures
        r == instant_since(*later, *earlier),
{
    later.saturating_duration_since(*earlier)
}

/// The whole number of nanoseconds in a duration, `Duration::as_nanos`.
pub uninterp spec fn duration_nanos(d: Duration) -> u128;

/// `Duration::as_nanos`: the duration as a whole number of nanoseconds.
#[verifier::external_body]
fn duration_as_nanos(d: &Duration) -> (r: u128)
    ensures
        r == duration_nanos(*d),
{
    d.as_nanos()
}

/// The stored text, the moment it was stored (none while nothing is stored),
/// and how long a stored text lives, in nanoseconds.
pub struct State {
    value: String,
    created_at: Option<Instant>,
    ttl_nanos: u128,
}

impl State {
    /// A state holds a text only while it carries the moment the text was stored.
    #[verifier::type_invariant]
    spec fn inv(self) -> bool {
        self.created_at.is_none() ==> self.value@.len() == 0
    }

    /// The text that the state holds.
    pub closed spec fn value(self) -> Seq<char> {
        self.value@
    }

    /// The moment the text was stored, if any.
    pub closed spec fn stamp(self) -> Option<Instant> {
        self.created_at
    }

    /// Whether the state carries the moment its text was stored.
    pub open spec fn is_stamped(self) -> bool {
        self.stamp().is_some()
    }

    /// How long a stored text lives, in nanoseconds.
    pub closed spec fn ttl_nanos(self) -> u128 {
        self.ttl_nanos
    }

    /// An unstamped state holds the empty text.
    pub open spec fn consistent(self) -> bool {
        !self.is_stamped() ==> self.value().len() == 0
    }

    /// The state that expiry leaves: nothing stored, nothing stamped, same time-to-live.
    pub open spec fn is_cleared_from(self, before: State) -> bool {
        &&& self.value().len() == 0
        &&& !self.is_stamped()
        &&& self.ttl_nanos() == before.ttl_nanos()
    }

    /// What a write of `v` leaves: `v` stored and stamped, same time-to-live.
    pub open spec fn is_set_from(self, before: State, v: Seq<char>) -> bool {
        &&& self.value() == v
        &&& self.is_stamped()
        &&& self.ttl_nanos() == before.ttl_nanos()
    }

    /// What a write of `v` at the clock reading `now` leaves: `v` stored and
    /// stamped with `now`, same time-to-live.
    pub open spec fn is_set_at(self, before: State, v: Seq<char>, now: Instant) -> bool {
        &&& self.is_set_from(before, v)
        &&& self.stamp() == Some(now)
    }

    /// What an expiry check with the answer `expired` leaves: a stamped state whose
    /// time has come is cleared, any other is kept as it is.
    pub open spec fn is_expired_from(self, before: State, expired: bool) -> bool {
        if before.is_stamped() && expired {
            self.is_cleared_from(before)
        } else {
            self == before
        }
    }

    /// Whether a text stored `elapsed` nanoseconds ago has outlived the time-to-live:
    /// it has once the time-to-live has passed, to the nanosecond.
    pub open spec fn outlived(self, elapsed: u128) -> bool {
        elapsed >= self.ttl_nanos()
    }

    /// Whether, at the clock reading `now`, the stored text has outlived the
    /// time-to-live, counted from its stamp; a state with no stamp never has.
    pub open spec fn outlived_at(self, now: Instant) -> bool {
        match self.stamp() {
            Some(ts) => self.outlived(duration_nanos(instant_since(now, ts))),
            None => false,
        }
    }

    /// A new state with nothing stored.
    pub fn new(ttl: Duration) -> (r: State)
        ensures
            r.value().len() == 0,
            !r.is_stamped(),
            r.ttl_nanos() == duration_nanos(ttl),
            r.consistent(),
    {
        let ttl_nanos = duration_as_nanos(&ttl);
        State { value: String::new(), created_at: None, ttl_nanos }
    }

    /// The stored text.
    pub fn get(&self) -> (r: &String)
        ensures
            r@ == self.value(),
    {
        &self.value
    }

    /// Stores `new_value` and stamps it with the clock reading `now`.
    pub fn set_at(&mut self, new_value: String, now: Instant)
        ensures
            final(self).is_set_at(*old(self), new_value@, now),
            final(self).consistent(),
    {
        self.created_at = Some(now);
        self.value = new_value;
    }

    /// Stores `new_value` and stamps it with the current time.
    pub fn set(&mut self, new_value: String)
        ensures
            final(self).is_set_from(*old(self), new_value@),
            final(self).consistent(),
    {
        let now = instant_now();
        self.set_at(new_value, now);
    }

    fn clear(&mut self)
        ensures
            final(self).is_cleared_from(*old(self)),
    {
        self.value = String::new();
        self.created_at = None;
    }

    /// Clears the state when it is stamped and its text was stored `elapsed`
    /// nanoseconds ago, at least the time-to-live; otherwise keeps it as it is.
    pub fn expire_after(&mut self, elapsed: u128)
        ensures
            final(self).is_expired_from(*old(self), old(self).outlived(elapsed)),
            final(self).consistent(),
    {
        proof {
            use_type_invariant(&*self);
        }
        let stamped = self.created_at.is_some();
        if stamped && elapsed >= self.ttl_nanos {
            self.clear();
        }
    }

    /// Clears the state when, at the clock reading `now`, its text was stored at
    /// least the time-to-live ago.
    pub fn clear_if_expired_at(&mut self, now: Instant)
        ensures
            final(self).is_expired_from(*old(self), old(self).outlived_at(now)),
            final(self).consistent(),
    {
        proof {
            use_type_invariant(&*self);
        }
        match &self.created_at {
            Some(ts) => {
                let passed = instant_saturating_since(&now, ts);
                let elapsed = duration_as_nanos(&passed);
                self.expire_after(elapsed);
            },
            None => {},
        }
    }

    /// Clears the state when its text was stored at least the time-to-live ago,
    /// measured from its stamp to the clock reading taken during the call.
    pub fn clear_if_expired(&mut self)
        ensures
            exists|now: Instant|
                final(self).is_expired_from(*old(self), #[trigger] old(self).outlived_at(now)),
            final(self).consistent(),
    {
        let now = instant_now();
        self.clear_if_expired_at(now);
    }
}

} // verus!

verus! {

/// Reading the state after a write of `v` at `now` gives back `v`, stamped `now`.
pub proof fn law_read_after_write(before: State, after: State, v: Seq<char>, now: Instant)
    requires
        after.is_set_at(before, v, now),
    ensures
        after.value() == v,
        after.stamp() == Some(now),
{
}

/// Expiry counts from the latest write: a second write replaces the first one's stamp.
pub proof fn law_expiry_counts_from_latest_write(
    s0: State,
    s1: State,
    s2: State,
    v1: Seq<char>,
    v2: Seq<char>,
    t1: Instant,
    t2: Instant,
)
    requires
        s1.is_set_at(s0, v1, t1),
        s2.is_set_at(s1, v2, t2),
    ensures
        s2.stamp() == Some(t2),
        s2.value() == v2,
        s2.ttl_nanos() == s0.ttl_nanos(),
{
}

/// A check at `now` clears a stamped text exactly when the time from its stamp to
/// `now` reaches the time-to-live.
pub proof fn law_check_at_counts_from_stamp(before: State, after: State, now: Instant, ts: Instant)
    requires
        before.stamp() == Some(ts),
        after.is_expired_from(before, before.outlived_at(now)),
    ensures
        duration_nanos(instant_since(now, ts)) >= before.ttl_nanos() ==> after.is_cleared_from(
            before,
        ),
        duration_nanos(instant_since(now, ts)) < before.ttl_nanos() ==> after == before,
{
}

/// A stamped text stored at least the time-to-live ago is cleared.
pub proof fn law_outlived_text_is_cleared(before: State, after: State, elapsed: u128)
    requires
        before.is_stamped(),
        elapsed >= before.ttl_nanos(),
        after.is_expired_from(before, before.outlived(elapsed)),
    ensures
        after.is_cleared_from(before),
{
}

/// A text stored less than the time-to-live ago is kept as it is.
pub proof fn law_young_text_is_kept(before: State, after: State, elapsed: u128)
    requires
        elapsed < before.ttl_nanos(),
        after.is_expired_from(before, before.outlived(elapsed)),
    ensures
        after == before,
{
}

/// With a zero time-to-live every stamped text is cleared, whatever time has passed.
pub proof fn law_zero_ttl_always_clears(before: State, after: State, elapsed: u128)
    requires
        before.is_stamped(),
        before.ttl_nanos() == 0,
        after.is_expired_from(before, before.outlived(elapsed)),
    ensures
        after.is_cleared_from(before),
{
}

/// Expiry is monotone in the time passed: if a check after `e1` clears, a check
/// after any `e2 >= e1` clears too.
pub proof fn law_expiry_is_monotone(
    before: State,
    a1: State,
    a2: State,
    e1: u128,
    e2: u128,
)
    requires
        e1 <= e2,
        before.is_stamped(),
        a1.is_expired_from(before, before.outlived(e1)),
        a2.is_expired_from(before, before.outlived(e2)),
        a1.is_cleared_from(before),
    ensures
        a2.is_cleared_from(before),
{
}

/// An expiry check either keeps the state as it is or clears it, and never
/// changes the time-to-live.
pub proof fn law_expiry_only_clears(before: State, after: State, expired: bool)
    requires
        after.is_expired_from(before, expired),
    ensures
        after == before || after.is_cleared_from(before),
        after.ttl_nanos() == before.ttl_nanos(),
{
}

/// A state that holds nothing stamped is never changed by an expiry check.
pub proof fn law_unstamped_is_kept(before: State, after: State, expired: bool)
    requires
        !before.is_stamped(),
        after.is_expired_from(before, expired),
    ensures
        after == before,
{
}

/// Once cleared, a state stays as it is under any later expiry check.
pub proof fn law_clear_is_final(before: State, cleared: State, after: State, expired: bool)
    requires
        cleared.is_cleared_from(before),
        after.is_expired_from(cleared, expired),
    ensures
        after == cleared,
        after.value().len() == 0,
{
}

} // verus!
