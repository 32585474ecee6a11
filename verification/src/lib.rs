//! A fixed-size slot that holds zero or one deferred computations and can
//! itself be polled.
//!
//! [`MaybeFuture`] is a single type which may optionally contain a
//! computation. While the slot is `Empty`, polling it always reports
//! "not yet ready"; while it is `Holding`, polling delegates to the held
//! computation and reports whatever that computation reported. The slot never
//! changes variant on a poll: it is the caller who installs and clears
//! computations, and installing or clearing while one is held drops it.
//!
//! The slot's own poll is modelled as a step function: the caller polls the
//! held computation (if any) and hands the reported [`PollOutcome`] in as the
//! event; the slot decides what it reports for that poll.

use vstd::prelude::*;

verus! {

/// What one poll of a deferred computation reports: not yet ready, or
/// finished with its result.
#[derive(Debug)]
pub enum PollOutcome<R> {
    /// The computation is not yet ready.
    Pending,
    /// The computation finished, with its result.
    Ready(R),
}

/// A deferred computation which may not be present.
///
/// The [`Default`] value is a slot without an inner computation.
#[derive(Debug)]
pub enum MaybeFuture<T> {
    /// Nothing is held.
    Empty,
    /// Holds exactly one computation to be polled.
    Holding(T),
}

/// What the slot reports for one poll, given what the held computation
/// reported when it was itself polled (`None` when the slot is empty and
/// nothing was polled): an empty slot is never ready, and a holding slot
/// passes the held computation's outcome on unchanged.
pub open spec fn poll_output<T, R>(s: MaybeFuture<T>, inner: Option<PollOutcome<R>>) -> PollOutcome<R> {
    match s {
        MaybeFuture::Empty => PollOutcome::Pending,
        MaybeFuture::Holding(_) => match inner {
            Option::Some(o) => o,
            Option::None => PollOutcome::Pending,
        },
    }
}

impl<T> MaybeFuture<T> {
    /// Creates a [`MaybeFuture`] without an inner computation.
    pub fn none() -> (r: Self)
        ensures
            r is Empty,
    {
        Self::default()
    }

    /// Clears the slot, dropping any held computation.
    ///
    /// Valid in either starting state and idempotent: the final state is
    /// `Empty` regardless of the prior one.
    pub fn set_none(&mut self)
        ensures
            *final(self) is Empty,
    {
        *self = MaybeFuture::Empty;
    }

    /// Installs a new computation, dropping whatever was previously held.
    ///
    /// Always succeeds: the final state holds exactly `fut`, regardless of
    /// the prior state.
    pub fn set_future(&mut self, fut: T)
        ensures
            *final(self) == MaybeFuture::Holding(fut),
    {
        *self = MaybeFuture::Holding(fut);
    }

    /// Returns `true` iff the slot holds nothing.
    pub fn is_none(&self) -> (r: bool)
        ensures
            r == (*self is Empty),
    {
        matches!(self, MaybeFuture::Empty)
    }

    /// Returns `true` iff the slot holds a computation.
    pub fn is_some(&self) -> (r: bool)
        ensures
            r == (*self is Holding),
    {
        matches!(self, MaybeFuture::Holding(_))
    }

    /// One poll of the slot itself.
    ///
    /// `inner` is the event for this poll: what the held computation reported
    /// when the caller polled it, and `None` exactly when the slot is empty,
    /// in which case nothing was polled. The slot reports
    /// [`poll_output`]: always `Pending` while empty, and the held
    /// computation's own outcome while holding. A poll never changes the
    /// variant: completion leaves the slot `Holding` until the caller clears
    /// or replaces it, and an empty slot stays empty however often it is
    /// polled.
    pub fn poll<R>(&mut self, inner: Option<PollOutcome<R>>) -> (r: PollOutcome<R>)
        requires
            inner is Some <==> *old(self) is Holding,
        ensures
            *final(self) == *old(self),
            r == poll_output(*old(self), inner),
    {
        if self.is_some() {
            match inner {
                Option::Some(o) => o,
                Option::None => PollOutcome::Pending,
            }
        } else {
            PollOutcome::Pending
        }
    }
}

impl<T> Default for MaybeFuture<T> {
    /// The default slot holds nothing.
    fn default() -> (r: Self)
        ensures
            r is Empty,
    {
        MaybeFuture::Empty
    }
}

/// An empty slot is never ready: whatever event accompanies a poll, the
/// reported outcome is `Pending`. Together with `poll`'s unchanged-state
/// `ensures`, any number of polls leaves an empty slot empty and every one of
/// them reports `Pending`.
pub proof fn lemma_empty_never_ready<T, R>(s: MaybeFuture<T>, inner: Option<PollOutcome<R>>)
    requires
        s is Empty,
    ensures
        poll_output(s, inner) is Pending,
{
}

/// A holding slot delegates: its outcome for a poll is exactly what the held
/// computation reported — "not yet ready" is reported as `Pending`, and a
/// completion is reported once, with the same result. The slot itself stays
/// `Holding` (see `poll`'s `ensures`: a poll never changes the variant).
pub proof fn lemma_holding_delegates<T, R>(s: MaybeFuture<T>, o: PollOutcome<R>)
    requires
        s is Holding,
    ensures
        poll_output(s, Option::Some(o)) == o,
{
}

} // verus!
