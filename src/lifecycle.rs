//! The take-once cell that owns the running engine.
//!
//! The cell starts `Present` and moves to `Consumed` the first time a terminal
//! operation (draining notifications with a handler, discarding them, or a
//! graceful shutdown) takes the engine out. It never goes back.
use vstd::prelude::*;
use crate::error::{NotificationError, TapleError};

verus! {

/// Holds the engine until one terminal operation takes it.
pub enum LifecycleCell<H> {
    Present(H),
    Consumed,
}

/// State after one take, and what that take returns.
pub open spec fn take_step<H>(c: LifecycleCell<H>) -> (LifecycleCell<H>, Result<H, TapleError>) {
    match c {
        LifecycleCell::Present(h) => (LifecycleCell::Consumed, Ok(h)),
        LifecycleCell::Consumed => (LifecycleCell::Consumed, Err(TapleError::NodeUnavailable)),
    }
}

/// The results of `n` takes made one after another, starting from `c`.
pub open spec fn take_results<H>(c: LifecycleCell<H>, n: nat) -> Seq<Result<H, TapleError>>
    decreases n,
{
    if n == 0 {
        Seq::empty()
    } else {
        seq![take_step(c).1] + take_results(take_step(c).0, (n - 1) as nat)
    }
}

/// How many of the given results are successes.
pub open spec fn count_ok<H>(rs: Seq<Result<H, TapleError>>) -> nat
    decreases rs.len(),
{
    if rs.len() == 0 {
        0
    } else {
        (if rs[0] is Ok { 1nat } else { 0nat }) + count_ok(rs.subrange(1, rs.len() as int))
    }
}

impl<H> LifecycleCell<H> {
    pub open spec fn is_active(&self) -> bool {
        self is Present
    }

    /// A cell that holds a freshly started engine.
    pub fn new(h: H) -> (r: Self)
        ensures
            r == LifecycleCell::Present(h),
    {
        LifecycleCell::Present(h)
    }

    /// Whether the engine has not been taken yet.
    pub fn is_present(&self) -> (r: bool)
        ensures
            r == self.is_active(),
    {
        match self {
            LifecycleCell::Present(_) => true,
            LifecycleCell::Consumed => false,
        }
    }

    /// Takes the engine out, once. Every later take fails with `NodeUnavailable`.
    pub fn take(&mut self) -> (r: Result<H, TapleError>)
        ensures
            (*final(self), r) == take_step(*old(self)),
    {
        let mut prev = LifecycleCell::Consumed;
        core::mem::swap(self, &mut prev);
        match prev {
            LifecycleCell::Present(h) => Ok(h),
            LifecycleCell::Consumed => Err(TapleError::NodeUnavailable),
        }
    }

    /// Borrows the engine without taking it, for a blocking receive; fails
    /// with `NoConnection` once a terminal operation has taken it.
    pub fn handle_mut(&mut self) -> (r: Result<&mut H, NotificationError>)
        ensures
            *old(self) is Consumed ==> r == Err::<&mut H, NotificationError>(
                NotificationError::NoConnection,
            ) && *final(self) == *old(self),
            *old(self) is Present ==> r is Ok && *old(self) == LifecycleCell::Present(
                *r->Ok_0,
            ) && *final(self) == LifecycleCell::Present(*final(r->Ok_0)),
    {
        match self {
            LifecycleCell::Present(h) => Ok(h),
            LifecycleCell::Consumed => Err(NotificationError::NoConnection),
        }
    }
}

/// Once a take has succeeded, every take after it, however many are made,
/// fails with `NodeUnavailable`.
pub proof fn lemma_single_consumption<H>(c: LifecycleCell<H>, n: nat)
    requires
        take_step(c).1 is Ok,
    ensures
        forall|i: int|
            0 <= i < n ==> #[trigger] take_results(take_step(c).0, n)[i] == Err::<H, TapleError>(
                TapleError::NodeUnavailable,
            ),
{
    lemma_consumed_always_unavailable::<H>(n);
}

proof fn lemma_consumed_always_unavailable<H>(n: nat)
    ensures
        take_results(LifecycleCell::<H>::Consumed, n).len() == n,
        forall|i: int|
            0 <= i < n ==> #[trigger] take_results(LifecycleCell::<H>::Consumed, n)[i] == Err::<
                H,
                TapleError,
            >(TapleError::NodeUnavailable),
        count_ok(take_results(LifecycleCell::<H>::Consumed, n)) == 0,
    decreases n,
{
    if n > 0 {
        lemma_consumed_always_unavailable::<H>((n - 1) as nat);
        let rs = take_results(LifecycleCell::<H>::Consumed, n);
        assert(rs.subrange(1, rs.len() as int) =~= take_results(
            LifecycleCell::<H>::Consumed,
            (n - 1) as nat,
        ));
    }
}

/// Of `n >= 1` racing takes on a cell that still holds the engine `h`,
/// serialised by the cell's guard, exactly one succeeds, and it receives `h`;
/// the other `n - 1` fail with `NodeUnavailable`.
pub proof fn lemma_exactly_one_winner<H>(h: H, n: nat)
    requires
        n >= 1,
    ensures
        take_results(LifecycleCell::Present(h), n).len() == n,
        count_ok(take_results(LifecycleCell::Present(h), n)) == 1,
        take_results(LifecycleCell::Present(h), n)[0] == Ok::<H, TapleError>(h),
        forall|i: int|
            1 <= i < n ==> #[trigger] take_results(LifecycleCell::Present(h), n)[i] == Err::<
                H,
                TapleError,
            >(TapleError::NodeUnavailable),
{
    lemma_consumed_always_unavailable::<H>((n - 1) as nat);
    let rs = take_results(LifecycleCell::Present(h), n);
    let tail = take_results(LifecycleCell::<H>::Consumed, (n - 1) as nat);
    assert(rs.subrange(1, rs.len() as int) =~= tail);
    assert forall|i: int| 1 <= i < n implies #[trigger] rs[i] == Err::<H, TapleError>(
        TapleError::NodeUnavailable,
    ) by {
        assert(rs[i] == tail[i - 1]);
    }
}

} // verus!
