//! The two ends of the channel and the storage they share.
use crate::protocol::decide;
use crate::protocol::owes_raise;
use crate::protocol::RecvState;
use crate::protocol::Step;
use ringbuf::traits::Consumer;
use ringbuf::traits::Producer;
use ringbuf::traits::Split;
use ringbuf::CachingCons;
use ringbuf::CachingProd;
use ringbuf::StaticRb;
use std::sync::Arc;
use tokio::sync::Notify;
use vstd::prelude::*;

verus! {

/// The wakeup signal, `tokio::sync::Notify`: a value that contracts can name
/// and cannot look into.
#[verifier::external_type_specification]
#[verifier::external_body]
pub struct ExNotify(Notify);

/// `Notify::new` returns a signal. Nothing is claimed of it.
pub assume_specification[ Notify::new ]() -> (signal: Notify);

/// `Notify::notify_one` stores a permit in the signal or wakes the task that
/// waits on it. It returns nothing, so nothing is claimed.
pub assume_specification[ Notify::notify_one ](signal: &Notify);

/// `Arc::clone` on the signal: the handle returned points to the signal that
/// `signal` points to.
#[verifier::external_body]
fn share(signal: &Arc<Notify>) -> (second: Arc<Notify>)
    ensures
        second == *signal,
{
    Arc::clone(signal)
}

/// The largest capacity the storage can index: its cursors run modulo twice
/// the capacity, and it adds the capacity to a cursor before it reduces.
pub open spec fn max_capacity() -> nat {
    (usize::MAX / 3) as nat
}

/// The ring storage before it is split: a `ringbuf::StaticRb` of `N` slots.
/// It is held unseen, as are the two views below: the types of `ringbuf` are
/// bounded by traits of its own, which the verifier does not know.
#[verifier::external_body]
#[verifier::reject_recursive_types(T)]
struct RingStorage<T, const N: usize> {
    inner: StaticRb<T, N>,
}

/// The push-only view of the storage, a `ringbuf::CachingProd`.
#[verifier::external_body]
#[verifier::reject_recursive_types(T)]
struct PushView<T, const N: usize> {
    inner: CachingProd<Arc<StaticRb<T, N>>>,
}

/// The pop-only view of the storage, a `ringbuf::CachingCons`.
#[verifier::external_body]
#[verifier::reject_recursive_types(T)]
struct PopView<T, const N: usize> {
    inner: CachingCons<Arc<StaticRb<T, N>>>,
}

/// `StaticRb::default` returns a ring of `N` slots. It panics on `N == 0`, and
/// the ring's arithmetic overflows beyond `max_capacity`: `requires` leaves
/// both out. Nothing is claimed of the ring.
#[verifier::external_body]
fn new_storage<T, const N: usize>() -> (ring: RingStorage<T, N>)
    requires
        0 < N <= max_capacity(),
{
    RingStorage { inner: StaticRb::<T, N>::default() }
}

/// The sender's side of the storage: the push-only view, and beside it the
/// number of free slots that the view knows of. The view keeps its own write
/// cursor and a copy of the read cursor, which it renews only when the two
/// show no free slot; `room` is what they show. Only `split_storage` and
/// `try_push` set it.
#[verifier::reject_recursive_types(T)]
struct PushEnd<T, const N: usize> {
    view: PushView<T, N>,
    room: Ghost<nat>,
}

/// The receiver's side of the storage: the pop-only view, and beside it the
/// items that the view knows of, eldest first. The view keeps its own read
/// cursor and a copy of the write cursor, which it renews only when the two
/// show no item; `known` is what lies between them. Only `split_storage` and
/// `try_pop` set it.
#[verifier::reject_recursive_types(T)]
struct PopEnd<T, const N: usize> {
    view: PopView<T, N>,
    known: Ghost<Seq<T>>,
}

/// `Split::split` moves the ring behind an `Arc` and returns its producer and
/// its consumer. Each view starts from the ring's two cursors, which are both
/// zero on the new ring that a `RingStorage` is: the producer knows of `N`
/// free slots, the consumer of no item.
#[verifier::external_body]
fn split_storage<T, const N: usize>(ring: RingStorage<T, N>) -> (ends: (PushEnd<T, N>, PopEnd<T, N>))
    ensures
        ends.0.room@ == N,
        ends.1.known@.len() == 0,
{
    let (prod, cons) = ring.inner.split();
    (
        PushEnd { view: PushView { inner: prod }, room: Ghost(N as nat) },
        PopEnd { view: PopView { inner: cons }, known: Ghost(Seq::empty()) },
    )
}

/// `Producer::try_push` on the caching producer. While the view knows of a
/// free slot it writes the item there and advances its write cursor, without
/// a look at the consumer: one slot fewer is known free. Only when it knows of
/// none does it renew its copy of the read cursor; how many slots that shows
/// depends on the consumer. It then places the item if there is room, which
/// leaves fewer than `N` slots known free, or returns the item inside `Err`,
/// knowing of no free slot. The call does not panic.
#[verifier::external_body]
fn try_push<T, const N: usize>(end: &mut PushEnd<T, N>, item: T) -> (pushed: Result<(), T>)
    requires
        0 < N <= max_capacity(),
    ensures
        old(end).room@ > 0 ==> pushed is Ok && final(end).room@ + 1 == old(end).room@,
        pushed is Ok ==> final(end).room@ < N,
        pushed is Err ==> final(end).room@ == 0,
        pushed matches Err(back) ==> back == item,
    no_unwind
{
    end.view.inner.try_push(item)
}

/// `Consumer::try_pop` on the caching consumer. While the view knows of an
/// item it takes the eldest one out and advances its read cursor, without a
/// look at the producer. Only when it knows of none does it renew its copy of
/// the write cursor; what that shows depends on the producer. It returns
/// `None` only if it still knows of no item then. The call does not panic.
#[verifier::external_body]
fn try_pop<T, const N: usize>(end: &mut PopEnd<T, N>) -> (popped: Option<T>)
    requires
        0 < N <= max_capacity(),
    ensures
        old(end).known@.len() > 0 ==> popped == Some(old(end).known@[0]) && final(end).known@
            == old(end).known@.drop_first(),
        popped is None ==> final(end).known@.len() == 0,
    no_unwind
{
    end.view.inner.try_pop()
}

/// The producing end. It cannot be cloned: a channel has one sender.
#[verifier::reject_recursive_types(T)]
pub struct Sender<T, const N: usize> {
    prod: PushEnd<T, N>,
    notify: Arc<Notify>,
}

impl<T, const N: usize> Sender<T, N> {
    #[verifier::type_invariant]
    spec fn capacity_fits(self) -> bool {
        0 < N <= max_capacity()
    }

    /// The signal this end raises.
    pub closed spec fn signal(&self) -> Notify {
        *self.notify
    }

    /// The number of free slots this end knows of. The storage may have more:
    /// the sender learns of what the receiver has freed only when it knows of
    /// no free slot itself.
    pub closed spec fn room(&self) -> nat {
        self.prod.room@
    }

    /// Offers `item` to the storage without ever waiting, and raises the
    /// signal once if the item was placed. While this end knows of a free
    /// slot the item is placed. When it knows of none, it depends on how far
    /// the receiver has come: the item is placed, or the storage is full and
    /// the item is handed back as it was.
    ///
    /// In the protocol this is a `Push`, followed by a `Raise` if one is owed.
    pub fn send(&mut self, item: T) -> (sent: Result<(), T>)
        ensures
            old(self).room() > 0 ==> sent is Ok && final(self).room() + 1 == old(self).room(),
            sent is Ok ==> final(self).room() < N,
            sent is Err ==> final(self).room() == 0,
            sent matches Err(back) ==> back == item,
            final(self).signal() == old(self).signal(),
    {
        proof {
            use_type_invariant(&*self);
        }
        let pushed = try_push(&mut self.prod, item);
        if raise_due(&pushed) {
            self.notify.notify_one();
        }
        pushed
    }
}

/// The receiver's decision after a look into the storage that gave `popped`:
/// the state it moves to and what it does next.
pub fn after_pop<T>(popped: Option<T>) -> (next: (RecvState, Step<T>))
    ensures
        next == decide(popped),
{
    match popped {
        Some(item) => (RecvState::Polling, Step::Deliver(item)),
        None => (RecvState::Suspended, Step::Suspend),
    }
}

/// Whether the sender owes the receiver a raise of the signal after a push
/// that ended as `pushed`: once for every item placed, never for a refusal.
pub fn raise_due<T>(pushed: &Result<(), T>) -> (due: bool)
    ensures
        due == owes_raise(*pushed),
{
    pushed.is_ok()
}

/// The consuming end. It cannot be cloned: a channel has one receiver.
///
/// Nothing tells a receiver that the sender is gone: one that waits on an
/// empty channel whose sender was dropped waits for ever.
#[verifier::reject_recursive_types(T)]
pub struct Receiver<T, const N: usize> {
    cons: PopEnd<T, N>,
    notify: Arc<Notify>,
    state: RecvState,
}

impl<T, const N: usize> Receiver<T, N> {
    #[verifier::type_invariant]
    spec fn capacity_fits(self) -> bool {
        0 < N <= max_capacity()
    }

    /// Where the receiver stands.
    pub closed spec fn state(&self) -> RecvState {
        self.state
    }

    /// The signal this end waits on.
    pub closed spec fn signal(&self) -> Notify {
        *self.notify
    }

    /// The items in the storage that this end knows of, eldest first. The
    /// storage may hold more behind them: the receiver learns of what the
    /// sender has placed only when it knows of no item itself.
    pub closed spec fn known(&self) -> Seq<T> {
        self.cons.known@
    }

    /// Where the receiver stands.
    pub fn current_state(&self) -> (state: RecvState)
        ensures
            state == self.state(),
    {
        self.state
    }

    /// The signal to wait on after `poll` answered `Step::Suspend`.
    pub fn wakeup(&self) -> (signal: &Notify)
        ensures
            *signal == self.signal(),
    {
        &*self.notify
    }

    /// One look into the storage, without waiting and without leaving the
    /// current state. While this end knows of an item, the eldest one comes
    /// out. When it knows of none, it depends on what the sender has placed:
    /// an item comes out, or the storage is empty.
    pub fn try_recv(&mut self) -> (popped: Option<T>)
        ensures
            old(self).known().len() > 0 ==> popped == Some(old(self).known()[0])
                && final(self).known() == old(self).known().drop_first(),
            popped is None ==> final(self).known().len() == 0,
            final(self).state() == old(self).state(),
            final(self).signal() == old(self).signal(),
    {
        proof {
            use_type_invariant(&*self);
        }
        try_pop(&mut self.cons)
    }

    /// One round of the receiving loop: look into the storage, then deliver
    /// what was there or go to `Suspended`. The caller that is told to suspend
    /// waits on `wakeup`, calls `wake` and polls again. A call made while
    /// `Suspended` starts over, so a wait that was given up loses nothing.
    ///
    /// In the protocol this is a `Restart` where the receiver was suspended,
    /// followed by a `Pop`.
    pub fn poll(&mut self) -> (step: Step<T>)
        ensures
            old(self).known().len() > 0 ==> step == Step::Deliver(old(self).known()[0])
                && final(self).known() == old(self).known().drop_first(),
            step is Suspend ==> final(self).known().len() == 0,
            (final(self).state(), step) == decide(
                match step {
                    Step::Deliver(item) => Some(item),
                    Step::Suspend => None,
                },
            ),
            final(self).signal() == old(self).signal(),
    {
        proof {
            use_type_invariant(&*self);
        }
        let popped = self.try_recv();
        let (state, step) = after_pop(popped);
        self.state = state;
        step
    }

    /// The wait on the signal has returned: back to `Polling`. In the protocol
    /// this is a `Wake`.
    pub fn wake(&mut self)
        ensures
            final(self).state() == RecvState::Polling,
            final(self).known() == old(self).known(),
            final(self).signal() == old(self).signal(),
    {
        proof {
            use_type_invariant(&*self);
        }
        self.state = RecvState::Polling;
    }
}

/// The channel's constructor; it holds nothing itself.
pub struct Queue<T, const N: usize> {
    _marker: std::marker::PhantomData<T>,
}

impl<T, const N: usize> Queue<T, N> {
    /// A new channel of `N` slots: its two ends, over one empty storage and
    /// one signal.
    pub fn new() -> (ends: (Sender<T, N>, Receiver<T, N>))
        requires
            0 < N <= max_capacity(),
        ensures
            ends.0.room() == N,
            ends.1.known() == Seq::<T>::empty(),
            ends.0.signal() == ends.1.signal(),
            ends.1.state() == RecvState::Polling,
    {
        let ring = new_storage::<T, N>();
        let notify = Arc::new(Notify::new());
        let (prod, cons) = split_storage(ring);
        (
            Sender { prod, notify: share(&notify) },
            Receiver { cons, notify, state: RecvState::Polling },
        )
    }
}

} // verus!
