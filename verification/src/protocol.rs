//! The channel as a transition system: the storage, the wakeup signal and the
//! two parties that share them, with the laws that hold of every run.
use vstd::prelude::*;

verus! {

/// Where a receiver stands in its check-then-wait loop.
#[derive(Clone, Copy, Debug, PartialEq, Eq, Structural)]
pub enum RecvState {
    /// About to look into the storage; the state every call starts in.
    Polling,
    /// Found the storage empty and waits on the signal.
    Suspended,
}

/// What the receiver does after one look into the storage.
#[derive(Debug)]
pub enum Step<T> {
    /// An item was there: hand it to the caller.
    Deliver(T),
    /// Nothing was there: wait on the signal, then look again.
    Suspend,
}

/// The receiver's rule: after a look that gave `popped`, the state it moves
/// to and what it does next.
pub open spec fn decide<T>(popped: Option<T>) -> (RecvState, Step<T>) {
    match popped {
        Some(item) => (RecvState::Polling, Step::Deliver(item)),
        None => (RecvState::Suspended, Step::Suspend),
    }
}

/// The sender's rule: a raise of the signal is owed for every item placed and
/// for no refusal.
pub open spec fn owes_raise<T>(pushed: Result<(), T>) -> bool {
    pushed is Ok
}

/// One channel: what the storage holds, what the signal remembers and where
/// the two parties stand.
pub struct Channel<T> {
    /// The number of slots.
    pub capacity: nat,
    /// The occupied slots, eldest first.
    pub items: Seq<T>,
    /// How many free slots the sender knows of. It looks at the receiver's
    /// progress only when it knows of none.
    pub room: nat,
    /// How many of the items, from the eldest on, the receiver knows of. It
    /// looks at the sender's progress only when it knows of none.
    pub seen: nat,
    /// The signal's one stored permit.
    pub permit: bool,
    /// The sender has placed an item and not yet raised the signal.
    pub owed: bool,
    /// Where the receiver stands.
    pub receiver: RecvState,
}

/// One atomic move of either party.
pub enum Move<T> {
    /// The sender offers an item to the storage.
    Push(T),
    /// The sender raises the signal for the item it has just placed.
    Raise,
    /// The receiver looks into the storage.
    Pop,
    /// The receiver's wait ends by taking the stored permit.
    Wake,
    /// The receiver's wait is given up, or ends for no reason.
    Restart,
}

impl<T> Channel<T> {
    /// A new channel: empty storage, all of it known free to the sender, no
    /// permit, the receiver about to look.
    pub open spec fn new(capacity: nat) -> Self {
        Channel {
            capacity,
            items: Seq::empty(),
            room: capacity,
            seen: 0,
            permit: false,
            owed: false,
            receiver: RecvState::Polling,
        }
    }

    /// The storage has no free slot.
    pub open spec fn is_full(self) -> bool {
        self.items.len() >= self.capacity
    }

    /// The number of free slots in the storage.
    pub open spec fn free(self) -> nat {
        if self.is_full() {
            0
        } else {
            (self.capacity - self.items.len()) as nat
        }
    }

    /// The items that the receiver knows of, eldest first.
    pub open spec fn known(self) -> Seq<T> {
        self.items.take(self.seen as int)
    }

    /// The free slots that the sender goes by at its next push: those it
    /// knows of, or, if it knows of none, those it finds by looking.
    pub open spec fn room_found(self) -> nat {
        if self.room > 0 {
            self.room
        } else {
            self.free()
        }
    }

    /// The items that the receiver goes by at its next look: those it knows
    /// of, or, if it knows of none, those it finds by looking.
    pub open spec fn seen_found(self) -> nat {
        if self.seen > 0 {
            self.seen
        } else {
            self.items.len()
        }
    }

    /// What a push of `item` answers: `Err(item)` on full storage.
    pub open spec fn push_result(self, item: T) -> Result<(), T> {
        if self.is_full() {
            Err(item)
        } else {
            Ok(())
        }
    }

    /// What a look into the storage finds: the eldest item, if any.
    pub open spec fn pop_result(self) -> Option<T> {
        if self.items.len() > 0 {
            Some(self.items.first())
        } else {
            None
        }
    }

    /// Whether the party concerned can make `m` now.
    pub open spec fn enabled(self, m: Move<T>) -> bool {
        match m {
            Move::Push(_) => !self.owed,
            Move::Raise => self.owed,
            Move::Pop => self.receiver == RecvState::Polling,
            Move::Wake => self.receiver == RecvState::Suspended && self.permit,
            Move::Restart => self.receiver == RecvState::Suspended,
        }
    }

    /// The channel after `m`; a move that is not enabled changes nothing.
    pub open spec fn step(self, m: Move<T>) -> Self {
        if !self.enabled(m) {
            self
        } else {
            match m {
                Move::Push(item) => Channel {
                    items: if self.is_full() {
                        self.items
                    } else {
                        self.items.push(item)
                    },
                    room: if self.is_full() || self.room_found() == 0 {
                        0
                    } else {
                        (self.room_found() - 1) as nat
                    },
                    owed: owes_raise(self.push_result(item)),
                    ..self
                },
                Move::Raise => Channel { permit: true, owed: false, ..self },
                Move::Pop => Channel {
                    items: if self.items.len() > 0 {
                        self.items.drop_first()
                    } else {
                        self.items
                    },
                    seen: if self.items.len() > 0 && self.seen_found() > 0 {
                        (self.seen_found() - 1) as nat
                    } else {
                        0
                    },
                    receiver: decide(self.pop_result()).0,
                    ..self
                },
                Move::Wake => Channel { permit: false, receiver: RecvState::Polling, ..self },
                Move::Restart => Channel { receiver: RecvState::Polling, ..self },
            }
        }
    }

    /// The item that `m` places in the storage, if it places one.
    pub open spec fn accepted(self, m: Move<T>) -> Option<T> {
        match m {
            Move::Push(item) => if self.enabled(m) && !self.is_full() {
                Some(item)
            } else {
                None
            },
            _ => None,
        }
    }

    /// The item that `m` hands back to the sender, if it refuses one.
    pub open spec fn refused(self, m: Move<T>) -> Option<T> {
        match m {
            Move::Push(item) => if self.enabled(m) && self.is_full() {
                Some(item)
            } else {
                None
            },
            _ => None,
        }
    }

    /// The item that `m` hands to the receiver's caller, if it delivers one.
    pub open spec fn delivered(self, m: Move<T>) -> Option<T> {
        match m {
            Move::Pop => if self.enabled(m) {
                match decide(self.pop_result()).1 {
                    Step::Deliver(item) => Some(item),
                    Step::Suspend => None,
                }
            } else {
                None
            },
            _ => None,
        }
    }

    /// What holds of every channel that a run can reach: the storage is within
    /// its capacity, neither end knows of more than there is, and a receiver
    /// that waits while an item is there has a wakeup coming, stored or owed.
    pub open spec fn sound(self) -> bool {
        &&& self.capacity > 0
        &&& self.items.len() <= self.capacity
        &&& self.room <= self.free()
        &&& self.seen <= self.items.len()
        &&& (self.receiver == RecvState::Suspended && self.items.len() > 0) ==> (self.permit
            || self.owed)
    }

    /// The channel after the moves of `moves`, first to last.
    pub open spec fn run(self, moves: Seq<Move<T>>) -> Self
        decreases moves.len(),
    {
        if moves.len() == 0 {
            self
        } else {
            self.run(moves.drop_last()).step(moves.last())
        }
    }

    /// The items that the moves of `moves` place in the storage, in order.
    pub open spec fn accepted_during(self, moves: Seq<Move<T>>) -> Seq<T>
        decreases moves.len(),
    {
        if moves.len() == 0 {
            Seq::empty()
        } else {
            let before = self.accepted_during(moves.drop_last());
            match self.run(moves.drop_last()).accepted(moves.last()) {
                Some(item) => before.push(item),
                None => before,
            }
        }
    }

    /// The items that the moves of `moves` deliver, in order.
    pub open spec fn delivered_during(self, moves: Seq<Move<T>>) -> Seq<T>
        decreases moves.len(),
    {
        if moves.len() == 0 {
            Seq::empty()
        } else {
            let before = self.delivered_during(moves.drop_last());
            match self.run(moves.drop_last()).delivered(moves.last()) {
                Some(item) => before.push(item),
                None => before,
            }
        }
    }

    /// The channel after one whole send of `item`: the push, then the raise
    /// that a placed item is owed.
    pub open spec fn after_send(self, item: T) -> Self {
        self.step(Move::Push(item)).step(Move::Raise)
    }

    /// The channel after one poll by the receiver: it starts over if it was
    /// suspended, then looks into the storage.
    pub open spec fn after_poll(self) -> Self {
        self.step(Move::Restart).step(Move::Pop)
    }

    /// What one poll tells the receiver to do.
    pub open spec fn poll_result(self) -> Step<T> {
        decide(self.pop_result()).1
    }

    /// The channel after the sends of `items`, one after the other, with
    /// nothing received in between.
    pub open spec fn send_all(self, items: Seq<T>) -> Self
        decreases items.len(),
    {
        if items.len() == 0 {
            self
        } else {
            self.send_all(items.drop_last()).after_send(items.last())
        }
    }

    /// Every move keeps a sound channel sound.
    pub proof fn lemma_step_keeps_sound(self, m: Move<T>)
        requires
            self.sound(),
        ensures
            self.step(m).sound(),
            self.step(m).capacity == self.capacity,
    {
    }

    /// Every run keeps a sound channel sound.
    pub proof fn lemma_run_keeps_sound(self, moves: Seq<Move<T>>)
        requires
            self.sound(),
        ensures
            self.run(moves).sound(),
            self.run(moves).capacity == self.capacity,
        decreases moves.len(),
    {
        if moves.len() > 0 {
            self.lemma_run_keeps_sound(moves.drop_last());
            self.run(moves.drop_last()).lemma_step_keeps_sound(moves.last());
        }
    }

    /// Nothing is lost, doubled or reordered: over every run, what was in the
    /// storage followed by what was placed is what was delivered followed by
    /// what is in the storage.
    pub proof fn lemma_conservation(self, moves: Seq<Move<T>>)
        ensures
            self.items + self.accepted_during(moves) == self.delivered_during(moves)
                + self.run(moves).items,
        decreases moves.len(),
    {
        if moves.len() == 0 {
            assert(self.items + Seq::<T>::empty() =~= Seq::<T>::empty() + self.items);
        } else {
            let head = moves.drop_last();
            let m = moves.last();
            let c = self.run(head);
            self.lemma_conservation(head);
            let acc = self.accepted_during(head);
            let del = self.delivered_during(head);
            assert(self.items + acc == del + c.items);
            match m {
                Move::Push(item) => {
                    if c.enabled(m) && !c.is_full() {
                        assert(self.items + acc.push(item) =~= (self.items + acc).push(item));
                        assert(del + c.items.push(item) =~= (del + c.items).push(item));
                    }
                },
                Move::Pop => {
                    if c.enabled(m) && c.items.len() > 0 {
                        assert(del.push(c.items.first()) + c.items.drop_first() =~= del + c.items);
                    }
                },
                _ => {},
            }
        }
    }

    /// A push in the protocol does what `Sender::send` says of itself, with
    /// `room` for what the sender knows: while a slot is known free the item
    /// is placed and one slot fewer is known free; after a placed item fewer
    /// slots than the capacity are known free; a refusal hands the item back
    /// and leaves no slot known free.
    pub proof fn lemma_push_as_the_sender_sees_it(self, item: T)
        requires
            self.sound(),
            self.enabled(Move::Push(item)),
        ensures
            ({
                let pushed = self.push_result(item);
                let after = self.step(Move::Push(item));
                &&& self.room > 0 ==> pushed is Ok && after.room + 1 == self.room
                &&& pushed is Ok ==> after.room < self.capacity
                &&& pushed is Err ==> after.room == 0
                &&& pushed matches Err(back) ==> back == item
                &&& after.known() == self.known()
            }),
    {
        let after = self.step(Move::Push(item));
        if !self.is_full() {
            assert(self.items.push(item).take(self.seen as int) =~= self.items.take(
                self.seen as int,
            ));
        }
    }

    /// A look in the protocol does what `Receiver::try_recv` and
    /// `Receiver::poll` say of themselves, with `known` for what the receiver
    /// knows: while an item is known the eldest known one comes out and the
    /// rest stay known; a look that finds nothing leaves no item known.
    pub proof fn lemma_look_as_the_receiver_sees_it(self)
        requires
            self.sound(),
            self.enabled(Move::Pop),
        ensures
            ({
                let popped = self.pop_result();
                let after = self.step(Move::Pop);
                &&& self.known().len() > 0 ==> popped == Some(self.known()[0]) && after.known()
                    == self.known().drop_first()
                &&& popped is None ==> after.known().len() == 0
                &&& self.known().len() > 0 ==> self.poll_result() == Step::Deliver(
                    self.known()[0],
                )
                &&& self.poll_result() is Suspend ==> after.known().len() == 0
                &&& after.room == self.room
            }),
    {
        let after = self.step(Move::Pop);
        if self.seen > 0 {
            assert(self.items.drop_first().take(self.seen - 1) =~= self.items.take(
                self.seen as int,
            ).drop_first());
        }
    }

    /// What either end knows changes only by its own push or look: a raise,
    /// the end of a wait and a fresh start leave both as they were.
    pub proof fn lemma_other_moves_keep_what_is_known(self, m: Move<T>)
        requires
            m is Raise || m is Wake || m is Restart,
        ensures
            self.step(m).room == self.room,
            self.step(m).known() == self.known(),
    {
    }

    /// A new channel is as `Queue::new` says: every slot is known free to the
    /// sender, and the receiver knows of no item and is about to look.
    pub proof fn lemma_new_as_the_ends_see_it(capacity: nat)
        ensures
            Self::new(capacity).room == capacity,
            Self::new(capacity).known() == Seq::<T>::empty(),
            Self::new(capacity).receiver == RecvState::Polling,
            capacity > 0 ==> Self::new(capacity).sound(),
    {
        assert(Self::new(capacity).known() =~= Seq::<T>::empty());
    }

    /// Every channel that some run reaches from a new one is sound.
    pub proof fn lemma_reachable_sound(capacity: nat, moves: Seq<Move<T>>)
        requires
            capacity > 0,
        ensures
            Self::new(capacity).run(moves).sound(),
            Self::new(capacity).run(moves).capacity == capacity,
    {
        Self::new(capacity).lemma_run_keeps_sound(moves);
    }

    /// Capacity bound. Send after send on a new channel, with nothing
    /// received: the first `capacity` sends are accepted, each from a slot
    /// that the sender knows free; every later one is refused, gets its own
    /// item back and leaves the channel as it was.
    pub proof fn law_capacity_bound(capacity: nat, items: Seq<T>, i: int)
        requires
            capacity > 0,
            0 <= i < items.len(),
        ensures
            ({
                let c = Self::new(capacity).send_all(items.take(i));
                &&& c.enabled(Move::Push(items[i]))
                &&& c.items == items.take(if i <= capacity { i } else { capacity as int })
                &&& i < capacity ==> c.room == capacity - i
                &&& i >= capacity ==> c.room == 0
                &&& i < capacity ==> c.push_result(items[i]) == Ok::<(), T>(())
                &&& i < capacity ==> c.accepted(Move::Push(items[i])) == Some(items[i])
                &&& i >= capacity ==> c.push_result(items[i]) == Err::<(), T>(items[i])
                &&& i >= capacity ==> c.refused(Move::Push(items[i])) == Some(items[i])
                &&& i >= capacity ==> c.after_send(items[i]) == c
            }),
    {
        Self::lemma_send_all(capacity, items.take(i));
        let bound = if i <= capacity { i } else { capacity as int };
        assert(items.take(i).take(bound) =~= items.take(bound));
    }

    /// What the storage holds after sends alone on a new channel: the first
    /// `capacity` of the items offered, with the signal raised and no raise
    /// left owing.
    pub proof fn lemma_send_all(capacity: nat, items: Seq<T>)
        requires
            capacity > 0,
        ensures
            ({
                let c = Self::new(capacity).send_all(items);
                &&& c.capacity == capacity
                &&& c.items == items.take(
                    if items.len() <= capacity {
                        items.len() as int
                    } else {
                        capacity as int
                    },
                )
                &&& c.room == c.free()
                &&& c.seen == 0
                &&& !c.owed
                &&& c.receiver == RecvState::Polling
                &&& c.permit == (items.len() > 0)
            }),
        decreases items.len(),
    {
        let start = Self::new(capacity);
        if items.len() == 0 {
            assert(start.items =~= items.take(0));
        } else {
            let head = items.drop_last();
            let c = start.send_all(head);
            Self::lemma_send_all(capacity, head);
            let kept = if head.len() <= capacity { head.len() as int } else { capacity as int };
            if head.len() < capacity {
                assert(head.take(kept).push(items.last()) =~= items.take(items.len() as int));
            } else {
                assert(head.take(kept) =~= items.take(capacity as int));
            }
        }
    }

    /// FIFO order. Over every interleaving of moves on a new channel, the
    /// items delivered are the items placed, in the order they were placed:
    /// the delivered sequence is the front of the accepted one, the storage
    /// holds the rest, and once the storage is empty the two are equal.
    pub proof fn law_fifo(capacity: nat, moves: Seq<Move<T>>)
        ensures
            ({
                let start = Self::new(capacity);
                let accepted = start.accepted_during(moves);
                let delivered = start.delivered_during(moves);
                let left = start.run(moves).items;
                &&& accepted == delivered + left
                &&& delivered.len() <= accepted.len()
                &&& delivered == accepted.take(delivered.len() as int)
                &&& left.len() == 0 ==> delivered == accepted
            }),
    {
        let start = Self::new(capacity);
        let accepted = start.accepted_during(moves);
        let delivered = start.delivered_during(moves);
        let left = start.run(moves).items;
        start.lemma_conservation(moves);
        assert(start.items + accepted =~= accepted);
        assert((delivered + left).take(delivered.len() as int) =~= delivered);
        if left.len() == 0 {
            assert(delivered + left =~= delivered);
        }
    }

    /// No double delivery. Over every interleaving of moves on a new channel,
    /// the item placed `i`-th is in exactly one place: it is the `i`-th item
    /// delivered, or it still waits in the storage, behind the items placed
    /// before it.
    pub proof fn law_delivered_once(capacity: nat, moves: Seq<Move<T>>, i: int)
        requires
            0 <= i < Self::new(capacity).accepted_during(moves).len(),
        ensures
            ({
                let start = Self::new(capacity);
                let accepted = start.accepted_during(moves);
                let delivered = start.delivered_during(moves);
                let left = start.run(moves).items;
                &&& accepted.len() == delivered.len() + left.len()
                &&& i < delivered.len() ==> delivered[i] == accepted[i]
                &&& i >= delivered.len() ==> left[i - delivered.len()] == accepted[i]
            }),
    {
        Self::law_fifo(capacity, moves);
    }

    /// Round trip. On an empty storage, a send of `item` followed at once by a
    /// poll delivers `item` and leaves the storage empty and the receiver in
    /// `Polling`: the receiver never suspends, wherever it stood before. The
    /// same holds when the poll comes between the push and the raise.
    pub proof fn law_round_trip(self, item: T)
        requires
            self.capacity > 0,
            self.items.len() == 0,
            !self.owed,
        ensures
            self.after_send(item).poll_result() == Step::Deliver(item),
            self.after_send(item).after_poll().receiver == RecvState::Polling,
            self.after_send(item).after_poll().items.len() == 0,
            self.step(Move::Push(item)).poll_result() == Step::Deliver(item),
            self.step(Move::Push(item)).after_poll().receiver == RecvState::Polling,
    {
        let placed = self.step(Move::Push(item));
        assert(placed.items =~= seq![item]);
        assert(placed.items.first() == item);
    }

    /// No lost wakeup. In every channel that a run reaches from a new one, an
    /// item in the storage is never stranded. A receiver about to look gets
    /// the eldest item by looking. One that waits finds the permit stored, so
    /// that its wait ends and its next look gets the item; or else the sender
    /// still owes the raise that stores the permit.
    pub proof fn law_no_lost_wakeup(capacity: nat, moves: Seq<Move<T>>)
        requires
            capacity > 0,
        ensures
            ({
                let c = Self::new(capacity).run(moves);
                let eldest = Some(c.items.first());
                c.items.len() > 0 ==> match c.receiver {
                    RecvState::Polling => c.delivered(Move::Pop) == eldest,
                    RecvState::Suspended => if c.permit {
                        &&& c.enabled(Move::Wake)
                        &&& c.step(Move::Wake).delivered(Move::Pop) == eldest
                    } else {
                        &&& c.enabled(Move::Raise)
                        &&& c.step(Move::Raise).enabled(Move::Wake)
                        &&& c.step(Move::Raise).step(Move::Wake).delivered(Move::Pop) == eldest
                    },
                }
            }),
    {
        Self::lemma_reachable_sound(capacity, moves);
    }

    /// A look that the receiver can make on a storage that holds an item
    /// delivers the eldest one.
    pub proof fn lemma_look_delivers_eldest(self)
        requires
            self.enabled(Move::Pop),
            self.items.len() > 0,
        ensures
            self.delivered(Move::Pop) == Some(self.items.first()),
            self.step(Move::Pop).items == self.items.drop_first(),
            self.step(Move::Pop).receiver == RecvState::Polling,
    {
    }
}

} // verus!
