//! A small actor layer: messages, handlers and the address of a mailbox.
use std::sync::mpsc::SendError;
use std::sync::mpsc::SyncSender;
use vstd::prelude::*;

verus! {

/// The sending half of a bounded `std::sync::mpsc` channel.
#[verifier::external_type_specification]
#[verifier::external_body]
#[verifier::reject_recursive_types(T)]
pub struct ExSyncSender<T>(SyncSender<T>);

/// What `SyncSender::send` answers once the mailbox has no reader.
#[verifier::external_type_specification]
#[verifier::external_body]
#[verifier::reject_recursive_types(T)]
pub struct ExSendError<T>(SendError<T>);

/// `SyncSender::clone` returns another sender to the same channel. Nothing is
/// claimed of it.
pub assume_specification<T>[ <SyncSender<T> as Clone>::clone ](sender: &SyncSender<T>) -> (second:
    SyncSender<T>);

/// An actor: a value that owns its state and is driven by messages.
pub trait Actor: Sized + Send + 'static {
    /// Called once before the first message.
    fn started(&mut self, ctx: &mut Context<Self>) {
    }

    /// Called once after the last message.
    fn stopped(&mut self, ctx: &mut Context<Self>) {
    }
}

/// An actor that can take messages of type `M`.
pub trait Handler<M>: Actor {
    /// What the actor answers.
    type Result;

    /// Whether the actor, as it stands, can take `msg`.
    spec fn accepts(&self, msg: M) -> bool;

    /// The actor after it has taken `msg`, and its answer.
    spec fn handled(&self, msg: M) -> (Self, Self::Result);

    /// Tests `accepts`.
    fn can_handle(&self, msg: &M) -> (ok: bool)
        ensures
            ok == self.accepts(*msg),
    ;

    /// Takes `msg`.
    fn handle(&mut self, msg: M, ctx: &mut Context<Self>) -> (res: Self::Result)
        requires
            old(self).accepts(msg),
        ensures
            (*final(self), res) == old(self).handled(msg),
    ;
}

/// A value that can be sent to every actor that handles its type.
pub trait Message: Sized + Send + 'static {
    /// Has `actor` take a copy of this message.
    fn handle<A: Handler<Self>>(&self, actor: &mut A, ctx: &mut Context<A>)
        requires
            old(actor).accepts(*self),
        ensures
            *final(actor) == old(actor).handled(*self).0,
    ;
}

/// A message as the mailbox holds it: it knows how to have itself handled.
pub trait MessageHandler<A: Actor>: Send {
    /// Whether `actor`, as it stands, can take this message.
    spec fn accepted_by(&self, actor: &A) -> bool;

    /// `actor` after it has taken this message.
    spec fn effect(&self, actor: &A) -> A;

    /// Tests `accepted_by`.
    fn ready(&self, actor: &A) -> (ok: bool)
        ensures
            ok == self.accepted_by(actor),
    ;

    /// Has `actor` take a copy of this message.
    fn handle(&self, actor: &mut A, ctx: &mut Context<A>)
        requires
            self.accepted_by(old(actor)),
        ensures
            *final(actor) == self.effect(old(actor)),
    ;
}

/// The writing side of an actor's mailbox: a `std::sync::mpsc::SyncSender`
/// of boxed messages, kept opaque because the messages refer back to the
/// context that holds it.
#[verifier::external_body]
#[verifier::reject_recursive_types(A)]
struct Mailbox<A: Actor> {
    tx: SyncSender<Box<dyn MessageHandler<A>>>,
}

/// Moves a `SyncSender` into a `Mailbox`, unchanged. Nothing is claimed.
#[verifier::external_body]
fn into_mailbox<A: Actor>(tx: SyncSender<Box<dyn MessageHandler<A>>>) -> (mailbox: Mailbox<A>) {
    Mailbox { tx }
}

/// `SyncSender::send` waits for room in the mailbox, then queues `msg`. It
/// fails, without panicking, once the reading side is gone. Which of the two
/// happens depends on the reader, so nothing is claimed of the result.
#[verifier::external_body]
fn post<A: Actor>(
    mailbox: &SyncSender<Box<dyn MessageHandler<A>>>,
    msg: Box<dyn MessageHandler<A>>,
) -> (posted: Result<(), SendError<Box<dyn MessageHandler<A>>>>) {
    mailbox.send(msg)
}

/// What an actor sees of its own mailbox while it runs.
#[verifier::reject_recursive_types(A)]
pub struct Context<A: Actor> {
    tx: Mailbox<A>,
}

impl<A: Actor> Context<A> {
    /// A context over the mailbox `tx`.
    pub fn new(tx: SyncSender<Box<dyn MessageHandler<A>>>) -> (ctx: Self) {
        Context { tx: into_mailbox(tx) }
    }
}

/// The mailbox has no reader any more.
#[derive(Clone, Copy, Debug, PartialEq, Eq, Structural)]
pub struct Closed;

/// What `do_send` answers for each outcome of the write to the mailbox.
pub fn delivery<M>(posted: Result<(), SendError<M>>) -> (sent: Result<(), Closed>)
    ensures
        sent is Ok == posted is Ok,
{
    match posted {
        Ok(()) => Ok(()),
        Err(_) => Err(Closed),
    }
}

/// The address of an actor: the writing side of its mailbox.
#[derive(Clone)]
#[verifier::reject_recursive_types(A)]
pub struct Addr<A: Actor> {
    tx: SyncSender<Box<dyn MessageHandler<A>>>,
}

impl<A: Actor> Addr<A> {
    /// The mailbox that messages sent to this address go to.
    pub closed spec fn mailbox(&self) -> SyncSender<Box<dyn MessageHandler<A>>> {
        self.tx
    }

    /// An address over the mailbox `tx`.
    pub fn new(tx: SyncSender<Box<dyn MessageHandler<A>>>) -> (addr: Self)
        ensures
            addr.mailbox() == tx,
    {
        Addr { tx }
    }

    /// Queues `msg` for the actor, waiting for room if the mailbox is full.
    pub fn do_send<M: Message + Clone + MessageHandler<A>>(&self, msg: M) -> (sent: Result<(), Closed>) {
        let boxed: Box<dyn MessageHandler<A>> = Box::new(msg);
        delivery(post(&self.tx, boxed))
    }
}

/// Asks an actor to stop.
#[derive(Clone, Copy, Debug)]
pub struct Stop;

/// Asks an actor to double `value`.
#[derive(Clone, Copy, Debug)]
pub struct Compute {
    pub value: i32,
}

impl Message for Stop {
    fn handle<A: Handler<Self>>(&self, actor: &mut A, ctx: &mut Context<A>) {
        let _ = actor.handle(self.clone(), ctx);
    }
}

impl Message for Compute {
    fn handle<A: Handler<Self>>(&self, actor: &mut A, ctx: &mut Context<A>) {
        let _ = actor.handle(self.clone(), ctx);
    }
}

impl<A: Handler<Stop, Result = ()>> MessageHandler<A> for Stop {
    open spec fn accepted_by(&self, actor: &A) -> bool {
        actor.accepts(*self)
    }

    open spec fn effect(&self, actor: &A) -> A {
        actor.handled(*self).0
    }

    fn ready(&self, actor: &A) -> (ok: bool) {
        actor.can_handle(self)
    }

    fn handle(&self, actor: &mut A, ctx: &mut Context<A>) {
        Message::handle(self, actor, ctx);
    }
}

impl<A: Handler<Compute, Result = i32>> MessageHandler<A> for Compute {
    open spec fn accepted_by(&self, actor: &A) -> bool {
        actor.accepts(*self)
    }

    open spec fn effect(&self, actor: &A) -> A {
        actor.handled(*self).0
    }

    fn ready(&self, actor: &A) -> (ok: bool) {
        actor.can_handle(self)
    }

    fn handle(&self, actor: &mut A, ctx: &mut Context<A>) {
        Message::handle(self, actor, ctx);
    }
}

/// An actor that counts the computations it has done.
#[derive(Debug)]
pub struct Executor {
    /// How many computations the executor has done.
    pub count: i32,
}

impl Executor {
    /// An executor that has done nothing yet.
    pub fn new() -> (executor: Self)
        ensures
            executor.count == 0,
    {
        Executor { count: 0 }
    }
}

impl Actor for Executor {}

impl Handler<Stop> for Executor {
    type Result = ();

    open spec fn accepts(&self, msg: Stop) -> bool {
        true
    }

    open spec fn handled(&self, msg: Stop) -> (Self, ()) {
        (*self, ())
    }

    fn can_handle(&self, msg: &Stop) -> (ok: bool) {
        true
    }

    fn handle(&mut self, msg: Stop, ctx: &mut Context<Self>) -> (res: ()) {
    }
}

impl Handler<Compute> for Executor {
    type Result = i32;

    open spec fn accepts(&self, msg: Compute) -> bool {
        &&& self.count < i32::MAX
        &&& i32::MIN <= 2 * msg.value <= i32::MAX
    }

    open spec fn handled(&self, msg: Compute) -> (Self, i32) {
        (Executor { count: (self.count + 1) as i32 }, (2 * msg.value) as i32)
    }

    fn can_handle(&self, msg: &Compute) -> (ok: bool) {
        self.count < i32::MAX && i32::MIN / 2 <= msg.value && msg.value <= i32::MAX / 2
    }

    fn handle(&mut self, msg: Compute, ctx: &mut Context<Self>) -> (res: i32) {
        self.count += 1;
        msg.value * 2
    }
}

/// One argument of a message attribute, as far as the choice of the result
/// type reads it.
#[derive(Debug)]
pub enum AttrArg {
    /// `name = "text"`.
    Text { name: String, text: String },
    /// `name = value`, where the value is no string.
    Value { name: String },
    /// Anything else.
    Other,
}

impl AttrArg {
    /// Whether the argument is the one named `result`.
    pub open spec fn names_result(&self) -> bool {
        match self {
            AttrArg::Text { name, .. } => name@ == "result"@,
            AttrArg::Value { name } => name@ == "result"@,
            AttrArg::Other => false,
        }
    }

    /// The type that the argument asks for: its text, or the unit type where
    /// it gives no text.
    pub open spec fn named_type(&self) -> Seq<char> {
        match self {
            AttrArg::Text { text, .. } => text@,
            _ => "()"@,
        }
    }
}

/// The result type that a message attribute with the arguments `args` asks
/// for: what the first argument named `result` says, the unit type without
/// one.
pub open spec fn result_type_of(args: Seq<AttrArg>) -> Seq<char>
    decreases args.len(),
{
    if args.len() == 0 {
        "()"@
    } else if args[0].names_result() {
        args[0].named_type()
    } else {
        result_type_of(args.drop_first())
    }
}

/// Reads the result type off the arguments of a message attribute.
pub fn result_type(args: &Vec<AttrArg>) -> (ty: String)
    ensures
        ty@ == result_type_of(args@),
{
    let wanted = "result".to_owned();
    let mut i: usize = 0;
    assert(args@.skip(0) =~= args@);
    while i < args.len()
        invariant
            i <= args.len(),
            wanted@ == "result"@,
            result_type_of(args@) == result_type_of(args@.skip(i as int)),
        decreases args.len() - i,
    {
        let ghost rest = args@.skip(i as int);
        assert(rest[0] == args@[i as int]);
        assert(rest.drop_first() =~= args@.skip(i + 1));
        match &args[i] {
            AttrArg::Text { name, text } => {
                if *name == wanted {
                    return text.clone();
                }
            },
            AttrArg::Value { name } => {
                if *name == wanted {
                    return "()".to_owned();
                }
            },
            AttrArg::Other => {},
        }
        i += 1;
    }
    "()".to_owned()
}

} // verus!
