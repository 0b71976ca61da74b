//! Bounded FIFO channels between tasks, on embassy-sync's `Channel`.
//!
//! Two channels exist on the node: angle commands from the MQTT task to the
//! servo task, and frame counters from the application loop to the radio
//! task. Both are used without blocking: a send on a full channel is refused
//! and the message dropped, a receive on an empty one returns nothing.

use vstd::prelude::*;
use embassy_sync::blocking_mutex::raw::CriticalSectionRawMutex;
use embassy_sync::channel::{Channel, TryReceiveError, TrySendError};

verus! {

/// Capacity of the command channel.
pub const COMMAND_QUEUE_CAPACITY: usize = 4;

/// Capacity of the frame channel.
pub const FRAME_QUEUE_CAPACITY: usize = 10;

/// Channel of angle commands, in degrees, from the MQTT task to the servo
/// task: an embassy-sync `Channel` of capacity `COMMAND_QUEUE_CAPACITY`,
/// seen only through `command_items`.
#[verifier::external_body]
pub struct CommandQueue {
    inner: Channel<CriticalSectionRawMutex, i16, COMMAND_QUEUE_CAPACITY>,
}

/// Channel of frame counters from the application loop to the radio task:
/// an embassy-sync `Channel` of capacity `FRAME_QUEUE_CAPACITY`, seen only
/// through `frame_items`.
#[verifier::external_body]
pub struct FrameQueue {
    inner: Channel<CriticalSectionRawMutex, u32, FRAME_QUEUE_CAPACITY>,
}

/// The commands held by a command channel, oldest first.
pub uninterp spec fn command_items(q: CommandQueue) -> Seq<i16>;

/// The counters held by a frame channel, oldest first.
pub uninterp spec fn frame_items(q: FrameQueue) -> Seq<u32>;

/// What a non-blocking send of `v` does to a channel of capacity `capacity`
/// holding `items`: the new contents, and whether the send was accepted.
pub open spec fn send_outcome<A>(items: Seq<A>, capacity: nat, v: A) -> (Seq<A>, bool) {
    if items.len() < capacity {
        (items.push(v), true)
    } else {
        (items, false)
    }
}

/// What a non-blocking receive does to a channel holding `items`: the new
/// contents, and the message received.
pub open spec fn receive_outcome<A>(items: Seq<A>) -> (Seq<A>, Option<A>) {
    if items.len() > 0 {
        (items.drop_first(), Some(items[0]))
    } else {
        (items, None)
    }
}

/// The contents after non-blocking sends of `msgs`, in order, to a channel
/// of capacity `capacity` holding `items`, and which of them were accepted.
pub open spec fn send_each<A>(items: Seq<A>, capacity: nat, msgs: Seq<A>) -> (Seq<A>, Seq<bool>)
    decreases msgs.len(),
{
    if msgs.len() == 0 {
        (items, Seq::empty())
    } else {
        let (front, accepted) = send_each(items, capacity, msgs.drop_last());
        let (next, ok) = send_outcome(front, capacity, msgs.last());
        (next, accepted.push(ok))
    }
}

impl CommandQueue {
    /// Relies on embassy-sync's `Channel::new`: a new channel is empty.
    #[verifier::external_body]
    pub fn new() -> (q: CommandQueue)
        ensures
            command_items(q) == Seq::<i16>::empty(),
    {
        CommandQueue { inner: Channel::new() }
    }
}

impl FrameQueue {
    /// Relies on embassy-sync's `Channel::new`: a new channel is empty.
    #[verifier::external_body]
    pub fn new() -> (q: FrameQueue)
        ensures
            frame_items(q) == Seq::<u32>::empty(),
    {
        FrameQueue { inner: Channel::new() }
    }
}

/// Relies on embassy-sync's `Channel::try_send`: it pushes the message at the
/// back of the channel's queue unless the queue already holds `N` messages,
/// and then hands the message back in `TrySendError::Full`.
#[verifier::external_body]
pub(crate) fn command_try_send(q: &mut CommandQueue, v: i16) -> (r: Result<(), i16>)
    ensures
        (command_items(*final(q)), r is Ok) == send_outcome(command_items(*old(q)), COMMAND_QUEUE_CAPACITY as nat, v),
        r matches Err(m) ==> m == v,
{
    match q.inner.try_send(v) {
        Ok(()) => Ok(()),
        Err(TrySendError::Full(m)) => Err(m),
    }
}

/// Relies on embassy-sync's `Channel::try_receive`: it pops the message at the
/// front of the channel's queue, or reports `TryReceiveError::Empty`.
#[verifier::external_body]
pub(crate) fn command_try_receive(q: &mut CommandQueue) -> (r: Option<i16>)
    ensures
        (command_items(*final(q)), r) == receive_outcome(command_items(*old(q))),
{
    match q.inner.try_receive() {
        Ok(m) => Some(m),
        Err(TryReceiveError::Empty) => None,
    }
}

/// Relies on embassy-sync's `Channel::try_send`, as `command_try_send` does,
/// on the frame channel.
#[verifier::external_body]
pub(crate) fn frame_try_send(q: &mut FrameQueue, v: u32) -> (r: Result<(), u32>)
    ensures
        (frame_items(*final(q)), r is Ok) == send_outcome(frame_items(*old(q)), FRAME_QUEUE_CAPACITY as nat, v),
        r matches Err(m) ==> m == v,
{
    match q.inner.try_send(v) {
        Ok(()) => Ok(()),
        Err(TrySendError::Full(m)) => Err(m),
    }
}

/// Relies on embassy-sync's `Channel::try_receive`, as `command_try_receive`
/// does, on the frame channel.
#[verifier::external_body]
pub(crate) fn frame_try_receive(q: &mut FrameQueue) -> (r: Option<u32>)
    ensures
        (frame_items(*final(q)), r) == receive_outcome(frame_items(*old(q))),
{
    match q.inner.try_receive() {
        Ok(m) => Some(m),
        Err(TryReceiveError::Empty) => None,
    }
}

/// A channel of capacity `capacity`, filled from empty by exactly
/// `capacity` non-blocking sends, accepted all of them and holds them in the
/// order sent; one more send is refused and changes nothing; one receive
/// yields the oldest message, after which exactly one more send is accepted.
pub proof fn lemma_bounded_fifo<A>(capacity: nat, msgs: Seq<A>, extra: A, later: A)
    requires
        capacity > 0,
        msgs.len() == capacity,
    ensures
        send_each(Seq::<A>::empty(), capacity, msgs).0 == msgs,
        forall|i: int|
            0 <= i < capacity ==> #[trigger] send_each(Seq::<A>::empty(), capacity, msgs).1[i],
        send_outcome(msgs, capacity, extra) == (msgs, false),
        receive_outcome(msgs) == (msgs.drop_first(), Some(msgs[0])),
        send_outcome(msgs.drop_first(), capacity, extra) == (msgs.drop_first().push(extra), true),
        send_outcome(msgs.drop_first().push(extra), capacity, later).1 == false,
{
    lemma_send_each_below_capacity(capacity, msgs);
}

/// One non-blocking operation on a channel.
pub enum QueueOp<A> {
    Send(A),
    Receive,
}

/// The state after running `ops`, in order, on a channel of capacity
/// `capacity` holding `items`: its contents, the messages it accepted and
/// the messages handed out, each in order.
pub open spec fn run_ops<A>(items: Seq<A>, capacity: nat, ops: Seq<QueueOp<A>>) -> (Seq<A>, Seq<A>, Seq<A>)
    decreases ops.len(),
{
    if ops.len() == 0 {
        (items, Seq::empty(), Seq::empty())
    } else {
        let (contents, accepted, received) = run_ops(items, capacity, ops.drop_last());
        match ops.last() {
            QueueOp::Send(v) => {
                let (next, ok) = send_outcome(contents, capacity, v);
                (next, if ok { accepted.push(v) } else { accepted }, received)
            },
            QueueOp::Receive => {
                let (next, got) = receive_outcome(contents);
                (next, accepted, match got {
                    Some(m) => received.push(m),
                    None => received,
                })
            },
        }
    }
}

/// Whatever mix of sends and receives runs on a channel, the messages handed
/// out followed by those still held are exactly the messages it held at the
/// start followed by those it accepted: nothing accepted is lost,
/// duplicated or reordered, and the channel never holds more than its
/// capacity.
pub proof fn lemma_fifo_conservation<A>(items: Seq<A>, capacity: nat, ops: Seq<QueueOp<A>>)
    requires
        items.len() <= capacity,
    ensures
        ({
            let (contents, accepted, received) = run_ops(items, capacity, ops);
            &&& received + contents == items + accepted
            &&& contents.len() <= capacity
        }),
    decreases ops.len(),
{
    if ops.len() > 0 {
        lemma_fifo_conservation(items, capacity, ops.drop_last());
        let (contents, accepted, received) = run_ops(items, capacity, ops.drop_last());
        match ops.last() {
            QueueOp::Send(v) => {
                if contents.len() < capacity {
                    assert(received + contents.push(v) =~= (received + contents).push(v));
                    assert(items + accepted.push(v) =~= (items + accepted).push(v));
                }
            },
            QueueOp::Receive => {
                if contents.len() > 0 {
                    assert(received.push(contents[0]) + contents.drop_first() =~= received + contents);
                }
            },
        }
    }
}

/// Sends to an empty channel are all accepted while they fit.
proof fn lemma_send_each_below_capacity<A>(capacity: nat, msgs: Seq<A>)
    requires
        msgs.len() <= capacity,
    ensures
        send_each(Seq::<A>::empty(), capacity, msgs).0 == msgs,
        send_each(Seq::<A>::empty(), capacity, msgs).1.len() == msgs.len(),
        forall|i: int|
            0 <= i < msgs.len() ==> #[trigger] send_each(Seq::<A>::empty(), capacity, msgs).1[i],
    decreases msgs.len(),
{
    if msgs.len() > 0 {
        lemma_send_each_below_capacity(capacity, msgs.drop_last());
        assert(msgs.drop_last().push(msgs.last()) == msgs);
    }
}

} // verus!
