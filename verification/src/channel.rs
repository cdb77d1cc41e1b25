//! The channel primitives the work queue is built on, with what is taken
//! for granted about each of them.
//!
//! Channels are shared with other threads, so no contract here says what a
//! receive brings. What the owner of the task channel can know stands in
//! the two holders: what it sent, and, once the channel is closed, how much
//! may still wait in it.

use vstd::prelude::*;
use std::sync::mpsc;
use std::time::Duration;

verus! {

#[verifier::external_type_specification]
#[verifier::external_body]
#[verifier::reject_recursive_types(T)]
pub struct ExTaskSender<T: Send>(spmc::Sender<T>);

#[verifier::external_type_specification]
#[verifier::external_body]
#[verifier::reject_recursive_types(T)]
pub struct ExTaskReceiver<T: Send>(spmc::Receiver<T>);

#[verifier::external_type_specification]
#[verifier::external_body]
#[verifier::reject_recursive_types(T)]
pub struct ExOutputSender<T>(mpsc::Sender<T>);

#[verifier::external_type_specification]
#[verifier::external_body]
#[verifier::reject_recursive_types(T)]
pub struct ExOutputReceiver<T>(mpsc::Receiver<T>);

/// Why a non-blocking receive came back empty-handed.
#[derive(Clone, Copy, Debug, PartialEq, Eq, Structural)]
pub enum TryRecvError {
    /// Nothing is waiting, but a sender is still alive.
    Empty,
    /// Nothing is waiting and every sender is gone.
    Disconnected,
}

/// Why a bounded-wait receive came back empty-handed.
#[derive(Clone, Copy, Debug, PartialEq, Eq, Structural)]
pub enum RecvTimeoutError {
    /// The wait ran out before anything arrived.
    Timeout,
    /// Nothing is waiting and every sender is gone.
    Disconnected,
}

/// The owner's hold on a task channel: the sending end of one
/// `spmc::channel` together with a receiving end of the same channel, and
/// the record of what was sent.
///
/// The two ends are kept together because of what `spmc` does when an end
/// goes: a send is refused only after the sending end or the last
/// receiving end was dropped. While the link lives neither has happened,
/// whatever the other receiving ends do. Nothing but the functions below
/// reaches into a link.
#[verifier::reject_recursive_types(T)]
pub struct TaskLink<T: Send> {
    sender: spmc::Sender<T>,
    receiver: spmc::Receiver<T>,
    sent: Ghost<Seq<T>>,
}

impl<T: Send> TaskLink<T> {
    /// The tasks that went into the channel through this link, in order.
    pub closed spec fn sent(&self) -> Seq<T> {
        self.sent@
    }
}

/// What is left of a task channel once its sending end is dropped: a
/// receiving end, and a bound on what may still wait in the channel.
#[verifier::reject_recursive_types(T)]
pub struct ClosedTasks<T: Send> {
    receiver: spmc::Receiver<T>,
    left: Ghost<nat>,
}

impl<T: Send> ClosedTasks<T> {
    /// No more than this many tasks still wait in the channel. Nothing can
    /// be added to a closed channel, so 0 means empty for good.
    pub closed spec fn left(&self) -> nat {
        self.left@
    }
}

/// `spmc::channel`: a fresh single-producer, multi-consumer channel, both
/// ends held in one link. Nothing was sent through it yet.
#[verifier::external_body]
pub(crate) fn task_link<T: Send>() -> (link: TaskLink<T>)
    ensures
        link.sent() == Seq::<T>::empty(),
{
    let (sender, receiver) = spmc::channel();
    TaskLink { sender, receiver, sent: Ghost(Seq::empty()) }
}

/// `spmc::Sender::send` on the link's sending end: hands `task` to the
/// channel, behind what was sent before. The channel refuses a task only
/// once an end of it is gone for good; the link holds both, so the task is
/// taken.
#[verifier::external_body]
pub(crate) fn link_send<T: Send>(link: &mut TaskLink<T>, task: T) -> (r: Result<(), T>)
    ensures
        r is Ok,
        final(link).sent() == old(link).sent().push(task),
{
    match link.sender.send(task) {
        Ok(()) => Ok(()),
        Err(e) => Err(e.0),
    }
}

/// `spmc::Receiver::clone` on the link's receiving end: one more receiving
/// end of the same channel.
#[verifier::external_body]
pub(crate) fn link_receiver<T: Send>(link: &TaskLink<T>) -> (r: spmc::Receiver<T>) {
    link.receiver.clone()
}

/// Drops the link's `spmc::Sender`, which closes the channel, and keeps
/// the receiving end that the link held. The channel holds no more tasks
/// than were sent.
#[verifier::external_body]
pub(crate) fn link_close<T: Send>(link: TaskLink<T>) -> (closed: ClosedTasks<T>)
    ensures
        closed.left() == link.sent().len(),
{
    ClosedTasks { receiver: link.receiver, left: Ghost(link.sent@.len()) }
}

/// `spmc::Receiver::recv` on a closed channel: takes the next task that
/// waits, without blocking, as the sending end is gone. A task that is
/// taken is one less that waits; `None` says that the channel is empty,
/// and a closed channel stays so.
#[verifier::external_body]
pub(crate) fn closed_recv<T: Send>(closed: &mut ClosedTasks<T>) -> (r: Option<T>)
    ensures
        r is Some ==> old(closed).left() == final(closed).left() + 1,
        r is None ==> final(closed).left() == 0,
{
    closed.receiver.recv().ok()
}

/// `spmc::Receiver::recv`: blocks until a task can be taken; `None` once the
/// sending end is gone and nothing is buffered. Nothing is claimed of which
/// of the two happens, nor of the task.
#[verifier::external_body]
pub(crate) fn recv_task<T: Send>(receiver: &spmc::Receiver<T>) -> (r: Option<T>) {
    receiver.recv().ok()
}

/// `std::sync::mpsc::channel`: a fresh multi-producer, single-consumer
/// channel, as one sending end and its receiving end.
#[verifier::external_body]
pub(crate) fn output_channel<T>() -> (ends: (mpsc::Sender<T>, mpsc::Receiver<T>)) {
    mpsc::channel()
}

/// `std::sync::mpsc::Sender::clone`: one more sending end of the same channel.
#[verifier::external_body]
pub(crate) fn share_sender<T>(sender: &mpsc::Sender<T>) -> (r: mpsc::Sender<T>) {
    sender.clone()
}

/// `std::sync::mpsc::Sender::send`: hands `output` to the channel, or refuses
/// it when the receiving end is gone. A refused value comes back unchanged.
#[verifier::external_body]
pub(crate) fn send_output<T>(sender: &mpsc::Sender<T>, output: T) -> (r: Result<(), T>)
    ensures
        r matches Err(back) ==> back == output,
{
    match sender.send(output) {
        Ok(()) => Ok(()),
        Err(e) => Err(e.0),
    }
}

/// `std::sync::mpsc::Receiver::recv`: blocks until a value arrives; `None`
/// once every sender is gone and nothing is buffered.
#[verifier::external_body]
pub(crate) fn recv_output<T>(receiver: &mpsc::Receiver<T>) -> (r: Option<T>) {
    receiver.recv().ok()
}

/// `std::sync::mpsc::Receiver::try_recv`: the next value if one is already
/// there, else the reason why none is.
#[verifier::external_body]
pub(crate) fn poll_output<T>(receiver: &mpsc::Receiver<T>) -> (r: Result<T, TryRecvError>) {
    match receiver.try_recv() {
        Ok(output) => Ok(output),
        Err(mpsc::TryRecvError::Empty) => Err(TryRecvError::Empty),
        Err(mpsc::TryRecvError::Disconnected) => Err(TryRecvError::Disconnected),
    }
}

/// `std::sync::mpsc::Receiver::recv_timeout`: the next value if one arrives
/// within `timeout`, else the reason why none did.
#[verifier::external_body]
pub(crate) fn await_output<T>(receiver: &mpsc::Receiver<T>, timeout: Duration) -> (r: Result<
    T,
    RecvTimeoutError,
>) {
    match receiver.recv_timeout(timeout) {
        Ok(output) => Ok(output),
        Err(mpsc::RecvTimeoutError::Timeout) => Err(RecvTimeoutError::Timeout),
        Err(mpsc::RecvTimeoutError::Disconnected) => Err(RecvTimeoutError::Disconnected),
    }
}

} // verus!
