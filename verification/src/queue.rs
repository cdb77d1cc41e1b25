//! A fixed pool's work queue: one channel that hands tasks to the workers,
//! one that collects what they report.

use vstd::prelude::*;
use std::sync::mpsc;
use std::time::Duration;
use crate::channel::{
    await_output, closed_recv, link_close, link_receiver, link_send, output_channel, poll_output,
    recv_output, recv_task, send_output, share_sender, task_link, ClosedTasks, RecvTimeoutError,
    TaskLink, TryRecvError,
};

verus! {

/// A unit of work: something that can be run once, and then reports at most
/// one output.
pub trait Task {
    /// What a run of the unit may report.
    type Output: Send;

    /// Whether a run of the unit may end with `out`. A unit that says
    /// nothing of its runs may end with anything.
    open spec fn yields(&self, out: Option<Self::Output>) -> bool {
        true
    }

    /// Runs the unit to its end. `None` says that it found nothing worth
    /// collecting.
    fn run(&self) -> (out: Option<Self::Output>)
        ensures
            self.yields(out),
    ;
}

/// Whether `output` is what a run of some unit of this kind may end with.
///
/// How much this says depends on the kind of unit. It holds of every
/// output where `yields` is left at its default, and for a kind that can
/// search anywhere it says no more than that some search ends so. It rules
/// an output out only where no unit of the kind could have reported it.
pub open spec fn reportable<TaskType: Task>(output: TaskType::Output) -> bool {
    exists|unit: TaskType| #[trigger] unit.yields(Some(output))
}

/// The error of an enqueue: the task that could not be handed over, given
/// back to the caller.
#[derive(Debug, PartialEq, Eq)]
pub struct SendError<T>(pub T);

/// Where a round stands once the worker's wait for a task is over and the
/// task, if one came, has run.
pub enum WorkerAction<O> {
    /// The round is over, and this is how it ended.
    Settled(WorkerStep),
    /// The task produced this output, which is to be reported; the
    /// collector's answer ends the round.
    Report(O),
}

/// How one round of a worker ended.
#[derive(Clone, Copy, Debug, PartialEq, Eq, Structural)]
pub enum WorkerStep {
    /// A task ran and produced nothing.
    Idle,
    /// A task ran and its output was handed to the collector.
    Reported,
    /// The task channel is closed and drained; the worker must end.
    Exit,
    /// A task produced an output and the collector was gone.
    OutputLost,
}

/// What a round amounts to once the worker tried to report an output:
/// `Reported` where the collector took it, `OutputLost` where the collector
/// was gone and the output came back. A lost output is never passed off as
/// reported.
pub fn after_report<O>(sent: Result<(), O>) -> (step: WorkerStep)
    ensures
        step == if sent is Ok {
            WorkerStep::Reported
        } else {
            WorkerStep::OutputLost
        },
{
    match sent {
        Ok(()) => WorkerStep::Reported,
        Err(_) => WorkerStep::OutputLost,
    }
}

/// Runs the task that a worker received, if it received one, and decides
/// how the round goes on: the worker ends exactly when nothing was
/// received, which the channel answers only once it is closed and empty;
/// a task that ran without an output leaves the worker idle; an output is
/// to be reported.
pub fn perform<TaskType: Task>(received: Option<TaskType>) -> (action: WorkerAction<
    TaskType::Output,
>)
    ensures
        match received {
            None => action == WorkerAction::<TaskType::Output>::Settled(WorkerStep::Exit),
            Some(task) => match action {
                WorkerAction::Settled(step) => step == WorkerStep::Idle && task.yields(None),
                WorkerAction::Report(output) => task.yields(Some(output)),
            },
        },
{
    match received {
        None => WorkerAction::Settled(WorkerStep::Exit),
        Some(task) => match task.run() {
            None => WorkerAction::Settled(WorkerStep::Idle),
            Some(output) => WorkerAction::Report(output),
        },
    }
}

/// An output on its way from a worker to the collector, together with the
/// unit whose run ended with it.
#[verifier::reject_recursive_types(TaskType)]
pub struct Finding<TaskType: Task> {
    output: TaskType::Output,
    unit: Ghost<TaskType>,
}

impl<TaskType: Task> Finding<TaskType> {
    /// Nothing travels to the collector but what a unit's run may end with.
    #[verifier::type_invariant]
    spec fn found_by_unit(&self) -> bool {
        self.unit@.yields(Some(self.output))
    }
}

/// One worker's ends of the two channels.
#[verifier::reject_recursive_types(TaskType)]
pub struct Worker<TaskType: 'static + Task + Send> {
    recv_tasks: spmc::Receiver<TaskType>,
    send_output: mpsc::Sender<Finding<TaskType>>,
}

impl<TaskType: 'static + Task + Send> Worker<TaskType> {
    /// One round of the worker's loop: waits for a task, runs it, and reports
    /// its output if it has one. A worker repeats this until `Exit`.
    ///
    /// Whether a unit arrives, and whether the collector still listens, is
    /// up to the channels; `perform` says what the round does with what
    /// arrived, and `after_report` what it makes of the collector's answer.
    /// The clauses here say only what kind of unit stands behind a result:
    /// `Idle` comes after a unit whose run may end without an output,
    /// `Reported` and `OutputLost` after one whose run may end with one.
    pub fn step(&self) -> (step: WorkerStep)
        ensures
            step is Idle ==> exists|unit: TaskType| #[trigger] unit.yields(None),
            step is Reported || step is OutputLost ==> exists|output: TaskType::Output|
                #[trigger] reportable::<TaskType>(output),
    {
        let received = recv_task(&self.recv_tasks);
        let ghost unit = received;
        match perform(received) {
            WorkerAction::Settled(settled) => {
                assert(settled is Idle ==> unit.unwrap().yields(None));
                settled
            },
            WorkerAction::Report(output) => {
                assert(reportable::<TaskType>(output));
                let finding = Finding { output, unit: Ghost(unit.unwrap()) };
                after_report(send_output(&self.send_output, finding))
            },
        }
    }
}

/// The owner's side of the queue: the sending end of the task channel and
/// the receiving end of the output channel.
///
/// The queue is open while it holds the sending end. Shutting it down gives
/// that end up, and an enqueue on a closed queue does nothing.
#[verifier::reject_recursive_types(TaskType)]
pub struct WorkQueue<TaskType: 'static + Task + Send> {
    /// Both ends of the task channel while the queue is open; `None` once
    /// it is closed.
    task_link: Option<TaskLink<TaskType>>,
    /// The queue's own receiving end once the queue is closed, after the
    /// shutdown drained from it what no worker had taken.
    closed: Option<ClosedTasks<TaskType>>,
    recv_output: mpsc::Receiver<Finding<TaskType>>,
    /// What the link had sent when the queue was closed.
    sent_when_closed: Ghost<Seq<TaskType>>,
}

impl<TaskType: 'static + Task + Send> WorkQueue<TaskType> {
    /// The queue's invariant: it holds the whole link or, once closed, the
    /// receiving end alone, with nothing left in the channel.
    pub closed spec fn wf(&self) -> bool {
        match self.closed {
            None => self.task_link is Some,
            Some(closed) => self.task_link is None && closed.left() == 0,
        }
    }

    /// Whether the queue still accepts tasks.
    pub closed spec fn spec_is_open(&self) -> bool {
        self.task_link is Some
    }

    /// The tasks that were handed to the workers so far, in the order in
    /// which they were enqueued.
    pub closed spec fn accepted(&self) -> Seq<TaskType> {
        match self.task_link {
            Some(link) => link.sent(),
            None => self.sent_when_closed@,
        }
    }

    /// Whether the queue is closed and its task channel is empty: no task
    /// waits there to be run, and none will.
    pub closed spec fn drained(&self) -> bool {
        &&& self.task_link is None
        &&& self.closed matches Some(closed) && closed.left() == 0
    }

    /// A queue is drained only once it is closed.
    pub proof fn lemma_drained_is_closed(&self)
        ensures
            self.drained() ==> !self.is_open(),
    {
    }

    /// An open queue with nothing enqueued, and the channel ends of
    /// `n_workers` workers. Each of them is meant to run on a thread of its
    /// own, one `step` after the other until `Exit`.
    pub fn new(n_workers: usize) -> (made: (WorkQueue<TaskType>, Vec<Worker<TaskType>>))
        ensures
            made.0.wf(),
            made.0.is_open(),
            made.0.accepted() == Seq::<TaskType>::empty(),
            made.1@.len() == n_workers,
    {
        let task_link = task_link::<TaskType>();
        let (send_output, recv_output) = output_channel::<Finding<TaskType>>();
        let mut workers: Vec<Worker<TaskType>> = Vec::new();
        let mut i: usize = 0;
        while i < n_workers
            invariant
                i <= n_workers,
                workers@.len() == i,
            decreases n_workers - i,
        {
            workers.push(
                Worker {
                    recv_tasks: link_receiver(&task_link),
                    send_output: share_sender(&send_output),
                },
            );
            i += 1;
        }
        let queue = WorkQueue {
            task_link: Some(task_link),
            closed: None,
            recv_output,
            sent_when_closed: Ghost(Seq::empty()),
        };
        (queue, workers)
    }

    /// Whether the queue still accepts tasks.
    #[verifier::when_used_as_spec(spec_is_open)]
    pub fn is_open(&self) -> (open: bool)
        ensures
            open == self.spec_is_open(),
    {
        self.task_link.is_some()
    }

    /// Hands `t` to the workers. On an open queue the task goes into the
    /// channel, behind all that were enqueued before it. On a closed queue
    /// this does nothing. It succeeds either way: the queue keeps both
    /// ends of the channel for as long as it is open, so the channel has no
    /// ground to refuse.
    pub fn enqueue(&mut self, t: TaskType) -> (r: Result<(), SendError<TaskType>>)
        requires
            old(self).wf(),
        ensures
            final(self).wf(),
            r is Ok,
            final(self).is_open() == old(self).is_open(),
            !old(self).is_open() ==> *final(self) == *old(self),
            old(self).is_open() ==> final(self).accepted() == old(self).accepted().push(t),
    {
        match self.task_link.as_mut() {
            None => Ok(()),
            Some(link) => {
                match link_send(link, t) {
                    Ok(()) => Ok(()),
                    Err(back) => Err(SendError(back)),
                }
            },
        }
    }

    /// Waits for the next output. `None` says that every worker is gone and
    /// nothing is left to collect. Which output comes first is up to the
    /// workers; whichever it is, it is `reportable`, which says as much as
    /// the kind of unit lets it say.
    pub fn recv(&mut self) -> (r: Option<TaskType::Output>)
        ensures
            *final(self) == *old(self),
            r matches Some(output) ==> reportable::<TaskType>(output),
    {
        match recv_output(&self.recv_output) {
            Some(finding) => Some(Self::collect(finding)),
            None => None,
        }
    }

    /// The next output if one is already there, without waiting. An output
    /// is `reportable`, which says as much as the kind of unit lets it say.
    pub fn try_recv(&mut self) -> (r: Result<TaskType::Output, TryRecvError>)
        ensures
            *final(self) == *old(self),
            r matches Ok(output) ==> reportable::<TaskType>(output),
    {
        match poll_output(&self.recv_output) {
            Ok(finding) => Ok(Self::collect(finding)),
            Err(e) => Err(e),
        }
    }

    /// The next output if one arrives within `timeout`. An output is
    /// `reportable`, which says as much as the kind of unit lets it say.
    pub fn recv_timeout(&self, timeout: Duration) -> (r: Result<TaskType::Output, RecvTimeoutError>)
        ensures
            r matches Ok(output) ==> reportable::<TaskType>(output),
    {
        match await_output(&self.recv_output, timeout) {
            Ok(finding) => Ok(Self::collect(finding)),
            Err(e) => Err(e),
        }
    }

    /// Unpacks what a worker sent.
    fn collect(finding: Finding<TaskType>) -> (output: TaskType::Output)
        ensures
            reportable::<TaskType>(output),
    {
        proof {
            use_type_invariant(&finding);
        }
        finding.output
    }

    /// Closes the queue: gives up the sending end, then takes and discards
    /// what still waits in the task channel, until the channel is empty, so
    /// that every worker finds it closed and empty. Returns whether the
    /// queue was open, that is, whether the workers are now to be joined;
    /// on a closed queue this does nothing.
    pub fn shutdown(&mut self) -> (was_open: bool)
        requires
            old(self).wf(),
        ensures
            final(self).wf(),
            was_open == old(self).is_open(),
            !final(self).is_open(),
            final(self).drained(),
            final(self).accepted() == old(self).accepted(),
            !old(self).is_open() ==> *final(self) == *old(self),
    {
        match self.task_link.take() {
            None => false,
            Some(link) => {
                proof {
                    self.sent_when_closed = Ghost(link.sent());
                }
                let mut closed = link_close(link);
                loop
                    ensures
                        closed.left() == 0,
                    decreases closed.left(),
                {
                    match closed_recv(&mut closed) {
                        Some(_) => {},
                        None => {
                            break ;
                        },
                    }
                }
                self.closed = Some(closed);
                true
            },
        }
    }
}

} // verus!
