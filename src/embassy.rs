//! The bus between the synchronous controller and the asynchronous envoys: one command channel
//! per control module, one broadcast channel to the monitors, one shared result channel, and one
//! cancellation broadcast. The envoy tasks themselves are spawned by the caller, which hands
//! their channel ends to `startup`.
use crate::error::EmbassyError;
use crate::message::{EmbassyMessage, MessageKind, MessageView};
use std::collections::HashMap;
use tokio::runtime::Runtime;
use tokio::sync::broadcast;
use tokio::sync::mpsc;
use tokio::task::JoinHandle;
use vstd::prelude::*;

verus! {

broadcast use vstd::std_specs::hash::group_hash_axioms;

/// tokio's sending end of a bounded channel, carried opaquely.
#[verifier::external_type_specification]
#[verifier::external_body]
#[verifier::reject_recursive_types(T)]
pub struct ExMpscSender<T>(mpsc::Sender<T>);

/// tokio's receiving end of a bounded channel, carried opaquely.
#[verifier::external_type_specification]
#[verifier::external_body]
#[verifier::reject_recursive_types(T)]
pub struct ExMpscReceiver<T>(mpsc::Receiver<T>);

/// tokio's sending end of a broadcast channel, carried opaquely.
#[verifier::external_type_specification]
#[verifier::external_body]
#[verifier::reject_recursive_types(T)]
pub struct ExBroadcastSender<T>(broadcast::Sender<T>);

/// tokio's handle to a spawned task, carried opaquely.
#[verifier::external_type_specification]
#[verifier::external_body]
#[verifier::reject_recursive_types(T)]
pub struct ExJoinHandle<T>(JoinHandle<T>);

/// tokio's error of a task that panicked or was cancelled.
#[verifier::external_type_specification]
#[verifier::external_body]
pub struct ExJoinError(tokio::task::JoinError);

/// tokio's runtime, on which the envoys run.
#[verifier::external_type_specification]
#[verifier::external_body]
pub struct ExRuntime(Runtime);

/// Relies on `tokio::sync::mpsc::Sender::blocking_send`: it waits for room in the channel and
/// fails only when the receiver is gone, handing the message back. It must not be called from
/// inside an asynchronous task.
#[verifier::external_body]
fn send_blocking(sender: &mpsc::Sender<EmbassyMessage>, message: EmbassyMessage) -> (r: Result<
    (),
    EmbassyMessage,
>)
    ensures
        r matches Err(m) ==> m == message,
{
    sender.blocking_send(message).map_err(|e| e.0)
}

/// Relies on `tokio::sync::broadcast::Sender::send`: it fails only when no receiver is
/// subscribed, handing the message back.
#[verifier::external_body]
fn send_broadcast(sender: &broadcast::Sender<EmbassyMessage>, message: EmbassyMessage) -> (r:
    Result<usize, EmbassyMessage>)
    ensures
        r matches Err(m) ==> m == message,
{
    sender.send(message).map_err(|e| e.0)
}

/// What one attempt to take a result from the shared channel gave.
pub enum Received {
    Message(EmbassyMessage),
    Empty,
    Disconnected,
}

/// Relies on `tokio::sync::mpsc::Receiver::try_recv`: a queued message, or word that none is
/// queued, or that every sender is gone. It never waits.
#[verifier::external_body]
fn try_receive(receiver: &mut mpsc::Receiver<EmbassyMessage>) -> (r: Received) {
    match receiver.try_recv() {
        Ok(message) => Received::Message(message),
        Err(mpsc::error::TryRecvError::Empty) => Received::Empty,
        Err(mpsc::error::TryRecvError::Disconnected) => Received::Disconnected,
    }
}

/// Relies on `tokio::sync::mpsc::Receiver::len`: the number of messages queued right now.
#[verifier::external_body]
fn queued(receiver: &mpsc::Receiver<EmbassyMessage>) -> (r: usize) {
    receiver.len()
}

/// Relies on `tokio::runtime::Runtime::block_on` applied to a task handle: it waits for the
/// task to end, and fails when the task panicked or was cancelled.
#[verifier::external_body]
fn join_task(runtime: &Runtime, handle: JoinHandle<()>) -> (r: bool) {
    runtime.block_on(handle).is_ok()
}

/// What a poll does after one attempt to take a result.
pub enum PollStep {
    /// A result was taken; try again.
    Continue,
    /// Nothing is queued; the batch is complete.
    Done,
    /// Every sender is gone; the poll fails.
    Failed,
}

/// Takes the outcome of one attempt into the batch: a result is appended and the poll goes
/// on, an empty channel ends the batch, a disconnected channel fails the poll.
pub fn absorb(messages: &mut Vec<EmbassyMessage>, received: Received) -> (r: PollStep)
    ensures
        match received {
            Received::Message(m) => final(messages)@ == old(messages)@.push(m) && r is Continue,
            Received::Empty => final(messages)@ == old(messages)@ && r is Done,
            Received::Disconnected => final(messages)@ == old(messages)@ && r is Failed,
        },
{
    match received {
        Received::Message(m) => {
            messages.push(m);
            PollStep::Continue
        },
        Received::Empty => PollStep::Done,
        Received::Disconnected => PollStep::Failed,
    }
}

/// A runtime whose time driver is running. The only way to make one is `start_clock`.
struct Clock {
    runtime: Runtime,
}

/// Relies on `tokio::runtime::Runtime::new`: a multi-threaded runtime with its I/O and time
/// drivers initialized, or an error when it cannot be built.
#[verifier::external_body]
fn start_clock() -> (r: Option<Clock>) {
    Runtime::new().ok().map(|runtime| Clock { runtime })
}

/// Relies on `tokio::runtime::Runtime::block_on` driving `tokio::time::sleep`, created inside
/// the runtime's context (`Runtime::enter`): the calling thread waits about `millis`
/// milliseconds. The runtime of a `Clock` has its time driver, so the sleep has a timer. It
/// must not be called from inside an asynchronous task.
#[verifier::external_body]
fn sleep_on(clock: &Clock, millis: u64) {
    let _context = clock.runtime.enter();
    clock.runtime.block_on(tokio::time::sleep(std::time::Duration::from_millis(millis)))
}

/// The channel ends of envoys that the caller has spawned.
pub struct EnvoyLinks {
    /// The command channel of each control module, by module id.
    pub ecc_senders: HashMap<usize, mpsc::Sender<EmbassyMessage>>,
    /// The channel on which every monitor envoy listens for operations.
    pub sentry_sender: broadcast::Sender<EmbassyMessage>,
    /// The receiving end of the channel that every envoy sends its results to.
    pub receiver: mpsc::Receiver<EmbassyMessage>,
    /// The channel on which every envoy listens for cancellation.
    pub cancel: broadcast::Sender<EmbassyMessage>,
    /// The spawned envoy tasks.
    pub handles: Vec<JoinHandle<()>>,
}

/// The bridge between the asynchronous envoys and the synchronous controller.
pub struct Embassy {
    ecc_senders: HashMap<usize, mpsc::Sender<EmbassyMessage>>,
    sentry_sender: Option<broadcast::Sender<EmbassyMessage>>,
    envoy_reciever: Option<mpsc::Receiver<EmbassyMessage>>,
    cancel: Option<broadcast::Sender<EmbassyMessage>>,
    handles: Option<Vec<JoinHandle<()>>>,
    clock: Clock,
    is_connected: bool,
    routed: Ghost<Seq<(usize, MessageView)>>,
    broadcasted: Ghost<Seq<MessageView>>,
    polls: Ghost<nat>,
    cancelled: Ghost<bool>,
}

impl Embassy {
    /// The module ids that have a command channel.
    pub closed spec fn routes(&self) -> Set<usize> {
        self.ecc_senders@.dom()
    }

    /// Whether the monitors can be reached.
    pub closed spec fn has_monitors(&self) -> bool {
        self.sentry_sender is Some
    }

    /// Whether the result channel is attached.
    pub closed spec fn has_results(&self) -> bool {
        self.envoy_reciever is Some
    }

    /// Whether the bus is connected to its envoys.
    pub closed spec fn connected(&self) -> bool {
        self.is_connected
    }

    /// The number of envoy tasks that the bus waits for on shutdown.
    pub closed spec fn tasks(&self) -> nat {
        match self.handles {
            Some(h) => h@.len(),
            None => 0,
        }
    }

    /// Every command handed to a module channel so far, with the id of that module, in order.
    pub closed spec fn routed(&self) -> Seq<(usize, MessageView)> {
        self.routed@
    }

    /// Whether the cancellation channel is attached.
    pub closed spec fn can_cancel(&self) -> bool {
        self.cancel is Some
    }

    /// How many times the result channel was polled.
    pub closed spec fn polls(&self) -> nat {
        self.polls@
    }

    /// Whether the cancellation was broadcast to the envoys.
    pub closed spec fn cancelled(&self) -> bool {
        self.cancelled@
    }

    /// Every operation handed to the monitors so far, in order.
    pub closed spec fn broadcasted(&self) -> Seq<MessageView> {
        self.broadcasted@
    }

    /// A bus on a runtime of its own, not connected to any envoy. Fails when no runtime can be
    /// built.
    pub fn new() -> (r: Result<Self, EmbassyError>)
        ensures
            r matches Ok(e) ==> {
                &&& !e.connected()
                &&& e.routes() == Set::<usize>::empty()
                &&& !e.has_monitors()
                &&& !e.has_results()
                &&& e.tasks() == 0
                &&& e.routed() == Seq::<(usize, MessageView)>::empty()
                &&& e.broadcasted() == Seq::<MessageView>::empty()
                &&& e.polls() == 0
                &&& !e.cancelled()
            },
            r matches Err(e) ==> e is NoRuntime,
    {
        let clock = match start_clock() {
            Some(c) => c,
            None => return Err(EmbassyError::NoRuntime),
        };
        Ok(
            Embassy {
                ecc_senders: HashMap::new(),
                sentry_sender: None,
                envoy_reciever: None,
                cancel: None,
                handles: None,
                clock,
                is_connected: false,
                routed: Ghost(Seq::empty()),
                broadcasted: Ghost(Seq::empty()),
                polls: Ghost(0),
                cancelled: Ghost(false),
            },
        )
    }

    /// The runtime on which the envoys are to be spawned.
    pub fn runtime(&self) -> &Runtime {
        &self.clock.runtime
    }

    /// Connects the bus to spawned envoys. A bus that is already connected is left as it was.
    pub fn startup(&mut self, links: EnvoyLinks)
        ensures
            final(self).connected(),
            old(self).connected() ==> *final(self) == *old(self),
            !old(self).connected() ==> {
                &&& final(self).routes() == links.ecc_senders@.dom()
                &&& final(self).has_monitors()
                &&& final(self).has_results()
                &&& final(self).tasks() == links.handles@.len()
                &&& final(self).can_cancel()
                &&& final(self).polls() == old(self).polls()
                &&& final(self).cancelled() == old(self).cancelled()
                &&& final(self).routed() == old(self).routed()
                &&& final(self).broadcasted() == old(self).broadcasted()
            },
    {
        if self.is_connected {
            return;
        }
        self.ecc_senders = links.ecc_senders;
        self.sentry_sender = Some(links.sentry_sender);
        self.envoy_reciever = Some(links.receiver);
        self.cancel = Some(links.cancel);
        self.handles = Some(links.handles);
        self.is_connected = true;
    }

    /// Tells every envoy to stop, then waits for every envoy task to end, even after one of
    /// them failed. Envoys that already ended are no error. The bus is then disconnected, whatever
    /// the result: no channel is attached any more. Fails with `FailedJoin` when a task panicked
    /// or was cancelled. It must not be called from inside an asynchronous task.
    pub fn shutdown(&mut self) -> (r: Result<(), EmbassyError>)
        ensures
            final(self).routed() == old(self).routed(),
            final(self).broadcasted() == old(self).broadcasted(),
            !final(self).connected(),
            final(self).tasks() == 0,
            final(self).routes() == Set::<usize>::empty(),
            !final(self).has_monitors(),
            !final(self).has_results(),
            !final(self).can_cancel(),
            r is Err ==> r == Err::<(), EmbassyError>(EmbassyError::FailedJoin),
            old(self).tasks() == 0 ==> r is Ok,
            old(self).can_cancel() ==> final(self).cancelled(),
            !old(self).can_cancel() ==> final(self).cancelled() == old(self).cancelled(),
            final(self).polls() == old(self).polls(),
    {
        if let Some(tx) = &self.cancel {
            let _ = send_broadcast(tx, EmbassyMessage::compose_cancel());
            self.cancelled = Ghost(true);
        }
        let mut all_joined = true;
        if let Some(handles) = self.handles.take() {
            let mut handles = handles;
            while handles.len() > 0
                invariant
                    self.routed == old(self).routed,
                    self.broadcasted == old(self).broadcasted,
                    self.polls == old(self).polls,
                    old(self).can_cancel() ==> self.cancelled@,
                    !old(self).can_cancel() ==> self.cancelled == old(self).cancelled,
                    self.handles is None,
                    handles@.len() <= old(self).tasks(),
                    old(self).tasks() == 0 ==> all_joined,
                decreases handles.len(),
            {
                let handle = handles.pop().unwrap();
                if !join_task(&self.clock.runtime, handle) {
                    all_joined = false;
                }
            }
        }
        self.ecc_senders = HashMap::new();
        self.sentry_sender = None;
        self.envoy_reciever = None;
        self.cancel = None;
        self.is_connected = false;
        if all_joined {
            Ok(())
        } else {
            Err(EmbassyError::FailedJoin)
        }
    }

    /// Hands a command to the envoy it is for. An operation for a control module goes to the
    /// channel of that module, if it has one; a monitor operation goes to every monitor, if they
    /// can be reached. Any other message, or one with no channel to go to, is dropped without
    /// error. Fails only when the channel it was handed to is closed. It waits while that
    /// channel is full, so it must not be called from inside an asynchronous task.
    pub fn submit_message(&mut self, message: EmbassyMessage) -> (r: Result<(), EmbassyError>)
        ensures
            final(self).polls() == old(self).polls(),
            final(self).cancelled() == old(self).cancelled(),
            final(self).can_cancel() == old(self).can_cancel(),
            final(self).routes() == old(self).routes(),
            final(self).connected() == old(self).connected(),
            final(self).has_monitors() == old(self).has_monitors(),
            final(self).has_results() == old(self).has_results(),
            final(self).tasks() == old(self).tasks(),
            if message.kind == MessageKind::ECCOperation && old(self).routes().contains(
                message.id,
            ) {
                final(self).routed() == old(self).routed().push((message.id, message@))
            } else {
                final(self).routed() == old(self).routed()
            },
            if message.kind == MessageKind::SentryOperation && old(self).has_monitors() {
                final(self).broadcasted() == old(self).broadcasted().push(message@)
            } else {
                final(self).broadcasted() == old(self).broadcasted()
            },
            r is Err && message.kind == MessageKind::ECCOperation ==> old(self).routes().contains(
                message.id,
            ) && r == Err::<(), EmbassyError>(EmbassyError::FailedMpscSend(message)),
            r is Err && message.kind != MessageKind::ECCOperation ==> message.kind
                == MessageKind::SentryOperation && old(self).has_monitors() && r == Err::<
                (),
                EmbassyError,
            >(EmbassyError::FailedBroadcastSend(message)),
            !(message.kind == MessageKind::ECCOperation && old(self).routes().contains(message.id))
                && !(message.kind == MessageKind::SentryOperation && old(self).has_monitors())
                ==> r is Ok,
    {
        let ghost view = message@;
        match message.kind {
            MessageKind::ECCOperation => {
                let id = message.id;
                match self.ecc_senders.get(&id) {
                    Some(sender) => {
                        let sent = send_blocking(sender, message);
                        self.routed = Ghost(self.routed@.push((id, view)));
                        match sent {
                            Ok(()) => Ok(()),
                            Err(m) => Err(EmbassyError::FailedMpscSend(m)),
                        }
                    },
                    None => Ok(()),
                }
            },
            MessageKind::SentryOperation => {
                match &self.sentry_sender {
                    Some(sender) => {
                        let sent = send_broadcast(sender, message);
                        self.broadcasted = Ghost(self.broadcasted@.push(view));
                        match sent {
                            Ok(_) => Ok(()),
                            Err(m) => Err(EmbassyError::FailedBroadcastSend(m)),
                        }
                    },
                    None => Ok(()),
                }
            },
            _ => Ok(()),
        }
    }

    /// Takes, without waiting, the results that the envoys have queued, in the order they
    /// arrived. A bus with no result channel gives an empty batch. Fails when every envoy has
    /// dropped its end of the result channel while the bus was still attached to it.
    pub fn poll_messages(&mut self) -> (r: Result<Vec<EmbassyMessage>, EmbassyError>)
        ensures
            final(self).routes() == old(self).routes(),
            final(self).connected() == old(self).connected(),
            final(self).has_monitors() == old(self).has_monitors(),
            final(self).has_results() == old(self).has_results(),
            final(self).tasks() == old(self).tasks(),
            final(self).routed() == old(self).routed(),
            final(self).broadcasted() == old(self).broadcasted(),
            final(self).cancelled() == old(self).cancelled(),
            final(self).can_cancel() == old(self).can_cancel(),
            final(self).polls() == old(self).polls() + 1,
            !old(self).has_results() ==> r is Ok && r->Ok_0@.len() == 0,
            r is Err ==> old(self).has_results() && r == Err::<Vec<EmbassyMessage>, EmbassyError>(
                EmbassyError::FailedRecieve,
            ),
    {
        self.polls = Ghost(self.polls@ + 1);
        let mut messages: Vec<EmbassyMessage> = Vec::new();
        match self.envoy_reciever.take() {
            Some(rx) => {
                let mut rx = rx;
                let available = queued(&rx);
                let mut taken: usize = 0;
                let mut disconnected = false;
                while taken <= available
                    decreases available - taken + 1,
                {
                    match absorb(&mut messages, try_receive(&mut rx)) {
                        PollStep::Continue => {},
                        PollStep::Done => break,
                        PollStep::Failed => {
                            disconnected = true;
                            break;
                        },
                    }
                    if taken == available {
                        break;
                    }
                    taken = taken + 1;
                }
                self.envoy_reciever = Some(rx);
                if disconnected {
                    return Err(EmbassyError::FailedRecieve);
                }
            },
            None => {},
        }
        Ok(messages)
    }

    /// Waits about `millis` milliseconds, so that envoys can make progress between polls. It
    /// must not be called from inside an asynchronous task.
    pub fn pause(&self, millis: u64) {
        sleep_on(&self.clock, millis);
    }

    /// Whether the bus is connected to its envoys.
    pub fn is_connected(&self) -> (r: bool)
        ensures
            r == self.connected(),
    {
        self.is_connected
    }

    /// How many envoy tasks the bus waits for on shutdown.
    pub fn number_of_tasks(&self) -> (r: usize)
        ensures
            r == self.tasks(),
    {
        if let Some(handles) = &self.handles {
            handles.len()
        } else {
            0
        }
    }
}

} // verus!
