//! The per-component surface of the bus: the identifier a component is
//! registered under, the context API it runs against, and the handle the
//! supervisor keeps for it.

use vstd::prelude::*;
use tokio::sync::mpsc::Receiver;
use tokio::sync::mpsc::Sender;
use tokio::sync::mpsc::UnboundedSender;
use crate::channels::RecvOutcome;
use crate::channels::SendOutcome;
use crate::channels::bounded_pair;
use crate::channels::clone_bounded_sender;
use crate::channels::send_unbounded;
use crate::channels::try_recv_bounded;
use crate::channels::try_send_bounded;
use crate::errors::BusError;
use crate::message::CallResponse;
use crate::message::Message;
use crate::message::MessageModel;
use crate::message::ResponseModel;
use crate::message::ResponseSender;
use crate::message::opt_payload_view;
use crate::payload::PayloadModel;
use crate::payload::TypedValue;
use crate::text::is_prefix_of;
use crate::text::str_starts_with;

verus! {

/// Every mailbox holds at most this many undelivered envelopes; the bound is
/// the unit of backpressure.
pub const MAILBOX_CAPACITY: usize = 100;

/// An opaque identifier minted by the supervisor when a component is spawned.
/// The supervisor mints them from a counter it owns, so no two live
/// components ever share one.
#[derive(Clone, Copy, Debug, PartialEq, Eq, Hash, Structural)]
pub struct ComponentId {
    /// The raw minted value.
    pub inner: u64,
}

impl ComponentId {
    /// Wraps the given raw value.
    pub fn new(inner: u64) -> (r: ComponentId)
        ensures
            r.inner == inner,
    {
        ComponentId { inner }
    }

    /// The raw value, for display and bookkeeping.
    pub fn value(&self) -> (r: u64)
        ensures
            r == self.inner,
    {
        self.inner
    }
}

/// A fresh mailbox: the bounded FIFO queue a component consumes, as the
/// producer handle the supervisor keeps and the consumer handle the
/// component keeps. Closing the consumer half is the signal the supervisor
/// reads as component death.
pub fn new_mailbox() -> (r: (Sender<Message>, Receiver<Message>)) {
    bounded_pair::<Message>(MAILBOX_CAPACITY)
}

/// How an attempted mailbox delivery came out.
pub enum DeliveryOutcome {
    /// The envelope was placed into the mailbox.
    Delivered,
    /// The mailbox was full; the envelope is handed back for a later retry.
    MailboxFull(Message),
    /// The mailbox's consumer was dropped: the component is dead; the
    /// envelope is handed back so its response sink can still be used.
    MailboxClosed(Message),
}

/// One step of receiving from a mailbox under the owning component's filters.
pub enum MailboxPoll {
    /// The next envelope; it passes the component's filters.
    Accepted(Message),
    /// An envelope arrived but the component's filters drop it; poll again.
    Filtered,
    /// Nothing is queued right now.
    Empty,
    /// The mailbox is closed: the supervisor shut down or evicted its owner.
    Closed,
}

/// The handle the supervisor keeps for one live component: its mailbox's
/// producer half and its identifier.
pub struct ComponentHandler {
    private_tx: Sender<Message>,
    id: ComponentId,
}

impl ComponentHandler {
    /// Wraps a mailbox producer handle under the component's identifier.
    pub fn new(private_tx: Sender<Message>, id: ComponentId) -> (r: ComponentHandler)
        ensures
            r.id_spec() == id,
    {
        ComponentHandler { private_tx, id }
    }

    /// The identifier of the component this handle belongs to.
    pub closed spec fn id_spec(&self) -> ComponentId {
        self.id
    }

    /// The identifier of the component this handle belongs to.
    pub fn id(&self) -> (r: ComponentId)
        ensures
            r == self.id_spec(),
    {
        self.id
    }

    /// Another producer handle for this component's mailbox, for retrying a
    /// deferred delivery outside the dispatch step.
    pub fn sender(&self) -> (r: Sender<Message>) {
        clone_bounded_sender(&self.private_tx)
    }

    /// Attempts to place an envelope into the component's mailbox without
    /// blocking; a full mailbox hands the envelope back rather than stalling
    /// deliveries to anyone else.
    pub fn handle_message(&self, message: Message) -> (r: DeliveryOutcome)
        ensures
            r matches DeliveryOutcome::MailboxFull(m) ==> m == message,
            r matches DeliveryOutcome::MailboxClosed(m) ==> m == message,
    {
        match try_send_bounded(&self.private_tx, message) {
            SendOutcome::Sent => DeliveryOutcome::Delivered,
            SendOutcome::Full(m) => DeliveryOutcome::MailboxFull(m),
            SendOutcome::Closed(m) => DeliveryOutcome::MailboxClosed(m),
        }
    }
}

/// A call that has been issued and not yet answered: the receiving half of
/// its single-slot response channel.
pub struct PendingCall {
    response_rx: Receiver<CallResponse>,
}

/// What a caller sees of a finished call, given what came out of its response
/// channel: an explicit empty answer and an abandoned (dropped-sink) channel
/// both end the wait, the first successfully, the second with
/// `ComponentUnavailable`; a failure the callee attached is handed on.
pub open spec fn spec_interpret_response(r: Option<ResponseModel>) -> Result<
    Option<PayloadModel>,
    BusError,
> {
    match r {
        Some(ResponseModel::Value(p)) => Ok(p),
        Some(ResponseModel::Failure(e)) => Err(e),
        None => Err(BusError::ComponentUnavailable),
    }
}

/// Unknown callback: the failure the dispatch step answers an unowned,
/// non-reserved callback id with is what its caller's wait reports — an
/// error result, never a hang.
pub proof fn lemma_unknown_callback_reaches_caller()
    ensures
        spec_interpret_response(Some(ResponseModel::Failure(BusError::UnknownCallback))) == Err::<
            Option<PayloadModel>,
            BusError,
        >(BusError::UnknownCallback),
{
}

/// Turns what came out of a response channel into the caller's result.
pub fn interpret_response(r: Option<CallResponse>) -> (res: Result<Option<TypedValue>, BusError>)
    ensures
        match res {
            Ok(p) => spec_interpret_response(
                match r {
                    Some(cr) => Some(cr@),
                    None => None,
                },
            ) == Ok::<Option<PayloadModel>, BusError>(opt_payload_view(p)),
            Err(e) => spec_interpret_response(
                match r {
                    Some(cr) => Some(cr@),
                    None => None,
                },
            ) == Err::<Option<PayloadModel>, BusError>(e),
        },
{
    match r {
        Some(CallResponse::Value(p)) => Ok(p),
        Some(CallResponse::Failure(e)) => Err(e),
        None => Err(BusError::ComponentUnavailable),
    }
}

impl PendingCall {
    /// The raw receiving half. The caller receives on it — awaiting it from
    /// a task, or blocking on it outside any asynchronous context — and
    /// hands what arrives to `interpret_response`.
    pub fn into_receiver(self) -> (r: Receiver<CallResponse>) {
        self.response_rx
    }
}

/// The API surface handed to a running component: send broadcasts, issue
/// calls, and receive from its own mailbox under its subscription filters.
pub struct Context {
    public_tx: UnboundedSender<Message>,
    /// The component's own mailbox consumer. Its owner receives on it — an
    /// asynchronous caller awaits it, a synchronous one polls through
    /// `recv_message` — and hands what arrived to `classify_poll`.
    pub mailbox: Receiver<Message>,
    broadcast_filters: Vec<String>,
    toggle_filter_broadcasts: bool,
    id: ComponentId,
}

impl Context {
    /// Builds the context for one component: the shared inbound channel of
    /// the supervisor, the component's own mailbox consumer, and its
    /// identifier. Filtering starts disabled with no filters registered:
    /// every envelope is received.
    pub fn new(
        public_tx: UnboundedSender<Message>,
        private_rx: Receiver<Message>,
        id: ComponentId,
    ) -> (r: Context)
        ensures
            r.filters() == Seq::<Seq<char>>::empty(),
            !r.filtering(),
            r.id_spec() == id,
    {
        let r = Context {
            public_tx,
            mailbox: private_rx,
            broadcast_filters: Vec::new(),
            toggle_filter_broadcasts: false,
            id,
        };
        proof {
            assert(r.filters() =~= Seq::<Seq<char>>::empty());
        }
        r
    }

    /// The topic prefixes this component has registered interest in.
    pub closed spec fn filters(&self) -> Seq<Seq<char>> {
        self.broadcast_filters@.map_values(|f: String| f@)
    }

    /// Whether broadcast filtering is switched on.
    pub closed spec fn filtering(&self) -> bool {
        self.toggle_filter_broadcasts
    }

    /// This component's identifier.
    pub closed spec fn id_spec(&self) -> ComponentId {
        self.id
    }

    /// This component's identifier.
    pub fn id(&self) -> (r: ComponentId)
        ensures
            r == self.id_spec(),
    {
        self.id
    }

    /// Registers interest in a topic prefix.
    pub fn add_broadcast_filter(&mut self, id: String) -> (r: Result<(), BusError>)
        ensures
            r == Ok::<(), BusError>(()),
            final(self).filters() == old(self).filters().push(id@),
            final(self).filtering() == old(self).filtering(),
            final(self).id_spec() == old(self).id_spec(),
    {
        self.broadcast_filters.push(id);
        proof {
            assert(self.filters() =~= old(self).filters().push(id@));
        }
        Ok(())
    }

    /// Switches broadcast filtering on or off.
    pub fn filter_broadcasts(&mut self, toggle: bool)
        ensures
            final(self).filtering() == toggle,
            final(self).filters() == old(self).filters(),
            final(self).id_spec() == old(self).id_spec(),
    {
        self.toggle_filter_broadcasts = toggle;
    }

    /// Whether this component's subscription filters let an envelope through:
    /// calls always; broadcasts always while filtering is off or no filters
    /// are registered, and otherwise exactly when some registered prefix
    /// opens the topic.
    pub open spec fn accepts(&self, m: MessageModel) -> bool {
        match m {
            MessageModel::Call { .. } => true,
            MessageModel::Broadcast { id, .. } => !self.filtering() || self.filters().len() == 0
                || exists|i: int|
                0 <= i < self.filters().len() && is_prefix_of(self.filters()[i], id),
        }
    }

    /// Decides `accepts` for a concrete envelope.
    pub fn accepts_message(&self, m: &Message) -> (r: bool)
        ensures
            r == self.accepts(m@),
    {
        match m {
            Message::Call { .. } => true,
            Message::Broadcast { id, .. } => {
                if !self.toggle_filter_broadcasts || self.broadcast_filters.len() == 0 {
                    return true;
                }
                let mut i: usize = 0;
                while i < self.broadcast_filters.len()
                    invariant
                        0 <= i <= self.broadcast_filters.len(),
                        m@ is Broadcast,
                        m@->Broadcast_id == id@,
                        forall|j: int| 0 <= j < i ==> !is_prefix_of(self.filters()[j], id@),
                    decreases self.broadcast_filters.len() - i,
                {
                    if str_starts_with(id.as_str(), self.broadcast_filters[i].as_str()) {
                        proof {
                            assert(is_prefix_of(self.filters()[i as int], id@));
                            assert(exists|j: int|
                                0 <= j < self.filters().len() && is_prefix_of(
                                    self.filters()[j],
                                    id@,
                                ));
                            assert(self.accepts(m@));
                        }
                        return true;
                    }
                    i = i + 1;
                }
                false
            },
        }
    }

    /// Broadcasts a payload under a topic, attributed to this component.
    /// Fails with `ChannelClosed` exactly when the supervisor has shut down.
    pub fn broadcast(&mut self, id: &str, data: Option<TypedValue>) -> (r: Result<(), BusError>)
        ensures
            r is Err ==> r->Err_0 == BusError::ChannelClosed,
            *final(self) == *old(self),
    {
        let message = Message::new_broadcast(id, data, Some(self.id));
        match send_unbounded(&self.public_tx, message) {
            Ok(()) => Ok(()),
            Err(_) => Err(BusError::ChannelClosed),
        }
    }

    /// Enqueues an already-built broadcast envelope. A call envelope is
    /// structurally invalid here and is rejected with `MalformedMessage`;
    /// `ChannelClosed` reports a shut-down supervisor.
    pub fn broadcast_message(&mut self, message: Message) -> (r: Result<(), BusError>)
        ensures
            message@ is Call <==> r == Err::<(), BusError>(BusError::MalformedMessage),
            r is Err ==> (r->Err_0 == BusError::MalformedMessage || r->Err_0
                == BusError::ChannelClosed),
            *final(self) == *old(self),
    {
        match message {
            Message::Broadcast { .. } => {
                match send_unbounded(&self.public_tx, message) {
                    Ok(()) => Ok(()),
                    Err(_) => Err(BusError::ChannelClosed),
                }
            },
            Message::Call { .. } => Err(BusError::MalformedMessage),
        }
    }

    /// Issues a call: builds the envelope with a fresh single-slot response
    /// channel, enqueues it, and hands back the pending response. Fails with
    /// `ChannelClosed` exactly when the supervisor has shut down.
    pub fn call(&mut self, callback_id: &str, data: Option<TypedValue>) -> (r: Result<
        PendingCall,
        BusError,
    >)
        ensures
            r is Err ==> r->Err_0 == BusError::ChannelClosed,
            *final(self) == *old(self),
    {
        let (response_tx, response_rx) = ResponseSender::channel();
        let message = Message::new_call(callback_id, data, self.id, response_tx);
        match send_unbounded(&self.public_tx, message) {
            Ok(()) => Ok(PendingCall { response_rx }),
            Err(_) => Err(BusError::ChannelClosed),
        }
    }

    /// What one received mailbox value means to this component: a closed
    /// mailbox ends the stream; an envelope its filters let through is
    /// accepted, unchanged; any other envelope is dropped as filtered. This
    /// is the whole of the receive path's decision, pinned for every value
    /// the mailbox can hand back.
    pub fn classify_poll(&self, got: Option<Message>) -> (r: MailboxPoll)
        ensures
            !(r is Empty),
            match got {
                None => r is Closed,
                Some(m) => if self.accepts(m@) {
                    r matches MailboxPoll::Accepted(a) && a == m
                } else {
                    r is Filtered
                },
            },
    {
        match got {
            None => MailboxPoll::Closed,
            Some(m) => {
                if self.accepts_message(&m) {
                    MailboxPoll::Accepted(m)
                } else {
                    MailboxPoll::Filtered
                }
            },
        }
    }

    /// One step of receiving, without suspending: what is decided with the
    /// polled value is `classify_poll`'s exact contract; an empty mailbox is
    /// reported as such and a filtered-out envelope asks for another poll,
    /// which keeps every verified function terminating even though a
    /// component may be sent unwanted envelopes forever. An asynchronous
    /// caller awaits the mailbox itself and calls `classify_poll` on what
    /// arrives.
    pub fn recv_message(&mut self) -> (r: MailboxPoll)
        ensures
            r matches MailboxPoll::Accepted(m) ==> old(self).accepts(m@),
            final(self).filters() == old(self).filters(),
            final(self).filtering() == old(self).filtering(),
            final(self).id_spec() == old(self).id_spec(),
    {
        match try_recv_bounded(&mut self.mailbox) {
            RecvOutcome::Empty => MailboxPoll::Empty,
            RecvOutcome::Closed => self.classify_poll(None),
            RecvOutcome::Got(m) => self.classify_poll(Some(m)),
        }
    }
}

} // verus!
