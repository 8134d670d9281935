//! The two envelope shapes the bus routes — fire-and-forget broadcasts and
//! request/response calls — together with the single-use response sink a call
//! carries.

use vstd::prelude::*;
use vstd::string::StringExecFns;
use tokio::sync::mpsc::Receiver;
use tokio::sync::mpsc::Sender;
use crate::channels::SendOutcome;
use crate::channels::bounded_pair;
use crate::channels::try_send_bounded;
use crate::component::ComponentId;
use crate::errors::BusError;
use crate::events::EventModel;
use crate::events::TerminalEvent;
use crate::events::spec_encode_event;
use crate::payload::PayloadModel;
use crate::payload::TAG_STRING;
use crate::payload::TAG_TERMINAL_EVENT;
use crate::payload::TypedValue;
use crate::payload::json_of_string;
use crate::payload::payload_is_event;
use crate::payload::payload_is_string;

verus! {

/// A response delivered back to a caller: either a value (possibly empty) or
/// a failure.
pub enum CallResponse {
    /// The callee's answer; `None` is the explicit "no value" answer.
    Value(Option<TypedValue>),
    /// The failure the callee or the supervisor attached.
    Failure(BusError),
}

/// The mathematical model of a response.
pub enum ResponseModel {
    Value(Option<PayloadModel>),
    Failure(BusError),
}

/// The model of an optional payload.
pub open spec fn opt_payload_view(p: Option<TypedValue>) -> Option<PayloadModel> {
    match p {
        Some(tv) => Some(tv@),
        None => None,
    }
}

impl View for CallResponse {
    type V = ResponseModel;

    open spec fn view(&self) -> ResponseModel {
        match self {
            CallResponse::Value(p) => ResponseModel::Value(opt_payload_view(*p)),
            CallResponse::Failure(e) => ResponseModel::Failure(*e),
        }
    }
}

impl CallResponse {
    /// An equal response: same shape, same payload.
    pub fn duplicate(&self) -> (r: CallResponse)
        ensures
            r@ == self@,
    {
        match self {
            CallResponse::Value(Some(tv)) => CallResponse::Value(Some(tv.duplicate())),
            CallResponse::Value(None) => CallResponse::Value(None),
            CallResponse::Failure(e) => CallResponse::Failure(*e),
        }
    }
}

/// The sending half of a call's single-use response channel. The channel has
/// capacity for exactly one response, and sending consumes the sink, so at
/// most one response is ever delivered through it.
pub struct ResponseSender {
    tx: Sender<CallResponse>,
}

impl ResponseSender {
    /// A fresh single-slot response channel: the sink a call carries, and the
    /// receiver its caller keeps.
    pub fn channel() -> (r: (ResponseSender, Receiver<CallResponse>)) {
        let (tx, rx) = bounded_pair::<CallResponse>(1);
        (ResponseSender { tx }, rx)
    }

    /// Sends the one response this sink will ever carry. Fails with
    /// `ChannelClosed` when the caller has gone away (or, through a duplicate
    /// of an already-answered call, when the slot is already taken); the
    /// attempt is then observable to nobody else.
    pub fn send_response(self, response: CallResponse) -> (r: Result<(), BusError>)
        ensures
            r is Err ==> r->Err_0 == BusError::ChannelClosed,
    {
        match try_send_bounded(&self.tx, response) {
            SendOutcome::Sent => Ok(()),
            SendOutcome::Full(_) => Err(BusError::ChannelClosed),
            SendOutcome::Closed(_) => Err(BusError::ChannelClosed),
        }
    }
}

/// An envelope: immutable once built, either a broadcast or a call.
pub enum Message {
    /// Fire-and-forget, topic-addressed, fanned out to every subscriber.
    Broadcast {
        /// The dot-delimited topic name.
        id: String,
        /// The typed payload, if any.
        inner: Option<TypedValue>,
        /// The component that sent it, if any.
        sender: Option<ComponentId>,
    },
    /// A request addressed to exactly one callback owner.
    Call {
        /// The dot-delimited callback name; the `core.` namespace is reserved.
        callback_id: String,
        /// The typed payload, if any.
        inner: Option<TypedValue>,
        /// The component that issued the call.
        caller_id: ComponentId,
        /// The single-use sink its response travels through.
        response_tx: ResponseSender,
    },
}

/// The mathematical model of an envelope. The response sink is process
/// plumbing, not message content, and has no model.
pub enum MessageModel {
    Broadcast { id: Seq<char>, inner: Option<PayloadModel>, sender: Option<ComponentId> },
    Call { callback_id: Seq<char>, inner: Option<PayloadModel>, caller_id: ComponentId },
}

impl View for Message {
    type V = MessageModel;

    open spec fn view(&self) -> MessageModel {
        match self {
            Message::Broadcast { id, inner, sender } => MessageModel::Broadcast {
                id: id@,
                inner: opt_payload_view(*inner),
                sender: *sender,
            },
            Message::Call { callback_id, inner, caller_id, .. } => MessageModel::Call {
                callback_id: callback_id@,
                inner: opt_payload_view(*inner),
                caller_id: *caller_id,
            },
        }
    }
}

/// The payload an envelope carries, whichever shape it has.
pub open spec fn msg_inner(m: MessageModel) -> Option<PayloadModel> {
    match m {
        MessageModel::Broadcast { inner, .. } => inner,
        MessageModel::Call { inner, .. } => inner,
    }
}

/// Whether the envelope carries the string `s`, serialized by `of_string`.
pub open spec fn msg_has_string(m: MessageModel, s: Seq<char>) -> bool {
    match msg_inner(m) {
        Some(p) => payload_is_string(p, s),
        None => false,
    }
}

/// Whether the envelope carries the terminal event `ev`, serialized by
/// `of_event`.
pub open spec fn msg_has_event(m: MessageModel, ev: EventModel) -> bool {
    match msg_inner(m) {
        Some(p) => payload_is_event(p, ev),
        None => false,
    }
}

/// What recovering an envelope's payload under a tag yields: the payload
/// exactly when one is present and was built under that same tag, and a
/// `TypeMismatch` otherwise — never a silent coercion.
pub open spec fn spec_get_inner(m: MessageModel, tag: u64) -> Result<PayloadModel, BusError> {
    match msg_inner(m) {
        Some(p) => if p.tag == tag {
            Ok(p)
        } else {
            Err(BusError::TypeMismatch)
        },
        None => Err(BusError::TypeMismatch),
    }
}

impl Message {
    /// Builds a broadcast envelope.
    pub fn new_broadcast(id: &str, data: Option<TypedValue>, sender: Option<ComponentId>) -> (r:
        Message)
        ensures
            r@ == (MessageModel::Broadcast {
                id: id@,
                inner: opt_payload_view(data),
                sender,
            }),
    {
        Message::Broadcast { id: String::from_str(id), inner: data, sender }
    }

    /// Builds a call envelope, binding the single-use response sink.
    pub fn new_call(
        id: &str,
        data: Option<TypedValue>,
        caller_id: ComponentId,
        response_channel: ResponseSender,
    ) -> (r: Message)
        ensures
            r@ == (MessageModel::Call {
                callback_id: id@,
                inner: opt_payload_view(data),
                caller_id,
            }),
    {
        Message::Call {
            callback_id: String::from_str(id),
            inner: data,
            caller_id,
            response_tx: response_channel,
        }
    }

    /// Recovers the payload under the given tag — the system's only way to
    /// reach a payload. Fails with `TypeMismatch` when no payload is present
    /// or the stored tag differs.
    pub fn get_inner(&self, tag: u64) -> (r: Result<&TypedValue, BusError>)
        ensures
            match r {
                Ok(tv) => spec_get_inner(self@, tag) == Ok::<PayloadModel, BusError>(tv@),
                Err(e) => spec_get_inner(self@, tag) == Err::<PayloadModel, BusError>(e),
            },
    {
        let inner = match self {
            Message::Broadcast { inner, .. } => inner,
            Message::Call { inner, .. } => inner,
        };
        match inner {
            Some(tv) => {
                if tv.tag() == tag {
                    Ok(tv)
                } else {
                    Err(BusError::TypeMismatch)
                }
            },
            None => Err(BusError::TypeMismatch),
        }
    }

    /// Recovers and decodes a string payload.
    pub fn get_inner_string(&self) -> (r: Result<String, BusError>)
        ensures
            forall|s: Seq<char>| msg_has_string(self@, s) ==> (r matches Ok(v) && v@ == s),
            spec_get_inner(self@, TAG_STRING) matches Err(e) ==> r == Err::<String, BusError>(e),
            r is Ok ==> spec_get_inner(self@, TAG_STRING) is Ok,
    {
        match self.get_inner(TAG_STRING) {
            Ok(tv) => tv.as_string(),
            Err(e) => Err(e),
        }
    }

    /// Recovers and decodes a terminal-event payload.
    pub fn get_inner_event(&self) -> (r: Result<TerminalEvent, BusError>)
        ensures
            forall|m: EventModel| msg_has_event(self@, m) ==> (r matches Ok(e) && e@ == m),
            r matches Ok(e) ==> msg_has_event(self@, e@),
            spec_get_inner(self@, TAG_TERMINAL_EVENT) matches Err(e) ==> r == Err::<
                TerminalEvent,
                BusError,
            >(e),
    {
        match self.get_inner(TAG_TERMINAL_EVENT) {
            Ok(tv) => {
                let r = tv.as_event();
                proof {
                    if let Ok(ref e) = r {
                        assert forall|m: EventModel| msg_has_event(self@, m) implies e@ == m by {
                            crate::events::lemma_encode_event_injective(e@, m);
                        }
                    }
                }
                r
            },
            Err(e) => Err(e),
        }
    }

    /// Consumes a call envelope and delivers its one response through the
    /// sink; on a broadcast there is nothing to answer and nothing happens.
    pub fn respond(self, response: CallResponse) -> (r: Result<(), BusError>)
        ensures
            self@ is Broadcast ==> r == Ok::<(), BusError>(()),
            r is Err ==> self@ is Call,
            r is Err ==> r->Err_0 == BusError::ChannelClosed,
    {
        match self {
            Message::Call { response_tx, .. } => response_tx.send_response(response),
            Message::Broadcast { .. } => Ok(()),
        }
    }

    /// An equal copy of a broadcast envelope, for fan-out; a call carries a
    /// single-use sink and cannot be duplicated.
    pub fn duplicate_broadcast(&self) -> (r: Option<Message>)
        ensures
            match r {
                Some(m) => self@ is Broadcast && m@ == self@,
                None => self@ is Call,
            },
    {
        match self {
            Message::Broadcast { id, inner, sender } => {
                let inner2 = match inner {
                    Some(tv) => Some(tv.duplicate()),
                    None => None,
                };
                Some(Message::Broadcast { id: id.clone(), inner: inner2, sender: *sender })
            },
            Message::Call { .. } => None,
        }
    }
}

/// Round trip: an envelope built over any payload hands that payload back,
/// unchanged, when asked under the payload's own tag.
pub proof fn lemma_payload_round_trip(
    id: Seq<char>,
    p: PayloadModel,
    sender: Option<ComponentId>,
)
    ensures
        spec_get_inner(
            MessageModel::Broadcast { id, inner: Some(p), sender },
            p.tag,
        ) == Ok::<PayloadModel, BusError>(p),
{
}

/// Type safety: asking for an envelope's payload under any tag other than the
/// one it was built with fails with `TypeMismatch`, never a silent coercion.
pub proof fn lemma_payload_type_safety(
    id: Seq<char>,
    p: PayloadModel,
    sender: Option<ComponentId>,
    other: u64,
)
    requires
        other != p.tag,
    ensures
        spec_get_inner(
            MessageModel::Broadcast { id, inner: Some(p), sender },
            other,
        ) == Err::<PayloadModel, BusError>(BusError::TypeMismatch),
{
}

} // verus!
