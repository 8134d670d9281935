//! The supervisor: owner of the component registry, the callback-ownership
//! table, the shared inbound channel and the root cancellation scope, and
//! home of the dispatch step that classifies and routes every envelope.

use vstd::prelude::*;
use tokio::sync::mpsc::Sender;
use tokio::sync::mpsc::UnboundedReceiver;
use tokio::sync::mpsc::UnboundedSender;
use tokio_util::sync::CancellationToken;
use crate::channels::RecvOutcome;
use crate::channels::clone_unbounded_sender;
use crate::channels::try_recv_unbounded;
use crate::channels::unbounded_pair;
use crate::component::ComponentHandler;
use crate::component::ComponentId;
use crate::component::DeliveryOutcome;
use crate::errors::BusError;
use crate::events::EventModel;
use crate::events::TerminalEvent;
use crate::message::CallResponse;
use crate::message::Message;
use crate::message::MessageModel;
use crate::message::ResponseModel;
use crate::message::msg_has_event;
use crate::message::msg_has_string;
use crate::payload::PayloadModel;
use crate::payload::TAG_STRING;
use crate::payload::TypedValue;
use crate::payload::json_of_string;
use crate::text::is_prefix_of;
use crate::text::str_eq;
use crate::text::str_starts_with;
use vstd::string::StringExecFns;

verus! {

/// One entry of the callback-ownership table: a dot-delimited callback id
/// and the component that owns it.
pub struct CallbackEntry {
    /// The callback id.
    pub callback_id: String,
    /// The owning component.
    pub owner: ComponentId,
}

/// A text buffer of the application built on top of the bus.
#[allow(dead_code)]
pub struct Buffer {
    inner: String,
}

/// Whether some handler in `s` carries the identifier `c`.
pub open spec fn has_id(s: Seq<ComponentHandler>, c: ComponentId) -> bool {
    exists|i: int| 0 <= i < s.len() && s[i].id_spec() == c
}

/// No two handlers in `s` share an identifier.
pub open spec fn distinct_ids(s: Seq<ComponentHandler>) -> bool {
    forall|i: int, j: int| 0 <= i < j < s.len() ==> s[i].id_spec() != s[j].id_spec()
}

/// Whether some entry of `cbs` is for the callback id `id`.
pub open spec fn has_owner(cbs: Seq<CallbackEntry>, id: Seq<char>) -> bool {
    exists|i: int| 0 <= i < cbs.len() && cbs[i].callback_id@ == id
}

/// Whether `cbs` records `c` as the owner of the callback id `id`.
pub open spec fn owner_pair(cbs: Seq<CallbackEntry>, id: Seq<char>, c: ComponentId) -> bool {
    exists|i: int| 0 <= i < cbs.len() && cbs[i].callback_id@ == id && cbs[i].owner == c
}

/// At most one owner per callback id.
pub open spec fn distinct_callbacks(cbs: Seq<CallbackEntry>) -> bool {
    forall|i: int, j: int| 0 <= i < j < cbs.len() ==> cbs[i].callback_id@ != cbs[j].callback_id@
}

/// Every recorded owner is a registered component.
pub open spec fn owners_registered(cbs: Seq<CallbackEntry>, comps: Seq<ComponentHandler>) -> bool {
    forall|i: int| 0 <= i < cbs.len() ==> has_id(comps, #[trigger] cbs[i].owner)
}

/// The supervisor.
pub struct App {
    buffers: Vec<Buffer>,
    components: Vec<ComponentHandler>,
    callback_registry: Vec<CallbackEntry>,
    /// The receiving half of the shared inbound channel. An asynchronous
    /// dispatch loop awaits it directly and hands each envelope to
    /// `handle_message`; synchronous callers go through `try_next_message`.
    pub public_rx: UnboundedReceiver<Message>,
    public_tx: UnboundedSender<Message>,
    cancel_token: CancellationToken,
    cancel_requested: bool,
    op_log: Vec<String>,
    next_component_id: u64,
}

impl App {
    /// The registered components, in registration order.
    pub closed spec fn components_model(&self) -> Seq<ComponentHandler> {
        self.components@
    }

    /// The callback-ownership table, in registration order.
    pub closed spec fn callbacks_model(&self) -> Seq<CallbackEntry> {
        self.callback_registry@
    }

    /// The operational log written by `core.print`.
    pub closed spec fn log_model(&self) -> Seq<Seq<char>> {
        self.op_log@.map_values(|s: String| s@)
    }

    /// Whether shutdown has been triggered.
    pub closed spec fn shutting_down(&self) -> bool {
        self.cancel_requested
    }

    /// The counter the next component identifier is minted from.
    pub closed spec fn next_id_spec(&self) -> u64 {
        self.next_component_id
    }

    /// The supervisor's invariant: identifiers are pairwise distinct and
    /// below the minting counter, each callback id has at most one owner,
    /// and every owner is a registered component.
    pub open spec fn wf(&self) -> bool {
        &&& distinct_ids(self.components_model())
        &&& (forall|i: int|
            0 <= i < self.components_model().len()
                ==> #[trigger] self.components_model()[i].id_spec().inner < self.next_id_spec())
        &&& distinct_callbacks(self.callbacks_model())
        &&& owners_registered(self.callbacks_model(), self.components_model())
    }

    /// A fresh supervisor: no components, no callbacks, an empty log, a
    /// fresh inbound channel and an untriggered root cancellation scope.
    pub fn new() -> (r: App)
        ensures
            r.wf(),
            r.components_model() == Seq::<ComponentHandler>::empty(),
            r.callbacks_model() == Seq::<CallbackEntry>::empty(),
            r.log_model() == Seq::<Seq<char>>::empty(),
            !r.shutting_down(),
    {
        let (tx, rx) = unbounded_pair::<Message>();
        let r = App {
            buffers: Vec::new(),
            components: Vec::new(),
            callback_registry: Vec::new(),
            public_rx: rx,
            public_tx: tx,
            cancel_token: CancellationToken::new(),
            cancel_requested: false,
            op_log: Vec::new(),
            next_component_id: 0,
        };
        proof {
            assert(r.components_model() =~= Seq::<ComponentHandler>::empty());
            assert(r.callbacks_model() =~= Seq::<CallbackEntry>::empty());
            assert(r.log_model() =~= Seq::<Seq<char>>::empty());
        }
        r
    }

    /// A producer handle for the shared inbound channel, for contexts and
    /// adapters to send through.
    pub fn public_sender(&self) -> (r: UnboundedSender<Message>) {
        clone_unbounded_sender(&self.public_tx)
    }

    /// A child of the root cancellation scope, triggered whenever the root
    /// is; one is handed to each spawned component.
    pub fn child_cancel_token(&self) -> (r: CancellationToken) {
        self.cancel_token.child_token()
    }

    /// Whether shutdown has been triggered.
    pub fn is_shutting_down(&self) -> (r: bool)
        ensures
            r == self.shutting_down(),
    {
        self.cancel_requested
    }

    /// How many component identifiers have been minted so far.
    pub fn minted_ids(&self) -> (r: u64)
        ensures
            r == self.next_id_spec(),
    {
        self.next_component_id
    }

    /// A producer handle for a registered component's mailbox, for retrying a
    /// deferred delivery without blocking the dispatch step.
    pub fn mailbox_sender(&self, id: ComponentId) -> (r: Option<Sender<Message>>)
        ensures
            r is Some <==> has_id(self.components_model(), id),
    {
        match self.find_index(id) {
            Some(i) => Some(self.components[i].sender()),
            None => None,
        }
    }

    /// The number of registered components.
    pub fn component_count(&self) -> (r: usize)
        ensures
            r == self.components_model().len(),
    {
        self.components.len()
    }

    /// Whether a component with this identifier is registered.
    pub fn has_component(&self, id: ComponentId) -> (r: bool)
        ensures
            r == has_id(self.components_model(), id),
    {
        let mut i: usize = 0;
        while i < self.components.len()
            invariant
                0 <= i <= self.components@.len(),
                forall|j: int| 0 <= j < i ==> self.components@[j].id_spec() != id,
            decreases self.components@.len() - i,
        {
            if self.components[i].id() == id {
                return true;
            }
            i = i + 1;
        }
        false
    }

    /// The registered owner of a callback id, if any.
    pub fn callback_owner(&self, callback_id: &str) -> (r: Option<ComponentId>)
        ensures
            r matches Some(c) ==> owner_pair(self.callbacks_model(), callback_id@, c),
            r is None ==> !has_owner(self.callbacks_model(), callback_id@),
    {
        let mut i: usize = 0;
        while i < self.callback_registry.len()
            invariant
                0 <= i <= self.callback_registry@.len(),
                forall|j: int| 0 <= j < i ==> self.callback_registry@[j].callback_id@
                    != callback_id@,
            decreases self.callback_registry@.len() - i,
        {
            if str_eq(self.callback_registry[i].callback_id.as_str(), callback_id) {
                return Some(self.callback_registry[i].owner);
            }
            i = i + 1;
        }
        None
    }

    /// The number of operational log entries.
    pub fn log_len(&self) -> (r: usize)
        ensures
            r == self.log_model().len(),
    {
        self.op_log.len()
    }

    /// One operational log entry.
    pub fn log_get(&self, i: usize) -> (r: &String)
        requires
            i < self.log_model().len(),
        ensures
            r@ == self.log_model()[i as int],
    {
        &self.op_log[i]
    }

    /// The next envelope waiting on the shared inbound channel, without
    /// suspending.
    pub fn try_next_message(&mut self) -> (r: RecvOutcome<Message>)
        ensures
            final(self).wf() == old(self).wf(),
            final(self).components_model() == old(self).components_model(),
            final(self).callbacks_model() == old(self).callbacks_model(),
            final(self).log_model() == old(self).log_model(),
            final(self).shutting_down() == old(self).shutting_down(),
            final(self).next_id_spec() == old(self).next_id_spec(),
    {
        try_recv_unbounded(&mut self.public_rx)
    }

    /// Registers a component: mints the next identifier, keeps the producer
    /// half of the component's mailbox under it, and returns it.
    pub fn add_component(&mut self, private_tx: Sender<Message>) -> (r: ComponentId)
        requires
            old(self).wf(),
            old(self).next_id_spec() < u64::MAX,
        ensures
            final(self).wf(),
            r.inner == old(self).next_id_spec(),
            !has_id(old(self).components_model(), r),
            final(self).components_model().len() == old(self).components_model().len() + 1,
            forall|i: int|
                0 <= i < old(self).components_model().len()
                    ==> final(self).components_model()[i] == old(self).components_model()[i],
            final(self).components_model().last().id_spec() == r,
            has_id(final(self).components_model(), r),
            final(self).callbacks_model() == old(self).callbacks_model(),
            final(self).log_model() == old(self).log_model(),
            final(self).shutting_down() == old(self).shutting_down(),
            final(self).next_id_spec() == old(self).next_id_spec() + 1,
    {
        let id = ComponentId::new(self.next_component_id);
        let handler = ComponentHandler::new(private_tx, id);
        self.components.push(handler);
        self.next_component_id = self.next_component_id + 1;
        proof {
            assert(self.components_model().last().id_spec() == id);
            assert(forall|i: int|
                0 <= i < old(self).components_model().len()
                    ==> final(self).components_model()[i] == old(self).components_model()[i]);
        }
        id
    }

    /// Records a component as the owner of a callback id: the supervisor-side
    /// half of a component's call subscription. The registry is owned and
    /// mutated only on the supervisor's side, so declaring ownership goes
    /// through here rather than through a `Context`. Succeeds exactly when
    /// the id is not yet owned and the component is registered; a
    /// conflicting registration is rejected with `CallbackAlreadyOwned`, an
    /// unknown component with `ComponentUnavailable`.
    pub fn register_callback(&mut self, callback_id: String, owner: ComponentId) -> (r: Result<
        (),
        BusError,
    >)
        requires
            old(self).wf(),
        ensures
            final(self).wf(),
            r == Ok::<(), BusError>(()) <==> (!has_owner(old(self).callbacks_model(), callback_id@)
                && has_id(old(self).components_model(), owner)),
            r is Err && has_owner(old(self).callbacks_model(), callback_id@) ==> r->Err_0
                == BusError::CallbackAlreadyOwned,
            r is Err && !has_owner(old(self).callbacks_model(), callback_id@) ==> r->Err_0
                == BusError::ComponentUnavailable,
            r is Ok ==> final(self).callbacks_model() == old(self).callbacks_model().push(
                CallbackEntry { callback_id, owner },
            ),
            r is Ok ==> owner_pair(final(self).callbacks_model(), callback_id@, owner),
            r is Err ==> final(self).callbacks_model() == old(self).callbacks_model(),
            final(self).components_model() == old(self).components_model(),
            final(self).log_model() == old(self).log_model(),
            final(self).shutting_down() == old(self).shutting_down(),
            final(self).next_id_spec() == old(self).next_id_spec(),
    {
        match self.callback_owner(callback_id.as_str()) {
            Some(_) => Err(BusError::CallbackAlreadyOwned),
            None => {
                if !self.has_component(owner) {
                    return Err(BusError::ComponentUnavailable);
                }
                let entry = CallbackEntry { callback_id, owner };
                self.callback_registry.push(entry);
                proof {
                    let cbs = self.callbacks_model();
                    let i = cbs.len() - 1;
                    assert(cbs[i].callback_id@ == callback_id@ && cbs[i].owner == owner);
                }
                Ok(())
            },
        }
    }
}

impl Default for App {
    /// A fresh supervisor, as `App::new` builds it.
    fn default() -> (r: App)
        ensures
            r.wf(),
            r.components_model() == Seq::<ComponentHandler>::empty(),
            r.callbacks_model() == Seq::<CallbackEntry>::empty(),
            r.log_model() == Seq::<Seq<char>>::empty(),
            !r.shutting_down(),
    {
        App::new()
    }
}

/// The fixed build-info string `core.getinfo` answers with.
pub fn build_info() -> (r: &'static str)
    ensures
        r@ == "skibidi rizz"@,
{
    "skibidi rizz"
}

/// Whether a callback id lies in the namespace the supervisor intercepts.
pub open spec fn spec_is_reserved(id: Seq<char>) -> bool {
    is_prefix_of("core."@, id)
}

/// The callback id of a call; the empty sequence for a broadcast.
pub open spec fn call_id(m: MessageModel) -> Seq<char> {
    match m {
        MessageModel::Call { callback_id, .. } => callback_id,
        MessageModel::Broadcast { .. } => Seq::empty(),
    }
}

/// Whether an envelope is the quit chord: a broadcast on the key-event topic
/// whose payload is the control-c key press.
pub open spec fn is_quit_chord(m: MessageModel) -> bool {
    match m {
        MessageModel::Broadcast { id, .. } => id == "terminal.event.key"@ && msg_has_event(
            m,
            EventModel::Key { ch: 'c', ctrl: true },
        ),
        MessageModel::Call { .. } => false,
    }
}

/// What one dispatch cycle does with an envelope.
pub enum Disposition {
    /// The quit chord: trigger cancellation; the broadcast is consumed.
    QuitChord,
    /// Any other broadcast: fan out to every registered component.
    Fanout,
    /// `core.print`: decode the payload into the operational log.
    ReservedPrint,
    /// `core.quit`: trigger cancellation.
    ReservedQuit,
    /// `core.getinfo`: answer with the build-info string.
    ReservedGetInfo,
    /// Any other reserved call: silently ignored, its sink dropped.
    ReservedOther,
    /// A non-reserved call: route to its registered owner, if any.
    Routed,
}

/// Classifies an envelope, mirroring the dispatch step's branching.
pub open spec fn spec_classify(m: MessageModel) -> Disposition {
    match m {
        MessageModel::Broadcast { .. } => if is_quit_chord(m) {
            Disposition::QuitChord
        } else {
            Disposition::Fanout
        },
        MessageModel::Call { callback_id, .. } => if !spec_is_reserved(callback_id) {
            Disposition::Routed
        } else if callback_id == "core.print"@ {
            Disposition::ReservedPrint
        } else if callback_id == "core.quit"@ {
            Disposition::ReservedQuit
        } else if callback_id == "core.getinfo"@ {
            Disposition::ReservedGetInfo
        } else {
            Disposition::ReservedOther
        },
    }
}

/// Reserved interception: a call to `core.quit` is classified as the
/// supervisor's own, never as one to route, whatever the callback registry
/// holds — so, by `handle_message`'s contract, it is delivered to no
/// component's mailbox even if some component registered ownership of it.
pub proof fn lemma_reserved_interception(m: MessageModel)
    requires
        m matches MessageModel::Call { callback_id, .. } && callback_id == "core.quit"@,
    ensures
        spec_classify(m) is ReservedQuit,
        !(spec_classify(m) is Routed),
{
    reveal_strlit("core.");
    reveal_strlit("core.quit");
    reveal_strlit("core.print");
    let id = m->Call_callback_id;
    assert(id.subrange(0, 5) =~= "core."@);
    assert(spec_is_reserved(id));
    assert(id != "core.print"@) by {
        assert(id.len() != "core.print"@.len());
    }
}

/// What one dispatch cycle reports back: which mailboxes the envelope was
/// placed into, which deliveries bounced off a full mailbox (handed back for
/// an asynchronous retry), which components were evicted over a closed
/// mailbox, what `core.print` logged, what response was sent towards the
/// caller, and whether shutdown was triggered.
pub struct DispatchReport {
    /// Components whose mailbox received the envelope.
    pub delivered: Vec<ComponentId>,
    /// Deliveries that bounced off a full mailbox, with the envelope copy.
    pub deferred: Vec<(ComponentId, Message)>,
    /// Components evicted because their mailbox was closed.
    pub evicted: Vec<ComponentId>,
    /// The string `core.print` appended to the operational log.
    pub printed: Option<String>,
    /// An equal copy of the response sent towards the caller, if any.
    pub response_attempt: Option<CallResponse>,
    /// Whether this cycle triggered the root cancellation scope.
    pub triggered_cancel: bool,
}

/// Whether some deferred delivery in `d` targets the component `c`.
pub open spec fn deferred_has(d: Seq<(ComponentId, Message)>, c: ComponentId) -> bool {
    exists|i: int| 0 <= i < d.len() && d[i].0 == c
}

/// What routing a call to its registered owner may report: delivered to the
/// owner; or the owner evicted and `ComponentUnavailable` answered; or the
/// delivery deferred over a full mailbox.
pub open spec fn spec_routed_outcome(
    cbs: Seq<CallbackEntry>,
    id: Seq<char>,
    r: DispatchReport,
) -> bool {
    exists|c: ComponentId|
        owner_pair(cbs, id, c) && {
            ||| (r.delivered@ == seq![c] && r.evicted@.len() == 0 && r.deferred@.len() == 0
                && r.response_attempt is None)
            ||| (r.delivered@.len() == 0 && r.evicted@ == seq![c] && r.deferred@.len() == 0
                && (r.response_attempt matches Some(cr) && cr@ == ResponseModel::Failure(
                BusError::ComponentUnavailable,
            )))
            ||| (r.delivered@.len() == 0 && r.evicted@.len() == 0 && r.deferred@.len() == 1
                && r.deferred@[0].0 == c && r.response_attempt is None)
        }
}

impl App {
    /// The position of a component's handler.
    fn find_index(&self, c: ComponentId) -> (r: Option<usize>)
        ensures
            r matches Some(i) ==> i < self.components_model().len()
                && self.components_model()[i as int].id_spec() == c,
            r is None ==> !has_id(self.components_model(), c),
    {
        let mut i: usize = 0;
        while i < self.components.len()
            invariant
                0 <= i <= self.components@.len(),
                forall|j: int| 0 <= j < i ==> self.components@[j].id_spec() != c,
            decreases self.components@.len() - i,
        {
            if self.components[i].id() == c {
                return Some(i);
            }
            i = i + 1;
        }
        None
    }

    /// One dispatch cycle: classifies the envelope, handles the reserved
    /// namespace inline, routes a call to its registered owner, or fans a
    /// broadcast out to every registered component; components whose mailbox
    /// turns out closed are evicted after the fan-out completes, and every
    /// failure is contained to this one delivery.
    pub fn handle_message(&mut self, message: Message) -> (r: DispatchReport)
        requires
            old(self).wf(),
        ensures
            final(self).wf(),
            final(self).next_id_spec() == old(self).next_id_spec(),
            final(self).shutting_down() == (old(self).shutting_down() || r.triggered_cancel),
            r.triggered_cancel == (spec_classify(message@) is QuitChord || spec_classify(message@)
                is ReservedQuit),
            r.printed matches Some(s) ==> spec_classify(message@) is ReservedPrint && final(self).log_model() == old(self).log_model().push(s@),
            r.printed is None ==> final(self).log_model() == old(self).log_model(),
            forall|s: Seq<char>|
                (spec_classify(message@) is ReservedPrint && msg_has_string(message@, s)) ==> (
                r.printed matches Some(v) && v@ == s),
            forall|h: ComponentHandler|
                final(self).components_model().contains(h) <==> (old(self).components_model().contains(h) && !r.evicted@.contains(h.id_spec())),
            forall|c: ComponentId|
                has_id(final(self).components_model(), c) <==> (has_id(
                    old(self).components_model(),
                    c,
                ) && !r.evicted@.contains(c)),
            forall|e: CallbackEntry|
                final(self).callbacks_model().contains(e) <==> (old(self).callbacks_model().contains(e) && !r.evicted@.contains(e.owner)),
            forall|k: int|
                0 <= k < r.evicted@.len() ==> has_id(
                    old(self).components_model(),
                    #[trigger] r.evicted@[k],
                ),
            !(spec_classify(message@) is Fanout || spec_classify(message@) is Routed) ==> (
            r.delivered@.len() == 0 && r.evicted@.len() == 0 && r.deferred@.len() == 0),
            spec_classify(message@) is ReservedGetInfo ==> (r.response_attempt matches Some(cr)
                && cr@ == ResponseModel::Value(
                Some(PayloadModel { tag: TAG_STRING, data: json_of_string("skibidi rizz"@) }),
            )),
            spec_classify(message@) is ReservedQuit ==> (r.response_attempt matches Some(cr) && cr@
                == ResponseModel::Value(None)),
            (spec_classify(message@) is ReservedPrint && r.printed is Some) ==> (r.response_attempt
                matches Some(cr) && cr@ == ResponseModel::Value(None)),
            (spec_classify(message@) is ReservedPrint && r.printed is None) ==> (r.response_attempt
                matches Some(cr) && cr@ is Failure),
            (spec_classify(message@) is ReservedOther || spec_classify(message@) is Fanout
                || spec_classify(message@) is QuitChord) ==> r.response_attempt is None,
            (spec_classify(message@) is Routed && !has_owner(
                old(self).callbacks_model(),
                call_id(message@),
            )) ==> (r.response_attempt matches Some(cr) && cr@ == ResponseModel::Failure(
                BusError::UnknownCallback,
            ) && r.delivered@.len() == 0 && r.evicted@.len() == 0 && r.deferred@.len() == 0),
            (spec_classify(message@) is Routed && has_owner(
                old(self).callbacks_model(),
                call_id(message@),
            )) ==> spec_routed_outcome(old(self).callbacks_model(), call_id(message@), r),
            spec_classify(message@) is Fanout ==> (forall|c: ComponentId|
                has_id(old(self).components_model(), c) ==> (r.delivered@.contains(c)
                    || deferred_has(r.deferred@, c) || r.evicted@.contains(c))),
    {
        let mut report = DispatchReport {
            delivered: Vec::new(),
            deferred: Vec::new(),
            evicted: Vec::new(),
            printed: None,
            response_attempt: None,
            triggered_cancel: false,
        };
        match &message {
            Message::Broadcast { id, .. } => {
                let mut chord = false;
                if str_eq(id.as_str(), "terminal.event.key") {
                    match message.get_inner_event() {
                        Ok(e) => {
                            match e {
                                TerminalEvent::Key { ch, ctrl } => {
                                    if ch == 'c' && ctrl {
                                        chord = true;
                                    }
                                },
                                _ => {},
                            }
                        },
                        Err(_) => {},
                    }
                }
                assert(chord == is_quit_chord(message@));
                if chord {
                    self.cancel_requested = true;
                    self.cancel_token.cancel();
                    report.triggered_cancel = true;
                    return report;
                }
                // Fan out to every registered component; evictions are
                // deferred so one dead mailbox cannot perturb the rest.
                let mut delivered: Vec<ComponentId> = Vec::new();
                let mut deferred: Vec<(ComponentId, Message)> = Vec::new();
                let mut evicted: Vec<ComponentId> = Vec::new();
                let mut i: usize = 0;
                while i < self.components.len()
                    invariant
                        *self == *old(self),
                        old(self).wf(),
                        message@ is Broadcast,
                        0 <= i <= self.components@.len(),
                        forall|k: int|
                            0 <= k < i ==> (delivered@.contains(
                                #[trigger] self.components@[k].id_spec(),
                            ) || deferred_has(deferred@, self.components@[k].id_spec())
                                || evicted@.contains(self.components@[k].id_spec())),
                        forall|k: int|
                            0 <= k < evicted@.len() ==> has_id(
                                self.components@,
                                #[trigger] evicted@[k],
                            ),
                    decreases self.components@.len() - i,
                {
                    let copy = match message.duplicate_broadcast() {
                        Some(m) => m,
                        None => unreached(),
                    };
                    let target = self.components[i].id();
                    let ghost del0 = delivered@;
                    let ghost def0 = deferred@;
                    let ghost ev0 = evicted@;
                    match self.components[i].handle_message(copy) {
                        DeliveryOutcome::Delivered => {
                            delivered.push(target);
                            proof {
                                assert(delivered@[del0.len() as int] == target);
                                assert forall|k: int| 0 <= k < i + 1 implies (delivered@.contains(
                                    #[trigger] self.components@[k].id_spec(),
                                ) || deferred_has(deferred@, self.components@[k].id_spec())
                                    || evicted@.contains(self.components@[k].id_spec())) by {
                                    let cid = self.components@[k].id_spec();
                                    if k < i && del0.contains(cid) {
                                        lemma_contains_after_push(del0, target, cid);
                                    }
                                }
                            }
                        },
                        DeliveryOutcome::MailboxFull(mb) => {
                            deferred.push((target, mb));
                            proof {
                                assert(deferred@[def0.len() as int].0 == target);
                                assert forall|k: int| 0 <= k < i + 1 implies (delivered@.contains(
                                    #[trigger] self.components@[k].id_spec(),
                                ) || deferred_has(deferred@, self.components@[k].id_spec())
                                    || evicted@.contains(self.components@[k].id_spec())) by {
                                    let cid = self.components@[k].id_spec();
                                    if k < i && deferred_has(def0, cid) {
                                        lemma_deferred_after_push(def0, deferred@.last(), cid);
                                    }
                                }
                            }
                        },
                        DeliveryOutcome::MailboxClosed(_) => {
                            evicted.push(target);
                            proof {
                                assert(evicted@[ev0.len() as int] == target);
                                assert forall|k: int| 0 <= k < i + 1 implies (delivered@.contains(
                                    #[trigger] self.components@[k].id_spec(),
                                ) || deferred_has(deferred@, self.components@[k].id_spec())
                                    || evicted@.contains(self.components@[k].id_spec())) by {
                                    let cid = self.components@[k].id_spec();
                                    if k < i && ev0.contains(cid) {
                                        lemma_contains_after_push(ev0, target, cid);
                                    }
                                }
                            }
                        },
                    }
                    i = i + 1;
                }
                let ghost pre_comps = self.components@;
                retain_components(&mut self.components, &evicted);
                retain_callbacks(&mut self.callback_registry, &evicted);
                proof {
                    assert(pre_comps == old(self).components_model());
                    assert(forall|c: ComponentId|
                        has_id(self.components@, c) <==> (has_id(pre_comps, c)
                            && !evicted@.contains(c)));
                    assert(forall|c: ComponentId|
                        has_id(self.components_model(), c) <==> (has_id(
                            old(self).components_model(),
                            c,
                        ) && !evicted@.contains(c)));
                    assert forall|c: ComponentId|
                        has_id(old(self).components_model(), c) implies (delivered@.contains(c)
                        || deferred_has(deferred@, c) || evicted@.contains(c)) by {
                        let k = choose|k: int|
                            0 <= k < old(self).components_model().len() && old(self).components_model()[k].id_spec() == c;
                    }
                    assert forall|i2: int|
                        0 <= i2 < self.callbacks_model().len() implies has_id(
                        self.components_model(),
                        #[trigger] self.callbacks_model()[i2].owner,
                    ) by {
                        let e = self.callbacks_model()[i2];
                        assert(self.callbacks_model().contains(e));
                        assert(old(self).callbacks_model().contains(e) && !evicted@.contains(
                            e.owner,
                        ));
                        let k = choose|k: int|
                            0 <= k < old(self).callbacks_model().len() && old(self).callbacks_model()[k] == e;
                        assert(has_id(old(self).components_model(), e.owner));
                    }
                    assert forall|i2: int|
                        0 <= i2 < self.components_model().len() implies #[trigger] self.components_model()[i2].id_spec().inner
                        < self.next_id_spec() by {
                        let h = self.components_model()[i2];
                        assert(self.components_model().contains(h));
                        assert(old(self).components_model().contains(h));
                        let k = choose|k: int|
                            0 <= k < old(self).components_model().len() && old(self).components_model()[k] == h;
                    }
                }
                report.delivered = delivered;
                report.deferred = deferred;
                report.evicted = evicted;
                proof {
                    assert(report.evicted@ == evicted@);
                }
                return report;
            },
            Message::Call { .. } => {},
        }
        let (reserved, is_print, is_quit, is_getinfo) = match &message {
            Message::Call { callback_id, .. } => {
                let reserved = str_starts_with(callback_id.as_str(), "core.");
                let is_print = reserved && str_eq(callback_id.as_str(), "core.print");
                let is_quit = reserved && str_eq(callback_id.as_str(), "core.quit");
                let is_getinfo = reserved && str_eq(callback_id.as_str(), "core.getinfo");
                (reserved, is_print, is_quit, is_getinfo)
            },
            Message::Broadcast { .. } => unreached(),
        };
        if reserved {
            if is_print {
                match message.get_inner_string() {
                    Ok(s) => {
                        let ghost old_log = self.log_model();
                        self.op_log.push(s.clone());
                        proof {
                            assert(self.log_model() =~= old_log.push(s@));
                        }
                        report.printed = Some(s);
                        let resp = CallResponse::Value(None);
                        report.response_attempt = Some(resp.duplicate());
                        let _ = message.respond(resp);
                    },
                    Err(e) => {
                        let resp = CallResponse::Failure(e);
                        report.response_attempt = Some(resp.duplicate());
                        let _ = message.respond(resp);
                    },
                }
                return report;
            }
            if is_quit {
                self.cancel_requested = true;
                self.cancel_token.cancel();
                report.triggered_cancel = true;
                let resp = CallResponse::Value(None);
                report.response_attempt = Some(resp.duplicate());
                let _ = message.respond(resp);
                return report;
            }
            if is_getinfo {
                let info = TypedValue::of_string(&String::from_str(build_info()));
                let resp = CallResponse::Value(Some(info));
                report.response_attempt = Some(resp.duplicate());
                let _ = message.respond(resp);
                return report;
            }
            // An unknown reserved id: silently ignored; dropping the envelope
            // drops its sink and the caller sees the channel close.
            return report;
        }
        // A non-reserved call: look up its owner.
        let owner_opt = match &message {
            Message::Call { callback_id, .. } => self.callback_owner(callback_id.as_str()),
            Message::Broadcast { .. } => unreached(),
        };
        match owner_opt {
            None => {
                let resp = CallResponse::Failure(BusError::UnknownCallback);
                report.response_attempt = Some(resp.duplicate());
                let _ = message.respond(resp);
                report
            },
            Some(owner) => {
                let idx = match self.find_index(owner) {
                    Some(idx) => idx,
                    None => unreached(),
                };
                match self.components[idx].handle_message(message) {
                    DeliveryOutcome::Delivered => {
                        report.delivered.push(owner);
                        proof {
                            assert(report.delivered@ =~= seq![owner]);
                            assert(owner_pair(
                                old(self).callbacks_model(),
                                call_id(message@),
                                owner,
                            ));
                            assert(spec_routed_outcome(
                                old(self).callbacks_model(),
                                call_id(message@),
                                report,
                            ));
                        }
                        report
                    },
                    DeliveryOutcome::MailboxFull(mb) => {
                        report.deferred.push((owner, mb));
                        proof {
                            assert(seq![owner].len() == 1);
                            assert(report.deferred@[0].0 == owner);
                            assert(owner_pair(
                                old(self).callbacks_model(),
                                call_id(message@),
                                owner,
                            ));
                            assert(spec_routed_outcome(
                                old(self).callbacks_model(),
                                call_id(message@),
                                report,
                            ));
                        }
                        report
                    },
                    DeliveryOutcome::MailboxClosed(mb) => {
                        let mut gone: Vec<ComponentId> = Vec::new();
                        gone.push(owner);
                        retain_components(&mut self.components, &gone);
                        retain_callbacks(&mut self.callback_registry, &gone);
                        report.evicted.push(owner);
                        let resp = CallResponse::Failure(BusError::ComponentUnavailable);
                        report.response_attempt = Some(resp.duplicate());
                        let _ = mb.respond(resp);
                        proof {
                            assert(report.evicted@ =~= seq![owner]);
                            assert(gone@ =~= seq![owner]);
                            assert(owner_pair(
                                old(self).callbacks_model(),
                                call_id(message@),
                                owner,
                            ));
                            assert forall|i2: int|
                                0 <= i2 < self.callbacks_model().len() implies has_id(
                                self.components_model(),
                                #[trigger] self.callbacks_model()[i2].owner,
                            ) by {
                                let e = self.callbacks_model()[i2];
                                assert(self.callbacks_model().contains(e));
                                assert(old(self).callbacks_model().contains(e));
                                let k = choose|k: int|
                                    0 <= k < old(self).callbacks_model().len() && old(self).callbacks_model()[k] == e;
                                assert(has_id(old(self).components_model(), e.owner));
                            }
                            assert forall|i2: int|
                                0 <= i2 < self.components_model().len() implies #[trigger] self.components_model()[i2].id_spec().inner
                                < self.next_id_spec() by {
                                let h = self.components_model()[i2];
                                assert(self.components_model().contains(h));
                                assert(old(self).components_model().contains(h));
                                let k = choose|k: int|
                                    0 <= k < old(self).components_model().len() && old(self).components_model()[k] == h;
                            }
                        }
                        report
                    },
                }
            },
        }
    }
}

/// Pushing onto a sequence keeps every element it already contains.
proof fn lemma_contains_after_push<A>(s: Seq<A>, x: A, y: A)
    requires
        s.contains(y),
    ensures
        s.push(x).contains(y),
{
    let j = choose|j: int| 0 <= j < s.len() && s[j] == y;
    assert(s.push(x)[j] == y);
}

/// Pushing a deferred delivery keeps every component already deferred to.
proof fn lemma_deferred_after_push(
    s: Seq<(ComponentId, Message)>,
    x: (ComponentId, Message),
    c: ComponentId,
)
    requires
        deferred_has(s, c),
    ensures
        deferred_has(s.push(x), c),
{
    let j = choose|j: int| 0 <= j < s.len() && s[j].0 == c;
    assert(s.push(x)[j].0 == c);
}

/// Whether `v` holds the identifier `c`.
fn ids_contain(v: &Vec<ComponentId>, c: ComponentId) -> (r: bool)
    ensures
        r == v@.contains(c),
{
    let mut i: usize = 0;
    while i < v.len()
        invariant
            0 <= i <= v@.len(),
            forall|j: int| 0 <= j < i ==> v@[j] != c,
        decreases v@.len() - i,
    {
        if v[i] == c {
            return true;
        }
        i = i + 1;
    }
    false
}

/// Removes every handler whose component is listed in `gone`, keeping all
/// others.
fn retain_components(v: &mut Vec<ComponentHandler>, gone: &Vec<ComponentId>)
    requires
        distinct_ids(old(v)@),
    ensures
        distinct_ids(final(v)@),
        forall|h: ComponentHandler| #![all_triggers]
            final(v)@.contains(h) <==> (old(v)@.contains(h) && !gone@.contains(h.id_spec())),
        forall|c: ComponentId| #![all_triggers]
            has_id(final(v)@, c) <==> (has_id(old(v)@, c) && !gone@.contains(c)),
{
    let mut i: usize = 0;
    while i < v.len()
        invariant
            0 <= i <= v@.len(),
            distinct_ids(v@),
            forall|k: int| 0 <= k < v@.len() ==> old(v)@.contains(#[trigger] v@[k]),
            forall|k: int| 0 <= k < i ==> !gone@.contains(#[trigger] v@[k].id_spec()),
            forall|h: ComponentHandler|
                old(v)@.contains(h) && !gone@.contains(h.id_spec()) ==> v@.contains(h),
        decreases v@.len() - i,
    {
        if ids_contain(gone, v[i].id()) {
            let ghost prev = v@;
            let ghost gi = i as int;
            v.remove(i);
            proof {
                assert forall|k: int| 0 <= k < v@.len() implies old(v)@.contains(
                    #[trigger] v@[k],
                ) by {
                    if k < gi {
                        assert(v@[k] == prev[k]);
                    } else {
                        assert(v@[k] == prev[k + 1]);
                    }
                }
                assert forall|a: int, b: int| 0 <= a < b < v@.len() implies v@[a].id_spec()
                    != v@[b].id_spec() by {
                    let pa = if a < gi { a } else { a + 1 };
                    let pb = if b < gi { b } else { b + 1 };
                    assert(v@[a] == prev[pa] && v@[b] == prev[pb]);
                }
                assert forall|h: ComponentHandler|
                    old(v)@.contains(h) && !gone@.contains(h.id_spec()) implies v@.contains(
                    h,
                ) by {
                    let k = choose|k: int| 0 <= k < prev.len() && prev[k] == h;
                    assert(h.id_spec() != prev[gi].id_spec());
                    if k < gi {
                        assert(v@[k] == h);
                    } else {
                        assert(k > gi);
                        assert(v@[k - 1] == h);
                    }
                }
            }
        } else {
            i = i + 1;
        }
    }
    proof {
        assert forall|h: ComponentHandler| final(v)@.contains(h) implies (old(v)@.contains(h)
            && !gone@.contains(h.id_spec())) by {
            let k = choose|k: int| 0 <= k < final(v)@.len() && final(v)@[k] == h;
        }
        assert forall|c: ComponentId|
            has_id(old(v)@, c) && !gone@.contains(c) implies has_id(final(v)@, c) by {
            let k = choose|k: int| 0 <= k < old(v)@.len() && old(v)@[k].id_spec() == c;
            let h = old(v)@[k];
            assert(old(v)@.contains(h));
            assert(final(v)@.contains(h));
            let k2 = choose|k2: int| 0 <= k2 < final(v)@.len() && final(v)@[k2] == h;
            assert(final(v)@[k2].id_spec() == c);
        }
        assert forall|c: ComponentId| has_id(final(v)@, c) implies (has_id(old(v)@, c)
            && !gone@.contains(c)) by {
            let k = choose|k: int| 0 <= k < final(v)@.len() && final(v)@[k].id_spec() == c;
            let h = final(v)@[k];
            assert(final(v)@.contains(h));
            let k2 = choose|k2: int| 0 <= k2 < old(v)@.len() && old(v)@[k2] == h;
            assert(old(v)@[k2].id_spec() == c);
        }
    }
}

/// Removes every callback entry whose owner is listed in `gone`, keeping all
/// others.
fn retain_callbacks(v: &mut Vec<CallbackEntry>, gone: &Vec<ComponentId>)
    requires
        distinct_callbacks(old(v)@),
    ensures
        distinct_callbacks(final(v)@),
        forall|e: CallbackEntry| #![all_triggers]
            final(v)@.contains(e) <==> (old(v)@.contains(e) && !gone@.contains(e.owner)),
{
    let mut i: usize = 0;
    while i < v.len()
        invariant
            0 <= i <= v@.len(),
            distinct_callbacks(v@),
            forall|k: int| 0 <= k < v@.len() ==> old(v)@.contains(#[trigger] v@[k]),
            forall|k: int| 0 <= k < i ==> !gone@.contains(#[trigger] v@[k].owner),
            forall|e: CallbackEntry|
                old(v)@.contains(e) && !gone@.contains(e.owner) ==> v@.contains(e),
        decreases v@.len() - i,
    {
        if ids_contain(gone, v[i].owner) {
            let ghost prev = v@;
            let ghost gi = i as int;
            v.remove(i);
            proof {
                assert forall|k: int| 0 <= k < v@.len() implies old(v)@.contains(
                    #[trigger] v@[k],
                ) by {
                    if k < gi {
                        assert(v@[k] == prev[k]);
                    } else {
                        assert(v@[k] == prev[k + 1]);
                    }
                }
                assert forall|a: int, b: int| 0 <= a < b < v@.len() implies v@[a].callback_id@
                    != v@[b].callback_id@ by {
                    let pa = if a < gi { a } else { a + 1 };
                    let pb = if b < gi { b } else { b + 1 };
                    assert(v@[a] == prev[pa] && v@[b] == prev[pb]);
                }
                assert forall|e: CallbackEntry|
                    old(v)@.contains(e) && !gone@.contains(e.owner) implies v@.contains(e) by {
                    let k = choose|k: int| 0 <= k < prev.len() && prev[k] == e;
                    if k < gi {
                        assert(v@[k] == e);
                    } else {
                        assert(k != gi);
                        assert(v@[k - 1] == e);
                    }
                }
            }
        } else {
            i = i + 1;
        }
    }
    proof {
        assert forall|e: CallbackEntry| final(v)@.contains(e) implies (old(v)@.contains(e)
            && !gone@.contains(e.owner)) by {
            let k = choose|k: int| 0 <= k < final(v)@.len() && final(v)@[k] == e;
        }
    }
}

} // verus!
