//! The supervisor's dispatch cycle, driven synchronously: reserved calls,
//! routing, fan-out, eviction, registration, and shutdown.

use editor::app::App;
use editor::channels::RecvOutcome;
use editor::component::ComponentId;
use editor::component::Context;
use editor::component::MAILBOX_CAPACITY;
use editor::component::MailboxPoll;
use editor::component::PendingCall;
use editor::component::interpret_response;
use editor::component::new_mailbox;
use editor::errors::BusError;
use editor::events::TerminalEvent;
use editor::message::Message;
use editor::payload::TAG_STRING;
use editor::payload::TypedValue;

/// Blocks on a pending call's response channel (these tests run outside any
/// asynchronous context) and interprets what arrived.
fn wait(pending: PendingCall) -> Result<Option<TypedValue>, editor::errors::BusError> {
    let mut rx = pending.into_receiver();
    interpret_response(rx.blocking_recv())
}

/// Hands every envelope waiting on the inbound channel to the dispatch step.
fn pump(app: &mut App) {
    loop {
        match app.try_next_message() {
            RecvOutcome::Got(m) => {
                app.handle_message(m);
            },
            _ => break,
        }
    }
}

fn spawn(app: &mut App) -> (ComponentId, Context) {
    let (tx, rx) = new_mailbox();
    let id = app.add_component(tx);
    let cx = Context::new(app.public_sender(), rx, id);
    (id, cx)
}

#[test]
fn getinfo_answers_the_build_string() {
    let mut app = App::new();
    let (_id, mut cx) = spawn(&mut app);

    let pending = cx.call("core.getinfo", None).unwrap();
    pump(&mut app);

    let answer = wait(pending).unwrap().expect("getinfo carries a payload");
    assert_eq!(answer.as_string().unwrap(), "skibidi rizz");
}

#[test]
fn print_reaches_the_operational_log() {
    let mut app = App::new();
    let (_id, mut cx) = spawn(&mut app);

    let text = TypedValue::of_string(&String::from("editor online"));
    let pending = cx.call("core.print", Some(text)).unwrap();
    pump(&mut app);

    assert_eq!(app.log_len(), 1);
    assert_eq!(app.log_get(0).as_str(), "editor online");
    assert!(matches!(wait(pending), Ok(None)));
}

#[test]
fn control_c_broadcast_triggers_shutdown() {
    let mut app = App::new();
    let child = app.child_cancel_token();
    let (_id, mut cx) = spawn(&mut app);

    assert!(!app.is_shutting_down());
    let chord = TypedValue::of_event(&TerminalEvent::Key { ch: 'c', ctrl: true });
    cx.broadcast("terminal.event.key", Some(chord)).unwrap();
    pump(&mut app);

    assert!(app.is_shutting_down());
    assert!(child.is_cancelled());
}

#[test]
fn other_keys_do_not_trigger_shutdown() {
    let mut app = App::new();
    let (_id, mut cx) = spawn(&mut app);

    let plain = TypedValue::of_event(&TerminalEvent::Key { ch: 'c', ctrl: false });
    cx.broadcast("terminal.event.key", Some(plain)).unwrap();
    pump(&mut app);

    assert!(!app.is_shutting_down());
}

#[test]
fn unknown_callback_is_answered_not_hung() {
    let mut app = App::new();
    let (_id, mut cx) = spawn(&mut app);

    let pending = cx.call("foo.bar", None).unwrap();
    pump(&mut app);

    assert_eq!(wait(pending).unwrap_err(), BusError::UnknownCallback);
    // The supervisor keeps running: a reserved call still gets its answer.
    let pending = cx.call("core.getinfo", None).unwrap();
    pump(&mut app);
    assert!(wait(pending).is_ok());
    assert!(!app.is_shutting_down());
}

#[test]
fn quit_call_triggers_shutdown_and_answers_unit() {
    let mut app = App::new();
    let (_id, mut cx) = spawn(&mut app);

    let pending = cx.call("core.quit", None).unwrap();
    pump(&mut app);

    assert!(app.is_shutting_down());
    assert!(matches!(wait(pending), Ok(None)));
}

#[test]
fn reserved_calls_never_reach_a_registered_owner() {
    let mut app = App::new();
    let (squatter, mut squatter_cx) = spawn(&mut app);
    // A component manages to register ownership of a reserved id...
    app.register_callback(String::from("core.quit"), squatter).unwrap();

    let (_id, mut cx) = spawn(&mut app);
    let pending = cx.call("core.quit", None).unwrap();
    pump(&mut app);

    // ...yet the supervisor intercepts the call: the squatter's mailbox stays
    // empty, the registration stays in place, and shutdown is triggered.
    assert!(matches!(squatter_cx.recv_message(), MailboxPoll::Empty));
    assert_eq!(app.callback_owner("core.quit"), Some(squatter));
    assert!(app.is_shutting_down());
    assert!(matches!(wait(pending), Ok(None)));
}

#[test]
fn unknown_reserved_ids_are_silently_ignored() {
    let mut app = App::new();
    let (_id, mut cx) = spawn(&mut app);

    let pending = cx.call("core.makeWindow", None).unwrap();
    pump(&mut app);

    // No response was sent and the sink is gone: the caller sees the channel
    // close rather than hanging forever.
    assert_eq!(wait(pending).unwrap_err(), BusError::ComponentUnavailable);
    assert!(!app.is_shutting_down());
}

#[test]
fn eviction_is_isolated_to_the_dead_component() {
    let mut app = App::new();
    let (id_a, cx_a) = spawn(&mut app);
    let (id_b, mut cx_b) = spawn(&mut app);
    let (_id_c, mut cx_c) = spawn(&mut app);

    // A crashes: its mailbox consumer is gone.
    drop(cx_a);

    cx_c.broadcast("news", Some(TypedValue::of_string(&String::from("flash")))).unwrap();
    let report = match app.try_next_message() {
        RecvOutcome::Got(m) => app.handle_message(m),
        _ => panic!("the broadcast must be queued"),
    };

    // B still received the broadcast...
    match cx_b.recv_message() {
        MailboxPoll::Accepted(m) => {
            let got = m.get_inner(TAG_STRING).unwrap();
            assert_eq!(got.as_string().unwrap(), "flash");
        },
        _ => panic!("B must receive the broadcast"),
    }
    // ...and only A was evicted, after the fan-out.
    assert_eq!(report.evicted, vec![id_a]);
    assert!(!app.has_component(id_a));
    assert!(app.has_component(id_b));
    assert_eq!(app.component_count(), 2);
}

#[test]
fn concurrent_calls_get_their_own_responses() {
    let mut app = App::new();
    let (owner_a, mut cx_a) = spawn(&mut app);
    let (owner_b, mut cx_b) = spawn(&mut app);
    let (_c1, mut caller_1) = spawn(&mut app);
    let (_c2, mut caller_2) = spawn(&mut app);

    app.register_callback(String::from("alpha.work"), owner_a).unwrap();
    app.register_callback(String::from("beta.work"), owner_b).unwrap();

    // Both calls are in flight before either owner answers.
    let pending_1 = caller_1.call("alpha.work", None).unwrap();
    let pending_2 = caller_2.call("beta.work", None).unwrap();
    pump(&mut app);

    // Each owner answers the call that reached its own mailbox.
    match cx_a.recv_message() {
        MailboxPoll::Accepted(m) => {
            m.respond(editor::message::CallResponse::Value(Some(TypedValue::of_string(
                &String::from("from alpha"),
            ))))
            .unwrap();
        },
        _ => panic!("owner A must receive its call"),
    }
    match cx_b.recv_message() {
        MailboxPoll::Accepted(m) => {
            m.respond(editor::message::CallResponse::Value(Some(TypedValue::of_string(
                &String::from("from beta"),
            ))))
            .unwrap();
        },
        _ => panic!("owner B must receive its call"),
    }

    let a1 = wait(pending_1).unwrap().unwrap();
    assert_eq!(a1.as_string().unwrap(), "from alpha");
    let a2 = wait(pending_2).unwrap().unwrap();
    assert_eq!(a2.as_string().unwrap(), "from beta");
}

#[test]
fn calling_an_evicted_owner_reports_component_unavailable() {
    let mut app = App::new();
    let (owner, owner_cx) = spawn(&mut app);
    let (_id, mut cx) = spawn(&mut app);
    app.register_callback(String::from("gone.work"), owner).unwrap();

    drop(owner_cx);
    let pending = cx.call("gone.work", None).unwrap();
    pump(&mut app);

    assert_eq!(wait(pending).unwrap_err(), BusError::ComponentUnavailable);
    assert!(!app.has_component(owner));
    // Its callback registration went with it.
    assert_eq!(app.callback_owner("gone.work"), None);
}

#[test]
fn registering_a_taken_callback_is_rejected() {
    let mut app = App::new();
    let (a, _cx_a) = spawn(&mut app);
    let (b, _cx_b) = spawn(&mut app);

    app.register_callback(String::from("draw.line"), a).unwrap();
    assert_eq!(
        app.register_callback(String::from("draw.line"), b).unwrap_err(),
        BusError::CallbackAlreadyOwned
    );
    // The first owner stands.
    assert_eq!(app.callback_owner("draw.line"), Some(a));
}

#[test]
fn registering_for_an_unknown_component_is_rejected() {
    let mut app = App::new();
    assert_eq!(
        app.register_callback(String::from("draw.line"), ComponentId::new(99)).unwrap_err(),
        BusError::ComponentUnavailable
    );
}

#[test]
fn broadcasting_a_call_shape_is_malformed() {
    let mut app = App::new();
    let (id, mut cx) = spawn(&mut app);

    let (sink, _rx) = editor::message::ResponseSender::channel();
    let call = Message::new_call("x.y", None, id, sink);
    assert_eq!(cx.broadcast_message(call).unwrap_err(), BusError::MalformedMessage);

    let broadcast = Message::new_broadcast("x.y", None, Some(id));
    assert!(cx.broadcast_message(broadcast).is_ok());
}

#[test]
fn sending_after_supervisor_shutdown_is_channel_closed() {
    let mut app = App::new();
    let (_id, mut cx) = spawn(&mut app);
    drop(app);

    assert_eq!(
        cx.broadcast("topic", None).unwrap_err(),
        BusError::ChannelClosed
    );
    assert_eq!(cx.call("x.y", None).err(), Some(BusError::ChannelClosed));
}

#[test]
fn mailboxes_deliver_in_supervisor_order() {
    let mut app = App::new();
    let (_id, mut cx) = spawn(&mut app);
    let sender = app.public_sender();

    sender.send(Message::new_broadcast("first", None, None)).unwrap();
    sender.send(Message::new_broadcast("second", None, None)).unwrap();
    pump(&mut app);

    match cx.recv_message() {
        MailboxPoll::Accepted(Message::Broadcast { id, .. }) => assert_eq!(id, "first"),
        _ => panic!("expected the first broadcast"),
    }
    match cx.recv_message() {
        MailboxPoll::Accepted(Message::Broadcast { id, .. }) => assert_eq!(id, "second"),
        _ => panic!("expected the second broadcast"),
    }
}

#[test]
fn broadcast_filters_are_prefix_based() {
    let mut app = App::new();
    let (_id, mut cx) = spawn(&mut app);
    let sender = app.public_sender();

    cx.add_broadcast_filter(String::from("terminal.")).unwrap();
    cx.filter_broadcasts(true);

    sender.send(Message::new_broadcast("terminal.event.key", None, None)).unwrap();
    sender.send(Message::new_broadcast("editor.save", None, None)).unwrap();
    pump(&mut app);

    match cx.recv_message() {
        MailboxPoll::Accepted(Message::Broadcast { id, .. }) => {
            assert_eq!(id, "terminal.event.key");
        },
        _ => panic!("the matching topic must come through"),
    }
    // The non-matching topic is dropped by the filter.
    assert!(matches!(cx.recv_message(), MailboxPoll::Filtered));
    assert!(matches!(cx.recv_message(), MailboxPoll::Empty));
}

#[test]
fn filtering_disabled_receives_everything() {
    let mut app = App::new();
    let (_id, mut cx) = spawn(&mut app);
    let sender = app.public_sender();

    cx.add_broadcast_filter(String::from("terminal.")).unwrap();
    // Filtering stays switched off: everything is received.
    sender.send(Message::new_broadcast("editor.save", None, None)).unwrap();
    pump(&mut app);

    assert!(matches!(cx.recv_message(), MailboxPoll::Accepted(_)));
}

#[test]
fn component_ids_are_minted_distinct() {
    let mut app = App::new();
    let (a, _cx_a) = spawn(&mut app);
    let (b, _cx_b) = spawn(&mut app);
    let (c, _cx_c) = spawn(&mut app);
    assert_ne!(a, b);
    assert_ne!(b, c);
    assert_ne!(a, c);
    assert_eq!(app.component_count(), 3);
}

#[test]
fn a_fresh_editor_component_is_empty() {
    let _editor = editor::editor::Editor::new();
}

#[test]
fn a_full_mailbox_defers_rather_than_evicts() {
    let mut app = App::new();
    let (id, mut cx) = spawn(&mut app);
    let sender = app.public_sender();

    for _ in 0..(MAILBOX_CAPACITY + 1) {
        sender.send(Message::new_broadcast("tick", None, None)).unwrap();
    }

    // The first hundred deliveries land; the one over capacity bounces off
    // the full mailbox and is handed back rather than evicting its owner.
    let mut deferred_seen = false;
    loop {
        match app.try_next_message() {
            RecvOutcome::Got(m) => {
                let report = app.handle_message(m);
                if !report.deferred.is_empty() {
                    deferred_seen = true;
                    assert_eq!(report.deferred[0].0, id);
                    assert!(report.evicted.is_empty());
                }
            },
            _ => break,
        }
    }
    assert!(deferred_seen);
    assert!(app.has_component(id));

    // The slow component still drains everything that was delivered.
    let mut received = 0;
    loop {
        match cx.recv_message() {
            MailboxPoll::Accepted(_) => received += 1,
            MailboxPoll::Empty => break,
            _ => panic!("the mailbox must stay open"),
        }
    }
    assert_eq!(received, MAILBOX_CAPACITY);
}
