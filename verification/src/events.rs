//! The terminal input events the bus carries as broadcast payloads, together
//! with the serialized form they travel in. The bus itself only ever reads
//! key events (to notice the quit chord); everything else is opaque to
//! routing and merely round-trips through the codec.

use vstd::prelude::*;
use vstd::string::StrSliceExecFns;
use vstd::string::StringExecFns;
use crate::text::push_char;

verus! {

/// A terminal input event, as plain values.
#[derive(Debug, Clone, PartialEq, Eq)]
pub enum TerminalEvent {
    /// A key press: the character and whether the control modifier was held.
    Key { ch: char, ctrl: bool },
    /// A mouse event; its details are not read by the bus.
    Mouse,
    /// Pasted text.
    Paste { text: String },
    /// The terminal was resized.
    Resize { width: u16, height: u16 },
    /// The terminal gained focus.
    FocusGained,
    /// The terminal lost focus.
    FocusLost,
}

/// The mathematical model of a terminal event.
pub enum EventModel {
    Key { ch: char, ctrl: bool },
    Mouse,
    Paste { text: Seq<char> },
    Resize { width: u16, height: u16 },
    FocusGained,
    FocusLost,
}

impl View for TerminalEvent {
    type V = EventModel;

    open spec fn view(&self) -> EventModel {
        match self {
            TerminalEvent::Key { ch, ctrl } => EventModel::Key { ch: *ch, ctrl: *ctrl },
            TerminalEvent::Mouse => EventModel::Mouse,
            TerminalEvent::Paste { text } => EventModel::Paste { text: text@ },
            TerminalEvent::Resize { width, height } => EventModel::Resize {
                width: *width,
                height: *height,
            },
            TerminalEvent::FocusGained => EventModel::FocusGained,
            TerminalEvent::FocusLost => EventModel::FocusLost,
        }
    }
}

/// The serialized form of an event: a one-character kind marker followed by
/// the event's fields, each field one character.
pub open spec fn spec_encode_event(m: EventModel) -> Seq<char> {
    match m {
        EventModel::Key { ch, ctrl } => seq!['k', if ctrl { '1' } else { '0' }, ch],
        EventModel::Mouse => seq!['m'],
        EventModel::Paste { text } => seq!['p'] + text,
        EventModel::Resize { width, height } => seq![
            'r',
            ((width / 256) as u8) as char,
            ((width % 256) as u8) as char,
            ((height / 256) as u8) as char,
            ((height % 256) as u8) as char,
        ],
        EventModel::FocusGained => seq!['g'],
        EventModel::FocusLost => seq!['l'],
    }
}

/// Serializes an event.
pub fn encode_event(e: &TerminalEvent) -> (r: String)
    ensures
        r@ == spec_encode_event(e@),
{
    let mut s = String::new();
    match e {
        TerminalEvent::Key { ch, ctrl } => {
            push_char(&mut s, 'k');
            push_char(&mut s, if *ctrl { '1' } else { '0' });
            push_char(&mut s, *ch);
            assert(s@ =~= spec_encode_event(e@));
        },
        TerminalEvent::Mouse => {
            push_char(&mut s, 'm');
            assert(s@ =~= spec_encode_event(e@));
        },
        TerminalEvent::Paste { text } => {
            push_char(&mut s, 'p');
            s.append(text.as_str());
            assert(s@ =~= spec_encode_event(e@));
        },
        TerminalEvent::Resize { width, height } => {
            push_char(&mut s, 'r');
            push_char(&mut s, ((*width / 256) as u8) as char);
            push_char(&mut s, ((*width % 256) as u8) as char);
            push_char(&mut s, ((*height / 256) as u8) as char);
            push_char(&mut s, ((*height % 256) as u8) as char);
            assert(s@ =~= spec_encode_event(e@));
        },
        TerminalEvent::FocusGained => {
            push_char(&mut s, 'g');
            assert(s@ =~= spec_encode_event(e@));
        },
        TerminalEvent::FocusLost => {
            push_char(&mut s, 'l');
            assert(s@ =~= spec_encode_event(e@));
        },
    }
    s
}

/// Deserializes an event: the exact inverse of `encode_event`. Returns
/// `None` precisely when the input is the encoding of no event.
pub fn decode_event(s: &str) -> (r: Option<TerminalEvent>)
    ensures
        match r {
            Some(e) => s@ == spec_encode_event(e@),
            None => forall|m: EventModel| s@ != spec_encode_event(m),
        },
{
    let n = s.unicode_len();
    if n == 0 {
        assert forall|m: EventModel| s@ != spec_encode_event(m) by {
            assert(spec_encode_event(m).len() >= 1);
        }
        return None;
    }
    let c0 = s.get_char(0);
    if c0 == 'k' {
        if n != 3 {
            assert forall|m: EventModel| s@ != spec_encode_event(m) by {
                if spec_encode_event(m)[0] == 'k' {
                    assert(m is Key);
                    assert(spec_encode_event(m).len() == 3);
                }
            }
            return None;
        }
        let c1 = s.get_char(1);
        let ch = s.get_char(2);
        if c1 == '1' {
            let e = TerminalEvent::Key { ch, ctrl: true };
            assert(s@ =~= spec_encode_event(e@));
            return Some(e);
        }
        if c1 == '0' {
            let e = TerminalEvent::Key { ch, ctrl: false };
            assert(s@ =~= spec_encode_event(e@));
            return Some(e);
        }
        assert forall|m: EventModel| s@ != spec_encode_event(m) by {
            if spec_encode_event(m)[0] == 'k' {
                assert(m is Key);
                assert(spec_encode_event(m)[1] == '1' || spec_encode_event(m)[1] == '0');
            }
        }
        return None;
    }
    if c0 == 'm' {
        if n == 1 {
            let e = TerminalEvent::Mouse;
            assert(s@ =~= spec_encode_event(e@));
            return Some(e);
        }
        assert forall|m: EventModel| s@ != spec_encode_event(m) by {
            if spec_encode_event(m)[0] == 'm' {
                assert(m is Mouse);
                assert(spec_encode_event(m).len() == 1);
            }
        }
        return None;
    }
    if c0 == 'p' {
        let text = s.substring_char(1, n);
        let e = TerminalEvent::Paste { text: String::from_str(text) };
        assert(s@ =~= spec_encode_event(e@));
        return Some(e);
    }
    if c0 == 'r' {
        if n != 5 {
            assert forall|m: EventModel| s@ != spec_encode_event(m) by {
                if spec_encode_event(m)[0] == 'r' {
                    assert(m is Resize);
                    assert(spec_encode_event(m).len() == 5);
                }
            }
            return None;
        }
        let w_hi = s.get_char(1) as u32;
        let w_lo = s.get_char(2) as u32;
        let h_hi = s.get_char(3) as u32;
        let h_lo = s.get_char(4) as u32;
        if w_hi < 256 && w_lo < 256 && h_hi < 256 && h_lo < 256 {
            let width: u16 = (w_hi * 256 + w_lo) as u16;
            let height: u16 = (h_hi * 256 + h_lo) as u16;
            let e = TerminalEvent::Resize { width, height };
            assert(s@ =~= spec_encode_event(e@)) by {
                assert(((width / 256) as u8) as char == s@[1]);
                assert(((width % 256) as u8) as char == s@[2]);
                assert(((height / 256) as u8) as char == s@[3]);
                assert(((height % 256) as u8) as char == s@[4]);
            }
            return Some(e);
        }
        assert forall|m: EventModel| s@ != spec_encode_event(m) by {
            if spec_encode_event(m)[0] == 'r' {
                assert(m is Resize);
                assert((spec_encode_event(m)[1] as u32) < 256);
                assert((spec_encode_event(m)[2] as u32) < 256);
                assert((spec_encode_event(m)[3] as u32) < 256);
                assert((spec_encode_event(m)[4] as u32) < 256);
            }
        }
        return None;
    }
    if c0 == 'g' {
        if n == 1 {
            let e = TerminalEvent::FocusGained;
            assert(s@ =~= spec_encode_event(e@));
            return Some(e);
        }
        assert forall|m: EventModel| s@ != spec_encode_event(m) by {
            if spec_encode_event(m)[0] == 'g' {
                assert(m is FocusGained);
                assert(spec_encode_event(m).len() == 1);
            }
        }
        return None;
    }
    if c0 == 'l' {
        if n == 1 {
            let e = TerminalEvent::FocusLost;
            assert(s@ =~= spec_encode_event(e@));
            return Some(e);
        }
        assert forall|m: EventModel| s@ != spec_encode_event(m) by {
            if spec_encode_event(m)[0] == 'l' {
                assert(m is FocusLost);
                assert(spec_encode_event(m).len() == 1);
            }
        }
        return None;
    }
    assert forall|m: EventModel| s@ != spec_encode_event(m) by {
        let first = spec_encode_event(m)[0];
        assert(first == 'k' || first == 'm' || first == 'p' || first == 'r' || first == 'g'
            || first == 'l');
    }
    None
}

/// The encoding is injective: no two distinct events share a serialized form.
/// Together with `decode_event`'s contract this pins the round trip down: the
/// decoder applied to `spec_encode_event(m)` can yield `m` and nothing else.
pub proof fn lemma_encode_event_injective(m1: EventModel, m2: EventModel)
    requires
        spec_encode_event(m1) == spec_encode_event(m2),
    ensures
        m1 == m2,
{
    let s = spec_encode_event(m1);
    lemma_encode_event_marker(m1);
    lemma_encode_event_marker(m2);
    match m1 {
        EventModel::Key { ch, ctrl } => {
            assert(m2 is Key);
            assert(spec_encode_event(m2)[1] == s[1] && spec_encode_event(m2)[2] == s[2]);
        },
        EventModel::Mouse => {
            assert(m2 is Mouse);
        },
        EventModel::Paste { text } => {
            assert(m2 is Paste);
            let text2 = m2->Paste_text;
            assert(text.len() == text2.len());
            assert forall|i: int| 0 <= i < text.len() implies text[i] == text2[i] by {
                assert(spec_encode_event(m1)[i + 1] == text[i]);
                assert(spec_encode_event(m2)[i + 1] == text2[i]);
            }
            assert(text =~= text2);
        },
        EventModel::Resize { width, height } => {
            assert(m2 is Resize);
            let w2 = m2->Resize_width;
            let h2 = m2->Resize_height;
            assert(((width / 256) as u8) as char == ((w2 / 256) as u8) as char);
            assert(width / 256 == w2 / 256 && width % 256 == w2 % 256);
            assert(height / 256 == h2 / 256 && height % 256 == h2 % 256);
            assert(width == w2 && height == h2);
        },
        EventModel::FocusGained => {
            assert(m2 is FocusGained);
        },
        EventModel::FocusLost => {
            assert(m2 is FocusLost);
        },
    }
}

/// The one-character kind marker that opens each serialized event.
pub open spec fn spec_event_marker(m: EventModel) -> char {
    match m {
        EventModel::Key { .. } => 'k',
        EventModel::Mouse => 'm',
        EventModel::Paste { .. } => 'p',
        EventModel::Resize { .. } => 'r',
        EventModel::FocusGained => 'g',
        EventModel::FocusLost => 'l',
    }
}

/// Every serialized event opens with its kind's marker character.
pub proof fn lemma_encode_event_marker(m: EventModel)
    ensures
        spec_encode_event(m).len() >= 1,
        spec_encode_event(m)[0] == spec_event_marker(m),
{
    match m {
        EventModel::Key { .. } => {},
        EventModel::Mouse => {},
        EventModel::Paste { .. } => {},
        EventModel::Resize { .. } => {},
        EventModel::FocusGained => {},
        EventModel::FocusLost => {},
    }
}

/// The dot-delimited broadcast topic under which each kind of terminal event
/// is published.
pub open spec fn spec_topic_for_event(m: EventModel) -> Seq<char> {
    match m {
        EventModel::Key { .. } => "terminal.event.key"@,
        EventModel::Mouse => "terminal.event.mouse"@,
        EventModel::Paste { .. } => "terminal.event.paste"@,
        EventModel::Resize { .. } => "terminal.event.resize"@,
        EventModel::FocusGained => "terminal.event.focusgained"@,
        EventModel::FocusLost => "terminal.event.focuslost"@,
    }
}

/// Maps an event to its broadcast topic.
pub fn topic_for_event(e: &TerminalEvent) -> (r: &'static str)
    ensures
        r@ == spec_topic_for_event(e@),
{
    match e {
        TerminalEvent::Key { .. } => "terminal.event.key",
        TerminalEvent::Mouse => "terminal.event.mouse",
        TerminalEvent::Paste { .. } => "terminal.event.paste",
        TerminalEvent::Resize { .. } => "terminal.event.resize",
        TerminalEvent::FocusGained => "terminal.event.focusgained",
        TerminalEvent::FocusLost => "terminal.event.focuslost",
    }
}

} // verus!
