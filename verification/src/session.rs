//! Resolving the focused window's class and title, one protocol round trip
//! at a time.
//!
//! Every query this library needs — interning an atom, fetching a property,
//! asking for the input focus — blocks on the windowing server, so no code
//! here performs one. Instead the whole resolution pipeline is a state
//! machine: `start` names the first request, the caller performs it against
//! its connection and hands the outcome back to `step`, which decides the
//! next request or the final result. The decisions — which atoms to resolve,
//! when the convention property settles the focus and when to fall back to
//! the server's input focus, which error each failure becomes — are all made
//! here, under contract.
//!
//! The pipeline, in order: resolve the active-window convention atom, the
//! title convention atom and the UTF-8 string type atom; query the root
//! window's active-window property; if that reply does not name a window,
//! ask for the server's input focus; then fetch the focused window's legacy
//! class property and its title property, and decode each with its rule.

use vstd::prelude::*;
use crate::decode::{legacy_pair, utf8_or_invalid, parse_string_property, parse_wm_class,
    PropertyReply};

verus! {

/// The predefined atom naming the window type.
pub const ATOM_WINDOW: u32 = 33;

/// The predefined atom naming the legacy class/instance property.
pub const ATOM_WM_CLASS: u32 = 67;

/// The predefined atom naming the legacy byte-string type.
pub const ATOM_STRING: u32 = 31;

/// A query for the caller to perform against its connection.
#[derive(Debug)]
pub enum Request {
    /// Intern the atom of this name, or look it up.
    InternAtom { name: String },
    /// Fetch a property: window, property atom, expected type atom, and the
    /// greatest element count to return. The fetch starts at offset zero and
    /// leaves the property in place.
    GetProperty { window: u32, property: u32, property_type: u32, long_length: u32 },
    /// Ask for the window holding the server's input focus.
    GetInputFocus,
}

/// The outcome of one performed request. A request is submitted and its
/// reply awaited separately; each stage can fail on its own, and the two
/// failures stay distinct here, though every decision treats them alike.
#[derive(Debug)]
pub enum Event {
    /// An interned atom came back.
    AtomResolved(u32),
    /// A property reply came back.
    PropertyFetched(PropertyReply),
    /// The input-focus window came back.
    FocusReturned(u32),
    /// The request could not be submitted.
    SubmitFailed,
    /// The reply could not be received.
    ReplyFailed,
}

/// Why a session ended without a class and a title.
#[derive(Debug, Clone, Copy, PartialEq, Eq, Structural)]
pub enum LookupError {
    /// No focused window could be determined: the convention property named
    /// none and the fallback query yielded nothing. A benign state, distinct
    /// from a failure of the protocol itself.
    NoActiveWindow,
    /// A query failed at the submit or reply stage.
    Protocol,
}

/// Where a session stands: which reply it is waiting for, and what it has
/// gathered so far.
#[derive(Debug)]
pub enum SessionState {
    /// Waiting for the active-window convention atom.
    ResolvingActiveAtom { root: u32 },
    /// Waiting for the title convention atom.
    ResolvingNameAtom { root: u32, active_atom: u32 },
    /// Waiting for the UTF-8 string type atom.
    ResolvingUtf8Atom { root: u32, active_atom: u32, name_atom: u32 },
    /// Waiting for the root window's active-window property.
    AwaitingActiveProperty { name_atom: u32, utf8_atom: u32 },
    /// Waiting for the server's input focus, the convention property having
    /// named no window.
    AwaitingInputFocus { name_atom: u32, utf8_atom: u32 },
    /// Waiting for the focused window's class property.
    AwaitingClassProperty { name_atom: u32, utf8_atom: u32, focus: u32 },
    /// Waiting for the focused window's title property; the class is already
    /// decoded.
    AwaitingNameProperty { class: String },
}

/// What one step decided: the next state with the next request to perform,
/// or the session's result — the (class, title) pair, or a named failure.
#[derive(Debug)]
pub enum Step {
    Continue { state: SessionState, request: Request },
    Finished { result: Result<(String, String), LookupError> },
}

/// Model of `Request`, with text as a character sequence.
pub enum RequestModel {
    InternAtom { name: Seq<char> },
    GetProperty { window: u32, property: u32, property_type: u32, long_length: u32 },
    GetInputFocus,
}

/// Model of `Event`, with the property reply spread into plain values.
pub enum EventModel {
    AtomResolved(u32),
    PropertyFetched { format: u8, length: u32, value: Seq<u8> },
    FocusReturned(u32),
    SubmitFailed,
    ReplyFailed,
}

/// Model of `SessionState`, with text as a character sequence.
pub enum StateModel {
    ResolvingActiveAtom { root: u32 },
    ResolvingNameAtom { root: u32, active_atom: u32 },
    ResolvingUtf8Atom { root: u32, active_atom: u32, name_atom: u32 },
    AwaitingActiveProperty { name_atom: u32, utf8_atom: u32 },
    AwaitingInputFocus { name_atom: u32, utf8_atom: u32 },
    AwaitingClassProperty { name_atom: u32, utf8_atom: u32, focus: u32 },
    AwaitingNameProperty { class: Seq<char> },
}

/// Model of `Step`.
pub enum StepModel {
    Continue { state: StateModel, request: RequestModel },
    Finished { result: Result<(Seq<char>, Seq<char>), LookupError> },
}

impl View for Request {
    type V = RequestModel;

    open spec fn view(&self) -> RequestModel {
        match self {
            Request::InternAtom { name } => RequestModel::InternAtom { name: name@ },
            Request::GetProperty { window, property, property_type, long_length } => {
                RequestModel::GetProperty {
                    window: *window,
                    property: *property,
                    property_type: *property_type,
                    long_length: *long_length,
                }
            },
            Request::GetInputFocus => RequestModel::GetInputFocus,
        }
    }
}

impl View for Event {
    type V = EventModel;

    open spec fn view(&self) -> EventModel {
        match self {
            Event::AtomResolved(atom) => EventModel::AtomResolved(*atom),
            Event::PropertyFetched(reply) => EventModel::PropertyFetched {
                format: reply.format,
                length: reply.length,
                value: reply.value@,
            },
            Event::FocusReturned(window) => EventModel::FocusReturned(*window),
            Event::SubmitFailed => EventModel::SubmitFailed,
            Event::ReplyFailed => EventModel::ReplyFailed,
        }
    }
}

impl View for SessionState {
    type V = StateModel;

    open spec fn view(&self) -> StateModel {
        match self {
            SessionState::ResolvingActiveAtom { root } => StateModel::ResolvingActiveAtom {
                root: *root,
            },
            SessionState::ResolvingNameAtom { root, active_atom } => {
                StateModel::ResolvingNameAtom { root: *root, active_atom: *active_atom }
            },
            SessionState::ResolvingUtf8Atom { root, active_atom, name_atom } => {
                StateModel::ResolvingUtf8Atom {
                    root: *root,
                    active_atom: *active_atom,
                    name_atom: *name_atom,
                }
            },
            SessionState::AwaitingActiveProperty { name_atom, utf8_atom } => {
                StateModel::AwaitingActiveProperty {
                    name_atom: *name_atom,
                    utf8_atom: *utf8_atom,
                }
            },
            SessionState::AwaitingInputFocus { name_atom, utf8_atom } => {
                StateModel::AwaitingInputFocus { name_atom: *name_atom, utf8_atom: *utf8_atom }
            },
            SessionState::AwaitingClassProperty { name_atom, utf8_atom, focus } => {
                StateModel::AwaitingClassProperty {
                    name_atom: *name_atom,
                    utf8_atom: *utf8_atom,
                    focus: *focus,
                }
            },
            SessionState::AwaitingNameProperty { class } => StateModel::AwaitingNameProperty {
                class: class@,
            },
        }
    }
}

impl View for Step {
    type V = StepModel;

    open spec fn view(&self) -> StepModel {
        match self {
            Step::Continue { state, request } => StepModel::Continue {
                state: state@,
                request: request@,
            },
            Step::Finished { result } => StepModel::Finished {
                result: match result {
                    Ok(pair) => Ok((pair.0@, pair.1@)),
                    Err(e) => Err(*e),
                },
            },
        }
    }
}

/// The 32-bit value held in the first four bytes of a property buffer, in
/// the connection's byte order (least significant byte first).
pub open spec fn first_dword(value: Seq<u8>) -> u32
    recommends
        value.len() >= 4,
{
    (value[0] + value[1] * 0x100 + value[2] * 0x10000 + value[3] * 0x1000000) as u32
}

/// Whether a convention-property reply names a window: one element of
/// format 32.
pub open spec fn names_a_window(format: u8, length: u32) -> bool {
    format == 32 && length == 1
}

/// The transition relation of a session: what each state decides on each
/// event. The failure of a step is fatal (a protocol error), except at the
/// two focus queries: a convention reply that does not name a window — or
/// fails outright — falls back to the input-focus query, and a failed
/// input-focus query ends the session with the no-active-window result.
pub open spec fn spec_step(state: StateModel, event: EventModel) -> StepModel {
    match state {
        StateModel::ResolvingActiveAtom { root } => match event {
            EventModel::AtomResolved(atom) => StepModel::Continue {
                state: StateModel::ResolvingNameAtom { root, active_atom: atom },
                request: RequestModel::InternAtom { name: "_NET_WM_NAME"@ },
            },
            _ => StepModel::Finished { result: Err(LookupError::Protocol) },
        },
        StateModel::ResolvingNameAtom { root, active_atom } => match event {
            EventModel::AtomResolved(atom) => StepModel::Continue {
                state: StateModel::ResolvingUtf8Atom { root, active_atom, name_atom: atom },
                request: RequestModel::InternAtom { name: "UTF8_STRING"@ },
            },
            _ => StepModel::Finished { result: Err(LookupError::Protocol) },
        },
        StateModel::ResolvingUtf8Atom { root, active_atom, name_atom } => match event {
            EventModel::AtomResolved(atom) => StepModel::Continue {
                state: StateModel::AwaitingActiveProperty { name_atom, utf8_atom: atom },
                request: RequestModel::GetProperty {
                    window: root,
                    property: active_atom,
                    property_type: ATOM_WINDOW,
                    long_length: 1,
                },
            },
            _ => StepModel::Finished { result: Err(LookupError::Protocol) },
        },
        StateModel::AwaitingActiveProperty { name_atom, utf8_atom } => match event {
            EventModel::PropertyFetched { format, length, value } => {
                if names_a_window(format, length) {
                    if value.len() >= 4 {
                        StepModel::Continue {
                            state: StateModel::AwaitingClassProperty {
                                name_atom,
                                utf8_atom,
                                focus: first_dword(value),
                            },
                            request: RequestModel::GetProperty {
                                window: first_dword(value),
                                property: ATOM_WM_CLASS,
                                property_type: ATOM_STRING,
                                long_length: u32::MAX,
                            },
                        }
                    } else {
                        StepModel::Finished { result: Err(LookupError::NoActiveWindow) }
                    }
                } else {
                    StepModel::Continue {
                        state: StateModel::AwaitingInputFocus { name_atom, utf8_atom },
                        request: RequestModel::GetInputFocus,
                    }
                }
            },
            _ => StepModel::Continue {
                state: StateModel::AwaitingInputFocus { name_atom, utf8_atom },
                request: RequestModel::GetInputFocus,
            },
        },
        StateModel::AwaitingInputFocus { name_atom, utf8_atom } => match event {
            EventModel::FocusReturned(focus) => StepModel::Continue {
                state: StateModel::AwaitingClassProperty { name_atom, utf8_atom, focus },
                request: RequestModel::GetProperty {
                    window: focus,
                    property: ATOM_WM_CLASS,
                    property_type: ATOM_STRING,
                    long_length: u32::MAX,
                },
            },
            _ => StepModel::Finished { result: Err(LookupError::NoActiveWindow) },
        },
        StateModel::AwaitingClassProperty { name_atom, utf8_atom, focus } => match event {
            EventModel::PropertyFetched { format, length, value } => StepModel::Continue {
                state: StateModel::AwaitingNameProperty {
                    class: legacy_pair(format, value).1,
                },
                request: RequestModel::GetProperty {
                    window: focus,
                    property: name_atom,
                    property_type: utf8_atom,
                    long_length: u32::MAX,
                },
            },
            _ => StepModel::Finished { result: Err(LookupError::Protocol) },
        },
        StateModel::AwaitingNameProperty { class } => match event {
            EventModel::PropertyFetched { format, length, value } => StepModel::Finished {
                result: Ok((class, utf8_or_invalid(value))),
            },
            _ => StepModel::Finished { result: Err(LookupError::Protocol) },
        },
    }
}

/// A fresh session for the given root window, and the first request to
/// perform: interning the active-window convention atom.
pub fn start(root: u32) -> (r: (SessionState, Request))
    ensures
        r.0@ == (StateModel::ResolvingActiveAtom { root }),
        r.1@ == (RequestModel::InternAtom { name: "_NET_ACTIVE_WINDOW"@ }),
{
    (
        SessionState::ResolvingActiveAtom { root },
        Request::InternAtom { name: "_NET_ACTIVE_WINDOW".to_owned() },
    )
}

/// The 32-bit value held in the first four bytes of `value`.
fn read_first_dword(value: &Vec<u8>) -> (r: u32)
    requires
        value@.len() >= 4,
    ensures
        r == first_dword(value@),
{
    (value[0] as u32) + (value[1] as u32) * 0x100 + (value[2] as u32) * 0x10000 + (
    value[3] as u32) * 0x1000000
}

/// One step of a session: feed the outcome of the last request, get the
/// next request or the final result, exactly as `spec_step` decides.
pub fn step(state: SessionState, event: Event) -> (r: Step)
    ensures
        r@ == spec_step(state@, event@),
{
    match state {
        SessionState::ResolvingActiveAtom { root } => match event {
            Event::AtomResolved(atom) => Step::Continue {
                state: SessionState::ResolvingNameAtom { root, active_atom: atom },
                request: Request::InternAtom { name: "_NET_WM_NAME".to_owned() },
            },
            _ => Step::Finished { result: Err(LookupError::Protocol) },
        },
        SessionState::ResolvingNameAtom { root, active_atom } => match event {
            Event::AtomResolved(atom) => Step::Continue {
                state: SessionState::ResolvingUtf8Atom { root, active_atom, name_atom: atom },
                request: Request::InternAtom { name: "UTF8_STRING".to_owned() },
            },
            _ => Step::Finished { result: Err(LookupError::Protocol) },
        },
        SessionState::ResolvingUtf8Atom { root, active_atom, name_atom } => match event {
            Event::AtomResolved(atom) => Step::Continue {
                state: SessionState::AwaitingActiveProperty { name_atom, utf8_atom: atom },
                request: Request::GetProperty {
                    window: root,
                    property: active_atom,
                    property_type: ATOM_WINDOW,
                    long_length: 1,
                },
            },
            _ => Step::Finished { result: Err(LookupError::Protocol) },
        },
        SessionState::AwaitingActiveProperty { name_atom, utf8_atom } => match event {
            Event::PropertyFetched(reply) => {
                if reply.format == 32 && reply.length == 1 {
                    if reply.value.len() >= 4 {
                        let focus = read_first_dword(&reply.value);
                        Step::Continue {
                            state: SessionState::AwaitingClassProperty {
                                name_atom,
                                utf8_atom,
                                focus,
                            },
                            request: Request::GetProperty {
                                window: focus,
                                property: ATOM_WM_CLASS,
                                property_type: ATOM_STRING,
                                long_length: u32::MAX,
                            },
                        }
                    } else {
                        Step::Finished { result: Err(LookupError::NoActiveWindow) }
                    }
                } else {
                    Step::Continue {
                        state: SessionState::AwaitingInputFocus { name_atom, utf8_atom },
                        request: Request::GetInputFocus,
                    }
                }
            },
            _ => Step::Continue {
                state: SessionState::AwaitingInputFocus { name_atom, utf8_atom },
                request: Request::GetInputFocus,
            },
        },
        SessionState::AwaitingInputFocus { name_atom, utf8_atom } => match event {
            Event::FocusReturned(focus) => Step::Continue {
                state: SessionState::AwaitingClassProperty { name_atom, utf8_atom, focus },
                request: Request::GetProperty {
                    window: focus,
                    property: ATOM_WM_CLASS,
                    property_type: ATOM_STRING,
                    long_length: u32::MAX,
                },
            },
            _ => Step::Finished { result: Err(LookupError::NoActiveWindow) },
        },
        SessionState::AwaitingClassProperty { name_atom, utf8_atom, focus } => match event {
            Event::PropertyFetched(reply) => {
                // The instance half is computed with the class but never
                // surfaced: callers need the class alone.
                let (_instance, class) = parse_wm_class(&reply);
                Step::Continue {
                    state: SessionState::AwaitingNameProperty { class },
                    request: Request::GetProperty {
                        window: focus,
                        property: name_atom,
                        property_type: utf8_atom,
                        long_length: u32::MAX,
                    },
                }
            },
            _ => Step::Finished { result: Err(LookupError::Protocol) },
        },
        SessionState::AwaitingNameProperty { class } => match event {
            Event::PropertyFetched(reply) => {
                let name = parse_string_property(&reply);
                Step::Finished { result: Ok((class, name)) }
            },
            _ => Step::Finished { result: Err(LookupError::Protocol) },
        },
    }
}

/// Law: a convention-property reply that names a window — one element of
/// format 32, its value present in the buffer — settles the focus: the
/// session carries that value as the focused window and asks next for its
/// class property, not for the input focus. Any other reply makes the
/// session query the server's input focus instead.
pub proof fn lemma_convention_reply_decides_focus(
    name_atom: u32,
    utf8_atom: u32,
    format: u8,
    length: u32,
    value: Seq<u8>,
)
    ensures
        names_a_window(format, length) && value.len() >= 4 ==> spec_step(
            StateModel::AwaitingActiveProperty { name_atom, utf8_atom },
            EventModel::PropertyFetched { format, length, value },
        ) == (StepModel::Continue {
            state: StateModel::AwaitingClassProperty {
                name_atom,
                utf8_atom,
                focus: first_dword(value),
            },
            request: RequestModel::GetProperty {
                window: first_dword(value),
                property: ATOM_WM_CLASS,
                property_type: ATOM_STRING,
                long_length: u32::MAX,
            },
        }),
        !names_a_window(format, length) ==> spec_step(
            StateModel::AwaitingActiveProperty { name_atom, utf8_atom },
            EventModel::PropertyFetched { format, length, value },
        ) == (StepModel::Continue {
            state: StateModel::AwaitingInputFocus { name_atom, utf8_atom },
            request: RequestModel::GetInputFocus,
        }),
{
}

/// Where a session driven from `state` by the given outcomes, one per step,
/// ends up: the first finished step, or the last step taken. Once a step
/// finishes, later outcomes play no part.
pub open spec fn spec_run(state: StateModel, events: Seq<EventModel>) -> StepModel
    recommends
        events.len() > 0,
    decreases events.len(),
{
    let first = spec_step(state, events[0]);
    if events.len() <= 1 {
        first
    } else {
        match first {
            StepModel::Continue { state: next, request } => spec_run(next, events.skip(1)),
            StepModel::Finished { result } => first,
        }
    }
}

/// Law: when the fallback input-focus query itself yields no window — it
/// fails at either stage, or comes back with anything but a focus reply —
/// the session ends at once with the no-active-window result: however the
/// session is driven on, no property fetch (nor any other request) is ever
/// issued.
pub proof fn lemma_no_focus_ends_the_session(
    name_atom: u32,
    utf8_atom: u32,
    events: Seq<EventModel>,
)
    requires
        events.len() > 0,
        !(events[0] matches EventModel::FocusReturned(_)),
    ensures
        spec_run(StateModel::AwaitingInputFocus { name_atom, utf8_atom }, events)
            == (StepModel::Finished { result: Err(LookupError::NoActiveWindow) }),
{
}

/// Law: a whole session along the convention path. Whatever the three atoms
/// resolve to, when the root window's active-window property comes back as
/// one 32-bit element naming a window, and the two property fetches then
/// come back, the session ends with exactly the legacy-decoded class of the
/// class reply and the UTF-8-decoded title of the title reply.
pub proof fn lemma_convention_path_decodes_both_properties(
    root: u32,
    active_atom: u32,
    name_atom: u32,
    utf8_atom: u32,
    focus_value: Seq<u8>,
    class_format: u8,
    class_length: u32,
    class_value: Seq<u8>,
    title_format: u8,
    title_length: u32,
    title_value: Seq<u8>,
)
    requires
        focus_value.len() >= 4,
    ensures
        spec_run(
            StateModel::ResolvingActiveAtom { root },
            seq![
                EventModel::AtomResolved(active_atom),
                EventModel::AtomResolved(name_atom),
                EventModel::AtomResolved(utf8_atom),
                EventModel::PropertyFetched { format: 32, length: 1, value: focus_value },
                EventModel::PropertyFetched {
                    format: class_format,
                    length: class_length,
                    value: class_value,
                },
                EventModel::PropertyFetched {
                    format: title_format,
                    length: title_length,
                    value: title_value,
                },
            ],
        ) == (StepModel::Finished {
            result: Ok(
                (legacy_pair(class_format, class_value).1, utf8_or_invalid(title_value)),
            ),
        }),
{
    let e1 = EventModel::AtomResolved(active_atom);
    let e2 = EventModel::AtomResolved(name_atom);
    let e3 = EventModel::AtomResolved(utf8_atom);
    let e4 = EventModel::PropertyFetched { format: 32, length: 1, value: focus_value };
    let e5 = EventModel::PropertyFetched {
        format: class_format,
        length: class_length,
        value: class_value,
    };
    let e6 = EventModel::PropertyFetched {
        format: title_format,
        length: title_length,
        value: title_value,
    };
    let s1 = StateModel::ResolvingNameAtom { root, active_atom };
    let s2 = StateModel::ResolvingUtf8Atom { root, active_atom, name_atom };
    let s3 = StateModel::AwaitingActiveProperty { name_atom, utf8_atom };
    let s4 = StateModel::AwaitingClassProperty {
        name_atom,
        utf8_atom,
        focus: first_dword(focus_value),
    };
    let s5 = StateModel::AwaitingNameProperty { class: legacy_pair(class_format, class_value).1 };
    assert(seq![e1, e2, e3, e4, e5, e6].skip(1) =~= seq![e2, e3, e4, e5, e6]);
    assert(seq![e2, e3, e4, e5, e6].skip(1) =~= seq![e3, e4, e5, e6]);
    assert(seq![e3, e4, e5, e6].skip(1) =~= seq![e4, e5, e6]);
    assert(seq![e4, e5, e6].skip(1) =~= seq![e5, e6]);
    assert(seq![e5, e6].skip(1) =~= seq![e6]);
    assert(spec_run(StateModel::ResolvingActiveAtom { root }, seq![e1, e2, e3, e4, e5, e6])
        == spec_run(s1, seq![e2, e3, e4, e5, e6]));
    assert(spec_run(s1, seq![e2, e3, e4, e5, e6]) == spec_run(s2, seq![e3, e4, e5, e6]));
    assert(spec_run(s2, seq![e3, e4, e5, e6]) == spec_run(s3, seq![e4, e5, e6]));
    assert(spec_run(s3, seq![e4, e5, e6]) == spec_run(s4, seq![e5, e6]));
    assert(spec_run(s4, seq![e5, e6]) == spec_run(s5, seq![e6]));
}

} // verus!
