use screen_time::decode::PropertyReply;
use screen_time::session::{
    start, step, Event, LookupError, Request, SessionState, Step, ATOM_STRING, ATOM_WINDOW,
    ATOM_WM_CLASS,
};

fn property(format: u8, length: u32, value: &[u8]) -> Event {
    Event::PropertyFetched(PropertyReply { format, length, value: value.to_vec() })
}

fn advance(s: Step) -> (SessionState, Request) {
    match s {
        Step::Continue { state, request } => (state, request),
        Step::Finished { result } => panic!("the session finished early: {:?}", result),
    }
}

fn finish(s: Step) -> Result<(String, String), LookupError> {
    match s {
        Step::Continue { .. } => panic!("the session asked for another request"),
        Step::Finished { result } => result,
    }
}

/// Drives a session up to the point where the root window's active-window
/// property has been requested, with atoms 201 (active window), 202 (title)
/// and 203 (UTF-8 string type).
fn session_awaiting_active_property(root: u32) -> SessionState {
    let (state, request) = start(root);
    assert!(matches!(&request, Request::InternAtom { name } if name == "_NET_ACTIVE_WINDOW"));
    let (state, request) = advance(step(state, Event::AtomResolved(201)));
    assert!(matches!(&request, Request::InternAtom { name } if name == "_NET_WM_NAME"));
    let (state, request) = advance(step(state, Event::AtomResolved(202)));
    assert!(matches!(&request, Request::InternAtom { name } if name == "UTF8_STRING"));
    let (state, request) = advance(step(state, Event::AtomResolved(203)));
    match request {
        Request::GetProperty { window, property, property_type, long_length } => {
            assert_eq!(window, root);
            assert_eq!(property, 201);
            assert_eq!(property_type, ATOM_WINDOW);
            assert_eq!(long_length, 1);
        }
        other => panic!("expected the active-window property fetch, got {:?}", other),
    }
    state
}

#[test]
fn convention_reply_with_a_window_settles_the_focus() {
    let state = session_awaiting_active_property(100);
    let (_, request) = advance(step(state, property(32, 1, &[55, 0, 0, 0])));
    match request {
        Request::GetProperty { window, property, property_type, long_length } => {
            assert_eq!(window, 55);
            assert_eq!(property, ATOM_WM_CLASS);
            assert_eq!(property_type, ATOM_STRING);
            assert_eq!(long_length, u32::MAX);
        }
        other => panic!("expected the class property fetch, got {:?}", other),
    }
}

#[test]
fn convention_reply_of_another_shape_falls_back_to_input_focus() {
    let state = session_awaiting_active_property(100);
    let (state, request) = advance(step(state, property(8, 0, b"")));
    assert!(matches!(request, Request::GetInputFocus));
    let (_, request) = advance(step(state, Event::FocusReturned(77)));
    match request {
        Request::GetProperty { window, property, property_type, .. } => {
            assert_eq!(window, 77);
            assert_eq!(property, ATOM_WM_CLASS);
            assert_eq!(property_type, ATOM_STRING);
        }
        other => panic!("expected the class property fetch, got {:?}", other),
    }
}

#[test]
fn convention_reply_with_wrong_length_falls_back_to_input_focus() {
    let state = session_awaiting_active_property(100);
    let (_, request) = advance(step(state, property(32, 2, &[55, 0, 0, 0, 66, 0, 0, 0])));
    assert!(matches!(request, Request::GetInputFocus));
}

#[test]
fn failed_convention_query_falls_back_to_input_focus() {
    let state = session_awaiting_active_property(100);
    let (_, request) = advance(step(state, Event::ReplyFailed));
    assert!(matches!(request, Request::GetInputFocus));
}

#[test]
fn failed_input_focus_query_ends_with_no_active_window() {
    let state = session_awaiting_active_property(100);
    let (state, _) = advance(step(state, Event::SubmitFailed));
    let result = finish(step(state, Event::ReplyFailed));
    assert_eq!(result, Err(LookupError::NoActiveWindow));
}

#[test]
fn input_focus_submit_failure_also_ends_with_no_active_window() {
    let state = session_awaiting_active_property(100);
    let (state, _) = advance(step(state, property(8, 0, b"")));
    let result = finish(step(state, Event::SubmitFailed));
    assert_eq!(result, Err(LookupError::NoActiveWindow));
}

#[test]
fn failed_atom_resolution_is_a_protocol_error() {
    let (state, _) = start(100);
    let result = finish(step(state, Event::ReplyFailed));
    assert_eq!(result, Err(LookupError::Protocol));
}

#[test]
fn failed_class_fetch_is_a_protocol_error() {
    let state = session_awaiting_active_property(100);
    let (state, _) = advance(step(state, property(32, 1, &[55, 0, 0, 0])));
    let result = finish(step(state, Event::ReplyFailed));
    assert_eq!(result, Err(LookupError::Protocol));
}

#[test]
fn resolves_class_and_title_through_the_convention_property() {
    let state = session_awaiting_active_property(100);
    let (state, _) = advance(step(state, property(32, 1, &[55, 0, 0, 0])));
    let (state, request) = advance(step(state, property(8, 16, b"firefox\0Firefox\0")));
    match request {
        Request::GetProperty { window, property, property_type, long_length } => {
            assert_eq!(window, 55);
            assert_eq!(property, 202);
            assert_eq!(property_type, 203);
            assert_eq!(long_length, u32::MAX);
        }
        other => panic!("expected the title property fetch, got {:?}", other),
    }
    let result = finish(step(state, property(8, 15, b"Mozilla Firefox")));
    let (class, title) = result.expect("the session should succeed");
    assert_eq!(class, "Firefox");
    assert_eq!(title, "Mozilla Firefox");
}

#[test]
fn class_without_a_null_byte_becomes_the_sentinel_and_keeps_the_title() {
    let state = session_awaiting_active_property(100);
    let (state, _) = advance(step(state, property(32, 1, &[55, 0, 0, 0])));
    let (state, _) = advance(step(state, property(8, 12, b"onlyinstance")));
    let result = finish(step(state, property(8, 15, b"Mozilla Firefox")));
    let (class, title) = result.expect("the session should succeed");
    assert_eq!(class, "Missing null byte");
    assert_eq!(title, "Mozilla Firefox");
}

#[test]
fn focus_window_is_read_least_significant_byte_first() {
    let state = session_awaiting_active_property(100);
    let (_, request) = advance(step(state, property(32, 1, &[0x01, 0x02, 0x03, 0x04])));
    match request {
        Request::GetProperty { window, .. } => assert_eq!(window, 0x04030201),
        other => panic!("expected the class property fetch, got {:?}", other),
    }
}
