use user_records::handler::{handler, CREATED_PREFIX, FAILED_PREFIX};
use user_records::model::{Context, Event, Request, Response};

fn event(user_name: &str, request_id: &str) -> Event {
    Event {
        payload: Request { user_name: user_name.to_string() },
        context: Context { request_id: request_id.to_string() },
    }
}

#[test]
fn successful_write_is_reported_as_created() {
    let response = handler(event("alice", "8f1c2d3e-req-1"), true);
    assert_eq!(
        response,
        Response { req_id: "8f1c2d3e-req-1".to_string(), msg: "Created user: alice".to_string() }
    );
}

#[test]
fn failed_write_is_reported_in_the_message() {
    let response = handler(event("bob", "8f1c2d3e-req-2"), false);
    assert_eq!(
        response,
        Response {
            req_id: "8f1c2d3e-req-2".to_string(),
            msg: "Failed to create user: bob".to_string()
        }
    );
}

#[test]
fn request_id_is_handed_back_verbatim() {
    let ids = ["", " ", "abc", "  padded  ", "UPPER-lower-123", "line\nbreak", "id-\u{e9}\u{4e16}\u{1f600}"];
    for id in ids {
        for is_success in [true, false] {
            let response = handler(event("dave", id), is_success);
            assert_eq!(response.req_id, id);
        }
    }
}

#[test]
fn message_is_prefix_then_name_exactly() {
    let names = ["alice", "", " ", "two words", "Created user: x", "\u{e9}milie", "tab\tname", "{user_name}"];
    for name in names {
        let created = handler(event(name, "r"), true);
        assert_eq!(created.msg, format!("Created user: {}", name));
        let failed = handler(event(name, "r"), false);
        assert_eq!(failed.msg, format!("Failed to create user: {}", name));
    }
}

#[test]
fn prefixes_have_their_fixed_text() {
    assert_eq!(CREATED_PREFIX, "Created user: ");
    assert_eq!(FAILED_PREFIX, "Failed to create user: ");
}

#[test]
fn empty_name_leaves_the_bare_prefix() {
    assert_eq!(handler(event("", "r"), true).msg, "Created user: ");
    assert_eq!(handler(event("", "r"), false).msg, "Failed to create user: ");
}

#[test]
fn message_does_not_depend_on_the_request_id() {
    let first = handler(event("erin", "one"), true);
    let second = handler(event("erin", "two"), true);
    assert_eq!(first.msg, second.msg);
    assert_ne!(first.req_id, second.req_id);
}

#[test]
fn messages_differ_when_outcome_or_name_differs() {
    let names = ["", "a", "ab", "Failed to create user: ", "Created user: "];
    let mut seen: Vec<(String, bool, String)> = Vec::new();
    for name in names {
        for is_success in [true, false] {
            let msg = handler(event(name, "r"), is_success).msg;
            for (other_name, other_success, other_msg) in &seen {
                assert!(other_name != name || *other_success != is_success);
                assert_ne!(&msg, other_msg);
            }
            seen.push((name.to_string(), is_success, msg));
        }
    }
}

#[test]
fn handler_answers_the_same_way_every_time() {
    let first = handler(event("frank", "same"), false);
    let second = handler(event("frank", "same"), false);
    assert_eq!(first, second);
}
