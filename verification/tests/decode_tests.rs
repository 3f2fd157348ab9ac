use urbit_chatbot::events::{decode_frame, format_time_sent, DomainEvent, Frame};
use urbit_chatbot::jsonval::{parse_json_text, JsonValue};
use urbit_chatbot::message::Content;

fn frame(id: u64, data: &str) -> Frame {
    Frame { id, data: data.to_string() }
}

const GRAPH_FRAME: &str = r#"{"graph-update":{"add-nodes":{"resource":{"ship":"ristyc-ridwyx","name":"lab-2-9245"},"nodes":{"/170141184505617402802378925498685505536":{"post":{"author":"noslur-fabled","index":"/170141184505617402802378925498685505536","time-sent":3661000,"contents":[{"text":"c ethusd 1h"}],"hash":null,"signatures":[]},"children":null}}}}}"#;

#[test]
fn graph_frame_decodes_whole() {
    match decode_frame(&frame(1, GRAPH_FRAME)) {
        DomainEvent::Graph(g) => {
            assert_eq!(g.author, "noslur-fabled");
            assert_eq!(g.index, "/170141184505617402802378925498685505536");
            assert_eq!(g.time_sent, "1970-01-01 01:01:01");
            assert_eq!(g.resource.ship_name, "~ristyc-ridwyx");
            assert_eq!(g.resource.chat_name, "lab-2-9245");
            assert_eq!(g.contents.content_list.len(), 1);
            match &g.contents.content_list[0] {
                Content::Text(t) => assert_eq!(t, "c ethusd 1h"),
                _ => panic!("content piece should be text"),
            }
            assert_eq!(g.contents.to_formatted_words(), vec!["c", "ethusd", "1h"]);
        }
        _ => panic!("graph frame should decode to a graph event"),
    }
}

#[test]
fn graph_frame_missing_author_is_unrecognized() {
    let data = r#"{"graph-update":{"add-nodes":{"resource":{"ship":"zod","name":"chat"},"nodes":{"/1":{"post":{"index":"/1","time-sent":0,"contents":[]}}}}}}"#;
    assert!(matches!(decode_frame(&frame(2, data)), DomainEvent::Unrecognized));
}

#[test]
fn invite_frame_with_null_invite_is_a_no_op_event() {
    let data = r#"{"invite-update":{"invite":null}}"#;
    match decode_frame(&frame(7, data)) {
        DomainEvent::Invite(iv) => {
            assert!(iv.invite.is_none());
            assert_eq!(iv.frame_id, 7);
        }
        _ => panic!("null invite should still be an invite event"),
    }
}

#[test]
fn invite_frame_with_resource_decodes() {
    let data = r#"{"invite-update":{"invite":{"invite":{"resource":{"ship":"peerX","name":"general"}}}}}"#;
    match decode_frame(&frame(9, data)) {
        DomainEvent::Invite(iv) => {
            let rc = iv.invite.expect("populated invite should carry its resource");
            assert_eq!(rc.ship_name, "peerX");
            assert_eq!(rc.chat_name, "general");
            assert_eq!(iv.frame_id, 9);
        }
        _ => panic!("populated invite should decode to an invite event"),
    }
}

#[test]
fn metadata_frame_decodes_all_three_cases() {
    let data = r#"{"metadata-update":{"add":{"app-name":"graph","resource":"/ship/~peerY/chat-1"},"associations":{"/ship/~zod/b":{"app-name":"graph","resource":"/ship/~zod/b"}},"remove":{"resource":"/ship/~zod/old"}}}"#;
    match decode_frame(&frame(3, data)) {
        DomainEvent::Metadata(md) => {
            let add = md.add.expect("add case should be present");
            assert_eq!(add.app_name.as_deref(), Some("graph"));
            assert_eq!(add.resource.as_deref(), Some("/ship/~peerY/chat-1"));
            assert_eq!(md.associations.len(), 1);
            assert!(md.removed);
        }
        _ => panic!("metadata frame should decode to a metadata event"),
    }
}

#[test]
fn unparsable_frame_is_unrecognized() {
    assert!(matches!(decode_frame(&frame(4, "this is not json")), DomainEvent::Unrecognized));
    assert!(matches!(decode_frame(&frame(5, "")), DomainEvent::Unrecognized));
    assert!(matches!(
        decode_frame(&frame(6, r#"{"settings-event":{"put-entry":{}}}"#)),
        DomainEvent::Unrecognized
    ));
}

#[test]
fn parse_json_text_reads_documents() {
    let v = parse_json_text(r#"{"a": 1, "b": "x", "c": [null, true]}"#).expect("should parse");
    let a = v.get("a").expect("key a");
    assert_eq!(a.as_u64(), Some(1));
    let b = v.get("b").expect("key b");
    assert_eq!(b.as_text().map(|s| s.as_str()), Some("x"));
    let c = v.get("c").expect("key c");
    let items = c.items().expect("array");
    assert!(items[0].is_null());
    assert!(matches!(&items[1], JsonValue::Bool(true)));
    assert!(parse_json_text("{oops").is_none());
}

#[test]
fn every_frame_of_a_pass_is_decoded_on_its_own() {
    let frames = vec![
        frame(1, GRAPH_FRAME),
        frame(2, "{{{ mangled"),
        frame(3, r#"{"invite-update":{"invite":null}}"#),
    ];
    let events = urbit_chatbot::events::decode_frames(&frames);
    assert_eq!(events.len(), 3);
    assert!(matches!(&events[0], DomainEvent::Graph(_)));
    assert!(matches!(&events[1], DomainEvent::Unrecognized));
    assert!(matches!(&events[2], DomainEvent::Invite(_)));
}

#[test]
fn time_formatting_is_utc() {
    assert_eq!(format_time_sent(0), "1970-01-01 00:00:00");
    assert_eq!(format_time_sent(3_661_000), "1970-01-01 01:01:01");
    assert_eq!(format_time_sent(1_622_862_000_000), "2021-06-05 03:00:00");
}
