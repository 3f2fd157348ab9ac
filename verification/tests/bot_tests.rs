use urbit_chatbot::bot::{Chatbot, Responder};
use urbit_chatbot::events::Frame;
use urbit_chatbot::jsonval::JsonValue;
use urbit_chatbot::message::{AuthoredMessage, Message};
use urbit_chatbot::resource::ShipChat;

struct SilentResponder;

impl Responder for SilentResponder {
    fn respond(&self, _authored_message: AuthoredMessage) -> Option<Message> {
        None
    }
}

fn silent_bot(ship_name: &str, ship_chats: Vec<ShipChat>) -> Chatbot<SilentResponder> {
    Chatbot::new(SilentResponder, ship_name.to_string(), ship_chats)
}

fn text_field<'a>(v: &'a JsonValue, keys: &[&str]) -> &'a str {
    let mut cur = v;
    for k in keys {
        cur = cur.get(k).expect("field should be present");
    }
    cur.as_text().expect("field should be a string").as_str()
}

#[test]
fn test_build_invite_accept_json() {
    let shipchats: Vec<ShipChat> = Vec::new();
    let bot = silent_bot("zod", shipchats);
    let json_obj = bot.build_invite_accept_json("dozzod-dozzod".to_string(), "groupname".to_string());
    // JSON for invite accept needs ~ in front of ship name
    let ship = text_field(&json_obj, &["join", "resource", "ship"]);
    assert_eq!(ship.get(0..1), Some("~"));
}

#[test]
fn invite_accept_payload_carries_all_fields() {
    let bot = silent_bot("zod", Vec::new());
    let json_obj = bot.build_invite_accept_json("dozzod-dozzod".to_string(), "groupname".to_string());
    assert_eq!(text_field(&json_obj, &["join", "resource", "ship"]), "~dozzod-dozzod");
    assert_eq!(text_field(&json_obj, &["join", "resource", "name"]), "groupname");
    assert_eq!(text_field(&json_obj, &["join", "ship"]), "~dozzod-dozzod");
    assert_eq!(text_field(&json_obj, &["join", "app"]), "groups");
    let autojoin = json_obj.get("join").unwrap().get("autojoin").unwrap();
    assert!(matches!(autojoin, JsonValue::Bool(true)));
    let share = json_obj.get("join").unwrap().get("shareContact").unwrap();
    assert!(matches!(share, JsonValue::Bool(true)));
}

#[test]
fn chat_join_payload_takes_ship_as_written() {
    let bot = silent_bot("zod", Vec::new());
    let json_obj = bot.build_chat_join_json("~peerY".to_string(), "chat-1".to_string());
    assert_eq!(text_field(&json_obj, &["join", "resource", "ship"]), "~peerY");
    assert_eq!(text_field(&json_obj, &["join", "resource", "name"]), "chat-1");
    assert_eq!(text_field(&json_obj, &["join", "ship"]), "~peerY");
}

#[test]
fn chat_id_reads_ship_and_name_from_path() {
    let bot = silent_bot("zod", Vec::new());
    let rc = bot.chat_id_from_resource("/ship/~peerY/chat-1").expect("path should parse");
    assert_eq!(rc.ship_name, "~peerY");
    assert_eq!(rc.chat_name, "chat-1");
    assert!(bot.chat_id_from_resource("/x").is_none());
    assert!(bot.chat_id_from_resource("").is_none());
}

#[test]
fn added_graph_resource_becomes_a_join_intent() {
    let bot = silent_bot("zod", Vec::new());
    let update = r#"{"metadata-update":{"add":{"app-name":"graph","resource":"/ship/~peerY/chat-1"}}}"#;
    let chats = bot.get_chats_to_join(update);
    assert_eq!(chats.len(), 1);
    assert_eq!(chats[0].ship_name, "~peerY");
    assert_eq!(chats[0].chat_name, "chat-1");
}

#[test]
fn mismatched_app_name_produces_no_intent() {
    let bot = silent_bot("zod", Vec::new());
    let update = r#"{"metadata-update":{"add":{"app-name":"link","resource":"/ship/~peerY/links"}}}"#;
    assert_eq!(bot.get_chats_to_join(update).len(), 0);
}

#[test]
fn associations_keep_their_order_and_skip_bad_entries() {
    let bot = silent_bot("zod", Vec::new());
    let update = r#"{"metadata-update":{"associations":{
        "/ship/~zod/b-chat":{"app-name":"graph","resource":"/ship/~zod/b-chat"},
        "/ship/~zod/skip":{"app-name":"graph","resource":42},
        "/ship/~zod/other":{"app-name":"link","resource":"/ship/~zod/other"},
        "/ship/~zod/a-chat":{"app-name":"graph","resource":"/ship/~zod/a-chat"}}}}"#;
    let chats = bot.get_chats_to_join(update);
    assert_eq!(chats.len(), 2);
    assert_eq!(chats[0].chat_name, "b-chat");
    assert_eq!(chats[1].chat_name, "a-chat");
}

#[test]
fn unparsable_metadata_produces_no_intents() {
    let bot = silent_bot("zod", Vec::new());
    assert_eq!(bot.get_chats_to_join("not json at all").len(), 0);
    assert_eq!(bot.get_chats_to_join(r#"{"graph-update":{}}"#).len(), 0);
}

#[test]
fn null_invite_produces_no_action() {
    let bot = silent_bot("zod", Vec::new());
    let f = Frame { id: 42, data: r#"{"invite-update":{"invite":null}}"#.to_string() };
    assert!(bot.invite_accept(&f).is_none());
}

#[test]
fn populated_invite_produces_join_and_ack() {
    let bot = silent_bot("zod", Vec::new());
    let f = Frame {
        id: 42,
        data: r#"{"invite-update":{"invite":{"invite":{"resource":{"ship":"peerX","name":"general"}}}}}"#
            .to_string(),
    };
    let action = bot.invite_accept(&f).expect("a real invite should be acted on");
    assert_eq!(action.resource.ship_name, "peerX");
    assert_eq!(action.resource.chat_name, "general");
    assert_eq!(action.ack_id, 42);
}

fn graph_frame_data(author: &str, text: &str) -> String {
    format!(
        r#"{{"graph-update":{{"add-nodes":{{"resource":{{"ship":"ristyc-ridwyx","name":"lab-2-9245"}},"nodes":{{"/1":{{"post":{{"author":"{}","index":"/1","time-sent":0,"contents":[{{"text":"{}"}}],"hash":null,"signatures":[]}},"children":null}}}}}}}}}}"#,
        author, text
    )
}

#[test]
fn self_authored_message_is_never_answered() {
    struct AlwaysReply;
    impl Responder for AlwaysReply {
        fn respond(&self, _authored_message: AuthoredMessage) -> Option<Message> {
            Some(Message::new().add_text("echo"))
        }
    }
    let bot = Chatbot::new(AlwaysReply, "our-ship".to_string(), Vec::new());
    let own = graph_frame_data("our-ship", "hello");
    assert_eq!(bot.get_messages_to_send(&own).len(), 0);
    let other = graph_frame_data("noslur-fabled", "hello");
    let staged = bot.get_messages_to_send(&other);
    assert_eq!(staged.len(), 1);
    assert_eq!(staged[0].ship_chat.ship_name, "~ristyc-ridwyx");
    assert_eq!(staged[0].ship_chat.chat_name, "lab-2-9245");
}

#[test]
fn silent_responder_stages_nothing() {
    let bot = silent_bot("our-ship", Vec::new());
    let other = graph_frame_data("noslur-fabled", "hello");
    assert_eq!(bot.get_messages_to_send(&other).len(), 0);
}

#[test]
fn resource_check_matches_configured_chats() {
    let chats = vec![ShipChat {
        ship_name: "~ristyc-ridwyx".to_string(),
        chat_name: "lab-2-9245".to_string(),
    }];
    let bot = silent_bot("zod", chats);
    let doc = urbit_chatbot::jsonval::parse_json_text(&graph_frame_data("x", "y"))
        .expect("frame should parse");
    assert!(bot.check_resource_json(&doc));
    let other_bot = silent_bot("zod", Vec::new());
    assert!(!other_bot.check_resource_json(&doc));
    let not_graph = urbit_chatbot::jsonval::parse_json_text("{}").expect("should parse");
    assert!(!bot.check_resource_json(&not_graph));
}
