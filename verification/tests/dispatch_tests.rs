use urbit_chatbot::bot::{Chatbot, Responder};
use urbit_chatbot::chart::{build_chart_url, chart_decision, usage_reply, ChartDecision};
use urbit_chatbot::dispatch::Effect;
use urbit_chatbot::events::Frame;
use urbit_chatbot::message::{AuthoredMessage, Content, Message};

/// Answers `c <pair> <timeframe>` commands with the chart's address, as the
/// example integration does once the chart has been rendered and uploaded.
struct ChartCommandResponder;

impl Responder for ChartCommandResponder {
    fn respond(&self, authored_message: AuthoredMessage) -> Option<Message> {
        let words = authored_message.contents.to_formatted_words();
        match chart_decision(&words) {
            ChartDecision::NoReply => None,
            ChartDecision::Usage => Some(usage_reply()),
            ChartDecision::Chart { symbol, timeframe } => {
                let url = build_chart_url(symbol.as_str(), timeframe.as_str());
                Some(Message::new().add_url(url.as_str()))
            }
        }
    }
}

fn frame(id: u64, data: &str) -> Frame {
    Frame { id, data: data.to_string() }
}

fn graph_frame_data(author: &str, text: &str) -> String {
    format!(
        r#"{{"graph-update":{{"add-nodes":{{"resource":{{"ship":"ristyc-ridwyx","name":"lab-2-9245"}},"nodes":{{"/1":{{"post":{{"author":"{}","index":"/1","time-sent":0,"contents":[{{"text":"{}"}}],"hash":null,"signatures":[]}},"children":null}}}}}}}}}}"#,
        author, text
    )
}

#[test]
fn one_cycle_stages_one_reply_for_three_graph_frames() {
    let bot = Chatbot::new(ChartCommandResponder, "our-ship".to_string(), Vec::new());
    let graph_frames = vec![
        frame(1, &graph_frame_data("our-ship", "c btcusd 4h")),
        frame(2, &graph_frame_data("noslur-fabled", "c ethusd 1h")),
        frame(3, "p}}}} garbled beyond repair"),
    ];
    let outcome = bot.process_cycle(&graph_frames, &Vec::new(), &Vec::new());
    assert_eq!(outcome.invite_effects.len(), 0);
    assert_eq!(outcome.chats_to_join.len(), 0);
    assert_eq!(outcome.messages_to_send.len(), 1);
    let staged = &outcome.messages_to_send[0];
    assert_eq!(staged.ship_chat.ship_name, "~ristyc-ridwyx");
    assert_eq!(staged.ship_chat.chat_name, "lab-2-9245");
    assert_eq!(staged.message.content_list.len(), 1);
    match &staged.message.content_list[0] {
        Content::Url(u) => {
            assert_eq!(
                u,
                "https://www.tradingview.com/widgetembed/?symbol=ethusd&interval=60&theme=dark&style=1&hidetoptoolbar=1&symboledit=1&saveimage=1&withdateranges=1"
            );
        }
        _ => panic!("the staged reply should carry the chart's address"),
    }
}

#[test]
fn invite_cycle_produces_join_then_ack() {
    let bot = Chatbot::new(ChartCommandResponder, "our-ship".to_string(), Vec::new());
    let invite_frames = vec![
        frame(11, r#"{"invite-update":{"invite":null}}"#),
        frame(
            12,
            r#"{"invite-update":{"invite":{"invite":{"resource":{"ship":"peerX","name":"general"}}}}}"#,
        ),
    ];
    let outcome = bot.process_cycle(&Vec::new(), &invite_frames, &Vec::new());
    assert_eq!(outcome.invite_effects.len(), 2);
    match &outcome.invite_effects[0] {
        Effect::AcceptInvite { resource } => {
            assert_eq!(resource.ship_name, "peerX");
            assert_eq!(resource.chat_name, "general");
        }
        _ => panic!("the first effect should accept the invite"),
    }
    match &outcome.invite_effects[1] {
        Effect::AckFrame { frame_id } => assert_eq!(*frame_id, 12),
        _ => panic!("the second effect should acknowledge the invite frame"),
    }
}

#[test]
fn malformed_frame_never_blocks_the_rest_of_the_pass() {
    let bot = Chatbot::new(ChartCommandResponder, "our-ship".to_string(), Vec::new());
    let metadata_frames = vec![
        frame(21, "garbage"),
        frame(22, r#"{"metadata-update":{"add":{"app-name":"graph","resource":"/ship/~peerY/chat-1"}}}"#),
    ];
    let outcome = bot.process_cycle(&Vec::new(), &Vec::new(), &metadata_frames);
    assert_eq!(outcome.chats_to_join.len(), 1);
    assert_eq!(outcome.chats_to_join[0].ship_name, "~peerY");
    assert_eq!(outcome.chats_to_join[0].chat_name, "chat-1");
}

#[test]
fn repeated_association_is_joined_again_each_cycle() {
    let bot = Chatbot::new(ChartCommandResponder, "our-ship".to_string(), Vec::new());
    let replayed = frame(
        31,
        r#"{"metadata-update":{"associations":{"/ship/~zod/chat-8841":{"app-name":"graph","resource":"/ship/~zod/chat-8841"}}}}"#,
    );
    let first = bot.process_cycle(&Vec::new(), &Vec::new(), &vec![replayed]);
    let replayed_again = frame(
        57,
        r#"{"metadata-update":{"associations":{"/ship/~zod/chat-8841":{"app-name":"graph","resource":"/ship/~zod/chat-8841"}}}}"#,
    );
    let second = bot.process_cycle(&Vec::new(), &Vec::new(), &vec![replayed_again]);
    // The known gap, asserted as current behavior: nothing remembers the
    // first join, so the replayed entry is slated for joining again.
    assert_eq!(first.chats_to_join.len(), 1);
    assert_eq!(second.chats_to_join.len(), 1);
    assert_eq!(first.chats_to_join[0].chat_name, "chat-8841");
    assert_eq!(second.chats_to_join[0].chat_name, "chat-8841");
}

#[test]
fn usage_reminder_for_short_command() {
    let words = vec!["c".to_string()];
    match chart_decision(&words) {
        ChartDecision::Usage => {}
        _ => panic!("a lone c should earn the usage reminder"),
    }
    let unrelated = vec!["hello".to_string(), "there".to_string()];
    assert!(matches!(chart_decision(&unrelated), ChartDecision::NoReply));
    let empty: Vec<String> = Vec::new();
    assert!(matches!(chart_decision(&empty), ChartDecision::NoReply));
    let full = vec!["c".to_string(), "ethusd".to_string(), "4h".to_string()];
    match chart_decision(&full) {
        ChartDecision::Chart { symbol, timeframe } => {
            assert_eq!(symbol, "ethusd");
            assert_eq!(timeframe, "240");
        }
        _ => panic!("a full command should ask for a chart"),
    }
}

#[test]
fn chart_names_and_addresses() {
    let filename = urbit_chatbot::chart::chart_filename("ethusd", "60", "2021-06-05");
    assert_eq!(filename, "ethusd_60_2021-06-05.png");
    // A code such as D is no phrase, so the second pass falls back to 1.
    let day_filename = urbit_chatbot::chart::chart_filename("ethusd", "D", "2021-06-05");
    assert_eq!(day_filename, "ethusd_1_2021-06-05.png");
    let location = urbit_chatbot::chart::upload_location("charts", "eu-west-1", "a.png");
    assert_eq!(location, "https://charts.s3.eu-west-1.amazonaws.com/a.png");
    let unavailable = urbit_chatbot::chart::unavailable_reply("nope");
    match &unavailable.content_list[0] {
        Content::Text(t) => assert_eq!(t, "Trading pair `\"nope\"` not available."),
        _ => panic!("the unavailable reply should be text"),
    }
}

#[test]
fn message_formatting_joins_and_splits() {
    let m = Message::new().add_text("  c ethusd 1h ").add_url("https://x.y");
    assert_eq!(m.to_formatted_string(), " c ethusd 1h https://x.y");
    assert_eq!(m.to_formatted_words(), vec!["c", "ethusd", "1h", "https://x.y"]);
}
