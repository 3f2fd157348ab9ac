use crate::events::{
    decode_graph, decode_invite, decode_metadata, decode_graph_value, decode_invite_value,
    decode_metadata_value, opt_resource_model, Frame, FrameModel, GraphEvent, GraphModel,
    MetaEntry, MetaEntryModel, MetadataEvent,
};
use crate::jsonval::{json_model_obj, json_of, model_get, parse_json_text, JsonModel, JsonValue};
use crate::message::{AuthoredMessage, AuthoredModel, ContentModel, Message};
use crate::resource::{ResourceModel, ShipChat};
use crate::strutil::{split_char, split_spec, str_eq, views_of};
use vstd::prelude::*;
use vstd::string::StringExecFns;

verus! {

/// The response policy an integrator supplies.  The dispatch loop hands it
/// every authored message that survives the self-origin filter; a returned
/// message is posted back to the resource the triggering event came from.
/// The library promises nothing about what an implementation returns: every
/// contract downstream holds for every possible reply.
pub trait Responder {
    /// The reply, if any, to one authored message.
    fn respond(&self, authored_message: AuthoredMessage) -> Option<Message>;
}

/// The mathematical form of a staged reply.
pub struct PayloadModel {
    pub message: Seq<ContentModel>,
    pub ship_chat: ResourceModel,
}

/// A reply produced by the responder, paired with the resource it is to be
/// posted to: the origin resource of the event that triggered it.
pub struct MessagePayload {
    pub message: Message,
    pub ship_chat: ShipChat,
}

impl View for MessagePayload {
    type V = PayloadModel;

    open spec fn view(&self) -> PayloadModel {
        PayloadModel { message: self.message@, ship_chat: self.ship_chat@ }
    }
}

pub open spec fn payloads_of(ps: Seq<MessagePayload>) -> Seq<PayloadModel> {
    ps.map_values(|p: MessagePayload| p@)
}

pub open spec fn resources_of(cs: Seq<ShipChat>) -> Seq<ResourceModel> {
    cs.map_values(|c: ShipChat| c@)
}

/// What the invite handler decides for one invite-store frame that carries
/// an actual invite: join the inviting resource, then acknowledge the frame
/// that delivered the invite.
pub struct InviteAction {
    pub resource: ShipChat,
    pub ack_id: u64,
}

/// The join and acknowledgment owed for one invite-store frame: none when
/// the frame does not parse, or parses to the store's confirmation notice
/// whose inner invite is null.
pub open spec fn invite_action_spec(f: FrameModel) -> Option<(ResourceModel, u64)> {
    match json_of(f.text) {
        Some(m) => match decode_invite(f.id, m) {
            Some(im) => match im.invite {
                Some(rm) => Some((rm, im.frame_id)),
                None => None,
            },
            None => None,
        },
        None => None,
    }
}

/// The resource a metadata path such as `/ship/~zod/chat-1` names: the
/// third piece is the ship, the last piece the chat name.  A path with
/// fewer than three pieces names nothing.
pub open spec fn chat_id_spec(path: Seq<char>) -> Option<ResourceModel> {
    let parts = split_spec(path, '/');
    if parts.len() >= 3 {
        Some(ResourceModel { ship: parts[2], name: parts.last() })
    } else {
        None
    }
}

/// The join intent one metadata entry produces: only an entry of the
/// conversation application `graph` whose resource is a string naming a
/// complete path produces one.
pub open spec fn entry_chat(e: MetaEntryModel) -> Option<ResourceModel> {
    if e.app_name == Some("graph"@) {
        match e.resource {
            Some(path) => chat_id_spec(path),
            None => None,
        }
    } else {
        None
    }
}

pub open spec fn opt_chat_seq(o: Option<ResourceModel>) -> Seq<ResourceModel> {
    match o {
        Some(rm) => seq![rm],
        None => Seq::empty(),
    }
}

pub open spec fn assoc_chats(es: Seq<MetaEntryModel>) -> Seq<ResourceModel>
    decreases es.len(),
{
    if es.len() == 0 {
        Seq::empty()
    } else {
        assoc_chats(es.drop_last()) + opt_chat_seq(entry_chat(es.last()))
    }
}

/// Every join intent one metadata update produces: the newly added entry
/// first, then the associations entries in the order the update lists them.
/// Duplicates are kept; nothing here or downstream deduplicates them.
pub open spec fn chats_of_meta(d: crate::events::MetadataModel) -> Seq<ResourceModel> {
    (match d.add {
        Some(e) => opt_chat_seq(entry_chat(e)),
        None => Seq::empty(),
    }) + assoc_chats(d.associations)
}

/// The join intents of one raw metadata frame; text that does not parse,
/// or carries no metadata update, produces none.
pub open spec fn chats_to_join_spec(text: Seq<char>) -> Seq<ResourceModel> {
    match json_of(text) {
        Some(m) => match decode_metadata(m) {
            Some(d) => chats_of_meta(d),
            None => Seq::empty(),
        },
        None => Seq::empty(),
    }
}

/// The graph event one raw frame carries, if it parses and decodes whole.
pub open spec fn graph_event_of(text: Seq<char>) -> Option<GraphModel> {
    match json_of(text) {
        Some(m) => decode_graph(m),
        None => None,
    }
}

/// The origin resource a graph-update document names, with the ship
/// signature in front, as the router attaches it to a staged reply.
pub open spec fn graph_resource_spec(m: JsonModel) -> Option<ResourceModel> {
    match model_get(m, "graph-update"@) {
        Some(gu) => match model_get(gu, "add-nodes"@) {
            Some(an) => match model_get(an, "resource"@) {
                Some(res) => match crate::events::resource_of(res) {
                    Some(rm) => Some(ResourceModel { ship: seq!['~'] + rm.ship, name: rm.name }),
                    None => None,
                },
                None => None,
            },
            None => None,
        },
        None => None,
    }
}

/// Stages a responder's reply against the origin resource of the event it
/// answers: one staged payload for a reply, none when the responder stayed
/// silent.
pub fn stage_reply(origin: &ShipChat, reply: Option<Message>) -> (r: Vec<MessagePayload>)
    ensures
        payloads_of(r@) == (match reply {
            Some(m) => seq![PayloadModel { message: m@, ship_chat: origin@ }],
            None => Seq::<PayloadModel>::empty(),
        }),
{
    let mut r: Vec<MessagePayload> = Vec::new();
    match reply {
        Some(m) => {
            r.push(MessagePayload { message: m, ship_chat: origin.duplicate() });
            proof {
                assert(payloads_of(r@) =~= seq![
                    PayloadModel { message: r@[0].message@, ship_chat: origin@ },
                ]);
            }
        },
        None => {
            proof {
                assert(payloads_of(r@) =~= Seq::<PayloadModel>::empty());
            }
        },
    }
    r
}

/// This struct represents a chatbot that is connected as a given ship,
/// watches the ship's update streams, and answers messages posted to the
/// chats it is in through a user-supplied responder.
pub struct Chatbot<R: Responder> {
    /// The policy that decides the reply, if any, to each message that
    /// reaches the bridge.
    pub respond_to_message: R,
    /// The bridge's own identity: the name of the ship it is connected as,
    /// without the leading signature.  Read-only for the bridge's lifetime.
    pub ship_name: String,
    /// The chats this bot was configured with.
    pub ship_chats: Vec<ShipChat>,
}

impl<R: Responder> Chatbot<R> {
    /// Create a new `Chatbot` from a responder, the connected ship's name
    /// and the chats to watch.
    pub fn new(respond_to_message: R, ship_name: String, ship_chats: Vec<ShipChat>) -> (r: Self)
        ensures
            r.ship_name == ship_name,
            r.ship_chats == ship_chats,
            r.respond_to_message == respond_to_message,
    {
        Chatbot { respond_to_message, ship_name, ship_chats }
    }

    /// The resource a metadata path names, or nothing for a path with too
    /// few pieces.
    pub fn chat_id_from_resource(&self, resource: &str) -> (r: Option<ShipChat>)
        ensures
            opt_resource_model(r) == chat_id_spec(resource@),
    {
        let parts = split_char(resource, '/');
        if parts.len() >= 3 {
            let ship = parts[2].clone();
            let name = parts[parts.len() - 1].clone();
            proof {
                assert(views_of(parts@)[2] == parts@[2]@);
                assert(views_of(parts@).last() == parts@[parts@.len() - 1]@);
            }
            Some(ShipChat { ship_name: ship, chat_name: name })
        } else {
            None
        }
    }

    fn entry_to_chat(&self, e: &MetaEntry) -> (r: Option<ShipChat>)
        ensures
            opt_resource_model(r) == entry_chat(e@),
    {
        match &e.app_name {
            Some(an) => {
                if str_eq(an.as_str(), "graph") {
                    match &e.resource {
                        Some(path) => self.chat_id_from_resource(path.as_str()),
                        None => None,
                    }
                } else {
                    None
                }
            },
            None => None,
        }
    }

    /// The resource-discovery handler: every join intent one decoded
    /// metadata update produces, in order, duplicates kept.
    pub fn chats_from_metadata(&self, ev: &MetadataEvent) -> (r: Vec<ShipChat>)
        ensures
            resources_of(r@) == chats_of_meta(ev@),
    {
        let mut chats: Vec<ShipChat> = Vec::new();
        let ghost add_part = match ev@.add {
            Some(e) => opt_chat_seq(entry_chat(e)),
            None => Seq::<ResourceModel>::empty(),
        };
        match &ev.add {
            Some(e) => {
                match self.entry_to_chat(e) {
                    Some(c) => {
                        chats.push(c);
                    },
                    None => {},
                }
            },
            None => {},
        }
        proof {
            assert(resources_of(chats@) =~= add_part);
            assert(ev@.associations.take(0) =~= Seq::<MetaEntryModel>::empty());
            assert(resources_of(chats@) =~= add_part + assoc_chats(ev@.associations.take(0)));
        }
        let n = ev.associations.len();
        let mut i: usize = 0;
        while i < n
            invariant
                n == ev.associations@.len(),
                0 <= i <= n,
                ev@.associations.len() == n,
                forall|j: int| 0 <= j < n ==> ev@.associations[j] == ev.associations@[j]@,
                resources_of(chats@) == add_part + assoc_chats(ev@.associations.take(i as int)),
            decreases n - i,
        {
            proof {
                assert(ev@.associations.take(i as int + 1).drop_last() =~= ev@.associations.take(
                    i as int,
                ));
                assert(ev@.associations.take(i as int + 1).last() == ev@.associations[i as int]);
            }
            let ghost prev = chats@;
            let ghost here = ev@.associations[i as int];
            match self.entry_to_chat(&ev.associations[i]) {
                Some(c) => {
                    let ghost cv = c@;
                    chats.push(c);
                    proof {
                        assert(opt_chat_seq(entry_chat(here)) =~= seq![cv]);
                        assert(resources_of(chats@) =~= resources_of(prev).push(cv));
                        assert(resources_of(chats@) =~= add_part + assoc_chats(
                            ev@.associations.take(i as int + 1),
                        ));
                    }
                },
                None => {
                    proof {
                        assert(opt_chat_seq(entry_chat(here)) =~= Seq::<ResourceModel>::empty());
                        assert(resources_of(chats@) =~= add_part + assoc_chats(
                            ev@.associations.take(i as int + 1),
                        ));
                    }
                },
            }
            i += 1;
        }
        proof {
            assert(ev@.associations.take(n as int) =~= ev@.associations);
        }
        chats
    }

    /// Assembles the list of chats to join from one raw metadata frame.
    /// Text that does not parse or carries no metadata update yields the
    /// empty list, never an error.
    pub fn get_chats_to_join(&self, metadata_update: &str) -> (r: Vec<ShipChat>)
        ensures
            resources_of(r@) == chats_to_join_spec(metadata_update@),
    {
        match parse_json_text(metadata_update) {
            Some(v) => match decode_metadata_value(&v) {
                Some(d) => self.chats_from_metadata(&d),
                None => {
                    let r: Vec<ShipChat> = Vec::new();
                    proof {
                        assert(resources_of(r@) =~= Seq::<ResourceModel>::empty());
                    }
                    r
                },
            },
            None => {
                let r: Vec<ShipChat> = Vec::new();
                proof {
                    assert(resources_of(r@) =~= Seq::<ResourceModel>::empty());
                }
                r
            },
        }
    }

    /// The invite handler's decision for one invite-store frame: the join
    /// and acknowledgment owed for an actual invite, and nothing for a
    /// confirmation notice or a frame that does not decode.  The caller
    /// performs the two requests; their failure is logged there, never
    /// retried.
    pub fn invite_accept(&self, invite_message: &Frame) -> (r: Option<InviteAction>)
        ensures
            match r {
                Some(a) => invite_action_spec(invite_message@) == Some((a.resource@, a.ack_id)),
                None => invite_action_spec(invite_message@) is None,
            },
    {
        match parse_json_text(invite_message.data.as_str()) {
            Some(v) => match decode_invite_value(invite_message.id, &v) {
                Some(iv) => match iv.invite {
                    Some(rc) => Some(InviteAction { resource: rc, ack_id: iv.frame_id }),
                    None => None,
                },
                None => None,
            },
            None => None,
        }
    }

    /// The self-origin filter: an event the bridge itself authored is
    /// dropped here, before the responder can see it; any other event
    /// becomes the authored message handed to the responder.
    pub fn make_authored_message(&self, ev: &GraphEvent) -> (r: Option<AuthoredMessage>)
        ensures
            (r is Some) <==> ev@.author != self.ship_name@,
            match r {
                Some(am) => am@ == (AuthoredModel {
                    author: ev@.author,
                    contents: ev@.contents,
                    time_sent: ev@.time_sent,
                    index: ev@.index,
                }),
                None => true,
            },
    {
        if str_eq(ev.author.as_str(), self.ship_name.as_str()) {
            None
        } else {
            Some(
                AuthoredMessage::new(
                    ev.author.as_str(),
                    &ev.contents,
                    ev.time_sent.as_str(),
                    ev.index.as_str(),
                ),
            )
        }
    }

    /// The message router: the bot's staged replies to one raw graph-store
    /// frame.  A frame that does not carry a whole graph update, or that
    /// the bridge itself authored, stages nothing; otherwise the responder
    /// decides, and its reply — whatever it is — is staged against the
    /// frame's own origin resource.
    pub fn get_messages_to_send(&self, message: &str) -> (r: Vec<MessagePayload>)
        ensures
            match graph_event_of(message@) {
                Some(g) => if g.author == self.ship_name@ {
                    r@.len() == 0
                } else {
                    r@.len() <= 1 && (r@.len() == 1 ==> r@[0]@.ship_chat == g.resource)
                },
                None => r@.len() == 0,
            },
    {
        let v = match parse_json_text(message) {
            Some(v) => v,
            None => {
                return Vec::new();
            },
        };
        let g = match decode_graph_value(&v) {
            Some(g) => g,
            None => {
                return Vec::new();
            },
        };
        let am = match self.make_authored_message(&g) {
            Some(am) => am,
            None => {
                return Vec::new();
            },
        };
        let reply = self.respond_to_message.respond(am);
        let staged = stage_reply(&g.resource, reply);
        proof {
            assert(payloads_of(staged@).len() == staged@.len());
            if staged@.len() == 1 {
                assert(staged@[0]@ == payloads_of(staged@)[0]);
            }
        }
        staged
    }

    /// Builds the poke payload that accepts an invite: the join of the
    /// named resource under the `groups` application, with automatic join
    /// and contact sharing switched on.  The ship names carry the `~`
    /// signature, which the invite's raw name lacks.
    pub fn build_invite_accept_json(&self, ship: String, name: String) -> (r: JsonValue)
        ensures
            r@ == invite_accept_model(ship@, name@),
    {
        let mut resource: Vec<(String, JsonValue)> = Vec::new();
        resource.push(
            (String::from_str("ship"), JsonValue::Text(crate::strutil::prepend_sig(ship.as_str()))),
        );
        resource.push((String::from_str("name"), JsonValue::Text(name)));
        let ghost res_entries = resource@;
        let mut join: Vec<(String, JsonValue)> = Vec::new();
        join.push((String::from_str("resource"), JsonValue::Obj(resource)));
        join.push(
            (String::from_str("ship"), JsonValue::Text(crate::strutil::prepend_sig(ship.as_str()))),
        );
        join.push((String::from_str("app"), JsonValue::Text(String::from_str("groups"))));
        join.push((String::from_str("autojoin"), JsonValue::Bool(true)));
        join.push((String::from_str("shareContact"), JsonValue::Bool(true)));
        let ghost join_entries = join@;
        let mut top: Vec<(String, JsonValue)> = Vec::new();
        top.push((String::from_str("join"), JsonValue::Obj(join)));
        let r = JsonValue::Obj(top);
        proof {
            crate::jsonval::lemma_json_model_obj_index(res_entries);
            crate::jsonval::lemma_json_model_obj_index(join_entries);
            crate::jsonval::lemma_json_model_obj_index(top@);
            assert(json_model_obj(res_entries) =~= seq![
                ("ship"@, JsonModel::Text(seq!['~'] + ship@)),
                ("name"@, JsonModel::Text(name@)),
            ]);
            assert(json_model_obj(join_entries) =~= seq![
                ("resource"@, JsonModel::Obj(json_model_obj(res_entries))),
                ("ship"@, JsonModel::Text(seq!['~'] + ship@)),
                ("app"@, JsonModel::Text("groups"@)),
                ("autojoin"@, JsonModel::Bool(true)),
                ("shareContact"@, JsonModel::Bool(true)),
            ]);
            assert(json_model_obj(top@) =~= seq![
                ("join"@, JsonModel::Obj(json_model_obj(join_entries))),
            ]);
            assert(r@ =~~= invite_accept_model(ship@, name@));
        }
        r
    }

    /// Builds the request payload that joins a discovered chat.  The ship
    /// name is taken as the metadata path spelled it, signature included.
    pub fn build_chat_join_json(&self, ship: String, chat: String) -> (r: JsonValue)
        ensures
            r@ == chat_join_model(ship@, chat@),
    {
        let mut resource: Vec<(String, JsonValue)> = Vec::new();
        resource.push((String::from_str("ship"), JsonValue::Text(ship.clone())));
        resource.push((String::from_str("name"), JsonValue::Text(chat)));
        let ghost res_entries = resource@;
        let mut join: Vec<(String, JsonValue)> = Vec::new();
        join.push((String::from_str("resource"), JsonValue::Obj(resource)));
        join.push((String::from_str("ship"), JsonValue::Text(ship)));
        let ghost join_entries = join@;
        let mut top: Vec<(String, JsonValue)> = Vec::new();
        top.push((String::from_str("join"), JsonValue::Obj(join)));
        let r = JsonValue::Obj(top);
        proof {
            crate::jsonval::lemma_json_model_obj_index(res_entries);
            crate::jsonval::lemma_json_model_obj_index(join_entries);
            crate::jsonval::lemma_json_model_obj_index(top@);
            assert(json_model_obj(res_entries) =~= seq![
                ("ship"@, JsonModel::Text(ship@)),
                ("name"@, JsonModel::Text(chat@)),
            ]);
            assert(json_model_obj(join_entries) =~= seq![
                ("resource"@, JsonModel::Obj(json_model_obj(res_entries))),
                ("ship"@, JsonModel::Text(ship@)),
            ]);
            assert(json_model_obj(top@) =~= seq![
                ("join"@, JsonModel::Obj(json_model_obj(join_entries))),
            ]);
            assert(r@ =~~= chat_join_model(ship@, chat@));
        }
        r
    }

    /// The resource a graph-update document names, read from the raw
    /// document; nothing when any field of it is missing or mistyped.
    pub fn get_ship_chat_from_resource_json(&self, resource_json: &JsonValue) -> (r: Option<
        ShipChat,
    >)
        ensures
            opt_resource_model(r) == graph_resource_spec(resource_json@),
    {
        let gu = match resource_json.get("graph-update") {
            Some(x) => x,
            None => {
                return None;
            },
        };
        let an = match gu.get("add-nodes") {
            Some(x) => x,
            None => {
                return None;
            },
        };
        let res = match an.get("resource") {
            Some(x) => x,
            None => {
                return None;
            },
        };
        match crate::events::decode_resource_value(res) {
            Some(rm) => Some(
                ShipChat {
                    ship_name: crate::strutil::prepend_sig(rm.ship_name.as_str()),
                    chat_name: rm.chat_name,
                },
            ),
            None => None,
        }
    }

    /// Deprecated: the bot responds to all commands in all chats it is a
    /// member of.  Checks whether a graph-update document's resource
    /// matches one of the chats this `Chatbot` was configured with.
    pub fn check_resource_json(&self, resource_json: &JsonValue) -> (r: bool)
        ensures
            r == (match graph_resource_spec(resource_json@) {
                Some(rm) => exists|i: int|
                    0 <= i < self.ship_chats@.len() && self.ship_chats@[i]@ == rm,
                None => false,
            }),
    {
        let rc = match self.get_ship_chat_from_resource_json(resource_json) {
            Some(c) => c,
            None => {
                return false;
            },
        };
        let n = self.ship_chats.len();
        let mut i: usize = 0;
        while i < n
            invariant
                n == self.ship_chats@.len(),
                0 <= i <= n,
                opt_resource_model(Some(rc)) == graph_resource_spec(resource_json@),
                forall|j: int| 0 <= j < i ==> self.ship_chats@[j]@ != rc@,
            decreases n - i,
        {
            let sc = &self.ship_chats[i];
            if str_eq(sc.chat_name.as_str(), rc.chat_name.as_str()) && str_eq(
                sc.ship_name.as_str(),
                rc.ship_name.as_str(),
            ) {
                return true;
            }
            i += 1;
        }
        false
    }
}

/// The invite-accept payload as a mathematical value.
pub open spec fn invite_accept_model(ship: Seq<char>, name: Seq<char>) -> JsonModel {
    JsonModel::Obj(
        seq![
            (
                "join"@,
                JsonModel::Obj(
                    seq![
                        (
                            "resource"@,
                            JsonModel::Obj(
                                seq![
                                    ("ship"@, JsonModel::Text(seq!['~'] + ship)),
                                    ("name"@, JsonModel::Text(name)),
                                ],
                            ),
                        ),
                        ("ship"@, JsonModel::Text(seq!['~'] + ship)),
                        ("app"@, JsonModel::Text("groups"@)),
                        ("autojoin"@, JsonModel::Bool(true)),
                        ("shareContact"@, JsonModel::Bool(true)),
                    ],
                ),
            ),
        ],
    )
}

/// The chat-join payload as a mathematical value.
pub open spec fn chat_join_model(ship: Seq<char>, chat: Seq<char>) -> JsonModel {
    JsonModel::Obj(
        seq![
            (
                "join"@,
                JsonModel::Obj(
                    seq![
                        (
                            "resource"@,
                            JsonModel::Obj(
                                seq![
                                    ("ship"@, JsonModel::Text(ship)),
                                    ("name"@, JsonModel::Text(chat)),
                                ],
                            ),
                        ),
                        ("ship"@, JsonModel::Text(ship)),
                    ],
                ),
            ),
        ],
    )
}

} // verus!
