use crate::jsonval::{
    json_model, json_model_arr, json_model_obj, lemma_json_model_arr_index,
    lemma_json_model_obj_index, model_entries, model_get, model_items, model_str, model_u64,
    parse_json_text, json_of, JsonModel, JsonValue,
};
use crate::message::{Content, ContentModel, Message};
use crate::resource::{ResourceModel, ShipChat};
use crate::strutil::prepend_sig;
use vstd::prelude::*;

verus! {

/// One unit of pushed data from a subscription: a sequence identifier,
/// monotonically increasing within its stream and used for acknowledgment,
/// and the raw text of the update.
pub struct Frame {
    pub id: u64,
    pub data: String,
}

/// The mathematical form of a frame.
pub struct FrameModel {
    pub id: u64,
    pub text: Seq<char>,
}

impl View for Frame {
    type V = FrameModel;

    open spec fn view(&self) -> FrameModel {
        FrameModel { id: self.id, text: self.data@ }
    }
}

/// What `format_time_sent` returns for a given millisecond timestamp, as a
/// mathematical function of the timestamp alone.
pub uninterp spec fn time_text_of(ms: u64) -> Seq<char>;

/// Relies on `chrono::DateTime::from_timestamp` and `DateTime::format`: the
/// calendar date and clock time, in UTC, of a millisecond timestamp, written
/// as `%Y-%m-%d %H:%M:%S`; a timestamp out of chrono's range yields the
/// empty string.  The result depends on the timestamp alone.
#[verifier::external_body]
pub fn format_time_sent(ms: u64) -> (r: String)
    ensures
        r@ == time_text_of(ms),
{
    let unix_time = ms as i64 / 1000;
    match chrono::DateTime::from_timestamp(unix_time, 0) {
        Some(date_time) => format!("{}", date_time.format("%Y-%m-%d %H:%M:%S")),
        None => String::new(),
    }
}

/// A decoded graph-store update: one authored node, together with the
/// resource it was posted to.
pub struct GraphEvent {
    pub author: String,
    pub contents: Message,
    pub time_sent: String,
    pub index: String,
    pub resource: ShipChat,
}

pub struct GraphModel {
    pub author: Seq<char>,
    pub contents: Seq<ContentModel>,
    pub time_sent: Seq<char>,
    pub index: Seq<char>,
    pub resource: ResourceModel,
}

impl View for GraphEvent {
    type V = GraphModel;

    open spec fn view(&self) -> GraphModel {
        GraphModel {
            author: self.author@,
            contents: self.contents@,
            time_sent: self.time_sent@,
            index: self.index@,
            resource: self.resource@,
        }
    }
}

pub open spec fn opt_resource_model(o: Option<ShipChat>) -> Option<ResourceModel> {
    match o {
        Some(sc) => Some(sc@),
        None => None,
    }
}

/// A decoded invite-store update.  `invite` is absent when the frame is one
/// of the store's confirmation notices rather than an actual invite; such a
/// frame is a normal no-op.  `frame_id` names the frame to acknowledge once
/// the invite has been acted on.
pub struct InviteEvent {
    pub invite: Option<ShipChat>,
    pub frame_id: u64,
}

pub struct InviteModel {
    pub invite: Option<ResourceModel>,
    pub frame_id: u64,
}

impl View for InviteEvent {
    type V = InviteModel;

    open spec fn view(&self) -> InviteModel {
        InviteModel { invite: opt_resource_model(self.invite), frame_id: self.frame_id }
    }
}

pub open spec fn opt_text_model(o: Option<String>) -> Option<Seq<char>> {
    match o {
        Some(s) => Some(s@),
        None => None,
    }
}

/// One entry of a metadata update: the application the entry belongs to and
/// its resource path, each kept only when the update carries it as a string.
pub struct MetaEntry {
    pub app_name: Option<String>,
    pub resource: Option<String>,
}

pub struct MetaEntryModel {
    pub app_name: Option<Seq<char>>,
    pub resource: Option<Seq<char>>,
}

impl View for MetaEntry {
    type V = MetaEntryModel;

    open spec fn view(&self) -> MetaEntryModel {
        MetaEntryModel {
            app_name: opt_text_model(self.app_name),
            resource: opt_text_model(self.resource),
        }
    }
}

pub open spec fn opt_entry_model(o: Option<MetaEntry>) -> Option<MetaEntryModel> {
    match o {
        Some(e) => Some(e@),
        None => None,
    }
}

pub open spec fn entries_model(es: Seq<MetaEntry>) -> Seq<MetaEntryModel> {
    es.map_values(|e: MetaEntry| e@)
}

/// A decoded metadata-store update: at most one newly added entry, the
/// entries of an `associations` replay, and whether the update removes a
/// resource.
pub struct MetadataEvent {
    pub add: Option<MetaEntry>,
    pub associations: Vec<MetaEntry>,
    pub removed: bool,
}

pub struct MetadataModel {
    pub add: Option<MetaEntryModel>,
    pub associations: Seq<MetaEntryModel>,
    pub removed: bool,
}

impl View for MetadataEvent {
    type V = MetadataModel;

    open spec fn view(&self) -> MetadataModel {
        MetadataModel {
            add: opt_entry_model(self.add),
            associations: entries_model(self.associations@),
            removed: self.removed,
        }
    }
}

/// One frame after decoding: a typed event, or `Unrecognized` for a frame
/// that is malformed or of no known shape.  An unrecognized frame is
/// skipped, never an error.
pub enum DomainEvent {
    Graph(GraphEvent),
    Invite(InviteEvent),
    Metadata(MetadataEvent),
    Unrecognized,
}

pub enum EventModel {
    Graph(GraphModel),
    Invite(InviteModel),
    Metadata(MetadataModel),
    Unrecognized,
}

impl View for DomainEvent {
    type V = EventModel;

    open spec fn view(&self) -> EventModel {
        match self {
            DomainEvent::Graph(g) => EventModel::Graph(g@),
            DomainEvent::Invite(i) => EventModel::Invite(i@),
            DomainEvent::Metadata(m) => EventModel::Metadata(m@),
            DomainEvent::Unrecognized => EventModel::Unrecognized,
        }
    }
}

pub open spec fn model_str_opt(o: Option<JsonModel>) -> Option<Seq<char>> {
    match o {
        Some(v) => model_str(v),
        None => None,
    }
}

/// A resource object `{"ship": .., "name": ..}`; both fields must be
/// strings, else the object is rejected.
pub open spec fn resource_of(m: JsonModel) -> Option<ResourceModel> {
    match (model_str_opt(model_get(m, "ship"@)), model_str_opt(model_get(m, "name"@))) {
        (Some(ship), Some(name)) => Some(ResourceModel { ship: ship, name: name }),
        _ => None,
    }
}

/// What one item of a node's content list stands for: the first of the keys
/// `text`, `url`, `mention` that holds a string decides its kind; any other
/// item is carried as an uninterpreted piece.
pub open spec fn content_of(m: JsonModel) -> ContentModel {
    match model_str_opt(model_get(m, "text"@)) {
        Some(t) => ContentModel::Text(t),
        None => match model_str_opt(model_get(m, "url"@)) {
            Some(u) => ContentModel::Url(u),
            None => match model_str_opt(model_get(m, "mention"@)) {
                Some(sh) => ContentModel::Mention(sh),
                None => ContentModel::Other,
            },
        },
    }
}

/// The post carried by one node object: author, contents, millisecond send
/// time and index, all of which must be present and well-typed.
pub open spec fn post_of(m: JsonModel) -> Option<(Seq<char>, Seq<ContentModel>, u64, Seq<char>)> {
    match model_get(m, "post"@) {
        Some(post) => match (
            model_str_opt(model_get(post, "author"@)),
            model_u64_opt(model_get(post, "time-sent"@)),
            model_str_opt(model_get(post, "index"@)),
        ) {
            (Some(author), Some(ms), Some(index)) => match model_get(post, "contents"@) {
                Some(cv) => match model_items(cv) {
                    Some(items) => Some(
                        (author, items.map_values(|x: JsonModel| content_of(x)), ms, index),
                    ),
                    None => None,
                },
                None => None,
            },
            _ => None,
        },
        None => None,
    }
}

pub open spec fn model_u64_opt(o: Option<JsonModel>) -> Option<u64> {
    match o {
        Some(v) => model_u64(v),
        None => None,
    }
}

/// A graph-store update frame.  The update's target resource and the first
/// node of its `add-nodes` object must be complete; the formatted send time
/// is the UTC rendering of the node's millisecond timestamp, and the
/// resource's ship name carries the `~` signature.
pub open spec fn decode_graph(m: JsonModel) -> Option<GraphModel> {
    match model_get(m, "graph-update"@) {
        Some(gu) => match model_get(gu, "add-nodes"@) {
            Some(an) => match model_get(an, "resource"@) {
                Some(res) => match resource_of(res) {
                    Some(rm) => match model_get(an, "nodes"@) {
                        Some(nodes) => match model_entries(nodes) {
                            Some(es) => if es.len() > 0 {
                                match post_of(es[0].1) {
                                    Some((author, contents, ms, index)) => Some(
                                        GraphModel {
                                            author: author,
                                            contents: contents,
                                            time_sent: time_text_of(ms),
                                            index: index,
                                            resource: ResourceModel {
                                                ship: seq!['~'] + rm.ship,
                                                name: rm.name,
                                            },
                                        },
                                    ),
                                    None => None,
                                }
                            } else {
                                None
                            },
                            None => None,
                        },
                        None => None,
                    },
                    None => None,
                },
                None => None,
            },
            None => None,
        },
        None => None,
    }
}

/// An invite-store update frame.  A missing or null inner invite object is
/// the store confirming earlier action: a well-formed no-op, not an error.
/// A populated invite must name its resource completely.
pub open spec fn decode_invite(frame_id: u64, m: JsonModel) -> Option<InviteModel> {
    match model_get(m, "invite-update"@) {
        Some(iu) => match model_get(iu, "invite"@) {
            Some(inv) => if inv is Null {
                Some(InviteModel { invite: None, frame_id })
            } else {
                match model_get(inv, "invite"@) {
                    Some(inner) => match model_get(inner, "resource"@) {
                        Some(res) => match resource_of(res) {
                            Some(rm) => Some(InviteModel { invite: Some(rm), frame_id }),
                            None => None,
                        },
                        None => None,
                    },
                    None => None,
                }
            },
            None => Some(InviteModel { invite: None, frame_id }),
        },
        None => None,
    }
}

pub open spec fn meta_entry_of(m: JsonModel) -> MetaEntryModel {
    MetaEntryModel {
        app_name: model_str_opt(model_get(m, "app-name"@)),
        resource: model_str_opt(model_get(m, "resource"@)),
    }
}

/// A metadata-store update frame: its three independent cases.  `add` and
/// `remove` count only when they hold objects; an `associations` object
/// contributes one entry per member, in the order the update lists them.
pub open spec fn decode_metadata(m: JsonModel) -> Option<MetadataModel> {
    match model_get(m, "metadata-update"@) {
        Some(mu) => Some(
            MetadataModel {
                add: match model_get(mu, "add"@) {
                    Some(a) => if model_entries(a) is Some {
                        Some(meta_entry_of(a))
                    } else {
                        None
                    },
                    None => None,
                },
                associations: match model_get(mu, "associations"@) {
                    Some(a) => match model_entries(a) {
                        Some(es) => es.map_values(|e: (Seq<char>, JsonModel)| meta_entry_of(e.1)),
                        None => Seq::empty(),
                    },
                    None => Seq::empty(),
                },
                removed: match model_get(mu, "remove"@) {
                    Some(r) => model_entries(r) is Some,
                    None => false,
                },
            },
        ),
        None => None,
    }
}

/// One parsed frame as a typed event: the first of the known shapes that
/// decodes completely, and `Unrecognized` where none does.
pub open spec fn decode_model(frame_id: u64, m: JsonModel) -> EventModel {
    match decode_graph(m) {
        Some(g) => EventModel::Graph(g),
        None => match decode_invite(frame_id, m) {
            Some(i) => EventModel::Invite(i),
            None => match decode_metadata(m) {
                Some(d) => EventModel::Metadata(d),
                None => EventModel::Unrecognized,
            },
        },
    }
}

/// One raw frame as a typed event: text that does not parse as JSON is
/// `Unrecognized`, never an error.
pub open spec fn frame_event_model(f: FrameModel) -> EventModel {
    match json_of(f.text) {
        Some(m) => decode_model(f.id, m),
        None => EventModel::Unrecognized,
    }
}

pub fn decode_resource_value(v: &JsonValue) -> (r: Option<ShipChat>)
    ensures
        opt_resource_model(r) == resource_of(v@),
{
    let ship = match v.get("ship") {
        Some(x) => match x.as_text() {
            Some(s) => s,
            None => {
                return None;
            },
        },
        None => {
            return None;
        },
    };
    let name = match v.get("name") {
        Some(x) => match x.as_text() {
            Some(s) => s,
            None => {
                return None;
            },
        },
        None => {
            return None;
        },
    };
    Some(ShipChat { ship_name: ship.clone(), chat_name: name.clone() })
}

fn decode_content(v: &JsonValue) -> (c: Content)
    ensures
        c@ == content_of(v@),
{
    if let Some(x) = v.get("text") {
        if let Some(s) = x.as_text() {
            return Content::Text(s.clone());
        }
    }
    if let Some(x) = v.get("url") {
        if let Some(s) = x.as_text() {
            return Content::Url(s.clone());
        }
    }
    if let Some(x) = v.get("mention") {
        if let Some(s) = x.as_text() {
            return Content::Mention(s.clone());
        }
    }
    Content::Other
}

fn decode_contents(items: &Vec<JsonValue>) -> (r: Vec<Content>)
    ensures
        r@.len() == items@.len(),
        forall|j: int| 0 <= j < items@.len() ==> r@[j]@ == content_of(json_model(items@[j])),
{
    let n = items.len();
    let mut r: Vec<Content> = Vec::new();
    let mut i: usize = 0;
    while i < n
        invariant
            n == items@.len(),
            0 <= i <= n,
            r@.len() == i,
            forall|j: int| 0 <= j < i ==> r@[j]@ == content_of(json_model(items@[j])),
        decreases n - i,
    {
        let c = decode_content(&items[i]);
        r.push(c);
        i += 1;
    }
    r
}

pub fn decode_graph_value(v: &JsonValue) -> (r: Option<GraphEvent>)
    ensures
        match r {
            Some(g) => decode_graph(v@) == Some(g@),
            None => decode_graph(v@) is None,
        },
{
    let gu = match v.get("graph-update") {
        Some(x) => x,
        None => {
            return None;
        },
    };
    let an = match gu.get("add-nodes") {
        Some(x) => x,
        None => {
            return None;
        },
    };
    let res = match an.get("resource") {
        Some(x) => x,
        None => {
            return None;
        },
    };
    let rm = match decode_resource_value(res) {
        Some(x) => x,
        None => {
            return None;
        },
    };
    let nodes = match an.get("nodes") {
        Some(x) => x,
        None => {
            return None;
        },
    };
    let es = match nodes.entries() {
        Some(x) => x,
        None => {
            return None;
        },
    };
    if es.len() == 0 {
        return None;
    }
    proof {
        lemma_json_model_obj_index(es@);
    }
    let node = &es[0].1;
    let post = match node.get("post") {
        Some(x) => x,
        None => {
            return None;
        },
    };
    let author = match post.get("author") {
        Some(x) => match x.as_text() {
            Some(s) => s,
            None => {
                return None;
            },
        },
        None => {
            return None;
        },
    };
    let ms = match post.get("time-sent") {
        Some(x) => match x.as_u64() {
            Some(t) => t,
            None => {
                return None;
            },
        },
        None => {
            return None;
        },
    };
    let index = match post.get("index") {
        Some(x) => match x.as_text() {
            Some(s) => s,
            None => {
                return None;
            },
        },
        None => {
            return None;
        },
    };
    let citems = match post.get("contents") {
        Some(x) => match x.items() {
            Some(its) => its,
            None => {
                return None;
            },
        },
        None => {
            return None;
        },
    };
    let contents = decode_contents(citems);
    let g = GraphEvent {
        author: author.clone(),
        contents: Message { content_list: contents },
        time_sent: format_time_sent(ms),
        index: index.clone(),
        resource: ShipChat {
            ship_name: prepend_sig(rm.ship_name.as_str()),
            chat_name: rm.chat_name,
        },
    };
    proof {
        lemma_json_model_arr_index(citems@);
        let spec_contents = json_model_arr(citems@).map_values(|x: JsonModel| content_of(x));
        assert(g.contents@ =~= spec_contents);
    }
    Some(g)
}

pub fn decode_invite_value(frame_id: u64, v: &JsonValue) -> (r: Option<InviteEvent>)
    ensures
        match r {
            Some(i) => decode_invite(frame_id, v@) == Some(i@),
            None => decode_invite(frame_id, v@) is None,
        },
{
    let iu = match v.get("invite-update") {
        Some(x) => x,
        None => {
            return None;
        },
    };
    let inv = match iu.get("invite") {
        Some(x) => x,
        None => {
            return Some(InviteEvent { invite: None, frame_id });
        },
    };
    if inv.is_null() {
        return Some(InviteEvent { invite: None, frame_id });
    }
    let inner = match inv.get("invite") {
        Some(x) => x,
        None => {
            return None;
        },
    };
    let res = match inner.get("resource") {
        Some(x) => x,
        None => {
            return None;
        },
    };
    match decode_resource_value(res) {
        Some(rm) => Some(InviteEvent { invite: Some(rm), frame_id }),
        None => None,
    }
}

fn decode_meta_entry(v: &JsonValue) -> (r: MetaEntry)
    ensures
        r@ == meta_entry_of(v@),
{
    let app_name = match v.get("app-name") {
        Some(x) => match x.as_text() {
            Some(s) => Some(s.clone()),
            None => None,
        },
        None => None,
    };
    let resource = match v.get("resource") {
        Some(x) => match x.as_text() {
            Some(s) => Some(s.clone()),
            None => None,
        },
        None => None,
    };
    MetaEntry { app_name, resource }
}

pub fn decode_metadata_value(v: &JsonValue) -> (r: Option<MetadataEvent>)
    ensures
        match r {
            Some(d) => decode_metadata(v@) == Some(d@),
            None => decode_metadata(v@) is None,
        },
{
    let mu = match v.get("metadata-update") {
        Some(x) => x,
        None => {
            return None;
        },
    };
    let add = match mu.get("add") {
        Some(a) => match a.entries() {
            Some(_) => Some(decode_meta_entry(a)),
            None => None,
        },
        None => None,
    };
    let mut associations: Vec<MetaEntry> = Vec::new();
    let ghost spec_assocs = match model_get(mu@, "associations"@) {
        Some(a) => match model_entries(a) {
            Some(es) => es.map_values(|e: (Seq<char>, JsonModel)| meta_entry_of(e.1)),
            None => Seq::<MetaEntryModel>::empty(),
        },
        None => Seq::<MetaEntryModel>::empty(),
    };
    if let Some(a) = mu.get("associations") {
        if let Some(es) = a.entries() {
            proof {
                lemma_json_model_obj_index(es@);
            }
            let n = es.len();
            let mut i: usize = 0;
            while i < n
                invariant
                    n == es@.len(),
                    0 <= i <= n,
                    associations@.len() == i,
                    spec_assocs.len() == n,
                    forall|j: int| 0 <= j < n ==> spec_assocs[j] == meta_entry_of(
                        json_model(es@[j].1),
                    ),
                    forall|j: int| 0 <= j < i ==> associations@[j]@ == spec_assocs[j],
                decreases n - i,
            {
                let e = decode_meta_entry(&es[i].1);
                associations.push(e);
                i += 1;
            }
        }
    }
    let removed = match mu.get("remove") {
        Some(r) => match r.entries() {
            Some(_) => true,
            None => false,
        },
        None => false,
    };
    let d = MetadataEvent { add, associations, removed };
    proof {
        assert(entries_model(d.associations@) =~= spec_assocs);
    }
    Some(d)
}

/// Decodes one parsed frame into its typed event.
pub fn decode_value(frame_id: u64, v: &JsonValue) -> (r: DomainEvent)
    ensures
        r@ == decode_model(frame_id, v@),
{
    if let Some(g) = decode_graph_value(v) {
        return DomainEvent::Graph(g);
    }
    if let Some(i) = decode_invite_value(frame_id, v) {
        return DomainEvent::Invite(i);
    }
    if let Some(d) = decode_metadata_value(v) {
        return DomainEvent::Metadata(d);
    }
    DomainEvent::Unrecognized
}

/// Decodes one raw frame.  A frame that does not parse, or parses to no
/// known shape, is `Unrecognized`; decoding never fails.
pub fn decode_frame(frame: &Frame) -> (r: DomainEvent)
    ensures
        r@ == frame_event_model(frame@),
{
    match parse_json_text(frame.data.as_str()) {
        Some(v) => decode_value(frame.id, &v),
        None => DomainEvent::Unrecognized,
    }
}

/// Decodes every frame of one draining pass, in order.  Each frame is
/// decoded on its own: a malformed frame yields `Unrecognized` in its place
/// and never keeps a later frame from being decoded.
pub fn decode_frames(frames: &Vec<Frame>) -> (r: Vec<DomainEvent>)
    ensures
        r@.len() == frames@.len(),
        forall|j: int| 0 <= j < frames@.len() ==> r@[j]@ == frame_event_model(frames@[j]@),
{
    let n = frames.len();
    let mut r: Vec<DomainEvent> = Vec::new();
    let mut i: usize = 0;
    while i < n
        invariant
            n == frames@.len(),
            0 <= i <= n,
            r@.len() == i,
            forall|j: int| 0 <= j < i ==> r@[j]@ == frame_event_model(frames@[j]@),
        decreases n - i,
    {
        let ev = decode_frame(&frames[i]);
        r.push(ev);
        i += 1;
    }
    r
}

} // verus!

