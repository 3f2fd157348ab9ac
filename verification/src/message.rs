use crate::strutil::{split_words, trim_spec, trim_str, views_of, words_of};
use vstd::prelude::*;
use vstd::string::StringExecFns;

verus! {

/// One piece of a message's contents, as far as this library reads it:
/// plain text, a link, a mention of a ship, or a piece of a kind the
/// library does not interpret.
pub enum Content {
    Text(String),
    Url(String),
    Mention(String),
    Other,
}

/// The mathematical form of a content piece.
pub enum ContentModel {
    Text(Seq<char>),
    Url(Seq<char>),
    Mention(Seq<char>),
    Other,
}

impl View for Content {
    type V = ContentModel;

    open spec fn view(&self) -> ContentModel {
        match self {
            Content::Text(t) => ContentModel::Text(t@),
            Content::Url(u) => ContentModel::Url(u@),
            Content::Mention(m) => ContentModel::Mention(m@),
            Content::Other => ContentModel::Other,
        }
    }
}

/// What one content piece contributes to the formatted form of a message:
/// its text, with mentions carrying the ship signature and uninterpreted
/// pieces contributing nothing.
pub open spec fn content_text(c: ContentModel) -> Seq<char> {
    match c {
        ContentModel::Text(t) => t,
        ContentModel::Url(u) => u,
        ContentModel::Mention(m) => seq!['~'] + m,
        ContentModel::Other => Seq::empty(),
    }
}

/// The contents of one chat message, built up piece by piece.  A reply the
/// bridge sends is a value of this type, and so are the contents of a
/// message it received.
pub struct Message {
    pub content_list: Vec<Content>,
}

pub open spec fn contents_model(cs: Seq<Content>) -> Seq<ContentModel> {
    cs.map_values(|c: Content| c@)
}

impl View for Message {
    type V = Seq<ContentModel>;

    open spec fn view(&self) -> Seq<ContentModel> {
        contents_model(self.content_list@)
    }
}

/// The human-readable form of a list of contents: every piece contributes
/// one space and its trimmed text.
pub open spec fn formatted_of(cs: Seq<ContentModel>) -> Seq<char>
    decreases cs.len(),
{
    if cs.len() == 0 {
        Seq::empty()
    } else {
        formatted_of(cs.drop_last()) + seq![' '] + trim_spec(content_text(cs.last()))
    }
}

fn extract_content_text(c: &Content) -> (r: String)
    ensures
        r@ == content_text(c@),
{
    match c {
        Content::Text(t) => t.clone(),
        Content::Url(u) => u.clone(),
        Content::Mention(m) => crate::strutil::prepend_sig(m.as_str()),
        Content::Other => String::new(),
    }
}

impl Message {
    /// A message with no contents yet.
    pub fn new() -> (r: Message)
        ensures
            r@ == Seq::<ContentModel>::empty(),
    {
        let m = Message { content_list: Vec::new() };
        proof {
            assert(m@ =~= Seq::<ContentModel>::empty());
        }
        m
    }

    /// A copy with the same contents.
    pub fn duplicate(&self) -> (r: Message)
        ensures
            r@ == self@,
    {
        let n = self.content_list.len();
        let mut cl: Vec<Content> = Vec::new();
        let mut i: usize = 0;
        while i < n
            invariant
                n == self.content_list@.len(),
                0 <= i <= n,
                cl@.len() == i,
                forall|j: int| 0 <= j < i ==> cl@[j]@ == self.content_list@[j]@,
            decreases n - i,
        {
            let c: &Content = &self.content_list[i];
            let copy = match c {
                Content::Text(t) => Content::Text(t.clone()),
                Content::Url(u) => Content::Url(u.clone()),
                Content::Mention(m) => Content::Mention(m.clone()),
                Content::Other => Content::Other,
            };
            cl.push(copy);
            i += 1;
        }
        let r = Message { content_list: cl };
        proof {
            assert(r@ =~= self@);
        }
        r
    }

    /// Appends a piece of plain text to the contents.
    pub fn add_text(self, text: &str) -> (r: Message)
        ensures
            r@ == self@.push(ContentModel::Text(text@)),
    {
        let mut cl = self.content_list;
        let ghost before = cl@;
        cl.push(Content::Text(text.to_owned()));
        let r = Message { content_list: cl };
        proof {
            assert(r@ =~= contents_model(before).push(ContentModel::Text(text@)));
        }
        r
    }

    /// Appends a link to the contents.
    pub fn add_url(self, url: &str) -> (r: Message)
        ensures
            r@ == self@.push(ContentModel::Url(url@)),
    {
        let mut cl = self.content_list;
        let ghost before = cl@;
        cl.push(Content::Url(url.to_owned()));
        let r = Message { content_list: cl };
        proof {
            assert(r@ =~= contents_model(before).push(ContentModel::Url(url@)));
        }
        r
    }

    /// Appends a mention of a ship to the contents.
    pub fn add_mention(self, referenced_ship: &str) -> (r: Message)
        ensures
            r@ == self@.push(ContentModel::Mention(referenced_ship@)),
    {
        let mut cl = self.content_list;
        let ghost before = cl@;
        cl.push(Content::Mention(referenced_ship.to_owned()));
        let r = Message { content_list: cl };
        proof {
            assert(r@ =~= contents_model(before).push(ContentModel::Mention(referenced_ship@)));
        }
        r
    }

    pub fn is_empty(&self) -> (r: bool)
        ensures
            r == (self@.len() == 0),
    {
        self.content_list.len() == 0
    }

    /// The contents as one human-readable line.
    pub fn to_formatted_string(&self) -> (r: String)
        ensures
            r@ == formatted_of(self@),
    {
        let n = self.content_list.len();
        let mut result = String::new();
        let mut i: usize = 0;
        proof {
            assert(self@.take(0) =~= Seq::<ContentModel>::empty());
        }
        while i < n
            invariant
                n == self.content_list@.len(),
                0 <= i <= n,
                result@ == formatted_of(self@.take(i as int)),
            decreases n - i,
        {
            let piece = extract_content_text(&self.content_list[i]);
            let trimmed = trim_str(piece.as_str());
            result.append(" ");
            result.append(trimmed.as_str());
            proof {
                reveal_strlit(" ");
                assert(self@.take(i as int + 1).drop_last() =~= self@.take(i as int));
                assert(self@.take(i as int + 1).last() == self@[i as int]);
                assert(result@ =~= formatted_of(self@.take(i as int + 1)));
            }
            i += 1;
        }
        proof {
            assert(self@.take(n as int) =~= self@);
        }
        result
    }

    /// The words of the contents' formatted form, in order, with blanks
    /// dropped.
    pub fn to_formatted_words(&self) -> (r: Vec<String>)
        ensures
            views_of(r@) == words_of(formatted_of(self@)),
    {
        let formatted = self.to_formatted_string();
        split_words(formatted.as_str())
    }
}

/// The mathematical form of an authored message.
pub struct AuthoredModel {
    pub author: Seq<char>,
    pub contents: Seq<ContentModel>,
    pub time_sent: Seq<char>,
    pub index: Seq<char>,
}

/// The normalized unit handed to a responder: who wrote a message, its
/// contents, the formatted send time, and the position index it carries in
/// its stream.
pub struct AuthoredMessage {
    pub author: String,
    pub contents: Message,
    pub time_sent: String,
    pub index: String,
}

impl View for AuthoredMessage {
    type V = AuthoredModel;

    open spec fn view(&self) -> AuthoredModel {
        AuthoredModel {
            author: self.author@,
            contents: self.contents@,
            time_sent: self.time_sent@,
            index: self.index@,
        }
    }
}

impl AuthoredMessage {
    /// Bundles the fields of an authored message.
    pub fn new(author: &str, contents: &Message, time_sent: &str, index: &str) -> (r:
        AuthoredMessage)
        ensures
            r@ == (AuthoredModel {
                author: author@,
                contents: contents@,
                time_sent: time_sent@,
                index: index@,
            }),
    {
        AuthoredMessage {
            author: author.to_owned(),
            contents: contents.duplicate(),
            time_sent: time_sent.to_owned(),
            index: index.to_owned(),
        }
    }
}

} // verus!
