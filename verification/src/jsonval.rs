use vstd::prelude::*;

verus! {

/// A JSON document as this library stores it once a raw frame has been
/// parsed.  Numbers are kept only as far as the decoder reads them: a value
/// representable as a `u64` keeps that value, any other number is kept
/// abstractly as `Num(None)`.  Object entries keep the order in which the
/// parser produced them.
pub enum JsonValue {
    Null,
    Bool(bool),
    Num(Option<u64>),
    Text(String),
    Arr(Vec<JsonValue>),
    Obj(Vec<(String, JsonValue)>),
}

/// The mathematical shape of a `JsonValue`: the same tree with every string
/// replaced by its character sequence.
pub enum JsonModel {
    Null,
    Bool(bool),
    Num(Option<u64>),
    Text(Seq<char>),
    Arr(Seq<JsonModel>),
    Obj(Seq<(Seq<char>, JsonModel)>),
}

pub open spec fn json_model(v: JsonValue) -> JsonModel
    decreases v,
{
    match v {
        JsonValue::Null => JsonModel::Null,
        JsonValue::Bool(b) => JsonModel::Bool(b),
        JsonValue::Num(n) => JsonModel::Num(n),
        JsonValue::Text(s) => JsonModel::Text(s@),
        JsonValue::Arr(items) => JsonModel::Arr(json_model_arr(items@)),
        JsonValue::Obj(entries) => JsonModel::Obj(json_model_obj(entries@)),
    }
}

pub open spec fn json_model_arr(s: Seq<JsonValue>) -> Seq<JsonModel>
    decreases s,
{
    if s.len() == 0 {
        Seq::empty()
    } else {
        seq![json_model(s[0])] + json_model_arr(s.drop_first())
    }
}

pub open spec fn json_model_obj(s: Seq<(String, JsonValue)>) -> Seq<(Seq<char>, JsonModel)>
    decreases s,
{
    if s.len() == 0 {
        Seq::empty()
    } else {
        seq![(s[0].0@, json_model(s[0].1))] + json_model_obj(s.drop_first())
    }
}

impl View for JsonValue {
    type V = JsonModel;

    open spec fn view(&self) -> JsonModel {
        json_model(*self)
    }
}

pub proof fn lemma_json_model_arr_index(s: Seq<JsonValue>)
    ensures
        json_model_arr(s).len() == s.len(),
        forall|i: int| 0 <= i < s.len() ==> json_model_arr(s)[i] == json_model(s[i]),
    decreases s,
{
    if s.len() > 0 {
        lemma_json_model_arr_index(s.drop_first());
        assert forall|i: int| 0 <= i < s.len() implies json_model_arr(s)[i] == json_model(
            s[i],
        ) by {
            if i > 0 {
                assert(s.drop_first()[i - 1] == s[i]);
                assert(json_model_arr(s)[i] == json_model_arr(s.drop_first())[i - 1]);
            }
        }
    }
}

pub proof fn lemma_json_model_obj_index(s: Seq<(String, JsonValue)>)
    ensures
        json_model_obj(s).len() == s.len(),
        forall|i: int|
            0 <= i < s.len() ==> json_model_obj(s)[i] == (s[i].0@, json_model(s[i].1)),
    decreases s,
{
    if s.len() > 0 {
        lemma_json_model_obj_index(s.drop_first());
        assert forall|i: int| 0 <= i < s.len() implies json_model_obj(s)[i] == (
            s[i].0@,
            json_model(s[i].1),
        ) by {
            if i > 0 {
                assert(s.drop_first()[i - 1] == s[i]);
                assert(json_model_obj(s)[i] == json_model_obj(s.drop_first())[i - 1]);
            }
        }
    }
}

/// Looks a key up among object entries; the first entry with that key wins.
pub open spec fn model_lookup(es: Seq<(Seq<char>, JsonModel)>, k: Seq<char>) -> Option<JsonModel>
    decreases es.len(),
{
    if es.len() == 0 {
        None
    } else if es[0].0 == k {
        Some(es[0].1)
    } else {
        model_lookup(es.drop_first(), k)
    }
}

/// The field named `k` of an object, if the value is an object that has it.
pub open spec fn model_get(m: JsonModel, k: Seq<char>) -> Option<JsonModel> {
    match m {
        JsonModel::Obj(es) => model_lookup(es, k),
        _ => None,
    }
}

pub open spec fn model_str(m: JsonModel) -> Option<Seq<char>> {
    match m {
        JsonModel::Text(s) => Some(s),
        _ => None,
    }
}

pub open spec fn model_u64(m: JsonModel) -> Option<u64> {
    match m {
        JsonModel::Num(n) => n,
        _ => None,
    }
}

pub open spec fn model_entries(m: JsonModel) -> Option<Seq<(Seq<char>, JsonModel)>> {
    match m {
        JsonModel::Obj(es) => Some(es),
        _ => None,
    }
}

pub open spec fn model_items(m: JsonModel) -> Option<Seq<JsonModel>> {
    match m {
        JsonModel::Arr(items) => Some(items),
        _ => None,
    }
}

impl JsonValue {
    /// The field named `key`, when this value is an object that has one.
    pub fn get<'a>(&'a self, key: &str) -> (r: Option<&'a JsonValue>)
        ensures
            match r {
                Some(v) => model_get(self@, key@) == Some(v@),
                None => model_get(self@, key@) is None,
            },
    {
        match self {
            JsonValue::Obj(entries) => {
                proof {
                    lemma_json_model_obj_index(entries@);
                }
                let ghost es = json_model_obj(entries@);
                let n = entries.len();
                let mut i: usize = 0;
                proof {
                    assert(es.skip(0) =~= es);
                }
                while i < n
                    invariant
                        n == entries@.len(),
                        0 <= i <= n,
                        es == json_model_obj(entries@),
                        es.len() == n,
                        forall|j: int|
                            0 <= j < n ==> es[j] == (entries@[j].0@, json_model(entries@[j].1)),
                        model_lookup(es, key@) == model_lookup(es.skip(i as int), key@),
                        self@ == JsonModel::Obj(es),
                    decreases n - i,
                {
                    proof {
                        assert(es.skip(i as int)[0] == es[i as int]);
                        assert(es.skip(i as int).drop_first() =~= es.skip(i as int + 1));
                    }
                    if crate::strutil::str_eq(entries[i].0.as_str(), key) {
                        return Some(&entries[i].1);
                    }
                    i += 1;
                }
                None
            },
            _ => None,
        }
    }

    /// The string this value holds, when it is a JSON string.
    pub fn as_text<'a>(&'a self) -> (r: Option<&'a String>)
        ensures
            match r {
                Some(s) => model_str(self@) == Some(s@),
                None => model_str(self@) is None,
            },
    {
        match self {
            JsonValue::Text(s) => Some(s),
            _ => None,
        }
    }

    /// The unsigned integer this value holds, when it is such a number.
    pub fn as_u64(&self) -> (r: Option<u64>)
        ensures
            r == model_u64(self@),
    {
        match self {
            JsonValue::Num(n) => *n,
            _ => None,
        }
    }

    pub fn is_null(&self) -> (r: bool)
        ensures
            r == (self@ is Null),
    {
        match self {
            JsonValue::Null => true,
            _ => false,
        }
    }

    /// The entries of this value, when it is an object.
    pub fn entries<'a>(&'a self) -> (r: Option<&'a Vec<(String, JsonValue)>>)
        ensures
            match r {
                Some(es) => model_entries(self@) == Some(json_model_obj(es@)),
                None => model_entries(self@) is None,
            },
    {
        match self {
            JsonValue::Obj(entries) => Some(entries),
            _ => None,
        }
    }

    /// The items of this value, when it is an array.
    pub fn items<'a>(&'a self) -> (r: Option<&'a Vec<JsonValue>>)
        ensures
            match r {
                Some(items) => model_items(self@) == Some(json_model_arr(items@)),
                None => model_items(self@) is None,
            },
    {
        match self {
            JsonValue::Arr(items) => Some(items),
            _ => None,
        }
    }
}

/// What `parse_json_text` returns for a given input, as a mathematical
/// function of the text alone.  The parse is deterministic, so the tree —
/// including the order of object entries, which the parser keeps as they
/// stand in the document — is fixed by the input text.
pub uninterp spec fn json_of(s: Seq<char>) -> Option<JsonModel>;

/// Relies on `serde_json::from_str::<serde_json::Value>`: a strict JSON
/// parse of the whole input that either yields one document or fails, with
/// the result fixed by the input text alone.
#[verifier::external_body]
pub fn parse_json_text(s: &str) -> (r: Option<JsonValue>)
    ensures
        match r {
            Some(v) => json_of(s@) == Some(v@),
            None => json_of(s@) is None,
        },
{
    match serde_json::from_str::<serde_json::Value>(s) {
        Ok(v) => Some(value_from_serde(&v)),
        Err(_) => None,
    }
}

#[verifier::external_type_specification]
#[verifier::external_body]
pub struct ExSerdeValue(serde_json::Value);

/// Relies on the `serde_json::Value` variant accessors alone: this is the
/// conversion half of `parse_json_text`, copying each variant of the parsed
/// tree into the library's own `JsonValue`, one arm per variant.  It is
/// a separate item only because the conversion recurses.
#[verifier::external_body]
fn value_from_serde(v: &serde_json::Value) -> JsonValue {
    match v {
        serde_json::Value::Null => JsonValue::Null,
        serde_json::Value::Bool(b) => JsonValue::Bool(*b),
        serde_json::Value::Number(n) => JsonValue::Num(n.as_u64()),
        serde_json::Value::String(s) => JsonValue::Text(s.clone()),
        serde_json::Value::Array(a) => JsonValue::Arr(a.iter().map(value_from_serde).collect()),
        serde_json::Value::Object(m) => JsonValue::Obj(
            m.iter().map(|(k, x)| (k.clone(), value_from_serde(x))).collect(),
        ),
    }
}

} // verus!
