//! Requests to the Web API as plain values.

use vstd::prelude::*;

use crate::text::{number, decimal, texts};
use crate::transport::Method;

verus! {

/// A JSON value without parts.
#[derive(Debug, PartialEq, Eq)]
pub enum Scalar {
    Text(String),
    Flag(bool),
    Number(u32),
}

/// The JSON values that requests are made of.
#[derive(Debug, PartialEq, Eq)]
pub enum JsonValue {
    Scalar(Scalar),
    /// A list of texts.
    Texts(Vec<String>),
    /// An object with one field.
    Object(String, Scalar),
    /// A list of objects, each with the same one field.
    Objects(String, Vec<String>),
}

#[derive(Debug, PartialEq, Eq)]
pub struct JsonField {
    pub name: String,
    pub value: JsonValue,
}

#[derive(Debug, PartialEq, Eq)]
pub enum Body {
    Empty,
    Json(Vec<JsonField>),
    /// A picture, already encoded as base64.
    Jpeg(String),
}

#[derive(Debug, PartialEq, Eq)]
pub struct QueryPair {
    pub name: String,
    pub value: String,
}

/// A request to the Web API.
#[derive(Debug, PartialEq, Eq)]
pub struct HttpRequest {
    pub method: Method,
    pub path: String,
    pub query: Vec<QueryPair>,
    pub body: Body,
}

pub ghost enum ScalarModel {
    Text(Seq<char>),
    Flag(bool),
    Number(u32),
}

pub ghost enum ValueModel {
    Scalar(ScalarModel),
    Texts(Seq<Seq<char>>),
    Object(Seq<char>, ScalarModel),
    Objects(Seq<char>, Seq<Seq<char>>),
}

pub ghost enum BodyModel {
    Empty,
    Json(Seq<(Seq<char>, ValueModel)>),
    Jpeg(Seq<char>),
}

/// A request as plain sequences.
pub ghost struct RequestModel {
    pub method: Method,
    pub path: Seq<char>,
    pub query: Seq<(Seq<char>, Seq<char>)>,
    pub body: BodyModel,
}

impl Scalar {
    pub open spec fn view(&self) -> ScalarModel {
        match *self {
            Scalar::Text(text) => ScalarModel::Text(text@),
            Scalar::Flag(flag) => ScalarModel::Flag(flag),
            Scalar::Number(value) => ScalarModel::Number(value),
        }
    }
}

impl JsonValue {
    pub open spec fn view(&self) -> ValueModel {
        match *self {
            JsonValue::Scalar(scalar) => ValueModel::Scalar(scalar@),
            JsonValue::Texts(list) => ValueModel::Texts(texts(list@)),
            JsonValue::Object(name, scalar) => ValueModel::Object(name@, scalar@),
            JsonValue::Objects(name, list) => ValueModel::Objects(name@, texts(list@)),
        }
    }
}

/// Fields of a JSON object as plain sequences.
pub open spec fn fields_model(fields: Seq<JsonField>) -> Seq<(Seq<char>, ValueModel)> {
    Seq::new(fields.len(), |i: int| (fields[i].name@, fields[i].value@))
}

/// A query as plain sequences.
pub open spec fn query_model(query: Seq<QueryPair>) -> Seq<(Seq<char>, Seq<char>)> {
    Seq::new(query.len(), |i: int| (query[i].name@, query[i].value@))
}

impl Body {
    pub open spec fn view(&self) -> BodyModel {
        match *self {
            Body::Empty => BodyModel::Empty,
            Body::Json(fields) => BodyModel::Json(fields_model(fields@)),
            Body::Jpeg(encoded) => BodyModel::Jpeg(encoded@),
        }
    }
}

impl HttpRequest {
    pub open spec fn view(&self) -> RequestModel {
        RequestModel {
            method: self.method,
            path: self.path@,
            query: query_model(self.query@),
            body: self.body@,
        }
    }
}

/// A request without query or body.
pub open spec fn bare(method: Method, path: Seq<char>) -> RequestModel {
    RequestModel { method, path, query: Seq::empty(), body: BodyModel::Empty }
}

impl RequestModel {
    /// The request with one more query parameter.
    pub open spec fn with(self, name: Seq<char>, value: Seq<char>) -> RequestModel {
        RequestModel { query: self.query.push((name, value)), ..self }
    }

    /// The request with one more numeric query parameter.
    pub open spec fn with_number(self, name: Seq<char>, value: nat) -> RequestModel {
        self.with(name, decimal(value))
    }

    /// The request for a device, when one is named.
    pub open spec fn on_device(self, device_id: Option<Seq<char>>) -> RequestModel {
        self.with_optional("device_id"@, device_id)
    }

    /// The request with a query parameter that may be missing.
    pub open spec fn with_optional(self, name: Seq<char>, value: Option<Seq<char>>) -> RequestModel {
        match value {
            Some(text) => self.with(name, text),
            None => self,
        }
    }

    /// The request with a JSON body.
    pub open spec fn carrying(self, fields: Seq<(Seq<char>, ValueModel)>) -> RequestModel {
        RequestModel { body: BodyModel::Json(fields), ..self }
    }
}

/// The text of an optional reference.
pub open spec fn opt_text(text: Option<&str>) -> Option<Seq<char>> {
    match text {
        Some(text) => Some(text@),
        None => None,
    }
}

impl HttpRequest {
    pub(crate) fn bare(method: Method, path: String) -> (r: HttpRequest)
        ensures
            r@ == bare(method, path@),
    {
        let r = HttpRequest { method, path, query: Vec::new(), body: Body::Empty };
        assert(r@.query =~= Seq::<(Seq<char>, Seq<char>)>::empty());
        r
    }

    pub(crate) fn to(method: Method, path: &str) -> (r: HttpRequest)
        ensures
            r@ == bare(method, path@),
    {
        HttpRequest::bare(method, path.to_owned())
    }

    pub(crate) fn with(self, name: &str, value: String) -> (r: HttpRequest)
        ensures
            r@ == self@.with(name@, value@),
    {
        let mut query = self.query;
        query.push(QueryPair { name: name.to_owned(), value });
        let r = HttpRequest { method: self.method, path: self.path, query, body: self.body };
        assert(r@.query =~= self@.query.push((name@, value@)));
        r
    }

    pub(crate) fn with_number(self, name: &str, value: u32) -> (r: HttpRequest)
        ensures
            r@ == self@.with_number(name@, value as nat),
    {
        self.with(name, number(value as u64))
    }

    pub(crate) fn with_optional(self, name: &str, value: Option<&str>) -> (r: HttpRequest)
        ensures
            r@ == self@.with_optional(name@, opt_text(value)),
    {
        match value {
            Some(text) => self.with(name, text.to_owned()),
            None => self,
        }
    }

    pub(crate) fn on_device(self, device_id: Option<&str>) -> (r: HttpRequest)
        ensures
            r@ == self@.on_device(opt_text(device_id)),
    {
        self.with_optional("device_id", device_id)
    }

    pub(crate) fn carrying(self, fields: Vec<JsonField>) -> (r: HttpRequest)
        ensures
            r@ == self@.carrying(fields_model(fields@)),
    {
        HttpRequest {
            method: self.method,
            path: self.path,
            query: self.query,
            body: Body::Json(fields),
        }
    }
}

/// A field whose value is one scalar.
pub open spec fn text_field(name: Seq<char>, value: Seq<char>) -> (Seq<char>, ValueModel) {
    (name, ValueModel::Scalar(ScalarModel::Text(value)))
}

pub open spec fn flag_field(name: Seq<char>, value: bool) -> (Seq<char>, ValueModel) {
    (name, ValueModel::Scalar(ScalarModel::Flag(value)))
}

pub open spec fn number_field(name: Seq<char>, value: u32) -> (Seq<char>, ValueModel) {
    (name, ValueModel::Scalar(ScalarModel::Number(value)))
}

pub(crate) fn push_field(fields: &mut Vec<JsonField>, name: &str, value: JsonValue)
    ensures
        fields_model(final(fields)@) == fields_model(old(fields)@).push((name@, value@)),
{
    let ghost before = fields@;
    fields.push(JsonField { name: name.to_owned(), value });
    assert(fields_model(fields@) =~= fields_model(before).push((name@, value@)));
}

pub(crate) fn push_text(fields: &mut Vec<JsonField>, name: &str, value: &str)
    ensures
        fields_model(final(fields)@) == fields_model(old(fields)@).push(text_field(name@, value@)),
{
    push_field(fields, name, JsonValue::Scalar(Scalar::Text(value.to_owned())));
}

pub(crate) fn push_flag(fields: &mut Vec<JsonField>, name: &str, value: bool)
    ensures
        fields_model(final(fields)@) == fields_model(old(fields)@).push(flag_field(name@, value)),
{
    push_field(fields, name, JsonValue::Scalar(Scalar::Flag(value)));
}

pub(crate) fn push_number(fields: &mut Vec<JsonField>, name: &str, value: u32)
    ensures
        fields_model(final(fields)@) == fields_model(old(fields)@).push(number_field(name@, value)),
{
    push_field(fields, name, JsonValue::Scalar(Scalar::Number(value)));
}

pub(crate) fn no_fields() -> (fields: Vec<JsonField>)
    ensures
        fields_model(fields@) == Seq::<(Seq<char>, ValueModel)>::empty(),
{
    let fields: Vec<JsonField> = Vec::new();
    assert(fields_model(fields@) =~= Seq::<(Seq<char>, ValueModel)>::empty());
    fields
}

/// A copy of a list of texts.
pub fn clone_texts(list: &Vec<String>) -> (r: Vec<String>)
    ensures
        r@ == list@,
{
    let mut copy: Vec<String> = Vec::new();
    let mut i: usize = 0;
    while i < list.len()
        invariant
            i <= list@.len(),
            copy@ == list@.take(i as int),
        decreases list.len() - i,
    {
        copy.push(list[i].clone());
        assert(list@.take(i + 1) =~= list@.take(i as int).push(list@[i as int]));
        i += 1;
    }
    assert(list@.take(i as int) =~= list@);
    copy
}

// ---- what to play --------------------------------------------------------------

/// What to start playing.
#[derive(Clone, Debug, PartialEq, Eq)]
pub struct PlayRequest {
    pub context_uri: Option<String>,
    pub uris: Vec<String>,
    pub offset_uri: Option<String>,
    pub offset_position: Option<u32>,
    pub position_ms: u32,
}

impl Default for PlayRequest {
    fn default() -> (r: Self)
        ensures
            r.context_uri is None,
            r.uris@.len() == 0,
            r.offset_uri is None,
            r.offset_position is None,
            r.position_ms == 0,
    {
        PlayRequest {
            context_uri: None,
            uris: Vec::new(),
            offset_uri: None,
            offset_position: None,
            position_ms: 0,
        }
    }
}

impl PlayRequest {
    /// Plays an album, a playlist, an artist, or a show.
    pub fn context(uri: &str) -> (r: Self)
        ensures
            r.context_uri is Some,
            r.context_uri->0@ == uri@,
            r.uris@.len() == 0,
            r.offset_uri is None,
            r.offset_position is None,
            r.position_ms == 0,
    {
        PlayRequest { context_uri: Some(uri.to_owned()), ..PlayRequest::default() }
    }

    /// Plays songs in a row.
    pub fn tracks(uris: Vec<String>) -> (r: Self)
        ensures
            r.context_uri is None,
            r.uris == uris,
            r.offset_uri is None,
            r.offset_position is None,
            r.position_ms == 0,
    {
        PlayRequest { uris, ..PlayRequest::default() }
    }

    /// Starts at a song.
    pub fn starting_at_uri(self, uri: &str) -> (r: Self)
        ensures
            r.offset_uri is Some,
            r.offset_uri->0@ == uri@,
            r == (PlayRequest { offset_uri: r.offset_uri, ..self }),
    {
        PlayRequest { offset_uri: Some(uri.to_owned()), ..self }
    }

    /// Starts at a position.
    pub fn starting_at_index(self, index: u32) -> (r: Self)
        ensures
            r == (PlayRequest { offset_position: Some(index), ..self }),
    {
        PlayRequest { offset_position: Some(index), ..self }
    }

    /// What is played: a context, else the songs, if any.
    pub open spec fn subject_fields(self) -> Seq<(Seq<char>, ValueModel)> {
        match self.context_uri {
            Some(uri) => seq![text_field("context_uri"@, uri@)],
            None => if self.uris@.len() > 0 {
                seq![("uris"@, ValueModel::Texts(texts(self.uris@)))]
            } else {
                Seq::empty()
            },
        }
    }

    /// Where it starts: at a song, else at a position, if any.
    pub open spec fn offset_fields(self) -> Seq<(Seq<char>, ValueModel)> {
        match self.offset_uri {
            Some(uri) => seq![("offset"@, ValueModel::Object("uri"@, ScalarModel::Text(uri@)))],
            None => match self.offset_position {
                Some(position) => seq![
                    ("offset"@, ValueModel::Object("position"@, ScalarModel::Number(position))),
                ],
                None => Seq::empty(),
            },
        }
    }

    /// How far into the song, when not at its beginning.
    pub open spec fn position_fields(self) -> Seq<(Seq<char>, ValueModel)> {
        if self.position_ms > 0 {
            seq![number_field("position_ms"@, self.position_ms)]
        } else {
            Seq::empty()
        }
    }

    pub open spec fn body_spec(self) -> Seq<(Seq<char>, ValueModel)> {
        self.subject_fields() + self.offset_fields() + self.position_fields()
    }

    /// The request's JSON.
    pub fn body(&self) -> (fields: Vec<JsonField>)
        ensures
            fields_model(fields@) == self.body_spec(),
    {
        let mut fields = no_fields();
        match &self.context_uri {
            Some(uri) => {
                push_text(&mut fields, "context_uri", uri.as_str());
            },
            None => {
                if self.uris.len() > 0 {
                    push_field(&mut fields, "uris", JsonValue::Texts(clone_texts(&self.uris)));
                }
            },
        }
        assert(fields_model(fields@) =~= self.subject_fields());
        match &self.offset_uri {
            Some(uri) => {
                push_field(
                    &mut fields,
                    "offset",
                    JsonValue::Object("uri".to_owned(), Scalar::Text(uri.clone())),
                );
            },
            None => match self.offset_position {
                Some(position) => {
                    push_field(
                        &mut fields,
                        "offset",
                        JsonValue::Object("position".to_owned(), Scalar::Number(position)),
                    );
                },
                None => {},
            },
        }
        assert(fields_model(fields@) =~= self.subject_fields() + self.offset_fields());
        if self.position_ms > 0 {
            push_number(&mut fields, "position_ms", self.position_ms);
        }
        assert(fields_model(fields@) =~= self.body_spec());
        fields
    }
}

} // verus!
