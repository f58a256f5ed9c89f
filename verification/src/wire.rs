//! The wire codec: envelopes to and from JSON text.
//!
//! An envelope travels as a JSON object with a `messageType` member and one
//! payload member, `data` or `dataArray`:
//!
//! ```text
//! { "messageType": "register", "data": "<username>" }
//! { "messageType": "users",    "dataArray": ["<name1>", "<name2>"] }
//! { "messageType": "message",  "data": "{\"from\":\"<name>\",\"message\":\"<text>\"}" }
//! ```

use crate::json::{
    distinct_keys, doc_of, docs_of, get_member, list_value, member, members_of, object_value,
    parse_value, parsed, print_value, printed, text_value, JsonDoc,
};
use vstd::prelude::*;

verus! {

/// The kind of an envelope.
#[derive(Debug, Clone, Copy, PartialEq, Eq, Structural)]
pub enum MsgTypes {
    Users,
    Register,
    Message,
}

/// Why a frame was not decoded.
#[derive(Debug, Clone, Copy, PartialEq, Eq, Structural)]
pub enum DecodeError {
    /// The parser refuses the text: it is not JSON, or it nests deeper
    /// than the parser follows.
    Syntax,
    /// The text is JSON but not an envelope: it is no object, its
    /// `messageType` is missing or unknown, or the payload member of its
    /// kind has the wrong type.
    Shape,
    /// A message envelope whose `data` is absent or does not hold a
    /// `{from, message}` pair.
    Payload,
}

/// One entry of the message feed: what a message envelope's `data` holds.
#[derive(Debug, Clone, PartialEq, Eq)]
pub struct ChatMessage {
    pub from: String,
    pub message: String,
}

/// A [`ChatMessage`] as a mathematical value.
pub struct ChatMessageView {
    pub from: Seq<char>,
    pub message: Seq<char>,
}

impl View for ChatMessage {
    type V = ChatMessageView;

    open spec fn view(&self) -> ChatMessageView {
        ChatMessageView { from: self.from@, message: self.message@ }
    }
}

/// The unit that travels in both directions, one variant for each kind,
/// each with the payload of its kind alone.
#[derive(Debug, Clone, PartialEq, Eq)]
pub enum Envelope {
    /// The server's roster: the names of the connected users.
    Users { names: Vec<String> },
    /// The client's announcement of its user.
    Register { username: String },
    /// A chat message. Outbound, `data` is the text the user typed; inbound,
    /// it is the JSON text of a `{from, message}` pair.
    Message { data: String },
}

/// An [`Envelope`] as a mathematical value.
pub enum EnvelopeView {
    Users { names: Seq<Seq<char>> },
    Register { username: Seq<char> },
    Message { data: Seq<char> },
}

impl View for Envelope {
    type V = EnvelopeView;

    open spec fn view(&self) -> EnvelopeView {
        match self {
            Envelope::Users { names } => EnvelopeView::Users { names: names.deep_view() },
            Envelope::Register { username } => EnvelopeView::Register { username: username@ },
            Envelope::Message { data } => EnvelopeView::Message { data: data@ },
        }
    }
}

impl Envelope {
    /// The kind of the envelope.
    pub fn message_type(&self) -> (kind: MsgTypes)
        ensures
            kind == self@.kind(),
    {
        match self {
            Envelope::Users { .. } => MsgTypes::Users,
            Envelope::Register { .. } => MsgTypes::Register,
            Envelope::Message { .. } => MsgTypes::Message,
        }
    }
}

impl EnvelopeView {
    /// The kind of the envelope.
    pub open spec fn kind(self) -> MsgTypes {
        match self {
            EnvelopeView::Users { .. } => MsgTypes::Users,
            EnvelopeView::Register { .. } => MsgTypes::Register,
            EnvelopeView::Message { .. } => MsgTypes::Message,
        }
    }

    /// The envelope is one that [`decode`] can return: a message envelope
    /// passes only with a `data` that holds a `{from, message}` pair.
    pub open spec fn decodable(self) -> bool {
        self matches EnvelopeView::Message { data } ==> payload_of(data) is Ok
    }
}

impl MsgTypes {
    /// The value of `messageType` that stands for the kind.
    pub open spec fn tag_of(self) -> Seq<char> {
        match self {
            MsgTypes::Users => "users"@,
            MsgTypes::Register => "register"@,
            MsgTypes::Message => "message"@,
        }
    }

    /// The kind that a value of `messageType` stands for.
    pub open spec fn kind_of(tag: Seq<char>) -> Option<MsgTypes> {
        if tag == "users"@ {
            Some(MsgTypes::Users)
        } else if tag == "register"@ {
            Some(MsgTypes::Register)
        } else if tag == "message"@ {
            Some(MsgTypes::Message)
        } else {
            None
        }
    }

    /// The value of `messageType` that stands for the kind.
    pub fn tag(&self) -> (tag: &'static str)
        ensures
            tag@ == self.tag_of(),
    {
        match self {
            MsgTypes::Users => "users",
            MsgTypes::Register => "register",
            MsgTypes::Message => "message",
        }
    }

    /// The kind that a value of `messageType` stands for, `None` for any
    /// other text.
    pub fn from_tag(tag: &str) -> (kind: Option<MsgTypes>)
        ensures
            kind == MsgTypes::kind_of(tag@),
    {
        if same_text(tag, "users") {
            Some(MsgTypes::Users)
        } else if same_text(tag, "register") {
            Some(MsgTypes::Register)
        } else if same_text(tag, "message") {
            Some(MsgTypes::Message)
        } else {
            None
        }
    }
}

/// Whether two texts hold the same characters.
pub(crate) fn same_text(a: &str, b: &str) -> (same: bool)
    ensures
        same == (a@ == b@),
{
    let left = a.to_owned();
    let right = b.to_owned();
    left == right
}

/// What an optional string member holds: nothing where it is absent or
/// `null`, its text where it is a string; any other value is refused.
pub open spec fn optional_text(found: Option<JsonDoc>) -> Result<Option<Seq<char>>, DecodeError> {
    match found {
        None => Ok(None),
        Some(JsonDoc::Null) => Ok(None),
        Some(JsonDoc::Text(text)) => Ok(Some(text)),
        Some(_) => Err(DecodeError::Shape),
    }
}

/// Every item is a string.
pub open spec fn all_text(items: Seq<JsonDoc>) -> bool {
    forall|i: int| 0 <= i < items.len() ==> (#[trigger] items[i]) is Text
}

/// The texts of items that are strings.
pub open spec fn texts_of(items: Seq<JsonDoc>) -> Seq<Seq<char>> {
    Seq::new(items.len(), |i: int| items[i]->Text_0)
}

/// What an optional member that lists strings holds: nothing where it is
/// absent or `null`, its texts where it is an array of strings; any other
/// value is refused.
pub open spec fn optional_texts(found: Option<JsonDoc>) -> Result<
    Option<Seq<Seq<char>>>,
    DecodeError,
> {
    match found {
        None => Ok(None),
        Some(JsonDoc::Null) => Ok(None),
        Some(JsonDoc::List(items)) => if all_text(items) {
            Ok(Some(texts_of(items)))
        } else {
            Err(DecodeError::Shape)
        },
        Some(_) => Err(DecodeError::Shape),
    }
}

/// The `{from, message}` pair that a document holds: an object with both
/// members, each a string.
pub open spec fn payload_in(doc: JsonDoc) -> Result<ChatMessageView, DecodeError> {
    match (doc.field("from"@), doc.field("message"@)) {
        (Some(JsonDoc::Text(from)), Some(JsonDoc::Text(message))) => Ok(
            ChatMessageView { from, message },
        ),
        _ => Err(DecodeError::Payload),
    }
}

/// The `{from, message}` pair that the `data` of a message envelope holds.
pub open spec fn payload_of(data: Seq<char>) -> Result<ChatMessageView, DecodeError> {
    match parsed(data) {
        Some(doc) => payload_in(doc),
        None => Err(DecodeError::Payload),
    }
}

/// The envelope that a document holds.
///
/// The document is an object whose `messageType` names a kind. The payload
/// member of that kind is optional: a roster without `dataArray` is empty, a
/// registration without `data` names the empty user. A message is held to
/// more: its `data` is there and holds a `{from, message}` pair. The member
/// that the kind does not use is not looked at.
pub open spec fn envelope_in(doc: JsonDoc) -> Result<EnvelopeView, DecodeError> {
    match doc.field("messageType"@) {
        Some(JsonDoc::Text(tag)) => match MsgTypes::kind_of(tag) {
            Some(MsgTypes::Users) => match optional_texts(doc.field("dataArray"@)) {
                Ok(Some(names)) => Ok(EnvelopeView::Users { names }),
                Ok(None) => Ok(EnvelopeView::Users { names: Seq::empty() }),
                Err(error) => Err(error),
            },
            Some(MsgTypes::Register) => match optional_text(doc.field("data"@)) {
                Ok(Some(username)) => Ok(EnvelopeView::Register { username }),
                Ok(None) => Ok(EnvelopeView::Register { username: Seq::empty() }),
                Err(error) => Err(error),
            },
            Some(MsgTypes::Message) => match optional_text(doc.field("data"@)) {
                Ok(Some(data)) => if payload_of(data) is Ok {
                    Ok(EnvelopeView::Message { data })
                } else {
                    Err(DecodeError::Payload)
                },
                Ok(None) => Err(DecodeError::Payload),
                Err(error) => Err(error),
            },
            None => Err(DecodeError::Shape),
        },
        _ => Err(DecodeError::Shape),
    }
}

/// The envelope that a frame holds.
pub open spec fn decoded(text: Seq<char>) -> Result<EnvelopeView, DecodeError> {
    match parsed(text) {
        Some(doc) => envelope_in(doc),
        None => Err(DecodeError::Syntax),
    }
}

/// Reads an optional string member.
fn read_optional_text(found: Option<&serde_json::Value>) -> (r: Result<Option<String>, DecodeError>)
    ensures
        match r {
            Ok(Some(text)) => optional_text(found_doc(found)) == Ok::<
                Option<Seq<char>>,
                DecodeError,
            >(Some(text@)),
            Ok(None) => optional_text(found_doc(found)) == Ok::<Option<Seq<char>>, DecodeError>(
                None,
            ),
            Err(error) => optional_text(found_doc(found)) == Err::<
                Option<Seq<char>>,
                DecodeError,
            >(error),
        },
{
    match found {
        None => Ok(None),
        Some(value) => {
            if value.is_null() {
                Ok(None)
            } else {
                match value.as_str() {
                    Some(text) => Ok(Some(text.to_owned())),
                    None => Err(DecodeError::Shape),
                }
            }
        },
    }
}

/// The document of a member that was looked up.
pub open spec fn found_doc(found: Option<&serde_json::Value>) -> Option<JsonDoc> {
    match found {
        Some(value) => Some(doc_of(*value)),
        None => None,
    }
}

/// Reads an optional member that lists strings.
fn read_optional_texts(found: Option<&serde_json::Value>) -> (r: Result<
    Option<Vec<String>>,
    DecodeError,
>)
    ensures
        match r {
            Ok(Some(texts)) => optional_texts(found_doc(found)) == Ok::<
                Option<Seq<Seq<char>>>,
                DecodeError,
            >(Some(texts.deep_view())),
            Ok(None) => optional_texts(found_doc(found)) == Ok::<
                Option<Seq<Seq<char>>>,
                DecodeError,
            >(None),
            Err(error) => optional_texts(found_doc(found)) == Err::<
                Option<Seq<Seq<char>>>,
                DecodeError,
            >(error),
        },
{
    match found {
        None => Ok(None),
        Some(value) => {
            if value.is_null() {
                return Ok(None);
            }
            match value.as_array() {
                None => Err(DecodeError::Shape),
                Some(items) => {
                    let ghost docs = docs_of(items@);
                    let mut texts: Vec<String> = Vec::new();
                    let mut i: usize = 0;
                    while i < items.len()
                        invariant
                            i <= items.len(),
                            docs == docs_of(items@),
                            found_doc(found) == Some(JsonDoc::List(docs)),
                            texts.len() == i,
                            forall|k: int| 0 <= k < i ==> (#[trigger] docs[k]) is Text,
                            forall|k: int|
                                0 <= k < i ==> (#[trigger] texts[k])@ == docs[k]->Text_0,
                        decreases items.len() - i,
                    {
                        match items[i].as_str() {
                            Some(text) => {
                                texts.push(text.to_owned());
                            },
                            None => {
                                assert(!(docs[i as int] is Text));
                                return Err(DecodeError::Shape);
                            },
                        }
                        i += 1;
                    }
                    assert(all_text(docs));
                    assert(texts.deep_view() =~= texts_of(docs));
                    Ok(Some(texts))
                },
            }
        },
    }
}

/// The `{from, message}` pair that a JSON value holds; it is refused with
/// [`DecodeError::Payload`] where the value is no object with both members,
/// each a string.
pub fn payload_from_value(value: &serde_json::Value) -> (r: Result<ChatMessage, DecodeError>)
    ensures
        match r {
            Ok(message) => payload_in(doc_of(*value)) == Ok::<ChatMessageView, DecodeError>(
                message@,
            ),
            Err(error) => payload_in(doc_of(*value)) == Err::<ChatMessageView, DecodeError>(error),
        },
{
    let from = match get_member(value, "from") {
        Some(found) => found.as_str(),
        None => None,
    };
    let message = match get_member(value, "message") {
        Some(found) => found.as_str(),
        None => None,
    };
    match (from, message) {
        (Some(from), Some(message)) => Ok(
            ChatMessage { from: from.to_owned(), message: message.to_owned() },
        ),
        _ => Err(DecodeError::Payload),
    }
}

/// Decodes the `data` of a message envelope into its `{from, message}` pair.
/// Any failure, in the JSON or in what it holds, is
/// [`DecodeError::Payload`].
pub fn decode_payload(data: &str) -> (r: Result<ChatMessage, DecodeError>)
    ensures
        match r {
            Ok(message) => payload_of(data@) == Ok::<ChatMessageView, DecodeError>(message@),
            Err(error) => payload_of(data@) == Err::<ChatMessageView, DecodeError>(error),
        },
{
    match parse_value(data) {
        Ok(value) => payload_from_value(&value),
        Err(_) => Err(DecodeError::Payload),
    }
}

/// The envelope that a JSON value holds, as [`envelope_in`] defines it.
pub fn envelope_from_value(value: &serde_json::Value) -> (r: Result<Envelope, DecodeError>)
    ensures
        match r {
            Ok(envelope) => envelope_in(doc_of(*value)) == Ok::<EnvelopeView, DecodeError>(
                envelope@,
            ),
            Err(error) => envelope_in(doc_of(*value)) == Err::<EnvelopeView, DecodeError>(error),
        },
{
    let tag = match get_member(value, "messageType") {
        Some(found) => found.as_str(),
        None => None,
    };
    let kind = match tag {
        Some(tag) => MsgTypes::from_tag(tag),
        None => None,
    };
    match kind {
        None => Err(DecodeError::Shape),
        Some(MsgTypes::Users) => {
            match read_optional_texts(get_member(value, "dataArray")) {
                Ok(Some(names)) => Ok(Envelope::Users { names }),
                Ok(None) => {
                    let names: Vec<String> = Vec::new();
                    assert(names.deep_view() =~= Seq::<Seq<char>>::empty());
                    Ok(Envelope::Users { names })
                },
                Err(error) => Err(error),
            }
        },
        Some(MsgTypes::Register) => {
            match read_optional_text(get_member(value, "data")) {
                Ok(Some(username)) => Ok(Envelope::Register { username }),
                Ok(None) => Ok(Envelope::Register { username: String::new() }),
                Err(error) => Err(error),
            }
        },
        Some(MsgTypes::Message) => {
            match read_optional_text(get_member(value, "data")) {
                Ok(Some(data)) => match decode_payload(data.as_str()) {
                    Ok(_) => Ok(Envelope::Message { data }),
                    Err(_) => Err(DecodeError::Payload),
                },
                Ok(None) => Err(DecodeError::Payload),
                Err(error) => Err(error),
            }
        },
    }
}

/// Decodes a frame.
///
/// The result is [`decoded`] of the text: [`DecodeError::Syntax`] exactly
/// where the text is not JSON, and otherwise what [`envelope_in`] reads in
/// the document.
pub fn decode(text: &str) -> (r: Result<Envelope, DecodeError>)
    ensures
        match r {
            Ok(envelope) => decoded(text@) == Ok::<EnvelopeView, DecodeError>(envelope@),
            Err(error) => decoded(text@) == Err::<EnvelopeView, DecodeError>(error),
        },
{
    match parse_value(text) {
        Ok(value) => envelope_from_value(&value),
        Err(_) => Err(DecodeError::Syntax),
    }
}

/// The string documents of the given texts.
pub open spec fn text_docs(texts: Seq<Seq<char>>) -> Seq<JsonDoc> {
    Seq::new(texts.len(), |i: int| JsonDoc::Text(texts[i]))
}

/// The document that stands for an envelope: `messageType` first, then the
/// payload member of the kind.
pub open spec fn envelope_doc(envelope: EnvelopeView) -> JsonDoc {
    match envelope {
        EnvelopeView::Users { names } => JsonDoc::Object(
            seq![
                ("messageType"@, JsonDoc::Text("users"@)),
                ("dataArray"@, JsonDoc::List(text_docs(names))),
            ],
        ),
        EnvelopeView::Register { username } => JsonDoc::Object(
            seq![
                ("messageType"@, JsonDoc::Text("register"@)),
                ("data"@, JsonDoc::Text(username)),
            ],
        ),
        EnvelopeView::Message { data } => JsonDoc::Object(
            seq![("messageType"@, JsonDoc::Text("message"@)), ("data"@, JsonDoc::Text(data))],
        ),
    }
}

/// The three member names differ from one another.
proof fn lemma_member_names_differ()
    ensures
        "messageType"@ != "data"@,
        "messageType"@ != "dataArray"@,
        "data"@ != "dataArray"@,
{
    reveal_strlit("messageType");
    reveal_strlit("data");
    reveal_strlit("dataArray");
    assert("messageType"@.len() == 11);
    assert("data"@.len() == 4);
    assert("dataArray"@.len() == 9);
}

/// The three tags differ from one another, so each names its own kind.
proof fn lemma_tags_name_kinds(kind: MsgTypes)
    ensures
        MsgTypes::kind_of(kind.tag_of()) == Some(kind),
{
    reveal_strlit("users");
    reveal_strlit("register");
    reveal_strlit("message");
    assert("users"@.len() == 5);
    assert("register"@.len() == 8);
    assert("message"@.len() == 7);
}

/// The document of an envelope can be printed and read back: it holds no
/// number, repeats no key and nests two deep.
proof fn lemma_envelope_doc_plain(envelope: EnvelopeView)
    ensures
        envelope_doc(envelope).plain(100),
{
    reveal_with_fuel(JsonDoc::plain, 3);
    lemma_member_names_differ();
    let doc = envelope_doc(envelope);
    let members = doc->Object_0;
    assert(members.len() == 2);
    assert(distinct_keys(members));
    assert forall|i: int| 0 <= i < members.len() implies (#[trigger] members[i]).1.plain(
        99,
    ) by {
        if i == 1 {
            if let EnvelopeView::Users { names } = envelope {
                let items = text_docs(names);
                assert(members[1].1 == JsonDoc::List(items));
                assert forall|k: int| 0 <= k < items.len() implies (#[trigger] items[k]).plain(
                    98,
                ) by {}
            }
        }
    }
}

/// The payload member of an envelope's document is the second of two.
proof fn lemma_envelope_doc_fields(envelope: EnvelopeView)
    ensures
        envelope_doc(envelope).field("messageType"@) == Some(
            JsonDoc::Text(envelope.kind().tag_of()),
        ),
        envelope matches EnvelopeView::Users { names } ==> envelope_doc(envelope).field(
            "dataArray"@,
        ) == Some(JsonDoc::List(text_docs(names))),
        envelope matches EnvelopeView::Register { username } ==> envelope_doc(envelope).field(
            "data"@,
        ) == Some(JsonDoc::Text(username)),
        envelope matches EnvelopeView::Message { data } ==> envelope_doc(envelope).field("data"@)
            == Some(JsonDoc::Text(data)),
{
    reveal_with_fuel(member, 3);
    lemma_member_names_differ();
    let members = envelope_doc(envelope)->Object_0;
    assert(members.drop_first().len() == 1);
    assert(members.drop_first()[0] == members[1]);
}

/// Decoding undoes encoding, document for document: an envelope that
/// [`decode`] can return is what [`envelope_in`] reads in its own document.
pub proof fn law_envelope_round_trip(envelope: EnvelopeView)
    requires
        envelope.decodable(),
    ensures
        envelope_in(envelope_doc(envelope)) == Ok::<EnvelopeView, DecodeError>(envelope),
{
    lemma_envelope_doc_fields(envelope);
    lemma_tags_name_kinds(envelope.kind());
    if let EnvelopeView::Users { names } = envelope {
        assert(all_text(text_docs(names)));
        assert(texts_of(text_docs(names)) =~= names);
    }
}

/// A message envelope whose `data` holds no `{from, message}` pair is the
/// one kind of envelope that does not come back: its document is refused
/// with [`DecodeError::Payload`].
pub proof fn law_raw_message_is_refused(envelope: EnvelopeView)
    requires
        !envelope.decodable(),
    ensures
        envelope_in(envelope_doc(envelope)) == Err::<EnvelopeView, DecodeError>(
            DecodeError::Payload,
        ),
{
    lemma_envelope_doc_fields(envelope);
    lemma_tags_name_kinds(envelope.kind());
}

/// A roster envelope without `dataArray`, or with `null` in its place, is
/// the empty roster.
pub proof fn law_roster_without_names_is_empty(doc: JsonDoc)
    requires
        doc.field("messageType"@) == Some(JsonDoc::Text("users"@)),
        doc.field("dataArray"@) is None || doc.field("dataArray"@) == Some(JsonDoc::Null),
    ensures
        envelope_in(doc) == Ok::<EnvelopeView, DecodeError>(
            EnvelopeView::Users { names: Seq::empty() },
        ),
{
}

/// Whatever [`decode`] returns is an envelope that passes
/// [`EnvelopeView::decodable`]: a message among them holds a
/// `{from, message}` pair.
pub proof fn law_decoded_envelopes_are_decodable(text: Seq<char>)
    ensures
        decoded(text) is Ok ==> decoded(text)->Ok_0.decodable(),
{
}

/// The JSON value that stands for an envelope.
pub fn envelope_value(envelope: &Envelope) -> (value: serde_json::Value)
    ensures
        doc_of(value) == envelope_doc(envelope@),
{
    let kind = envelope.message_type();
    let payload = match envelope {
        Envelope::Users { names } => {
            let mut items: Vec<serde_json::Value> = Vec::new();
            let mut i: usize = 0;
            while i < names.len()
                invariant
                    i <= names.len(),
                    items.len() == i,
                    forall|k: int|
                        0 <= k < i ==> doc_of(#[trigger] items[k]) == JsonDoc::Text(names[k]@),
                decreases names.len() - i,
            {
                items.push(text_value(names[i].as_str()));
                i += 1;
            }
            assert(docs_of(items@) =~= text_docs(names.deep_view()));
            ("dataArray".to_owned(), list_value(items))
        },
        Envelope::Register { username } => ("data".to_owned(), text_value(username.as_str())),
        Envelope::Message { data } => ("data".to_owned(), text_value(data.as_str())),
    };
    let mut members: Vec<(String, serde_json::Value)> = Vec::new();
    members.push(("messageType".to_owned(), text_value(kind.tag())));
    members.push(payload);
    proof {
        lemma_member_names_differ();
        assert(members_of(members@) =~= envelope_doc(envelope@)->Object_0);
    }
    object_value(members)
}

/// Encodes an envelope as one frame. Every envelope has a frame.
///
/// The frame is the compact JSON text of [`envelope_doc`], and it reads
/// back as that document. So [`decode`] returns the envelope for its frame,
/// unless it is a message whose `data` holds no `{from, message}` pair,
/// which [`decode`] refuses.
pub fn encode(envelope: &Envelope) -> (text: String)
    ensures
        text@ == printed(envelope_doc(envelope@)),
        parsed(text@) == Some(envelope_doc(envelope@)),
        envelope@.decodable() ==> decoded(text@) == Ok::<EnvelopeView, DecodeError>(envelope@),
        !envelope@.decodable() ==> decoded(text@) == Err::<EnvelopeView, DecodeError>(
            DecodeError::Payload,
        ),
{
    let value = envelope_value(envelope);
    proof {
        lemma_envelope_doc_plain(envelope@);
        if envelope@.decodable() {
            law_envelope_round_trip(envelope@);
        } else {
            law_raw_message_is_refused(envelope@);
        }
    }
    print_value(&value)
}

} // verus!
