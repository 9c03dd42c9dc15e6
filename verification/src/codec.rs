//! The wire form of an envelope: one JSON object per frame, with the members
//! `room`, `username`, `timestamp` and `data`.

use vstd::prelude::*;
use crate::envelope::{Msg, MsgData, MsgDataView, MsgView};
use crate::json::{json_of_value, json_parse, json_text, lemma_object_keys, object_view, parse_value, render_value, value_of_json, Json, JsonView};

verus! {

/// A member of the wire object.
#[derive(Debug, Clone, Copy, PartialEq, Eq, Structural)]
pub enum Field {
    Room,
    Username,
    Timestamp,
    Data,
}

/// Why a frame is not an envelope.
#[derive(Debug, Clone, Copy, PartialEq, Eq, Structural)]
pub enum DecodeError {
    /// The frame is not JSON text.
    Syntax,
    /// The frame is JSON, but not an object.
    NotAnObject,
    /// The object lacks this member.
    Missing(Field),
    /// The member is there, but its value has the wrong shape.
    Invalid(Field),
}

/// Why an envelope could not be written out.
#[derive(Debug, Clone, Copy, PartialEq, Eq, Structural)]
pub enum EncodeError {
    /// The serialiser refused the document.
    Refused,
}

/// The text under `key`, or why there is none.
pub open spec fn text_member(members: Map<Seq<char>, JsonView>, key: Seq<char>, field: Field) -> Result<Seq<char>, DecodeError> {
    if !members.dom().contains(key) {
        Err(DecodeError::Missing(field))
    } else {
        match members[key] {
            JsonView::Text(text) => Ok(text),
            _ => Err(DecodeError::Invalid(field)),
        }
    }
}

/// The whole number under `key`, or why there is none.
pub open spec fn number_member(members: Map<Seq<char>, JsonView>, key: Seq<char>, field: Field) -> Result<u64, DecodeError> {
    if !members.dom().contains(key) {
        Err(DecodeError::Missing(field))
    } else {
        match members[key] {
            JsonView::Number(Some(n)) => Ok(n),
            _ => Err(DecodeError::Invalid(field)),
        }
    }
}

/// The payload that a `data` member spells: the text `join`, the text `leave`,
/// or an object whose only member is `message`, with a text. Every other shape
/// spells none.
pub open spec fn payload_of(data: JsonView) -> Option<MsgDataView> {
    match data {
        JsonView::Text(tag) => if tag == "join"@ {
            Some(MsgDataView::Join)
        } else if tag == "leave"@ {
            Some(MsgDataView::Leave)
        } else {
            None
        },
        JsonView::Object(members) => if members.dom() =~= set!["message"@] {
            match members["message"@] {
                JsonView::Text(text) => Some(MsgDataView::Message(text)),
                _ => None,
            }
        } else {
            None
        },
        _ => None,
    }
}

/// The payload under `key`, or why there is none.
pub open spec fn payload_member(members: Map<Seq<char>, JsonView>, key: Seq<char>, field: Field) -> Result<MsgDataView, DecodeError> {
    if !members.dom().contains(key) {
        Err(DecodeError::Missing(field))
    } else {
        match payload_of(members[key]) {
            Some(data) => Ok(data),
            None => Err(DecodeError::Invalid(field)),
        }
    }
}

/// The envelope that a document spells, or the first thing that is wrong with
/// it, the members taken in the order `room`, `username`, `timestamp`, `data`.
/// Members with other keys are passed over.
pub open spec fn envelope_of(doc: JsonView) -> Result<MsgView, DecodeError> {
    match doc {
        JsonView::Object(members) => {
            let room = text_member(members, "room"@, Field::Room);
            let username = text_member(members, "username"@, Field::Username);
            let timestamp = number_member(members, "timestamp"@, Field::Timestamp);
            let data = payload_member(members, "data"@, Field::Data);
            if room is Err {
                Err(room->Err_0)
            } else if username is Err {
                Err(username->Err_0)
            } else if timestamp is Err {
                Err(timestamp->Err_0)
            } else if data is Err {
                Err(data->Err_0)
            } else {
                Ok(
                    MsgView {
                        room: room->Ok_0,
                        username: username->Ok_0,
                        timestamp: timestamp->Ok_0,
                        data: data->Ok_0,
                    },
                )
            }
        },
        _ => Err(DecodeError::NotAnObject),
    }
}

/// The envelope that a frame spells, given what the JSON parser made of it.
pub open spec fn envelope_of_parsed(parsed: Option<JsonView>) -> Result<MsgView, DecodeError> {
    match parsed {
        Some(doc) => envelope_of(doc),
        None => Err(DecodeError::Syntax),
    }
}

/// The document that spells a payload.
pub open spec fn payload_document(data: MsgDataView) -> JsonView {
    match data {
        MsgDataView::Join => JsonView::Text("join"@),
        MsgDataView::Leave => JsonView::Text("leave"@),
        MsgDataView::Message(text) => JsonView::Object(map!["message"@ => JsonView::Text(text)]),
    }
}

/// The document that spells an envelope.
pub open spec fn document_of(msg: MsgView) -> JsonView {
    JsonView::Object(
        map![
            "room"@ => JsonView::Text(msg.room),
            "username"@ => JsonView::Text(msg.username),
            "timestamp"@ => JsonView::Number(Some(msg.timestamp)),
            "data"@ => payload_document(msg.data)
        ],
    )
}

/// A decoder's answer says what the specification says: the same envelope, or
/// the same error.
pub open spec fn agrees(decoded: Result<Msg, DecodeError>, expected: Result<MsgView, DecodeError>) -> bool {
    match decoded {
        Ok(msg) => expected == Ok::<MsgView, DecodeError>(msg@),
        Err(error) => expected == Err::<MsgView, DecodeError>(error),
    }
}

/// The words of the wire form differ from one another.
pub proof fn lemma_words_differ()
    ensures
        "room"@ != "username"@,
        "room"@ != "timestamp"@,
        "room"@ != "data"@,
        "username"@ != "timestamp"@,
        "username"@ != "data"@,
        "timestamp"@ != "data"@,
        "join"@ != "leave"@,
{
    reveal_strlit("room");
    reveal_strlit("username");
    reveal_strlit("timestamp");
    reveal_strlit("data");
    reveal_strlit("join");
    reveal_strlit("leave");
    assert("room"@.len() == 4 && "username"@.len() == 8 && "timestamp"@.len() == 9);
    assert("join"@.len() == 4 && "leave"@.len() == 5);
    assert("room"@[0] != "data"@[0]);
}

/// The text under `key` in an object.
fn text_field(doc: &Json, key: &str, field: Field) -> (found: Result<String, DecodeError>)
    requires
        doc@ is Object,
    ensures
        match found {
            Ok(text) => text_member(doc@->Object_0, key@, field) == Ok::<Seq<char>, DecodeError>(text@),
            Err(error) => text_member(doc@->Object_0, key@, field) == Err::<Seq<char>, DecodeError>(error),
        },
{
    match doc.member(key) {
        None => Err(DecodeError::Missing(field)),
        Some(Json::Text(text)) => Ok(text.clone()),
        Some(_) => Err(DecodeError::Invalid(field)),
    }
}

/// The whole number under `key` in an object.
fn number_field(doc: &Json, key: &str, field: Field) -> (found: Result<u64, DecodeError>)
    requires
        doc@ is Object,
    ensures
        found == number_member(doc@->Object_0, key@, field),
{
    match doc.member(key) {
        None => Err(DecodeError::Missing(field)),
        Some(Json::Number(Some(n))) => Ok(*n),
        Some(_) => Err(DecodeError::Invalid(field)),
    }
}

impl MsgData {
    /// Reads a payload from the document under `data`: `None` where the
    /// document has none of the three shapes of a payload.
    #[verifier::loop_isolation(false)]
    pub fn from_json(data: &Json) -> (payload: Option<MsgData>)
        ensures
            match payload {
                Some(found) => payload_of(data@) == Some(found@),
                None => payload_of(data@) is None,
            },
    {
        match data {
            Json::Text(tag) => {
                if *tag == "join".to_owned() {
                    Some(MsgData::Join)
                } else if *tag == "leave".to_owned() {
                    Some(MsgData::Leave)
                } else {
                    None
                }
            },
            Json::Object(members) => {
                let wanted = "message".to_owned();
                let mut i: usize = 0;
                while i < members.len()
                    invariant
                        i <= members.len(),
                        wanted@ == "message"@,
                        forall|j: int| 0 <= j < i ==> (#[trigger] members@[j]).0@ == "message"@,
                    decreases members.len() - i,
                {
                    if !(members[i].0 == wanted) {
                        proof {
                            let other = members@[i as int].0@;
                            lemma_object_keys(members@, other);
                            assert(object_view(members@).dom().contains(other));
                            assert(!set!["message"@].contains(other));
                        }
                        return None;
                    }
                    i = i + 1;
                }
                if members.len() == 0 {
                    proof {
                        assert(set!["message"@].contains("message"@));
                        assert(members@ =~= Seq::empty());
                        assert(!object_view(members@).dom().contains("message"@));
                    }
                    return None;
                }
                proof {
                    let dom = object_view(members@).dom();
                    assert forall|key: Seq<char>| dom.contains(key) <==> set!["message"@].contains(key) by {
                        lemma_object_keys(members@, key);
                        assert(members@[0].0@ == "message"@);
                    }
                    assert(dom =~= set!["message"@]);
                    let last = members@.last();
                    assert(object_view(members@) == object_view(members@.drop_last()).insert(
                        last.0@,
                        last.1.view(),
                    ));
                    assert(last == members@[members.len() - 1]);
                }
                match &members[members.len() - 1].1 {
                    Json::Text(text) => Some(MsgData::Message(text.clone())),
                    _ => None,
                }
            },
            _ => None,
        }
    }

    /// The document that spells the payload.
    pub fn to_json(&self) -> (doc: Json)
        ensures
            doc@ == payload_document(self@),
            doc.complete(),
    {
        match self {
            MsgData::Join => Json::Text("join".to_owned()),
            MsgData::Leave => Json::Text("leave".to_owned()),
            MsgData::Message(text) => {
                let mut members: Vec<(String, Json)> = Vec::new();
                Json::put(&mut members, "message", Json::Text(text.clone()));
                Json::Object(members)
            },
        }
    }
}

impl Msg {
    /// Reads an envelope from a document: the envelope that the document
    /// spells, or the first thing that is wrong with it.
    pub fn from_json(doc: &Json) -> (decoded: Result<Msg, DecodeError>)
        ensures
            agrees(decoded, envelope_of(doc@)),
    {
        match doc {
            Json::Object(_) => {
                let room = match text_field(doc, "room", Field::Room) {
                    Ok(room) => room,
                    Err(error) => { return Err(error); },
                };
                let username = match text_field(doc, "username", Field::Username) {
                    Ok(username) => username,
                    Err(error) => { return Err(error); },
                };
                let timestamp: u64 = match number_field(doc, "timestamp", Field::Timestamp) {
                    Ok(timestamp) => timestamp,
                    Err(error) => { return Err(error); },
                };
                let data = match doc.member("data") {
                    None => { return Err(DecodeError::Missing(Field::Data)); },
                    Some(found) => match MsgData::from_json(found) {
                        Some(data) => data,
                        None => { return Err(DecodeError::Invalid(Field::Data)); },
                    },
                };
                Ok(Msg { room, username, timestamp, data })
            },
            _ => Err(DecodeError::NotAnObject),
        }
    }

    /// The document that spells the envelope.
    pub fn to_json(&self) -> (doc: Json)
        ensures
            doc@ == document_of(self@),
            doc.complete(),
    {
        let mut members: Vec<(String, Json)> = Vec::new();
        Json::put(&mut members, "room", Json::Text(self.room.clone()));
        Json::put(&mut members, "username", Json::Text(self.username.clone()));
        Json::put(&mut members, "timestamp", Json::Number(Some(self.timestamp)));
        Json::put(&mut members, "data", self.data.to_json());
        Json::Object(members)
    }

    /// Reads an envelope from the text of a frame. The frame has to be one
    /// JSON object with the texts `room` and `username`, the whole number
    /// `timestamp` and the payload `data`; what else it holds is passed over.
    pub fn decode(text: &str) -> (decoded: Result<Msg, DecodeError>)
        ensures
            agrees(decoded, envelope_of_parsed(json_parse(text@))),
    {
        match parse_value(text) {
            Err(_) => Err(DecodeError::Syntax),
            Ok(value) => {
                let doc = json_of_value(value);
                Msg::from_json(&doc)
            },
        }
    }

    /// Writes the envelope out as the text of a frame.
    pub fn encode(&self) -> (encoded: Result<String, EncodeError>)
        ensures
            match encoded {
                Ok(text) => json_text(document_of(self@)) == Some(text@),
                Err(_) => json_text(document_of(self@)) is None,
            },
    {
        let doc = self.to_json();
        proof {
            lemma_document_round_trip(self@);
        }
        match value_of_json(&doc) {
            Some(value) => match render_value(&value) {
                Ok(text) => Ok(text),
                Err(_) => Err(EncodeError::Refused),
            },
            None => Err(EncodeError::Refused),
        }
    }
}

/// Every text that the JSON parser reads as the document of an envelope
/// decodes to that envelope, however the text is laid out.
pub proof fn lemma_decode_reads_document(msg: MsgView, text: Seq<char>)
    ensures
        json_parse(text) == Some(document_of(msg)) ==> envelope_of_parsed(json_parse(text)) == Ok::<
            MsgView,
            DecodeError,
        >(msg),
{
    lemma_document_round_trip(msg);
}

impl<'a> TryFrom<&'a str> for Msg {
    type Error = DecodeError;

    /// `Msg::decode`, for callers that convert.
    fn try_from(text: &'a str) -> (decoded: Result<Msg, DecodeError>)
        ensures
            agrees(decoded, envelope_of_parsed(json_parse(text@))),
    {
        Msg::decode(text)
    }
}

impl<'a> vstd::std_specs::convert::TryFromSpecImpl<&'a str> for Msg {
    open spec fn obeys_try_from_spec() -> bool {
        false
    }

    open spec fn try_from_spec(text: &'a str) -> Result<Msg, DecodeError> {
        arbitrary()
    }
}

impl<'a> TryFrom<&'a Msg> for String {
    type Error = EncodeError;

    /// `Msg::encode`, for callers that convert.
    fn try_from(msg: &'a Msg) -> (encoded: Result<String, EncodeError>)
        ensures
            match encoded {
                Ok(text) => json_text(document_of(msg@)) == Some(text@),
                Err(_) => json_text(document_of(msg@)) is None,
            },
    {
        msg.encode()
    }
}

impl<'a> vstd::std_specs::convert::TryFromSpecImpl<&'a Msg> for String {
    open spec fn obeys_try_from_spec() -> bool {
        false
    }

    open spec fn try_from_spec(msg: &'a Msg) -> Result<String, EncodeError> {
        arbitrary()
    }
}

/// The document that is made of an envelope spells that envelope: reading it
/// gives the envelope back, for every room, user, second and payload, an
/// empty chat line and one in any script included. The document is also fit
/// to be written out.
pub proof fn lemma_document_round_trip(msg: MsgView)
    ensures
        envelope_of(document_of(msg)) == Ok::<MsgView, DecodeError>(msg),
        document_of(msg).printable(),
{
    lemma_words_differ();
    let data = payload_document(msg.data);
    match msg.data {
        MsgDataView::Message(text) => {
            let members = map!["message"@ => JsonView::Text(text)];
            assert(members.dom() =~= set!["message"@]);
            assert(payload_of(data) == Some(msg.data));
            assert forall|key: Seq<char>| members.dom().contains(key) implies (
            #[trigger] members[key]).printable() by {
                assert(key == "message"@);
            }
            assert(data.printable());
        },
        _ => {
            assert(payload_of(data) == Some(msg.data));
            assert(data.printable());
        },
    }
    let members = document_of(msg)->Object_0;
    assert(members["room"@] == JsonView::Text(msg.room));
    assert(members["username"@] == JsonView::Text(msg.username));
    assert(members["timestamp"@] == JsonView::Number(Some(msg.timestamp)));
    assert(members["data"@] == data);
    assert forall|key: Seq<char>| members.dom().contains(key) implies (#[trigger] members[key]).printable() by {
        if key == "room"@ {
        } else if key == "username"@ {
        } else if key == "timestamp"@ {
        } else {
            assert(key == "data"@);
        }
    }
}

} // verus!
