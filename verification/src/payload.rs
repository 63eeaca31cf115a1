//! The job message a delivery carries, and its decoder.
//!
//! The wire format is one JSON object: `type`, `destination_email` and
//! `destination_name` are required strings; `fields` is an optional
//! all-string object defaulting to empty; `attachment` is an optional
//! object with string `name` and base64 string `content`.  Decoding
//! checks this structure and nothing more: whether `type` names a real
//! template is the validator's job, and failing on malformed bytes is
//! kept distinct from every later error.

use vstd::prelude::*;
use crate::json::{get, json_of, lookup_obj, parse_json, Json};

verus! {

/// Ghost image of an attachment.
pub ghost struct AttachmentView {
    pub name: Seq<char>,
    pub content: Seq<char>,
}

/// A file attached to the email: its name and its base64-encoded
/// content, both carried verbatim to the provider.
#[derive(Debug, PartialEq)]
pub struct Attachment {
    pub name: String,
    pub content: String,
}

impl View for Attachment {
    type V = AttachmentView;

    open spec fn view(&self) -> AttachmentView {
        AttachmentView { name: self.name@, content: self.content@ }
    }
}

impl Attachment {
    /// An equal copy of this attachment.
    pub fn duplicate(&self) -> (r: Attachment)
        ensures
            r@ == self@,
    {
        Attachment { name: self.name.clone(), content: self.content.clone() }
    }
}

/// Ghost image of a decoded job message.
pub ghost struct MessageView {
    pub kind: Seq<char>,
    pub destination_email: Seq<char>,
    pub destination_name: Seq<char>,
    pub fields: Seq<(Seq<char>, Seq<char>)>,
    pub attachment: Option<AttachmentView>,
}

impl MessageView {
    /// The keys the message's field map supplies.
    pub open spec fn field_keys(self) -> Set<Seq<char>> {
        Set::new(|x: Seq<char>| exists|k: int| 0 <= k < self.fields.len() && self.fields[k].0 == x)
    }
}

/// The ghost image of a field map.
pub open spec fn fields_view(v: Seq<(String, String)>) -> Seq<(Seq<char>, Seq<char>)> {
    v.map(|i: int, p: (String, String)| (p.0@, p.1@))
}

/// One decoded job message: which template to send (`kind`), to whom,
/// the dynamic template fields, and an optional attachment.  Created by
/// decoding one delivery's bytes and consumed by one processing
/// attempt; never persisted.
#[derive(Debug, PartialEq)]
pub struct Message {
    pub kind: String,
    pub destination_email: String,
    pub destination_name: String,
    pub fields: Vec<(String, String)>,
    pub attachment: Option<Attachment>,
}

impl View for Message {
    type V = MessageView;

    open spec fn view(&self) -> MessageView {
        MessageView {
            kind: self.kind@,
            destination_email: self.destination_email@,
            destination_name: self.destination_name@,
            fields: fields_view(self.fields@),
            attachment: match self.attachment {
                Some(a) => Some(a@),
                None => None,
            },
        }
    }
}

/// An object whose every value is a string.
pub open spec fn fields_obj_wf(entries: Seq<(String, Json)>) -> bool {
    forall|k: int| 0 <= k < entries.len() ==> entries[k].1 is Str
}

/// The field map an all-string object decodes to.
pub open spec fn fields_obj_view(entries: Seq<(String, Json)>) -> Seq<(Seq<char>, Seq<char>)> {
    entries.map(|i: int, e: (String, Json)| (e.0@, e.1->Str_0@))
}

/// An attachment object: string `name` and string `content`.
pub open spec fn attachment_obj_wf(a: Json) -> bool {
    &&& a is Obj
    &&& lookup_obj(a->Obj_0@, "name"@) matches Some(n) && n is Str
    &&& lookup_obj(a->Obj_0@, "content"@) matches Some(c) && c is Str
}

/// The attachment a well-shaped attachment object decodes to.
pub open spec fn attachment_obj_view(a: Json) -> AttachmentView {
    AttachmentView {
        name: lookup_obj(a->Obj_0@, "name"@)->Some_0->Str_0@,
        content: lookup_obj(a->Obj_0@, "content"@)->Some_0->Str_0@,
    }
}

/// The shape a JSON document must have to decode as a job message: an
/// object whose `type`, `destination_email` and `destination_name` are
/// strings; `fields`, when present, an all-string object; and
/// `attachment`, when present, either `null` (treated as absent) or a
/// well-shaped attachment object.
pub open spec fn payload_wf(j: Json) -> bool {
    &&& j is Obj
    &&& lookup_obj(j->Obj_0@, "type"@) matches Some(k) && k is Str
    &&& lookup_obj(j->Obj_0@, "destination_email"@) matches Some(e) && e is Str
    &&& lookup_obj(j->Obj_0@, "destination_name"@) matches Some(n) && n is Str
    &&& match lookup_obj(j->Obj_0@, "fields"@) {
        None => true,
        Some(f) => f is Obj && fields_obj_wf(f->Obj_0@),
    }
    &&& match lookup_obj(j->Obj_0@, "attachment"@) {
        None => true,
        Some(a) => a is Null || attachment_obj_wf(a),
    }
}

/// The message a well-shaped job message document decodes to.
pub open spec fn message_view_of(j: Json) -> MessageView {
    MessageView {
        kind: lookup_obj(j->Obj_0@, "type"@)->Some_0->Str_0@,
        destination_email: lookup_obj(j->Obj_0@, "destination_email"@)->Some_0->Str_0@,
        destination_name: lookup_obj(j->Obj_0@, "destination_name"@)->Some_0->Str_0@,
        fields: match lookup_obj(j->Obj_0@, "fields"@) {
            None => Seq::empty(),
            Some(f) => fields_obj_view(f->Obj_0@),
        },
        attachment: match lookup_obj(j->Obj_0@, "attachment"@) {
            None => None,
            Some(a) => if a is Null {
                None
            } else {
                Some(attachment_obj_view(a))
            },
        },
    }
}

/// A delivery whose bytes are not a well-formed job message.
#[derive(Debug, PartialEq, Eq)]
pub struct DecodeError;

/// Whether the bytes decode as a job message.
pub open spec fn decodes(bytes: Seq<u8>) -> bool {
    json_of(bytes) matches Some(j) && payload_wf(j)
}

/// Copies an all-string object into a field map; any non-string value
/// makes the whole object malformed.
fn string_fields(entries: &Vec<(String, Json)>) -> (r: Result<Vec<(String, String)>, DecodeError>)
    ensures
        r is Ok <==> fields_obj_wf(entries@),
        r is Ok ==> fields_view(r->Ok_0@) == fields_obj_view(entries@),
{
    let mut out: Vec<(String, String)> = Vec::new();
    let n = entries.len();
    let mut i: usize = 0;
    while i < n
        invariant
            n == entries.len(),
            i <= n,
            out@.len() == i as int,
            forall|k: int| 0 <= k < i ==> entries@[k].1 is Str,
            forall|k: int|
                0 <= k < i ==> out@[k].0@ == entries@[k].0@ && out@[k].1@ == entries@[k].1->Str_0@,
        decreases n - i,
    {
        match &entries[i].1 {
            Json::Str(s) => {
                out.push((entries[i].0.clone(), s.clone()));
            },
            _ => {
                return Err(DecodeError);
            },
        }
        i = i + 1;
    }
    proof {
        assert(fields_view(out@) =~= fields_obj_view(entries@));
    }
    Ok(out)
}

/// Decodes one delivery's bytes as a job message.  Fails exactly when
/// the bytes are not one JSON document of the job message shape; on
/// success the message is the document's decoded image, with a missing
/// field map defaulting to empty and a missing or `null` attachment to
/// absent.
pub fn decode(bytes: &[u8]) -> (r: Result<Message, DecodeError>)
    ensures
        r is Ok <==> decodes(bytes@),
        r is Ok ==> r->Ok_0@ == message_view_of(json_of(bytes@)->Some_0),
{
    match parse_json(bytes) {
        Some(j) => decode_document(j),
        None => Err(DecodeError),
    }
}

/// Decodes one parsed JSON document as a job message.  Fails exactly
/// when the document is not of the job message shape; on success the
/// message is the document's decoded image.
pub fn decode_document(j: Json) -> (r: Result<Message, DecodeError>)
    ensures
        r is Ok <==> payload_wf(j),
        r is Ok ==> r->Ok_0@ == message_view_of(j),
{
    let entries = match &j {
        Json::Obj(entries) => entries,
        _ => {
            return Err(DecodeError);
        },
    };
    let kind = match get(entries, "type") {
        Some(Json::Str(s)) => s.clone(),
        _ => {
            return Err(DecodeError);
        },
    };
    let destination_email = match get(entries, "destination_email") {
        Some(Json::Str(s)) => s.clone(),
        _ => {
            return Err(DecodeError);
        },
    };
    let destination_name = match get(entries, "destination_name") {
        Some(Json::Str(s)) => s.clone(),
        _ => {
            return Err(DecodeError);
        },
    };
    let fields = match get(entries, "fields") {
        None => Vec::new(),
        Some(f) => match f {
            Json::Obj(fentries) => match string_fields(fentries) {
                Ok(v) => v,
                Err(e) => {
                    return Err(e);
                },
            },
            _ => {
                return Err(DecodeError);
            },
        },
    };
    let attachment: Option<Attachment> = match get(entries, "attachment") {
        None => None,
        Some(Json::Null) => None,
        Some(Json::Obj(aentries)) => {
            let name = match get(aentries, "name") {
                Some(Json::Str(s)) => s.clone(),
                _ => {
                    return Err(DecodeError);
                },
            };
            let content = match get(aentries, "content") {
                Some(Json::Str(s)) => s.clone(),
                _ => {
                    return Err(DecodeError);
                },
            };
            Some(Attachment { name, content })
        },
        Some(_) => {
            return Err(DecodeError);
        },
    };
    let m = Message { kind, destination_email, destination_name, fields, attachment };
    proof {
        assert(m@.fields =~= message_view_of(j).fields);
    }
    Ok(m)
}

} // verus!
