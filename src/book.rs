//! The stored record and its codec to and from the store's attributes.
use vstd::prelude::*;
use crate::attributes::{AttributeMap, AttributeValue};
use crate::json::{json_quoted, json_string};
use crate::uuid_text::{lemma_uuid_of_own_text, parse_uuid, uuid_of_text, uuid_text, uuid_to_string};

verus! {

/// A stored book: its identifier (a UUID, as its 128 bits) and its title.
pub struct BookEntity {
    pub id: u128,
    pub title: String,
}

/// Why a set of attributes does not decode to a record.
#[derive(Debug, PartialEq, Eq, Structural, Clone, Copy)]
pub enum DecodeError {
    /// The identifier attribute is absent.
    MissingField,
    /// An attribute holds a value of another kind than a string.
    InvalidType,
    /// The identifier is a string, but no UUID.
    InvalidFormat,
}

/// The name of the attribute that holds the identifier (the partition key).
pub open spec fn id_field() -> Seq<char> {
    "id"@
}

/// The name of the attribute that holds the title.
pub open spec fn title_field() -> Seq<char> {
    "bookTitle"@
}

/// The store key of the record with identifier `id`.
pub open spec fn key_attrs(id: u128) -> Map<Seq<char>, Option<Seq<char>>> {
    map![id_field() => Some(uuid_text(id))]
}

/// The attributes that a record is stored as.
pub open spec fn record_attrs(id: u128, title: Seq<char>) -> Map<Seq<char>, Option<Seq<char>>> {
    key_attrs(id).insert(title_field(), Some(title))
}

/// What a set of attributes decodes to: the identifier is required and must
/// be the text of a UUID; an absent title reads as the empty text.
pub open spec fn decode_attrs(m: Map<Seq<char>, Option<Seq<char>>>) -> Result<(u128, Seq<char>), DecodeError> {
    if !m.contains_key(id_field()) {
        Err(DecodeError::MissingField)
    } else {
        match m[id_field()] {
            None => Err(DecodeError::InvalidType),
            Some(s) => match uuid_of_text(s) {
                None => Err(DecodeError::InvalidFormat),
                Some(v) => if !m.contains_key(title_field()) {
                    Ok((v, Seq::empty()))
                } else {
                    match m[title_field()] {
                        None => Err(DecodeError::InvalidType),
                        Some(t) => Ok((v, t)),
                    }
                },
            },
        }
    }
}

/// The JSON object that a record is answered as.
pub open spec fn book_json(id: u128, title: Seq<char>) -> Seq<char> {
    "{\"id\":"@ + json_quoted(uuid_text(id)) + ",\"bookTitle\":"@ + json_quoted(title) + "}"@
}

/// Decoding the attributes that a record is stored as gives the record back,
/// identifier and title alike.
pub proof fn lemma_decode_encode(id: u128, title: Seq<char>)
    ensures
        decode_attrs(record_attrs(id, title)) == Ok::<(u128, Seq<char>), DecodeError>((id, title)),
{
    reveal_strlit("id");
    reveal_strlit("bookTitle");
    assert(id_field().len() != title_field().len());
    lemma_uuid_of_own_text(id);
}

impl BookEntity {
    /// The record with identifier `id` and title `title`.
    pub fn new(id: u128, title: String) -> (r: BookEntity)
        ensures
            r.id == id,
            r.title@ == title@,
    {
        BookEntity { id, title }
    }

    /// The store key of this record: its identifier alone.
    pub fn key(&self) -> (r: AttributeMap)
        ensures
            r@ == key_attrs(self.id),
    {
        let mut r = AttributeMap::new();
        r.insert(String::from_str("id"), AttributeValue::S(uuid_to_string(self.id)));
        assert(r@ =~= key_attrs(self.id));
        r
    }

    /// The attributes this record is stored as.
    pub fn to_attrs(&self) -> (r: AttributeMap)
        ensures
            r@ == record_attrs(self.id, self.title@),
    {
        let mut r = self.key();
        r.insert(String::from_str("bookTitle"), AttributeValue::S(self.title.clone()));
        r
    }

    /// Decodes a record from its stored attributes.
    pub fn from_attrs(attrs: &AttributeMap) -> (r: Result<BookEntity, DecodeError>)
        ensures
            match r {
                Ok(b) => decode_attrs(attrs@) == Ok::<(u128, Seq<char>), DecodeError>((b.id, b.title@)),
                Err(e) => decode_attrs(attrs@) == Err::<(u128, Seq<char>), DecodeError>(e),
            },
    {
        let id = match attrs.get(&String::from_str("id")) {
            None => return Err(DecodeError::MissingField),
            Some(AttributeValue::Other) => return Err(DecodeError::InvalidType),
            Some(AttributeValue::S(s)) => {
                let parsed = parse_uuid(s.as_str());
                proof {
                    if exists|v: u128| uuid_text(v) == s@ {
                        let v = choose|v: u128| uuid_text(v) == s@;
                        assert(parsed == Some(v));
                    }
                }
                match parsed {
                    None => return Err(DecodeError::InvalidFormat),
                    Some(v) => v,
                }
            },
        };
        let title = match attrs.get(&String::from_str("bookTitle")) {
            None => String::new(),
            Some(AttributeValue::Other) => return Err(DecodeError::InvalidType),
            Some(AttributeValue::S(t)) => t.clone(),
        };
        Ok(BookEntity { id, title })
    }

    /// The JSON object this record is answered as:
    /// `{"id":"<uuid>","bookTitle":"<title>"}`.
    pub fn to_json(&self) -> (r: String)
        ensures
            r@ == book_json(self.id, self.title@),
    {
        let mut r = String::from_str("{\"id\":");
        let id = uuid_to_string(self.id);
        r.append(json_string(id.as_str()).as_str());
        r.append(",\"bookTitle\":");
        r.append(json_string(self.title.as_str()).as_str());
        r.append("}");
        r
    }
}

} // verus!
