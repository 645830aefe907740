//! The lookup of one record: the store query built from a request, and the
//! response built from what the store answered.
use vstd::prelude::*;
use crate::attributes::{AttributeMap, AttributeValue};
use crate::book::{decode_attrs, id_field, key_attrs, record_attrs, BookEntity};
use crate::response::{
    error_view, found, found_view, internal_server, invalid_record, invalid_record_code, not_found,
    ErrorType, Response, ResponseView,
};
use crate::uuid_text::{lemma_uuid_text_len, uuid_text};

verus! {

/// The value of the first path parameter named `name`, or the empty text.
pub open spec fn path_param(params: Seq<(Seq<char>, Seq<char>)>, name: Seq<char>) -> Seq<char>
    decreases params.len(),
{
    if params.len() == 0 {
        Seq::empty()
    } else if params[0].0 == name {
        params[0].1
    } else {
        path_param(params.drop_first(), name)
    }
}

/// The texts of a list of path parameters.
pub open spec fn params_view(params: Seq<(String, String)>) -> Seq<(Seq<char>, Seq<char>)> {
    params.map_values(|p: (String, String)| (p.0@, p.1@))
}

/// The identifier a request asks for: its path parameter `id`; a request
/// without one asks for the empty identifier.
pub fn path_id(params: &Vec<(String, String)>) -> (r: String)
    ensures
        r@ == path_param(params_view(params@), "id"@),
{
    let ghost s = params_view(params@);
    let name = String::from_str("id");
    let mut i: usize = 0;
    assert(s.subrange(0, s.len() as int) =~= s);
    while i < params.len()
        invariant
            i <= params@.len(),
            s == params_view(params@),
            name@ == "id"@,
            path_param(s, "id"@) == path_param(s.subrange(i as int, s.len() as int), "id"@),
        decreases params@.len() - i,
    {
        let ghost rest = s.subrange(i as int, s.len() as int);
        assert(rest.drop_first() =~= s.subrange(i + 1, s.len() as int));
        if params[i].0 == name {
            return params[i].1.clone();
        }
        i = i + 1;
    }
    assert(s.subrange(i as int, s.len() as int) =~= Seq::<(Seq<char>, Seq<char>)>::empty());
    String::new()
}

/// A get-item call: the table and the key of the item.
pub struct ItemQuery {
    pub table_name: String,
    pub key: AttributeMap,
}

/// The key that looks up the identifier `id`.
pub open spec fn query_key(id: Seq<char>) -> Map<Seq<char>, Option<Seq<char>>> {
    map![id_field() => Some(id)]
}

/// The get-item call that looks up the identifier `id` in the table `books`.
pub fn book_query(id: String) -> (r: ItemQuery)
    ensures
        r.table_name@ == "books"@,
        r.key@ == query_key(id@),
{
    let mut key = AttributeMap::new();
    key.insert(String::from_str("id"), AttributeValue::S(id));
    assert(key@ =~= query_key(id@));
    ItemQuery { table_name: String::from_str("books"), key }
}

/// What the store answered a get-item call with, as texts.
pub open spec fn outcome_view(outcome: Result<Option<AttributeMap>, ()>) -> Result<
    Option<Map<Seq<char>, Option<Seq<char>>>>,
    (),
> {
    match outcome {
        Err(_) => Err(()),
        Ok(None) => Ok(None),
        Ok(Some(m)) => Ok(Some(m@)),
    }
}

/// The response to the request `request_id` given the store's answer: 500
/// when the store failed, 404 when it holds no item under the key, the
/// record with status 200 when the item decodes, and a 500 with the code
/// `invalid_record` when it does not.
pub open spec fn lookup_reply(
    request_id: Seq<char>,
    outcome: Result<Option<Map<Seq<char>, Option<Seq<char>>>>, ()>,
) -> ResponseView {
    match outcome {
        Err(_) => error_view(500, request_id, ErrorType::InternalServerError, None),
        Ok(None) => error_view(404, request_id, ErrorType::NotFound, None),
        Ok(Some(m)) => match decode_attrs(m) {
            Ok((id, title)) => found_view(id, title),
            Err(_) => error_view(
                500,
                request_id,
                ErrorType::InternalServerError,
                Some(seq![invalid_record_code()]),
            ),
        },
    }
}

/// Builds the response to the request `request_id` from the store's answer
/// to its get-item call. The store's error is not passed on to the caller.
pub fn respond(request_id: String, outcome: Result<Option<AttributeMap>, ()>) -> (r: Response)
    ensures
        r@ == lookup_reply(request_id@, outcome_view(outcome)),
{
    match outcome {
        Err(_) => internal_server(request_id),
        Ok(None) => not_found(request_id),
        Ok(Some(item)) => match BookEntity::from_attrs(&item) {
            Ok(book) => found(&book),
            Err(_) => invalid_record(request_id),
        },
    }
}

/// A record stored under its identifier is looked up by the key built from
/// the text of that identifier, and is answered with status 200, the two
/// diagnostic headers and a body that carries its identifier and title.
pub proof fn lemma_stored_record_is_found(request_id: Seq<char>, id: u128, title: Seq<char>)
    ensures
        query_key(uuid_text(id)) == key_attrs(id),
        lookup_reply(request_id, Ok(Some(record_attrs(id, title)))) == found_view(id, title),
        found_view(id, title).status == 200,
{
    crate::book::lemma_decode_encode(id, title);
}

/// An identifier without a record is answered with status 404, no headers,
/// and a body that holds the request identifier and the kind `not_found`
/// and no `error_codes` key. The empty identifier is the key of no record.
pub proof fn lemma_absent_record_is_not_found(request_id: Seq<char>, id: u128)
    ensures
        lookup_reply(request_id, Ok(None)).status == 404,
        lookup_reply(request_id, Ok(None)).headers.len() == 0,
        lookup_reply(request_id, Ok(None)).body == "{\"request_id\":"@ + crate::json::json_quoted(
            request_id,
        ) + ",\"error_type\":\""@ + "not_found"@ + "\""@ + "}"@,
        query_key(Seq::empty()) != key_attrs(id),
{
    lemma_uuid_text_len(id);
    assert(query_key(Seq::empty())[id_field()] != key_attrs(id)[id_field()]);
}

} // verus!
