//! The customer record carried by the publish endpoint, and its decoding
//! from a request body.

use vstd::prelude::*;

verus! {

use crate::json::{
    field_at,
    json_object_fields,
    lemma_field_at_entries,
    lookup,
    parse_object_fields,
};

/// The flat record decoded from the publish endpoint's JSON body: five
/// string fields, all required. Extra fields of the body are tolerated
/// and dropped, whatever kind of value they carry.
#[derive(Clone, Debug)]
pub struct CustomerDetails {
    pub name: String,
    pub surname: String,
    pub id: String,
    pub email: String,
    pub mobile: String,
}

/// The mathematical content of a `CustomerDetails` value: the five field
/// strings as character sequences.
pub ghost struct CustomerDetailsView {
    pub name: Seq<char>,
    pub surname: Seq<char>,
    pub id: Seq<char>,
    pub email: Seq<char>,
    pub mobile: Seq<char>,
}

impl View for CustomerDetails {
    type V = CustomerDetailsView;

    open spec fn view(&self) -> CustomerDetailsView {
        CustomerDetailsView {
            name: self.name@,
            surname: self.surname@,
            id: self.id@,
            email: self.email@,
            mobile: self.mobile@,
        }
    }
}

/// Why a request body failed to decode as a `CustomerDetails`.
#[derive(Clone, Copy, Debug, PartialEq, Eq, Structural)]
pub enum ParseError {
    /// The body does not decode as a JSON object at all.
    InvalidJson,
    /// The body is a JSON object, but a required field is absent.
    MissingField,
    /// A required field is present but its value is not a string.
    WrongType,
}

/// The field is present with a string value.
pub open spec fn is_string_field(f: Option<Option<Seq<char>>>) -> bool {
    match f {
        Some(g) => g is Some,
        None => false,
    }
}

/// The field is present with a value of some other kind than a string.
pub open spec fn is_nonstring_field(f: Option<Option<Seq<char>>>) -> bool {
    match f {
        Some(g) => g is None,
        None => false,
    }
}

/// The string content of a present string field, `Seq::empty()` otherwise.
pub open spec fn str_of(f: Option<Seq<char>>) -> Seq<char> {
    match f {
        Some(s) => s,
        None => Seq::empty(),
    }
}

/// Some required field has no entry in the list.
pub open spec fn missing_required_field(v: Seq<(String, Option<String>)>) -> bool {
    ||| field_at(v, "name"@) is None
    ||| field_at(v, "surname"@) is None
    ||| field_at(v, "id"@) is None
    ||| field_at(v, "email"@) is None
    ||| field_at(v, "mobile"@) is None
}

/// Some required field is listed with a non-string value.
pub open spec fn nonstring_required_field(v: Seq<(String, Option<String>)>) -> bool {
    ||| is_nonstring_field(field_at(v, "name"@))
    ||| is_nonstring_field(field_at(v, "surname"@))
    ||| is_nonstring_field(field_at(v, "id"@))
    ||| is_nonstring_field(field_at(v, "email"@))
    ||| is_nonstring_field(field_at(v, "mobile"@))
}

/// The decoded field map carries every required field with a string value.
pub open spec fn has_customer_fields(m: Map<Seq<char>, Option<Seq<char>>>) -> bool {
    &&& m.contains_key("name"@) && m["name"@] is Some
    &&& m.contains_key("surname"@) && m["surname"@] is Some
    &&& m.contains_key("id"@) && m["id"@] is Some
    &&& m.contains_key("email"@) && m["email"@] is Some
    &&& m.contains_key("mobile"@) && m["mobile"@] is Some
}

/// Some required key is absent from the decoded field map.
pub open spec fn missing_required_key(m: Map<Seq<char>, Option<Seq<char>>>) -> bool {
    ||| !m.contains_key("name"@)
    ||| !m.contains_key("surname"@)
    ||| !m.contains_key("id"@)
    ||| !m.contains_key("email"@)
    ||| !m.contains_key("mobile"@)
}

/// Some required key of the decoded field map carries a non-string value.
pub open spec fn nonstring_required_key(m: Map<Seq<char>, Option<Seq<char>>>) -> bool {
    ||| m.contains_key("name"@) && m["name"@] is None
    ||| m.contains_key("surname"@) && m["surname"@] is None
    ||| m.contains_key("id"@) && m["id"@] is None
    ||| m.contains_key("email"@) && m["email"@] is None
    ||| m.contains_key("mobile"@) && m["mobile"@] is None
}

/// The record that a request body decodes to, if any: the body must decode
/// as one JSON object whose five required fields are present and
/// string-valued; extra fields of any kind are tolerated.
pub open spec fn spec_customer_of(b: Seq<u8>) -> Option<CustomerDetailsView> {
    match json_object_fields(b) {
        Some(m) => if has_customer_fields(m) {
            Some(
                CustomerDetailsView {
                    name: str_of(m["name"@]),
                    surname: str_of(m["surname"@]),
                    id: str_of(m["id"@]),
                    email: str_of(m["email"@]),
                    mobile: str_of(m["mobile"@]),
                },
            )
        } else {
            None
        },
        None => None,
    }
}

/// Builds the record from a decoded entry list: every required field must
/// be listed with a string value. Which diagnostic comes back when several
/// fields are bad follows the checking order and is deliberately not
/// pinned beyond its kind.
pub fn customer_from_fields(entries: &Vec<(String, Option<String>)>) -> (r: Result<
    CustomerDetails,
    ParseError,
>)
    ensures
        r is Ok <==> {
            &&& is_string_field(field_at(entries@, "name"@))
            &&& is_string_field(field_at(entries@, "surname"@))
            &&& is_string_field(field_at(entries@, "id"@))
            &&& is_string_field(field_at(entries@, "email"@))
            &&& is_string_field(field_at(entries@, "mobile"@))
        },
        match r {
            Ok(c) => {
                &&& field_at(entries@, "name"@) == Some(Some(c@.name))
                &&& field_at(entries@, "surname"@) == Some(Some(c@.surname))
                &&& field_at(entries@, "id"@) == Some(Some(c@.id))
                &&& field_at(entries@, "email"@) == Some(Some(c@.email))
                &&& field_at(entries@, "mobile"@) == Some(Some(c@.mobile))
            },
            Err(e) => {
                &&& e != ParseError::InvalidJson
                &&& (e == ParseError::MissingField ==> missing_required_field(entries@))
                &&& (e == ParseError::WrongType ==> nonstring_required_field(entries@))
            },
        },
{
    let name = match lookup(entries, "name") {
        None => {
            return Err(ParseError::MissingField);
        },
        Some(None) => {
            return Err(ParseError::WrongType);
        },
        Some(Some(s)) => s,
    };
    let surname = match lookup(entries, "surname") {
        None => {
            return Err(ParseError::MissingField);
        },
        Some(None) => {
            return Err(ParseError::WrongType);
        },
        Some(Some(s)) => s,
    };
    let id = match lookup(entries, "id") {
        None => {
            return Err(ParseError::MissingField);
        },
        Some(None) => {
            return Err(ParseError::WrongType);
        },
        Some(Some(s)) => s,
    };
    let email = match lookup(entries, "email") {
        None => {
            return Err(ParseError::MissingField);
        },
        Some(None) => {
            return Err(ParseError::WrongType);
        },
        Some(Some(s)) => s,
    };
    let mobile = match lookup(entries, "mobile") {
        None => {
            return Err(ParseError::MissingField);
        },
        Some(None) => {
            return Err(ParseError::WrongType);
        },
        Some(Some(s)) => s,
    };
    Ok(CustomerDetails { name, surname, id, email, mobile })
}

/// Decodes a request body into a `CustomerDetails`, reporting whether the
/// body was no JSON object at all, missing a required field, or carrying
/// a non-string value in one.
pub fn parse_customer_details(body: &[u8]) -> (r: Result<CustomerDetails, ParseError>)
    ensures
        match r {
            Ok(c) => spec_customer_of(body@) == Some(c@),
            Err(e) => {
                &&& spec_customer_of(body@) is None
                &&& (e == ParseError::InvalidJson <==> json_object_fields(body@) is None)
                &&& (e == ParseError::MissingField ==> (json_object_fields(body@) matches Some(m)
                    && missing_required_key(m)))
                &&& (e == ParseError::WrongType ==> (json_object_fields(body@) matches Some(m)
                    && nonstring_required_key(m)))
            },
        },
{
    let entries = match parse_object_fields(body) {
        Ok(v) => v,
        Err(_) => {
            return Err(ParseError::InvalidJson);
        },
    };
    let r = customer_from_fields(&entries);
    proof {
        let m = choose|m: Map<Seq<char>, Option<Seq<char>>>|
            json_object_fields(body@) == Some(m) && crate::json::entries_agree(entries@, m);
        lemma_field_at_entries(entries@, m, "name"@);
        lemma_field_at_entries(entries@, m, "surname"@);
        lemma_field_at_entries(entries@, m, "id"@);
        lemma_field_at_entries(entries@, m, "email"@);
        lemma_field_at_entries(entries@, m, "mobile"@);
    }
    r
}

} // verus!
