use crate::schema::{Log, LogId};
use mongodb::bson::oid::ObjectId;
use vstd::prelude::*;

verus! {

/// The lowercase hexadecimal digit of `n`, below sixteen.
pub open spec fn hex_digit(n: int) -> char {
    seq!['0', '1', '2', '3', '4', '5', '6', '7', '8', '9', 'a', 'b', 'c', 'd', 'e', 'f'][n]
}

/// Two lowercase hexadecimal digits per byte, high digit first.
pub open spec fn hex_of(bytes: Seq<u8>) -> Seq<char>
    decreases bytes.len(),
{
    if bytes.len() == 0 {
        Seq::empty()
    } else {
        seq![hex_digit(bytes[0] as int / 16), hex_digit(bytes[0] as int % 16)] + hex_of(bytes.drop_first())
    }
}

/// The JSON text of the document id with these bytes: an object whose one
/// field `$oid` holds the bytes in hexadecimal.
pub open spec fn object_id_json(bytes: Seq<u8>) -> Seq<char> {
    "{\"$oid\":\""@ + hex_of(bytes) + "\"}"@
}

/// Relies on serde_json's `to_string` over bson's `ObjectId` (rebuilt from
/// its bytes by `ObjectId::from_bytes`). bson writes the id as a struct with
/// the one field `$oid`, holding `ObjectId::to_hex` of the bytes; serde_json
/// writes into a `Vec`, which never fails.
#[verifier::external_body]
fn encode_object_id(id: &LogId) -> (r: String)
    ensures
        r@ == object_id_json(id@),
{
    serde_json::to_string(&ObjectId::from_bytes(id.bytes)).unwrap()
}

/// The status of a successful response.
pub const STATUS_OK: i32 = 200;

/// What a handler hands back on success: a status and a JSON body.
#[derive(Debug)]
pub struct Response {
    pub status_code: i32,
    pub body: String,
}

/// Why a handler fails.
#[derive(Debug, PartialEq, Eq, Structural)]
pub enum HandlerError {
    /// The insertion reported no document id.
    NoIdReturned,
    /// No log has the requested identifier and owner.
    NotFound,
}

impl HandlerError {
    /// The text of the error.
    pub fn message(&self) -> (r: &'static str)
        ensures
            self is NoIdReturned ==> r@ == "no id returned from insert operation"@,
            self is NotFound ==> r@ == "no log found for this identifier and owner"@,
    {
        match self {
            HandlerError::NoIdReturned => "no id returned from insert operation",
            HandlerError::NotFound => "no log found for this identifier and owner",
        }
    }
}

/// A successful response with `body`.
pub fn ok_response(body: String) -> (r: Response)
    ensures
        r.status_code == STATUS_OK,
        r.body@ == body@,
{
    Response { status_code: STATUS_OK, body }
}

/// The response of a creation from what the insertion returned: the new id
/// as JSON, or an error where no id came back.
pub fn add_response(inserted: Option<LogId>) -> (r: Result<Response, HandlerError>)
    ensures
        inserted is None ==> r == Err::<Response, HandlerError>(HandlerError::NoIdReturned),
        inserted matches Some(id) ==> r matches Ok(resp) && resp.status_code == STATUS_OK
            && resp.body@ == object_id_json(id@),
{
    match inserted {
        None => Err(HandlerError::NoIdReturned),
        Some(id) => Ok(ok_response(encode_object_id(&id))),
    }
}

/// The outcome of a read: the log found, or `NotFound`.
pub fn found_log(found: Option<Log>) -> (r: Result<Log, HandlerError>)
    ensures
        match found {
            Some(l) => r matches Ok(x) && x@ == l@,
            None => r == Err::<Log, HandlerError>(HandlerError::NotFound),
        },
{
    match found {
        Some(l) => Ok(l),
        None => Err(HandlerError::NotFound),
    }
}

} // verus!
