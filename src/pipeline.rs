//! How a response is taken once its body has been read: as the processor's
//! error envelope when it is one, else as the expected value, else as a
//! failure to decode.
use vstd::prelude::*;

use crate::errors::{ApiError, SDKError};
use crate::helpers::nat_text;
use crate::json::{
    entries_of, error_in_document, error_in_text, field, lemma_lookup_some, lemma_round_trip, Json,
    WireValue,
};

verus! {

/// Where a text stopped being JSON, counted from one.
#[derive(Debug, Clone, Copy, PartialEq, Eq, Structural)]
pub struct TextPosition {
    pub line: u64,
    pub column: u64,
}

/// Classifies a response body: the document it holds, or where its text
/// stopped being JSON.
///
/// The error envelope is tried first, and a body that is one is never read
/// as the expected value. Every failure to decode carries a non-empty path:
/// `$` and the path inside a document, or the position in a text that is
/// not JSON.
pub fn classify_response<RP: WireValue>(body: Result<&Json, TextPosition>) -> (r: Result<RP, SDKError>)
    ensures
        r matches Err(SDKError::DecodeError(e)) ==> e.path@.len() > 0 && e.path@[0]@.len() > 0,
        body matches Err(at) ==> (r matches Err(SDKError::DecodeError(e)) && e.path@ .len() == 1
            && e.path@[0]@ == nat_text(at.line as nat) + seq![':'] + nat_text(at.column as nat)),
        body matches Ok(doc) ==> ((exists|e: ApiError| #[trigger] e.wire_form(*doc)) <==> (r matches Err(
            SDKError::ApiError(_),
        ))),
        body matches Ok(doc) ==> (r matches Err(SDKError::ApiError(e)) ==> e.wire_form(*doc)),
        body matches Ok(doc) ==> (r is Ok <==> (!(exists|e: ApiError| #[trigger] e.wire_form(*doc)) && (exists|
            v: RP,
        | #[trigger] v.wire_form(*doc)))),
        body matches Ok(doc) ==> (r matches Ok(v) ==> v.wire_form(*doc)),
        body matches Ok(doc) ==> ((r matches Err(SDKError::DecodeError(_))) <==> (!(exists|e: ApiError|
            #[trigger] e.wire_form(*doc)) && !(exists|v: RP| #[trigger] v.wire_form(*doc)))),
        body matches Ok(doc) ==> (r matches Err(SDKError::DecodeError(e)) ==> e.path@[0]@ == "$"@),
{
    proof {
        reveal_strlit("$");
    }
    match body {
        Err(at) => Err(SDKError::DecodeError(error_in_text(at.line, at.column))),
        Ok(doc) => match ApiError::from_json(doc) {
            Ok(e) => Err(SDKError::ApiError(e)),
            Err(_) => match RP::from_json(doc) {
                Ok(v) => Ok(v),
                Err(e) => Err(SDKError::DecodeError(error_in_document(e))),
            },
        },
    }
}

/// What `to_json` writes for a value whose keys do not include `message`
/// is never taken for the error envelope, and the pipeline reads it back
/// as a value that agrees with the one written.
pub proof fn lemma_pipeline_round_trip<T: WireValue>(x: T, j: Json)
    requires
        x.wire_form(j),
        !T::own_key("message"@),
        forall|i: int| 0 <= i < entries_of(j).len() ==> T::own_key(#[trigger] entries_of(j)[i].0@),
    ensures
        !(exists|e: ApiError| #[trigger] e.wire_form(j)),
        exists|v: T| #[trigger] v.wire_form(j),
        forall|v: T| #[trigger] v.wire_form(j) ==> x.agrees(&v),
{
    if exists|e: ApiError| #[trigger] e.wire_form(j) {
        let e = choose|e: ApiError| #[trigger] e.wire_form(j);
        assert(field(j, "message"@) is Some);
        lemma_lookup_some(entries_of(j), "message"@);
        let i = choose|i: int| 0 <= i < entries_of(j).len() && #[trigger] entries_of(j)[i].0@ == "message"@;
        assert(T::own_key(entries_of(j)[i].0@));
    }
    lemma_round_trip(x, j);
}

} // verus!
