//! What goes wrong: the failures that the library reports to its callers.
use vstd::prelude::*;

use crate::json::{
    array_items, entries_of, field_value, has_key, lemma_absent_key, lemma_list_form_unique,
    lemma_value_field_unique, list_agrees, list_omits_absent, list_to_json, opt_list_field,
    opt_list_written_field, read_opt_list_field, read_value, value_field, written_field,
    Json, WireValue,
};

pub use crate::json::DecodeError;

verus! {

broadcast use crate::json::lemma_lookup_push;

/// The transport's error, `reqwest::Error`, carried as it came and never
/// looked into.
#[verifier::external_type_specification]
#[verifier::external_body]
pub struct ExReqwestError(reqwest::Error);

/// A failure of the library, classified by where it arose.
#[derive(Debug)]
pub enum SDKError {
    /// A missing or refused access token, or a failed token exchange.
    CredentialsError(String),
    /// The request did not get through, or no full response came back.
    NetworkError(reqwest::Error),
    /// A check made before sending failed; nothing was sent.
    ValidationError(ValidationError),
    /// The processor answered with its error envelope, kept as it came.
    ApiError(ApiError),
    /// The response was neither an error envelope nor the expected value.
    DecodeError(DecodeError),
    /// Anything not otherwise classified.
    GenericError,
}

/// A check that failed before a request was sent.
#[derive(Debug, Clone, PartialEq)]
pub enum ValidationError {
    ItemError(String),
    PayerError(String),
}

/// The error envelope of the processor.
#[derive(Debug, Clone, PartialEq)]
pub struct ApiError {
    pub message: String,
    pub status: i32,
    pub error: String,
    pub cause: Option<Vec<ErrorCause>>,
}

/// One cause that the processor gives for an error.
#[derive(Debug, Clone, PartialEq)]
pub struct ErrorCause {
    pub description: String,
    pub code: String,
}

impl WireValue for ApiError {
    open spec fn wire_form(&self, j: Json) -> bool {
        &&& j is Object
        &&& value_field(j, "message"@, self.message)
        &&& value_field(j, "status"@, self.status)
        &&& value_field(j, "error"@, self.error)
        &&& opt_list_field(j, "cause"@, self.cause)
    }

    open spec fn omits_absent(&self, j: Json) -> bool {
        &&& (self.cause is None ==> !has_key(j, "cause"@))
        &&& (self.cause is Some ==> list_omits_absent(array_items(field_value(j, "cause"@)), self.cause.unwrap()@))
    }

    open spec fn agrees(&self, other: &Self) -> bool {
        &&& self.message.agrees(&other.message)
        &&& self.status.agrees(&other.status)
        &&& self.error.agrees(&other.error)
        &&& (self.cause is Some <==> other.cause is Some)
        &&& (self.cause is Some ==> list_agrees(self.cause.unwrap()@, other.cause.unwrap()@))
    }

    open spec fn own_key(key: Seq<char>) -> bool {
        key == "message"@ || key == "status"@ || key == "error"@ || key == "cause"@
    }

    open spec fn written_as(&self, j: Json) -> bool {
        &&& j is Object
        &&& forall|i: int| 0 <= i < entries_of(j).len() ==> Self::own_key(#[trigger] entries_of(j)[i].0@)
        &&& written_field(j, "message"@, self.message)
        &&& written_field(j, "status"@, self.status)
        &&& written_field(j, "error"@, self.error)
        &&& opt_list_written_field(j, "cause"@, self.cause)
    }

    fn to_json(&self) -> (r: Json) {
        let mut entries: Vec<(String, Json)> = Vec::new();
        entries.push((String::from_str("message"), self.message.to_json()));
        assert(forall|i: int| 0 <= i < entries@.len() ==> Self::own_key(#[trigger] entries@[i].0@));
        entries.push((String::from_str("status"), self.status.to_json()));
        assert(forall|i: int| 0 <= i < entries@.len() ==> Self::own_key(#[trigger] entries@[i].0@));
        entries.push((String::from_str("error"), self.error.to_json()));
        assert(forall|i: int| 0 <= i < entries@.len() ==> Self::own_key(#[trigger] entries@[i].0@));
        if let Some(x) = &self.cause {
            entries.push((String::from_str("cause"), list_to_json(x)));
            assert(forall|i: int| 0 <= i < entries@.len() ==> Self::own_key(#[trigger] entries@[i].0@));
        }
        let r = Json::Object(entries);
        proof {
            reveal_strlit("message");
            assert("message"@.len() == 7);
            reveal_strlit("status");
            assert("status"@.len() == 6);
            reveal_strlit("error");
            assert("error"@.len() == 5);
            reveal_strlit("cause");
            assert("cause"@.len() == 5);
            assert("error"@[0] != "cause"@[0]);
            if self.cause is None {
                lemma_absent_key(r, "cause"@);
            }
        }
        r
    }

    fn from_json(j: &Json) -> (r: Result<Self, DecodeError>) {
        if let Json::Object(_) = j {
        } else {
            return Err(DecodeError { path: Vec::new() });
        }
        let message = match read_value::<String>(j, "message") {
            Ok(x) => x,
            Err(e) => {
                return Err(e);
            },
        };
        let status = match read_value::<i32>(j, "status") {
            Ok(x) => x,
            Err(e) => {
                return Err(e);
            },
        };
        let error = match read_value::<String>(j, "error") {
            Ok(x) => x,
            Err(e) => {
                return Err(e);
            },
        };
        let cause = match read_opt_list_field::<ErrorCause>(j, "cause") {
            Ok(x) => x,
            Err(e) => {
                return Err(e);
            },
        };
        Ok(ApiError { message, status, error, cause })
    }

    proof fn lemma_wire_form_unique(&self, other: &Self, j: Json) {
        lemma_value_field_unique(j, "message"@, self.message, other.message);
        lemma_value_field_unique(j, "status"@, self.status, other.status);
        lemma_value_field_unique(j, "error"@, self.error, other.error);
        if self.cause is Some && other.cause is Some {
            lemma_list_form_unique(array_items(field_value(j, "cause"@)), self.cause.unwrap()@, other.cause.unwrap()@);
        }
    }
}

impl WireValue for ErrorCause {
    open spec fn wire_form(&self, j: Json) -> bool {
        &&& j is Object
        &&& value_field(j, "description"@, self.description)
        &&& value_field(j, "code"@, self.code)
    }

    open spec fn omits_absent(&self, j: Json) -> bool {
        true
    }

    open spec fn agrees(&self, other: &Self) -> bool {
        *self == *other
    }

    open spec fn own_key(key: Seq<char>) -> bool {
        key == "description"@ || key == "code"@
    }

    open spec fn written_as(&self, j: Json) -> bool {
        &&& j is Object
        &&& forall|i: int| 0 <= i < entries_of(j).len() ==> Self::own_key(#[trigger] entries_of(j)[i].0@)
        &&& written_field(j, "description"@, self.description)
        &&& written_field(j, "code"@, self.code)
    }

    fn to_json(&self) -> (r: Json) {
        let mut entries: Vec<(String, Json)> = Vec::new();
        entries.push((String::from_str("description"), self.description.to_json()));
        assert(forall|i: int| 0 <= i < entries@.len() ==> Self::own_key(#[trigger] entries@[i].0@));
        entries.push((String::from_str("code"), self.code.to_json()));
        assert(forall|i: int| 0 <= i < entries@.len() ==> Self::own_key(#[trigger] entries@[i].0@));
        let r = Json::Object(entries);
        proof {
            reveal_strlit("description");
            assert("description"@.len() == 11);
            reveal_strlit("code");
            assert("code"@.len() == 4);
        }
        r
    }

    fn from_json(j: &Json) -> (r: Result<Self, DecodeError>) {
        if let Json::Object(_) = j {
        } else {
            return Err(DecodeError { path: Vec::new() });
        }
        let description = match read_value::<String>(j, "description") {
            Ok(x) => x,
            Err(e) => {
                return Err(e);
            },
        };
        let code = match read_value::<String>(j, "code") {
            Ok(x) => x,
            Err(e) => {
                return Err(e);
            },
        };
        Ok(ErrorCause { description, code })
    }

    proof fn lemma_wire_form_unique(&self, other: &Self, j: Json) {
        lemma_value_field_unique(j, "description"@, self.description, other.description);
        lemma_value_field_unique(j, "code"@, self.code, other.code);
    }
}

} // verus!
