//! What the processor returns for a card token.
use vstd::prelude::*;

use crate::common_types::Card;
use crate::json::{
    entries_of, field, field_value, lemma_opt_value_field_unique, lemma_value_field_unique,
    opt_value_field, read_opt_value, read_value, value_field, written_field, DecodeError, Json,
    WireValue,
};

verus! {

broadcast use {crate::json::lemma_lookup_push, crate::json::lemma_lookup_append};

/// What comes back when a card token is created: the token, and the card
/// as the processor describes it. The card's fields stand in the same
/// object as the token's own.
#[derive(Debug, PartialEq)]
pub struct CardTokenResponse {
    /// Sent under the key `id`.
    pub card_token_id: String,
    pub card: Card,
    /// The public key that the token was made with, if one was; `null`
    /// when there is none.
    pub public_key: Option<String>,
    pub live_mode: bool,
    pub luhn_validation: bool,
    pub require_esc: bool,
    pub status: String,
}

impl WireValue for CardTokenResponse {
    open spec fn wire_form(&self, j: Json) -> bool {
        &&& j is Object
        &&& value_field(j, "id"@, self.card_token_id)
        &&& self.card.wire_form(j)
        &&& opt_value_field(j, "public_key"@, self.public_key)
        &&& value_field(j, "live_mode"@, self.live_mode)
        &&& value_field(j, "luhn_validation"@, self.luhn_validation)
        &&& value_field(j, "require_esc"@, self.require_esc)
        &&& value_field(j, "status"@, self.status)
    }

    open spec fn omits_absent(&self, j: Json) -> bool {
        self.card.omits_absent(j)
    }

    open spec fn agrees(&self, other: &Self) -> bool {
        &&& self.card_token_id == other.card_token_id
        &&& self.card.agrees(&other.card)
        &&& self.public_key == other.public_key
        &&& self.live_mode == other.live_mode
        &&& self.luhn_validation == other.luhn_validation
        &&& self.require_esc == other.require_esc
        &&& self.status == other.status
    }

    open spec fn own_key(key: Seq<char>) -> bool {
        key == "id"@ || key == "public_key"@ || key == "live_mode"@ || key == "luhn_validation"@ || key == "require_esc"@ || key == "status"@ || Card::own_key(key)
    }

    open spec fn written_as(&self, j: Json) -> bool {
        &&& j is Object
        &&& forall|i: int| 0 <= i < entries_of(j).len() ==> Self::own_key(#[trigger] entries_of(j)[i].0@)
        &&& written_field(j, "id"@, self.card_token_id)
        &&& written_field(j, "first_six_digits"@, self.card.first_six_digits)
        &&& written_field(j, "last_four_digits"@, self.card.last_four_digits)
        &&& written_field(j, "expiration_month"@, self.card.expiration_month)
        &&& written_field(j, "expiration_year"@, self.card.expiration_year)
        &&& written_field(j, "card_number_length"@, self.card.card_number_length)
        &&& written_field(j, "security_code_length"@, self.card.security_code_length)
        &&& written_field(j, "cardholder"@, self.card.cardholder)
        &&& written_field(j, "date_created"@, self.card.date_created)
        &&& written_field(j, "date_last_updated"@, self.card.date_last_updated)
        &&& written_field(j, "date_due"@, self.card.date_due)
        &&& match self.public_key {
            Some(k) => written_field(j, "public_key"@, k),
            None => field(j, "public_key"@) == Some(Json::Null),
        }
        &&& written_field(j, "live_mode"@, self.live_mode)
        &&& written_field(j, "luhn_validation"@, self.luhn_validation)
        &&& written_field(j, "require_esc"@, self.require_esc)
        &&& written_field(j, "status"@, self.status)
    }

    fn to_json(&self) -> (r: Json) {
        let mut entries: Vec<(String, Json)> = Vec::new();
        entries.push((String::from_str("id"), self.card_token_id.to_json()));
        assert(forall|i: int| 0 <= i < entries@.len() ==> Self::own_key(#[trigger] entries@[i].0@));
        match &self.public_key {
            Some(x) => entries.push((String::from_str("public_key"), x.to_json())),
            None => entries.push((String::from_str("public_key"), Json::Null)),
        }
        assert(forall|i: int| 0 <= i < entries@.len() ==> Self::own_key(#[trigger] entries@[i].0@));
        entries.push((String::from_str("live_mode"), self.live_mode.to_json()));
        assert(forall|i: int| 0 <= i < entries@.len() ==> Self::own_key(#[trigger] entries@[i].0@));
        entries.push((String::from_str("luhn_validation"), self.luhn_validation.to_json()));
        assert(forall|i: int| 0 <= i < entries@.len() ==> Self::own_key(#[trigger] entries@[i].0@));
        entries.push((String::from_str("require_esc"), self.require_esc.to_json()));
        assert(forall|i: int| 0 <= i < entries@.len() ==> Self::own_key(#[trigger] entries@[i].0@));
        entries.push((String::from_str("status"), self.status.to_json()));
        assert(forall|i: int| 0 <= i < entries@.len() ==> Self::own_key(#[trigger] entries@[i].0@));
        let ghost own = entries@;
        let card_json = self.card.to_json();
        let ghost card_entries = entries_of(card_json);
        match card_json {
            Json::Object(mut card_fields) => {
                entries.append(&mut card_fields);
            },
            _ => {},
        }
        let r = Json::Object(entries);
        proof {
            reveal_strlit("id");
            assert("id"@.len() == 2);
            reveal_strlit("public_key");
            assert("public_key"@.len() == 10);
            reveal_strlit("live_mode");
            assert("live_mode"@.len() == 9);
            reveal_strlit("luhn_validation");
            assert("luhn_validation"@.len() == 15);
            reveal_strlit("require_esc");
            assert("require_esc"@.len() == 11);
            reveal_strlit("status");
            assert("status"@.len() == 6);
            reveal_strlit("first_six_digits");
            assert("first_six_digits"@.len() == 16);
            reveal_strlit("last_four_digits");
            assert("last_four_digits"@.len() == 16);
            reveal_strlit("expiration_month");
            assert("expiration_month"@.len() == 16);
            reveal_strlit("expiration_year");
            assert("expiration_year"@.len() == 15);
            reveal_strlit("card_number_length");
            assert("card_number_length"@.len() == 18);
            reveal_strlit("security_code_length");
            assert("security_code_length"@.len() == 20);
            reveal_strlit("cardholder");
            assert("cardholder"@.len() == 10);
            reveal_strlit("date_created");
            assert("date_created"@.len() == 12);
            reveal_strlit("date_last_updated");
            assert("date_last_updated"@.len() == 17);
            reveal_strlit("date_due");
            assert("date_due"@.len() == 8);
            assert("public_key"@[0] != "cardholder"@[0]);
            assert("luhn_validation"@[0] != "expiration_year"@[0]);
            assert("first_six_digits"@[0] != "last_four_digits"@[0]);
            assert("first_six_digits"@[0] != "expiration_month"@[0]);
            assert("last_four_digits"@[0] != "expiration_month"@[0]);
            assert(entries@ == own + card_entries);
            assert forall|i: int| 0 <= i < entries@.len() implies CardTokenResponse::own_key(
                #[trigger] entries@[i].0@,
            ) by {
                if i < own.len() {
                    assert(entries@[i] == own[i]);
                } else {
                    assert(entries@[i] == card_entries[i - own.len()]);
                }
            }
            assert(field(r, "first_six_digits"@) == field(card_json, "first_six_digits"@));
            assert(field(r, "last_four_digits"@) == field(card_json, "last_four_digits"@));
            assert(field(r, "expiration_month"@) == field(card_json, "expiration_month"@));
            assert(field(r, "expiration_year"@) == field(card_json, "expiration_year"@));
            assert(field(r, "card_number_length"@) == field(card_json, "card_number_length"@));
            assert(field(r, "security_code_length"@) == field(card_json, "security_code_length"@));
            assert(field(r, "cardholder"@) == field(card_json, "cardholder"@));
            assert(field(r, "date_created"@) == field(card_json, "date_created"@));
            assert(field(r, "date_last_updated"@) == field(card_json, "date_last_updated"@));
            assert(field(r, "date_due"@) == field(card_json, "date_due"@));
            assert(field_value(r, "cardholder"@) == field_value(card_json, "cardholder"@));
        }
        r
    }

    fn from_json(j: &Json) -> (r: Result<Self, DecodeError>) {
        if let Json::Object(_) = j {
        } else {
            return Err(DecodeError { path: Vec::new() });
        }
        let card_token_id = match read_value::<String>(j, "id") {
            Ok(x) => x,
            Err(e) => {
                return Err(e);
            },
        };
        let card = match Card::from_json(j) {
            Ok(x) => x,
            Err(e) => {
                return Err(e);
            },
        };
        let public_key = match read_opt_value::<String>(j, "public_key") {
            Ok(x) => x,
            Err(e) => {
                return Err(e);
            },
        };
        let live_mode = match read_value::<bool>(j, "live_mode") {
            Ok(x) => x,
            Err(e) => {
                return Err(e);
            },
        };
        let luhn_validation = match read_value::<bool>(j, "luhn_validation") {
            Ok(x) => x,
            Err(e) => {
                return Err(e);
            },
        };
        let require_esc = match read_value::<bool>(j, "require_esc") {
            Ok(x) => x,
            Err(e) => {
                return Err(e);
            },
        };
        let status = match read_value::<String>(j, "status") {
            Ok(x) => x,
            Err(e) => {
                return Err(e);
            },
        };
        Ok(CardTokenResponse { card_token_id, card, public_key, live_mode, luhn_validation, require_esc, status })
    }

    proof fn lemma_wire_form_unique(&self, other: &Self, j: Json) {
        lemma_value_field_unique(j, "id"@, self.card_token_id, other.card_token_id);
        self.card.lemma_wire_form_unique(&other.card, j);
        lemma_opt_value_field_unique(j, "public_key"@, self.public_key, other.public_key);
        lemma_value_field_unique(j, "live_mode"@, self.live_mode, other.live_mode);
        lemma_value_field_unique(j, "luhn_validation"@, self.luhn_validation, other.luhn_validation);
        lemma_value_field_unique(j, "require_esc"@, self.require_esc, other.require_esc);
        lemma_value_field_unique(j, "status"@, self.status, other.status);
    }
}

} // verus!
