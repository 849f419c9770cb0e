//! What is sent to create a card token.
use vstd::prelude::*;

use crate::common_types::{Cardholder, PersonalIdentification};
use crate::json::{
    entries_of, field, field_value, has_key, lemma_absent_key, opt_value_field, opt_written_field,
    value_field, written_field, Json, WireValue,
};

verus! {

broadcast use crate::json::lemma_lookup_push;

/// What is sent to create a card token: the card's own data, which is
/// never kept anywhere else.
#[derive(Debug, Clone, PartialEq)]
pub struct CardTokenOptions<'a> {
    pub card_number: &'a str,
    pub expiration_month: &'a str,
    pub expiration_year: &'a str,
    pub security_code: &'a str,
    pub cardholder: Cardholder,
    /// The public key to tokenize with, sent in the query as well.
    pub public_key: Option<String>,
}

impl<'a> CardTokenOptions<'a> {
    /// The options for a card and its holder, with no public key.
    pub fn new(
        card_number: &'a str,
        card_expiration_month: &'a str,
        card_expiration_year: &'a str,
        security_code: &'a str,
        cardholder_name: String,
        cardholder_personal_id: PersonalIdentification,
    ) -> (r: CardTokenOptions<'a>)
        ensures
            r.card_number == card_number,
            r.expiration_month == card_expiration_month,
            r.expiration_year == card_expiration_year,
            r.security_code == security_code,
            r.cardholder.name == cardholder_name,
            r.cardholder.identification == cardholder_personal_id,
            r.public_key is None,
    {
        CardTokenOptions {
            card_number,
            expiration_month: card_expiration_month,
            expiration_year: card_expiration_year,
            security_code,
            cardholder: Cardholder { name: cardholder_name, identification: cardholder_personal_id },
            public_key: None,
        }
    }

    /// `j` is the JSON form of these options: each text under its own key,
    /// the holder as an object, and the public key when there is one.
    pub open spec fn wire_form(&self, j: Json) -> bool {
        &&& j is Object
        &&& field(j, "card_number"@) matches Some(Json::Str(s)) && s@ == self.card_number@
        &&& field(j, "expiration_month"@) matches Some(Json::Str(s)) && s@ == self.expiration_month@
        &&& field(j, "expiration_year"@) matches Some(Json::Str(s)) && s@ == self.expiration_year@
        &&& field(j, "security_code"@) matches Some(Json::Str(s)) && s@ == self.security_code@
        &&& value_field(j, "cardholder"@, self.cardholder)
        &&& opt_value_field(j, "public_key"@, self.public_key)
    }

    /// The keys that the JSON object of the options may hold.
    pub open spec fn own_key(key: Seq<char>) -> bool {
        key == "card_number"@ || key == "expiration_month"@ || key == "expiration_year"@ || key == "security_code"@ || key == "cardholder"@ || key == "public_key"@
    }

    /// `j` is exactly what `to_json` writes: the four texts as strings, the
    /// holder as `Cardholder::to_json` writes it, the public key when there
    /// is one, and no other key.
    pub open spec fn written_as(&self, j: Json) -> bool {
        &&& j is Object
        &&& forall|i: int| 0 <= i < entries_of(j).len() ==> CardTokenOptions::own_key(#[trigger] entries_of(j)[i].0@)
        &&& field(j, "card_number"@) matches Some(Json::Str(s)) && s@ == self.card_number@
        &&& field(j, "expiration_month"@) matches Some(Json::Str(s)) && s@ == self.expiration_month@
        &&& field(j, "expiration_year"@) matches Some(Json::Str(s)) && s@ == self.expiration_year@
        &&& field(j, "security_code"@) matches Some(Json::Str(s)) && s@ == self.security_code@
        &&& written_field(j, "cardholder"@, self.cardholder)
        &&& opt_written_field(j, "public_key"@, self.public_key)
    }

    /// The JSON form of the options. A missing public key is left out.
    pub fn to_json(&self) -> (r: Json)
        ensures
            self.wire_form(r),
            self.written_as(r),
            self.cardholder.omits_absent(field_value(r, "cardholder"@)),
            self.public_key is None ==> !has_key(r, "public_key"@),
    {
        let mut entries: Vec<(String, Json)> = Vec::new();
        entries.push((String::from_str("card_number"), Json::Str(String::from_str(self.card_number))));
        assert(forall|i: int| 0 <= i < entries@.len() ==> CardTokenOptions::own_key(#[trigger] entries@[i].0@));
        entries.push((String::from_str("expiration_month"), Json::Str(String::from_str(self.expiration_month))));
        assert(forall|i: int| 0 <= i < entries@.len() ==> CardTokenOptions::own_key(#[trigger] entries@[i].0@));
        entries.push((String::from_str("expiration_year"), Json::Str(String::from_str(self.expiration_year))));
        assert(forall|i: int| 0 <= i < entries@.len() ==> CardTokenOptions::own_key(#[trigger] entries@[i].0@));
        entries.push((String::from_str("security_code"), Json::Str(String::from_str(self.security_code))));
        assert(forall|i: int| 0 <= i < entries@.len() ==> CardTokenOptions::own_key(#[trigger] entries@[i].0@));
        entries.push((String::from_str("cardholder"), self.cardholder.to_json()));
        assert(forall|i: int| 0 <= i < entries@.len() ==> CardTokenOptions::own_key(#[trigger] entries@[i].0@));
        if let Some(x) = &self.public_key {
            entries.push((String::from_str("public_key"), x.to_json()));
            assert(forall|i: int| 0 <= i < entries@.len() ==> CardTokenOptions::own_key(#[trigger] entries@[i].0@));
        }
        let r = Json::Object(entries);
        proof {
            reveal_strlit("card_number");
            assert("card_number"@.len() == 11);
            reveal_strlit("expiration_month");
            assert("expiration_month"@.len() == 16);
            reveal_strlit("expiration_year");
            assert("expiration_year"@.len() == 15);
            reveal_strlit("security_code");
            assert("security_code"@.len() == 13);
            reveal_strlit("cardholder");
            assert("cardholder"@.len() == 10);
            reveal_strlit("public_key");
            assert("public_key"@.len() == 10);
            assert("cardholder"@[0] != "public_key"@[0]);
            if self.public_key is None {
                lemma_absent_key(r, "public_key"@);
            }
        }
        r
    }
}

} // verus!
