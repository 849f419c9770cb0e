//! The values that several resources share: items, payers, cards, addresses
//! and the like, with their JSON forms.
use vstd::prelude::*;

pub use crate::datetime::Timestamp;
pub use crate::helpers::Amount;

use crate::errors::{SDKError, ValidationError};
use crate::helpers::{decimal_text, parse_amount};
use crate::json::{
    array_items, entries_of, field_value, has_key, id_number_field, id_number_json,
    id_number_written, lemma_absent_key, lemma_list_form_unique, lemma_opt_value_field_unique,
    lemma_value_field_unique, list_agrees, list_field, list_omits_absent, list_to_json,
    list_written_field, number_of, number_written, opt_value_field, opt_written_field,
    read_id_number, read_list_field, read_opt_value, read_value, str_equal, value_field,
    written_field, DecodeError, Json, WireValue,
};
use crate::payments::requests::DocumentType;

verus! {

broadcast use crate::json::lemma_lookup_push;

/// The currency of a payment.
#[derive(Debug, PartialEq, Eq, Structural, Clone, Copy)]
pub enum CurrencyId {
    /// Argentine peso.
    ARS,
    /// Brazilian real.
    BRL,
    /// Chilean peso.
    CLP,
    /// Mexican peso.
    MXN,
    /// Colombian peso.
    COP,
    /// Peruvian sol.
    PEN,
    /// Uruguayan peso.
    UYU,
}

impl CurrencyId {
    /// The token that stands for this value on the wire.
    pub open spec fn spec_wire_name(self) -> Seq<char> {
        match self {
            CurrencyId::ARS => "ARS"@,
            CurrencyId::BRL => "BRL"@,
            CurrencyId::CLP => "CLP"@,
            CurrencyId::MXN => "MXN"@,
            CurrencyId::COP => "COP"@,
            CurrencyId::PEN => "PEN"@,
            CurrencyId::UYU => "UYU"@,
        }
    }

    /// The value that a wire token stands for, if any.
    pub open spec fn spec_from_wire_name(s: Seq<char>) -> Option<CurrencyId> {
        if s == "ARS"@ {
            Some(CurrencyId::ARS)
        } else if s == "BRL"@ {
            Some(CurrencyId::BRL)
        } else if s == "CLP"@ {
            Some(CurrencyId::CLP)
        } else if s == "MXN"@ {
            Some(CurrencyId::MXN)
        } else if s == "COP"@ {
            Some(CurrencyId::COP)
        } else if s == "PEN"@ {
            Some(CurrencyId::PEN)
        } else if s == "UYU"@ {
            Some(CurrencyId::UYU)
        } else {
            None
        }
    }

    pub fn wire_name(&self) -> (r: &'static str)
        ensures
            r@ == self.spec_wire_name(),
    {
        match self {
            CurrencyId::ARS => "ARS",
            CurrencyId::BRL => "BRL",
            CurrencyId::CLP => "CLP",
            CurrencyId::MXN => "MXN",
            CurrencyId::COP => "COP",
            CurrencyId::PEN => "PEN",
            CurrencyId::UYU => "UYU",
        }
    }

    pub fn from_wire_name(s: &str) -> (r: Option<CurrencyId>)
        ensures
            r == CurrencyId::spec_from_wire_name(s@),
    {
        if str_equal(s, "ARS") {
            Some(CurrencyId::ARS)
        } else if str_equal(s, "BRL") {
            Some(CurrencyId::BRL)
        } else if str_equal(s, "CLP") {
            Some(CurrencyId::CLP)
        } else if str_equal(s, "MXN") {
            Some(CurrencyId::MXN)
        } else if str_equal(s, "COP") {
            Some(CurrencyId::COP)
        } else if str_equal(s, "PEN") {
            Some(CurrencyId::PEN)
        } else if str_equal(s, "UYU") {
            Some(CurrencyId::UYU)
        } else {
            None
        }
    }

    /// Each value reads back from its own token.
    pub proof fn lemma_wire_name_round_trip(self)
        ensures
            CurrencyId::spec_from_wire_name(self.spec_wire_name()) == Some(self),
    {
        reveal_strlit("ARS");
        assert("ARS"@.len() == 3);
        reveal_strlit("BRL");
        assert("BRL"@.len() == 3);
        reveal_strlit("CLP");
        assert("CLP"@.len() == 3);
        reveal_strlit("MXN");
        assert("MXN"@.len() == 3);
        reveal_strlit("COP");
        assert("COP"@.len() == 3);
        reveal_strlit("PEN");
        assert("PEN"@.len() == 3);
        reveal_strlit("UYU");
        assert("UYU"@.len() == 3);
        assert("ARS"@[0] != "BRL"@[0]);
        assert("ARS"@[0] != "CLP"@[0]);
        assert("ARS"@[0] != "MXN"@[0]);
        assert("ARS"@[0] != "COP"@[0]);
        assert("ARS"@[0] != "PEN"@[0]);
        assert("ARS"@[0] != "UYU"@[0]);
        assert("BRL"@[0] != "CLP"@[0]);
        assert("BRL"@[0] != "MXN"@[0]);
        assert("BRL"@[0] != "COP"@[0]);
        assert("BRL"@[0] != "PEN"@[0]);
        assert("BRL"@[0] != "UYU"@[0]);
        assert("CLP"@[0] != "MXN"@[0]);
        assert("CLP"@[1] != "COP"@[1]);
        assert("CLP"@[0] != "PEN"@[0]);
        assert("CLP"@[0] != "UYU"@[0]);
        assert("MXN"@[0] != "COP"@[0]);
        assert("MXN"@[0] != "PEN"@[0]);
        assert("MXN"@[0] != "UYU"@[0]);
        assert("COP"@[0] != "PEN"@[0]);
        assert("COP"@[0] != "UYU"@[0]);
        assert("PEN"@[0] != "UYU"@[0]);
    }
}

impl WireValue for CurrencyId {
    open spec fn wire_form(&self, j: Json) -> bool {
        j matches Json::Str(s) && CurrencyId::spec_from_wire_name(s@) == Some(*self)
    }

    open spec fn omits_absent(&self, j: Json) -> bool {
        true
    }

    open spec fn agrees(&self, other: &Self) -> bool {
        *self == *other
    }

    open spec fn own_key(key: Seq<char>) -> bool {
        false
    }

    open spec fn written_as(&self, j: Json) -> bool {
        j matches Json::Str(s) && s@ == self.spec_wire_name()
    }

    fn to_json(&self) -> (r: Json) {
        proof {
            self.lemma_wire_name_round_trip();
        }
        Json::Str(String::from_str(self.wire_name()))
    }

    fn from_json(j: &Json) -> (r: Result<Self, DecodeError>) {
        match j {
            Json::Str(s) => match CurrencyId::from_wire_name(s.as_str()) {
                Some(v) => Ok(v),
                None => Err(DecodeError { path: Vec::new() }),
            },
            _ => Err(DecodeError { path: Vec::new() }),
        }
    }

    proof fn lemma_wire_form_unique(&self, other: &Self, j: Json) {
    }
}

impl WireValue for Amount {
    open spec fn wire_form(&self, j: Json) -> bool {
        j matches Json::Number(t) && parse_amount(t@) == Some(*self)
    }

    open spec fn omits_absent(&self, j: Json) -> bool {
        true
    }

    open spec fn agrees(&self, other: &Self) -> bool {
        *self == *other
    }

    open spec fn own_key(key: Seq<char>) -> bool {
        false
    }

    open spec fn written_as(&self, j: Json) -> bool {
        j matches Json::Number(t) && t@ == decimal_text(self.units as int, self.scale as nat)
    }

    fn to_json(&self) -> (r: Json) {
        Json::Number(self.to_text())
    }

    fn from_json(j: &Json) -> (r: Result<Self, DecodeError>) {
        match j {
            Json::Number(t) => match Amount::from_text(t.as_str()) {
                Some(a) => Ok(a),
                None => Err(DecodeError { path: Vec::new() }),
            },
            _ => Err(DecodeError { path: Vec::new() }),
        }
    }

    proof fn lemma_wire_form_unique(&self, other: &Self, j: Json) {
    }
}

/// A telephone number.
#[derive(Debug, Clone, PartialEq)]
pub struct Phone {
    /// Read from a JSON number or from its decimal text.
    pub area_code: Option<i64>,
    pub number: Option<String>,
}

impl WireValue for Phone {
    open spec fn wire_form(&self, j: Json) -> bool {
        &&& j is Object
        &&& id_number_field(j, "area_code"@, self.area_code)
        &&& opt_value_field(j, "number"@, self.number)
    }

    open spec fn omits_absent(&self, j: Json) -> bool {
        &&& (self.area_code is None ==> !has_key(j, "area_code"@))
        &&& (self.number is None ==> !has_key(j, "number"@))
    }

    open spec fn agrees(&self, other: &Self) -> bool {
        *self == *other
    }

    open spec fn own_key(key: Seq<char>) -> bool {
        key == "area_code"@ || key == "number"@
    }

    open spec fn written_as(&self, j: Json) -> bool {
        &&& j is Object
        &&& forall|i: int| 0 <= i < entries_of(j).len() ==> Self::own_key(#[trigger] entries_of(j)[i].0@)
        &&& number_written(j, "area_code"@, self.area_code)
        &&& opt_written_field(j, "number"@, self.number)
    }

    fn to_json(&self) -> (r: Json) {
        let mut entries: Vec<(String, Json)> = Vec::new();
        if let Some(n) = self.area_code {
            entries.push((String::from_str("area_code"), number_of(n)));
            assert(forall|i: int| 0 <= i < entries@.len() ==> Self::own_key(#[trigger] entries@[i].0@));
        }
        if let Some(x) = &self.number {
            entries.push((String::from_str("number"), x.to_json()));
            assert(forall|i: int| 0 <= i < entries@.len() ==> Self::own_key(#[trigger] entries@[i].0@));
        }
        let r = Json::Object(entries);
        proof {
            reveal_strlit("area_code");
            assert("area_code"@.len() == 9);
            reveal_strlit("number");
            assert("number"@.len() == 6);
            if self.area_code is None {
                lemma_absent_key(r, "area_code"@);
            }
            if self.number is None {
                lemma_absent_key(r, "number"@);
            }
        }
        r
    }

    fn from_json(j: &Json) -> (r: Result<Self, DecodeError>) {
        if let Json::Object(_) = j {
        } else {
            return Err(DecodeError { path: Vec::new() });
        }
        let area_code = match read_id_number(j, "area_code") {
            Ok(x) => x,
            Err(e) => {
                return Err(e);
            },
        };
        let number = match read_opt_value::<String>(j, "number") {
            Ok(x) => x,
            Err(e) => {
                return Err(e);
            },
        };
        Ok(Phone { area_code, number })
    }

    proof fn lemma_wire_form_unique(&self, other: &Self, j: Json) {
        lemma_opt_value_field_unique(j, "number"@, self.number, other.number);
    }
}

/// Where the buyer is sent back to after paying.
#[derive(Debug, Clone, PartialEq)]
pub struct BackUrls {
    pub success: Option<String>,
    pub failure: Option<String>,
    pub pending: Option<String>,
}

impl WireValue for BackUrls {
    open spec fn wire_form(&self, j: Json) -> bool {
        &&& j is Object
        &&& opt_value_field(j, "success"@, self.success)
        &&& opt_value_field(j, "failure"@, self.failure)
        &&& opt_value_field(j, "pending"@, self.pending)
    }

    open spec fn omits_absent(&self, j: Json) -> bool {
        &&& (self.success is None ==> !has_key(j, "success"@))
        &&& (self.failure is None ==> !has_key(j, "failure"@))
        &&& (self.pending is None ==> !has_key(j, "pending"@))
    }

    open spec fn agrees(&self, other: &Self) -> bool {
        *self == *other
    }

    open spec fn own_key(key: Seq<char>) -> bool {
        key == "success"@ || key == "failure"@ || key == "pending"@
    }

    open spec fn written_as(&self, j: Json) -> bool {
        &&& j is Object
        &&& forall|i: int| 0 <= i < entries_of(j).len() ==> Self::own_key(#[trigger] entries_of(j)[i].0@)
        &&& opt_written_field(j, "success"@, self.success)
        &&& opt_written_field(j, "failure"@, self.failure)
        &&& opt_written_field(j, "pending"@, self.pending)
    }

    fn to_json(&self) -> (r: Json) {
        let mut entries: Vec<(String, Json)> = Vec::new();
        if let Some(x) = &self.success {
            entries.push((String::from_str("success"), x.to_json()));
            assert(forall|i: int| 0 <= i < entries@.len() ==> Self::own_key(#[trigger] entries@[i].0@));
        }
        if let Some(x) = &self.failure {
            entries.push((String::from_str("failure"), x.to_json()));
            assert(forall|i: int| 0 <= i < entries@.len() ==> Self::own_key(#[trigger] entries@[i].0@));
        }
        if let Some(x) = &self.pending {
            entries.push((String::from_str("pending"), x.to_json()));
            assert(forall|i: int| 0 <= i < entries@.len() ==> Self::own_key(#[trigger] entries@[i].0@));
        }
        let r = Json::Object(entries);
        proof {
            reveal_strlit("success");
            assert("success"@.len() == 7);
            reveal_strlit("failure");
            assert("failure"@.len() == 7);
            reveal_strlit("pending");
            assert("pending"@.len() == 7);
            assert("success"@[0] != "failure"@[0]);
            assert("success"@[0] != "pending"@[0]);
            assert("failure"@[0] != "pending"@[0]);
            if self.success is None {
                lemma_absent_key(r, "success"@);
            }
            if self.failure is None {
                lemma_absent_key(r, "failure"@);
            }
            if self.pending is None {
                lemma_absent_key(r, "pending"@);
            }
        }
        r
    }

    fn from_json(j: &Json) -> (r: Result<Self, DecodeError>) {
        if let Json::Object(_) = j {
        } else {
            return Err(DecodeError { path: Vec::new() });
        }
        let success = match read_opt_value::<String>(j, "success") {
            Ok(x) => x,
            Err(e) => {
                return Err(e);
            },
        };
        let failure = match read_opt_value::<String>(j, "failure") {
            Ok(x) => x,
            Err(e) => {
                return Err(e);
            },
        };
        let pending = match read_opt_value::<String>(j, "pending") {
            Ok(x) => x,
            Err(e) => {
                return Err(e);
            },
        };
        Ok(BackUrls { success, failure, pending })
    }

    proof fn lemma_wire_form_unique(&self, other: &Self, j: Json) {
        lemma_opt_value_field_unique(j, "success"@, self.success, other.success);
        lemma_opt_value_field_unique(j, "failure"@, self.failure, other.failure);
        lemma_opt_value_field_unique(j, "pending"@, self.pending, other.pending);
    }
}

/// Which ways of paying a checkout offers.
#[derive(Debug, Clone, PartialEq)]
pub struct PaymentMethods {
    /// Card brands that are not offered, such as Visa or Mastercard.
    pub excluded_payment_methods: Vec<ExcludedPaymentMethod>,
    /// Kinds of payment that are not offered, such as tickets.
    pub excluded_payment_types: Vec<ExcludedPaymentType>,
    /// The largest number of installments offered.
    pub installments: Option<i64>,
}

impl WireValue for PaymentMethods {
    open spec fn wire_form(&self, j: Json) -> bool {
        &&& j is Object
        &&& list_field(j, "excluded_payment_methods"@, self.excluded_payment_methods@)
        &&& list_field(j, "excluded_payment_types"@, self.excluded_payment_types@)
        &&& opt_value_field(j, "installments"@, self.installments)
    }

    open spec fn omits_absent(&self, j: Json) -> bool {
        &&& list_omits_absent(array_items(field_value(j, "excluded_payment_methods"@)), self.excluded_payment_methods@)
        &&& list_omits_absent(array_items(field_value(j, "excluded_payment_types"@)), self.excluded_payment_types@)
        &&& (self.installments is None ==> !has_key(j, "installments"@))
    }

    open spec fn agrees(&self, other: &Self) -> bool {
        &&& list_agrees(self.excluded_payment_methods@, other.excluded_payment_methods@)
        &&& list_agrees(self.excluded_payment_types@, other.excluded_payment_types@)
        &&& (self.installments is Some <==> other.installments is Some)
        &&& (self.installments is Some ==> self.installments.unwrap().agrees(&other.installments.unwrap()))
    }

    open spec fn own_key(key: Seq<char>) -> bool {
        key == "excluded_payment_methods"@ || key == "excluded_payment_types"@ || key == "installments"@
    }

    open spec fn written_as(&self, j: Json) -> bool {
        &&& j is Object
        &&& forall|i: int| 0 <= i < entries_of(j).len() ==> Self::own_key(#[trigger] entries_of(j)[i].0@)
        &&& list_written_field(j, "excluded_payment_methods"@, self.excluded_payment_methods@)
        &&& list_written_field(j, "excluded_payment_types"@, self.excluded_payment_types@)
        &&& opt_written_field(j, "installments"@, self.installments)
    }

    fn to_json(&self) -> (r: Json) {
        let mut entries: Vec<(String, Json)> = Vec::new();
        entries.push((String::from_str("excluded_payment_methods"), list_to_json(&self.excluded_payment_methods)));
        assert(forall|i: int| 0 <= i < entries@.len() ==> Self::own_key(#[trigger] entries@[i].0@));
        entries.push((String::from_str("excluded_payment_types"), list_to_json(&self.excluded_payment_types)));
        assert(forall|i: int| 0 <= i < entries@.len() ==> Self::own_key(#[trigger] entries@[i].0@));
        if let Some(x) = &self.installments {
            entries.push((String::from_str("installments"), x.to_json()));
            assert(forall|i: int| 0 <= i < entries@.len() ==> Self::own_key(#[trigger] entries@[i].0@));
        }
        let r = Json::Object(entries);
        proof {
            reveal_strlit("excluded_payment_methods");
            assert("excluded_payment_methods"@.len() == 24);
            reveal_strlit("excluded_payment_types");
            assert("excluded_payment_types"@.len() == 22);
            reveal_strlit("installments");
            assert("installments"@.len() == 12);
            if self.installments is None {
                lemma_absent_key(r, "installments"@);
            }
        }
        r
    }

    fn from_json(j: &Json) -> (r: Result<Self, DecodeError>) {
        if let Json::Object(_) = j {
        } else {
            return Err(DecodeError { path: Vec::new() });
        }
        let excluded_payment_methods = match read_list_field::<ExcludedPaymentMethod>(j, "excluded_payment_methods") {
            Ok(x) => x,
            Err(e) => {
                return Err(e);
            },
        };
        let excluded_payment_types = match read_list_field::<ExcludedPaymentType>(j, "excluded_payment_types") {
            Ok(x) => x,
            Err(e) => {
                return Err(e);
            },
        };
        let installments = match read_opt_value::<i64>(j, "installments") {
            Ok(x) => x,
            Err(e) => {
                return Err(e);
            },
        };
        Ok(PaymentMethods { excluded_payment_methods, excluded_payment_types, installments })
    }

    proof fn lemma_wire_form_unique(&self, other: &Self, j: Json) {
        lemma_list_form_unique(array_items(field_value(j, "excluded_payment_methods"@)), self.excluded_payment_methods@, other.excluded_payment_methods@);
        lemma_list_form_unique(array_items(field_value(j, "excluded_payment_types"@)), self.excluded_payment_types@, other.excluded_payment_types@);
        lemma_opt_value_field_unique(j, "installments"@, self.installments, other.installments);
    }
}

/// A card brand left out of a checkout.
#[derive(Debug, Clone, PartialEq)]
pub struct ExcludedPaymentMethod {
    pub id: Option<String>,
}

impl WireValue for ExcludedPaymentMethod {
    open spec fn wire_form(&self, j: Json) -> bool {
        &&& j is Object
        &&& opt_value_field(j, "id"@, self.id)
    }

    open spec fn omits_absent(&self, j: Json) -> bool {
        (self.id is None ==> !has_key(j, "id"@))
    }

    open spec fn agrees(&self, other: &Self) -> bool {
        *self == *other
    }

    open spec fn own_key(key: Seq<char>) -> bool {
        key == "id"@
    }

    open spec fn written_as(&self, j: Json) -> bool {
        &&& j is Object
        &&& forall|i: int| 0 <= i < entries_of(j).len() ==> Self::own_key(#[trigger] entries_of(j)[i].0@)
        &&& opt_written_field(j, "id"@, self.id)
    }

    fn to_json(&self) -> (r: Json) {
        let mut entries: Vec<(String, Json)> = Vec::new();
        if let Some(x) = &self.id {
            entries.push((String::from_str("id"), x.to_json()));
            assert(forall|i: int| 0 <= i < entries@.len() ==> Self::own_key(#[trigger] entries@[i].0@));
        }
        let r = Json::Object(entries);
        proof {
            reveal_strlit("id");
            if self.id is None {
                lemma_absent_key(r, "id"@);
            }
        }
        r
    }

    fn from_json(j: &Json) -> (r: Result<Self, DecodeError>) {
        if let Json::Object(_) = j {
        } else {
            return Err(DecodeError { path: Vec::new() });
        }
        let id = match read_opt_value::<String>(j, "id") {
            Ok(x) => x,
            Err(e) => {
                return Err(e);
            },
        };
        Ok(ExcludedPaymentMethod { id })
    }

    proof fn lemma_wire_form_unique(&self, other: &Self, j: Json) {
        lemma_opt_value_field_unique(j, "id"@, self.id, other.id);
    }
}

/// A kind of payment left out of a checkout.
#[derive(Debug, Clone, PartialEq)]
pub struct ExcludedPaymentType {
    pub id: Option<String>,
}

impl WireValue for ExcludedPaymentType {
    open spec fn wire_form(&self, j: Json) -> bool {
        &&& j is Object
        &&& opt_value_field(j, "id"@, self.id)
    }

    open spec fn omits_absent(&self, j: Json) -> bool {
        (self.id is None ==> !has_key(j, "id"@))
    }

    open spec fn agrees(&self, other: &Self) -> bool {
        *self == *other
    }

    open spec fn own_key(key: Seq<char>) -> bool {
        key == "id"@
    }

    open spec fn written_as(&self, j: Json) -> bool {
        &&& j is Object
        &&& forall|i: int| 0 <= i < entries_of(j).len() ==> Self::own_key(#[trigger] entries_of(j)[i].0@)
        &&& opt_written_field(j, "id"@, self.id)
    }

    fn to_json(&self) -> (r: Json) {
        let mut entries: Vec<(String, Json)> = Vec::new();
        if let Some(x) = &self.id {
            entries.push((String::from_str("id"), x.to_json()));
            assert(forall|i: int| 0 <= i < entries@.len() ==> Self::own_key(#[trigger] entries@[i].0@));
        }
        let r = Json::Object(entries);
        proof {
            reveal_strlit("id");
            if self.id is None {
                lemma_absent_key(r, "id"@);
            }
        }
        r
    }

    fn from_json(j: &Json) -> (r: Result<Self, DecodeError>) {
        if let Json::Object(_) = j {
        } else {
            return Err(DecodeError { path: Vec::new() });
        }
        let id = match read_opt_value::<String>(j, "id") {
            Ok(x) => x,
            Err(e) => {
                return Err(e);
            },
        };
        Ok(ExcludedPaymentType { id })
    }

    proof fn lemma_wire_form_unique(&self, other: &Self, j: Json) {
        lemma_opt_value_field_unique(j, "id"@, self.id, other.id);
    }
}

/// An item that is paid for.
#[derive(Debug, Clone, PartialEq)]
pub struct Item {
    pub title: String,
    pub description: String,
    /// At least one, when made by `minimal_item`.
    pub quantity: i32,
    pub unit_price: Amount,
    /// The item's id or SKU on the seller's side.
    pub id: Option<String>,
    pub currency_id: Option<CurrencyId>,
    pub picture_url: Option<String>,
    pub category_id: Option<String>,
}

impl WireValue for Item {
    open spec fn wire_form(&self, j: Json) -> bool {
        &&& j is Object
        &&& value_field(j, "title"@, self.title)
        &&& value_field(j, "description"@, self.description)
        &&& value_field(j, "quantity"@, self.quantity)
        &&& value_field(j, "unit_price"@, self.unit_price)
        &&& opt_value_field(j, "id"@, self.id)
        &&& opt_value_field(j, "currency_id"@, self.currency_id)
        &&& opt_value_field(j, "picture_url"@, self.picture_url)
        &&& opt_value_field(j, "category_id"@, self.category_id)
    }

    open spec fn omits_absent(&self, j: Json) -> bool {
        &&& self.unit_price.omits_absent(field_value(j, "unit_price"@))
        &&& (self.id is None ==> !has_key(j, "id"@))
        &&& (self.currency_id is None ==> !has_key(j, "currency_id"@))
        &&& (self.currency_id is Some ==> self.currency_id.unwrap().omits_absent(field_value(j, "currency_id"@)))
        &&& (self.picture_url is None ==> !has_key(j, "picture_url"@))
        &&& (self.category_id is None ==> !has_key(j, "category_id"@))
    }

    open spec fn agrees(&self, other: &Self) -> bool {
        *self == *other
    }

    open spec fn own_key(key: Seq<char>) -> bool {
        key == "title"@ || key == "description"@ || key == "quantity"@ || key == "unit_price"@ || key == "id"@ || key == "currency_id"@ || key == "picture_url"@ || key == "category_id"@
    }

    open spec fn written_as(&self, j: Json) -> bool {
        &&& j is Object
        &&& forall|i: int| 0 <= i < entries_of(j).len() ==> Self::own_key(#[trigger] entries_of(j)[i].0@)
        &&& written_field(j, "title"@, self.title)
        &&& written_field(j, "description"@, self.description)
        &&& written_field(j, "quantity"@, self.quantity)
        &&& written_field(j, "unit_price"@, self.unit_price)
        &&& opt_written_field(j, "id"@, self.id)
        &&& opt_written_field(j, "currency_id"@, self.currency_id)
        &&& opt_written_field(j, "picture_url"@, self.picture_url)
        &&& opt_written_field(j, "category_id"@, self.category_id)
    }

    fn to_json(&self) -> (r: Json) {
        let mut entries: Vec<(String, Json)> = Vec::new();
        entries.push((String::from_str("title"), self.title.to_json()));
        assert(forall|i: int| 0 <= i < entries@.len() ==> Self::own_key(#[trigger] entries@[i].0@));
        entries.push((String::from_str("description"), self.description.to_json()));
        assert(forall|i: int| 0 <= i < entries@.len() ==> Self::own_key(#[trigger] entries@[i].0@));
        entries.push((String::from_str("quantity"), self.quantity.to_json()));
        assert(forall|i: int| 0 <= i < entries@.len() ==> Self::own_key(#[trigger] entries@[i].0@));
        entries.push((String::from_str("unit_price"), self.unit_price.to_json()));
        assert(forall|i: int| 0 <= i < entries@.len() ==> Self::own_key(#[trigger] entries@[i].0@));
        if let Some(x) = &self.id {
            entries.push((String::from_str("id"), x.to_json()));
            assert(forall|i: int| 0 <= i < entries@.len() ==> Self::own_key(#[trigger] entries@[i].0@));
        }
        if let Some(x) = &self.currency_id {
            entries.push((String::from_str("currency_id"), x.to_json()));
            assert(forall|i: int| 0 <= i < entries@.len() ==> Self::own_key(#[trigger] entries@[i].0@));
        }
        if let Some(x) = &self.picture_url {
            entries.push((String::from_str("picture_url"), x.to_json()));
            assert(forall|i: int| 0 <= i < entries@.len() ==> Self::own_key(#[trigger] entries@[i].0@));
        }
        if let Some(x) = &self.category_id {
            entries.push((String::from_str("category_id"), x.to_json()));
            assert(forall|i: int| 0 <= i < entries@.len() ==> Self::own_key(#[trigger] entries@[i].0@));
        }
        let r = Json::Object(entries);
        proof {
            reveal_strlit("title");
            assert("title"@.len() == 5);
            reveal_strlit("description");
            assert("description"@.len() == 11);
            reveal_strlit("quantity");
            assert("quantity"@.len() == 8);
            reveal_strlit("unit_price");
            assert("unit_price"@.len() == 10);
            reveal_strlit("id");
            assert("id"@.len() == 2);
            reveal_strlit("currency_id");
            assert("currency_id"@.len() == 11);
            reveal_strlit("picture_url");
            assert("picture_url"@.len() == 11);
            reveal_strlit("category_id");
            assert("category_id"@.len() == 11);
            assert("description"@[0] != "currency_id"@[0]);
            assert("description"@[0] != "picture_url"@[0]);
            assert("description"@[0] != "category_id"@[0]);
            assert("currency_id"@[0] != "picture_url"@[0]);
            assert("currency_id"@[1] != "category_id"@[1]);
            assert("picture_url"@[0] != "category_id"@[0]);
            if self.id is None {
                lemma_absent_key(r, "id"@);
            }
            if self.currency_id is None {
                lemma_absent_key(r, "currency_id"@);
            }
            if self.picture_url is None {
                lemma_absent_key(r, "picture_url"@);
            }
            if self.category_id is None {
                lemma_absent_key(r, "category_id"@);
            }
        }
        r
    }

    fn from_json(j: &Json) -> (r: Result<Self, DecodeError>) {
        if let Json::Object(_) = j {
        } else {
            return Err(DecodeError { path: Vec::new() });
        }
        let title = match read_value::<String>(j, "title") {
            Ok(x) => x,
            Err(e) => {
                return Err(e);
            },
        };
        let description = match read_value::<String>(j, "description") {
            Ok(x) => x,
            Err(e) => {
                return Err(e);
            },
        };
        let quantity = match read_value::<i32>(j, "quantity") {
            Ok(x) => x,
            Err(e) => {
                return Err(e);
            },
        };
        let unit_price = match read_value::<Amount>(j, "unit_price") {
            Ok(x) => x,
            Err(e) => {
                return Err(e);
            },
        };
        let id = match read_opt_value::<String>(j, "id") {
            Ok(x) => x,
            Err(e) => {
                return Err(e);
            },
        };
        let currency_id = match read_opt_value::<CurrencyId>(j, "currency_id") {
            Ok(x) => x,
            Err(e) => {
                return Err(e);
            },
        };
        let picture_url = match read_opt_value::<String>(j, "picture_url") {
            Ok(x) => x,
            Err(e) => {
                return Err(e);
            },
        };
        let category_id = match read_opt_value::<String>(j, "category_id") {
            Ok(x) => x,
            Err(e) => {
                return Err(e);
            },
        };
        Ok(Item { title, description, quantity, unit_price, id, currency_id, picture_url, category_id })
    }

    proof fn lemma_wire_form_unique(&self, other: &Self, j: Json) {
        lemma_value_field_unique(j, "title"@, self.title, other.title);
        lemma_value_field_unique(j, "description"@, self.description, other.description);
        lemma_value_field_unique(j, "quantity"@, self.quantity, other.quantity);
        lemma_value_field_unique(j, "unit_price"@, self.unit_price, other.unit_price);
        lemma_opt_value_field_unique(j, "id"@, self.id, other.id);
        lemma_opt_value_field_unique(j, "currency_id"@, self.currency_id, other.currency_id);
        lemma_opt_value_field_unique(j, "picture_url"@, self.picture_url, other.picture_url);
        lemma_opt_value_field_unique(j, "category_id"@, self.category_id, other.category_id);
    }
}

impl Item {
    /// An item with a title, a description, a unit price and a quantity,
    /// and nothing else. A quantity below one is refused.
    pub fn minimal_item(name: String, description: String, price: Amount, quantity: i32) -> (r: Result<Item, SDKError>)
        ensures
            quantity < 1 <==> r matches Err(SDKError::ValidationError(ValidationError::ItemError(_))),
            quantity >= 1 <==> r is Ok,
            r matches Ok(item) ==> {
                &&& item.title == name
                &&& item.description == description
                &&& item.quantity == quantity
                &&& item.unit_price == price
                &&& item.id is None
                &&& item.currency_id is None
                &&& item.picture_url is None
                &&& item.category_id is None
            },
    {
        if quantity < 1 {
            return Err(SDKError::ValidationError(ValidationError::ItemError(
                String::from_str("You can't have zero of something."),
            )));
        }
        Ok(Item {
            title: name,
            description,
            quantity,
            unit_price: price,
            id: None,
            currency_id: None,
            picture_url: None,
            category_id: None,
        })
    }
}

/// Where goods are delivered.
#[derive(Debug, Clone, PartialEq)]
pub struct Shipments {
    pub receiver_address: Option<Address>,
}

impl WireValue for Shipments {
    open spec fn wire_form(&self, j: Json) -> bool {
        &&& j is Object
        &&& opt_value_field(j, "receiver_address"@, self.receiver_address)
    }

    open spec fn omits_absent(&self, j: Json) -> bool {
        &&& (self.receiver_address is None ==> !has_key(j, "receiver_address"@))
        &&& (self.receiver_address is Some ==> self.receiver_address.unwrap().omits_absent(field_value(j, "receiver_address"@)))
    }

    open spec fn agrees(&self, other: &Self) -> bool {
        *self == *other
    }

    open spec fn own_key(key: Seq<char>) -> bool {
        key == "receiver_address"@
    }

    open spec fn written_as(&self, j: Json) -> bool {
        &&& j is Object
        &&& forall|i: int| 0 <= i < entries_of(j).len() ==> Self::own_key(#[trigger] entries_of(j)[i].0@)
        &&& opt_written_field(j, "receiver_address"@, self.receiver_address)
    }

    fn to_json(&self) -> (r: Json) {
        let mut entries: Vec<(String, Json)> = Vec::new();
        if let Some(x) = &self.receiver_address {
            entries.push((String::from_str("receiver_address"), x.to_json()));
            assert(forall|i: int| 0 <= i < entries@.len() ==> Self::own_key(#[trigger] entries@[i].0@));
        }
        let r = Json::Object(entries);
        proof {
            reveal_strlit("receiver_address");
            if self.receiver_address is None {
                lemma_absent_key(r, "receiver_address"@);
            }
        }
        r
    }

    fn from_json(j: &Json) -> (r: Result<Self, DecodeError>) {
        if let Json::Object(_) = j {
        } else {
            return Err(DecodeError { path: Vec::new() });
        }
        let receiver_address = match read_opt_value::<Address>(j, "receiver_address") {
            Ok(x) => x,
            Err(e) => {
                return Err(e);
            },
        };
        Ok(Shipments { receiver_address })
    }

    proof fn lemma_wire_form_unique(&self, other: &Self, j: Json) {
        lemma_opt_value_field_unique(j, "receiver_address"@, self.receiver_address, other.receiver_address);
    }
}

/// A postal address.
#[derive(Debug, Clone, PartialEq)]
pub struct Address {
    pub zip_code: Option<String>,
    pub state_name: Option<String>,
    pub city_name: Option<String>,
    pub street_name: Option<String>,
    pub street_number: Option<i64>,
}

impl WireValue for Address {
    open spec fn wire_form(&self, j: Json) -> bool {
        &&& j is Object
        &&& opt_value_field(j, "zip_code"@, self.zip_code)
        &&& opt_value_field(j, "state_name"@, self.state_name)
        &&& opt_value_field(j, "city_name"@, self.city_name)
        &&& opt_value_field(j, "street_name"@, self.street_name)
        &&& opt_value_field(j, "street_number"@, self.street_number)
    }

    open spec fn omits_absent(&self, j: Json) -> bool {
        &&& (self.zip_code is None ==> !has_key(j, "zip_code"@))
        &&& (self.state_name is None ==> !has_key(j, "state_name"@))
        &&& (self.city_name is None ==> !has_key(j, "city_name"@))
        &&& (self.street_name is None ==> !has_key(j, "street_name"@))
        &&& (self.street_number is None ==> !has_key(j, "street_number"@))
    }

    open spec fn agrees(&self, other: &Self) -> bool {
        *self == *other
    }

    open spec fn own_key(key: Seq<char>) -> bool {
        key == "zip_code"@ || key == "state_name"@ || key == "city_name"@ || key == "street_name"@ || key == "street_number"@
    }

    open spec fn written_as(&self, j: Json) -> bool {
        &&& j is Object
        &&& forall|i: int| 0 <= i < entries_of(j).len() ==> Self::own_key(#[trigger] entries_of(j)[i].0@)
        &&& opt_written_field(j, "zip_code"@, self.zip_code)
        &&& opt_written_field(j, "state_name"@, self.state_name)
        &&& opt_written_field(j, "city_name"@, self.city_name)
        &&& opt_written_field(j, "street_name"@, self.street_name)
        &&& opt_written_field(j, "street_number"@, self.street_number)
    }

    fn to_json(&self) -> (r: Json) {
        let mut entries: Vec<(String, Json)> = Vec::new();
        if let Some(x) = &self.zip_code {
            entries.push((String::from_str("zip_code"), x.to_json()));
            assert(forall|i: int| 0 <= i < entries@.len() ==> Self::own_key(#[trigger] entries@[i].0@));
        }
        if let Some(x) = &self.state_name {
            entries.push((String::from_str("state_name"), x.to_json()));
            assert(forall|i: int| 0 <= i < entries@.len() ==> Self::own_key(#[trigger] entries@[i].0@));
        }
        if let Some(x) = &self.city_name {
            entries.push((String::from_str("city_name"), x.to_json()));
            assert(forall|i: int| 0 <= i < entries@.len() ==> Self::own_key(#[trigger] entries@[i].0@));
        }
        if let Some(x) = &self.street_name {
            entries.push((String::from_str("street_name"), x.to_json()));
            assert(forall|i: int| 0 <= i < entries@.len() ==> Self::own_key(#[trigger] entries@[i].0@));
        }
        if let Some(x) = &self.street_number {
            entries.push((String::from_str("street_number"), x.to_json()));
            assert(forall|i: int| 0 <= i < entries@.len() ==> Self::own_key(#[trigger] entries@[i].0@));
        }
        let r = Json::Object(entries);
        proof {
            reveal_strlit("zip_code");
            assert("zip_code"@.len() == 8);
            reveal_strlit("state_name");
            assert("state_name"@.len() == 10);
            reveal_strlit("city_name");
            assert("city_name"@.len() == 9);
            reveal_strlit("street_name");
            assert("street_name"@.len() == 11);
            reveal_strlit("street_number");
            assert("street_number"@.len() == 13);
            if self.zip_code is None {
                lemma_absent_key(r, "zip_code"@);
            }
            if self.state_name is None {
                lemma_absent_key(r, "state_name"@);
            }
            if self.city_name is None {
                lemma_absent_key(r, "city_name"@);
            }
            if self.street_name is None {
                lemma_absent_key(r, "street_name"@);
            }
            if self.street_number is None {
                lemma_absent_key(r, "street_number"@);
            }
        }
        r
    }

    fn from_json(j: &Json) -> (r: Result<Self, DecodeError>) {
        if let Json::Object(_) = j {
        } else {
            return Err(DecodeError { path: Vec::new() });
        }
        let zip_code = match read_opt_value::<String>(j, "zip_code") {
            Ok(x) => x,
            Err(e) => {
                return Err(e);
            },
        };
        let state_name = match read_opt_value::<String>(j, "state_name") {
            Ok(x) => x,
            Err(e) => {
                return Err(e);
            },
        };
        let city_name = match read_opt_value::<String>(j, "city_name") {
            Ok(x) => x,
            Err(e) => {
                return Err(e);
            },
        };
        let street_name = match read_opt_value::<String>(j, "street_name") {
            Ok(x) => x,
            Err(e) => {
                return Err(e);
            },
        };
        let street_number = match read_opt_value::<i64>(j, "street_number") {
            Ok(x) => x,
            Err(e) => {
                return Err(e);
            },
        };
        Ok(Address { zip_code, state_name, city_name, street_name, street_number })
    }

    proof fn lemma_wire_form_unique(&self, other: &Self, j: Json) {
        lemma_opt_value_field_unique(j, "zip_code"@, self.zip_code, other.zip_code);
        lemma_opt_value_field_unique(j, "state_name"@, self.state_name, other.state_name);
        lemma_opt_value_field_unique(j, "city_name"@, self.city_name, other.city_name);
        lemma_opt_value_field_unique(j, "street_name"@, self.street_name, other.street_name);
        lemma_opt_value_field_unique(j, "street_number"@, self.street_number, other.street_number);
    }
}

/// The buyer of a checkout. A payer is complete for sending when it has an
/// email, an identification number and a document type.
#[derive(Debug, Clone, PartialEq)]
pub struct CheckoutProPayer {
    pub email: Option<String>,
    pub identification: PersonalIdentification,
    pub name: Option<String>,
    pub surname: Option<String>,
    pub phone: Option<Phone>,
    pub address: Option<Address>,
}

impl WireValue for CheckoutProPayer {
    open spec fn wire_form(&self, j: Json) -> bool {
        &&& j is Object
        &&& opt_value_field(j, "email"@, self.email)
        &&& value_field(j, "identification"@, self.identification)
        &&& opt_value_field(j, "name"@, self.name)
        &&& opt_value_field(j, "surname"@, self.surname)
        &&& opt_value_field(j, "phone"@, self.phone)
        &&& opt_value_field(j, "address"@, self.address)
    }

    open spec fn omits_absent(&self, j: Json) -> bool {
        &&& (self.email is None ==> !has_key(j, "email"@))
        &&& self.identification.omits_absent(field_value(j, "identification"@))
        &&& (self.name is None ==> !has_key(j, "name"@))
        &&& (self.surname is None ==> !has_key(j, "surname"@))
        &&& (self.phone is None ==> !has_key(j, "phone"@))
        &&& (self.phone is Some ==> self.phone.unwrap().omits_absent(field_value(j, "phone"@)))
        &&& (self.address is None ==> !has_key(j, "address"@))
        &&& (self.address is Some ==> self.address.unwrap().omits_absent(field_value(j, "address"@)))
    }

    open spec fn agrees(&self, other: &Self) -> bool {
        *self == *other
    }

    open spec fn own_key(key: Seq<char>) -> bool {
        key == "email"@ || key == "identification"@ || key == "name"@ || key == "surname"@ || key == "phone"@ || key == "address"@
    }

    open spec fn written_as(&self, j: Json) -> bool {
        &&& j is Object
        &&& forall|i: int| 0 <= i < entries_of(j).len() ==> Self::own_key(#[trigger] entries_of(j)[i].0@)
        &&& opt_written_field(j, "email"@, self.email)
        &&& written_field(j, "identification"@, self.identification)
        &&& opt_written_field(j, "name"@, self.name)
        &&& opt_written_field(j, "surname"@, self.surname)
        &&& opt_written_field(j, "phone"@, self.phone)
        &&& opt_written_field(j, "address"@, self.address)
    }

    fn to_json(&self) -> (r: Json) {
        let mut entries: Vec<(String, Json)> = Vec::new();
        if let Some(x) = &self.email {
            entries.push((String::from_str("email"), x.to_json()));
            assert(forall|i: int| 0 <= i < entries@.len() ==> Self::own_key(#[trigger] entries@[i].0@));
        }
        entries.push((String::from_str("identification"), self.identification.to_json()));
        assert(forall|i: int| 0 <= i < entries@.len() ==> Self::own_key(#[trigger] entries@[i].0@));
        if let Some(x) = &self.name {
            entries.push((String::from_str("name"), x.to_json()));
            assert(forall|i: int| 0 <= i < entries@.len() ==> Self::own_key(#[trigger] entries@[i].0@));
        }
        if let Some(x) = &self.surname {
            entries.push((String::from_str("surname"), x.to_json()));
            assert(forall|i: int| 0 <= i < entries@.len() ==> Self::own_key(#[trigger] entries@[i].0@));
        }
        if let Some(x) = &self.phone {
            entries.push((String::from_str("phone"), x.to_json()));
            assert(forall|i: int| 0 <= i < entries@.len() ==> Self::own_key(#[trigger] entries@[i].0@));
        }
        if let Some(x) = &self.address {
            entries.push((String::from_str("address"), x.to_json()));
            assert(forall|i: int| 0 <= i < entries@.len() ==> Self::own_key(#[trigger] entries@[i].0@));
        }
        let r = Json::Object(entries);
        proof {
            reveal_strlit("email");
            assert("email"@.len() == 5);
            reveal_strlit("identification");
            assert("identification"@.len() == 14);
            reveal_strlit("name");
            assert("name"@.len() == 4);
            reveal_strlit("surname");
            assert("surname"@.len() == 7);
            reveal_strlit("phone");
            assert("phone"@.len() == 5);
            reveal_strlit("address");
            assert("address"@.len() == 7);
            assert("email"@[0] != "phone"@[0]);
            assert("surname"@[0] != "address"@[0]);
            if self.email is None {
                lemma_absent_key(r, "email"@);
            }
            if self.name is None {
                lemma_absent_key(r, "name"@);
            }
            if self.surname is None {
                lemma_absent_key(r, "surname"@);
            }
            if self.phone is None {
                lemma_absent_key(r, "phone"@);
            }
            if self.address is None {
                lemma_absent_key(r, "address"@);
            }
        }
        r
    }

    fn from_json(j: &Json) -> (r: Result<Self, DecodeError>) {
        if let Json::Object(_) = j {
        } else {
            return Err(DecodeError { path: Vec::new() });
        }
        let email = match read_opt_value::<String>(j, "email") {
            Ok(x) => x,
            Err(e) => {
                return Err(e);
            },
        };
        let identification = match read_value::<PersonalIdentification>(j, "identification") {
            Ok(x) => x,
            Err(e) => {
                return Err(e);
            },
        };
        let name = match read_opt_value::<String>(j, "name") {
            Ok(x) => x,
            Err(e) => {
                return Err(e);
            },
        };
        let surname = match read_opt_value::<String>(j, "surname") {
            Ok(x) => x,
            Err(e) => {
                return Err(e);
            },
        };
        let phone = match read_opt_value::<Phone>(j, "phone") {
            Ok(x) => x,
            Err(e) => {
                return Err(e);
            },
        };
        let address = match read_opt_value::<Address>(j, "address") {
            Ok(x) => x,
            Err(e) => {
                return Err(e);
            },
        };
        Ok(CheckoutProPayer { email, identification, name, surname, phone, address })
    }

    proof fn lemma_wire_form_unique(&self, other: &Self, j: Json) {
        lemma_opt_value_field_unique(j, "email"@, self.email, other.email);
        lemma_value_field_unique(j, "identification"@, self.identification, other.identification);
        lemma_opt_value_field_unique(j, "name"@, self.name, other.name);
        lemma_opt_value_field_unique(j, "surname"@, self.surname, other.surname);
        lemma_opt_value_field_unique(j, "phone"@, self.phone, other.phone);
        lemma_opt_value_field_unique(j, "address"@, self.address, other.address);
    }
}

impl CheckoutProPayer {
    /// The payer has a non-empty email, an identification number and a
    /// document type.
    pub open spec fn is_complete(&self) -> bool {
        &&& self.email matches Some(e) && e@.len() > 0
        &&& self.identification.number is Some
        &&& self.identification.document_type is Some
    }

    /// Whether the payer has what a checkout needs of it.
    pub fn validate(&self) -> (r: bool)
        ensures
            r == self.is_complete(),
    {
        match &self.email {
            Some(e) => e.as_str().unicode_len() > 0 && self.identification.number.is_some()
                && self.identification.document_type.is_some(),
            None => false,
        }
    }

    /// A payer with an email and an identification, and nothing else.
    pub fn standard_payer<II>(email: String, document_type: DocumentType, document_number: II) -> (r: Self) where
        II: Into<Option<i64>>,
        ensures
            r.email == Some(email),
            r.identification.document_type == Some(document_type),
            call_ensures(II::into, (document_number,), r.identification.number),
            r.name is None,
            r.surname is None,
            r.phone is None,
            r.address is None,
    {
        CheckoutProPayer {
            email: Some(email),
            identification: PersonalIdentification {
                document_type: Some(document_type),
                number: document_number.into(),
            },
            name: None,
            surname: None,
            phone: None,
            address: None,
        }
    }

    /// A payer with an email and an identification, and nothing else.
    pub fn minimal_payer<II>(email: String, document_type: DocumentType, document_number: II) -> (r: Self) where
        II: Into<Option<i64>>,
        ensures
            r.email == Some(email),
            r.identification.document_type == Some(document_type),
            call_ensures(II::into, (document_number,), r.identification.number),
            r.name is None,
            r.surname is None,
            r.phone is None,
            r.address is None,
    {
        CheckoutProPayer::standard_payer(email, document_type, document_number)
    }
}

impl Default for CheckoutProPayer {
    fn default() -> (r: Self)
        ensures
            r.email is None,
            r.identification.document_type is None,
            r.identification.number is None,
            r.name is None,
            r.surname is None,
            r.phone is None,
            r.address is None,
    {
        CheckoutProPayer {
            email: None,
            identification: PersonalIdentification { document_type: None, number: None },
            name: None,
            surname: None,
            phone: None,
            address: None,
        }
    }
}

/// A document that identifies a person, such as a CPF. The number is sent
/// as its decimal text, and read from that text or from a JSON number.
#[derive(Debug, Clone, PartialEq)]
pub struct PersonalIdentification {
    pub document_type: Option<DocumentType>,
    pub number: Option<i64>,
}

impl WireValue for PersonalIdentification {
    open spec fn wire_form(&self, j: Json) -> bool {
        &&& j is Object
        &&& opt_value_field(j, "type"@, self.document_type)
        &&& id_number_field(j, "number"@, self.number)
    }

    open spec fn omits_absent(&self, j: Json) -> bool {
        &&& (self.document_type is None ==> !has_key(j, "type"@))
        &&& (self.document_type is Some ==> self.document_type.unwrap().omits_absent(field_value(j, "type"@)))
        &&& (self.number is None ==> !has_key(j, "number"@))
    }

    open spec fn agrees(&self, other: &Self) -> bool {
        *self == *other
    }

    open spec fn own_key(key: Seq<char>) -> bool {
        key == "type"@ || key == "number"@
    }

    open spec fn written_as(&self, j: Json) -> bool {
        &&& j is Object
        &&& forall|i: int| 0 <= i < entries_of(j).len() ==> Self::own_key(#[trigger] entries_of(j)[i].0@)
        &&& opt_written_field(j, "type"@, self.document_type)
        &&& id_number_written(j, "number"@, self.number)
    }

    fn to_json(&self) -> (r: Json) {
        let mut entries: Vec<(String, Json)> = Vec::new();
        if let Some(x) = &self.document_type {
            entries.push((String::from_str("type"), x.to_json()));
            assert(forall|i: int| 0 <= i < entries@.len() ==> Self::own_key(#[trigger] entries@[i].0@));
        }
        if let Some(n) = self.number {
            entries.push((String::from_str("number"), id_number_json(n)));
            assert(forall|i: int| 0 <= i < entries@.len() ==> Self::own_key(#[trigger] entries@[i].0@));
        }
        let r = Json::Object(entries);
        proof {
            reveal_strlit("type");
            assert("type"@.len() == 4);
            reveal_strlit("number");
            assert("number"@.len() == 6);
            if self.document_type is None {
                lemma_absent_key(r, "type"@);
            }
            if self.number is None {
                lemma_absent_key(r, "number"@);
            }
        }
        r
    }

    fn from_json(j: &Json) -> (r: Result<Self, DecodeError>) {
        if let Json::Object(_) = j {
        } else {
            return Err(DecodeError { path: Vec::new() });
        }
        let document_type = match read_opt_value::<DocumentType>(j, "type") {
            Ok(x) => x,
            Err(e) => {
                return Err(e);
            },
        };
        let number = match read_id_number(j, "number") {
            Ok(x) => x,
            Err(e) => {
                return Err(e);
            },
        };
        Ok(PersonalIdentification { document_type, number })
    }

    proof fn lemma_wire_form_unique(&self, other: &Self, j: Json) {
        lemma_opt_value_field_unique(j, "type"@, self.document_type, other.document_type);
    }
}

impl PersonalIdentification {
    /// A document of the given type and number.
    pub fn new(document_type: DocumentType, document_number: i64) -> (r: Self)
        ensures
            r.document_type == Some(document_type),
            r.number == Some(document_number),
    {
        PersonalIdentification { document_type: Some(document_type), number: Some(document_number) }
    }
}

/// A card as the processor describes it: never its full number, only the
/// first six and last four digits.
#[derive(Debug, Clone, PartialEq)]
pub struct Card {
    pub first_six_digits: String,
    pub last_four_digits: String,
    pub expiration_month: i64,
    pub expiration_year: i64,
    pub card_number_length: i64,
    pub security_code_length: i64,
    pub cardholder: Cardholder,
    pub date_created: Timestamp,
    pub date_last_updated: Timestamp,
    pub date_due: Timestamp,
}

impl WireValue for Card {
    open spec fn wire_form(&self, j: Json) -> bool {
        &&& j is Object
        &&& value_field(j, "first_six_digits"@, self.first_six_digits)
        &&& value_field(j, "last_four_digits"@, self.last_four_digits)
        &&& value_field(j, "expiration_month"@, self.expiration_month)
        &&& value_field(j, "expiration_year"@, self.expiration_year)
        &&& value_field(j, "card_number_length"@, self.card_number_length)
        &&& value_field(j, "security_code_length"@, self.security_code_length)
        &&& value_field(j, "cardholder"@, self.cardholder)
        &&& value_field(j, "date_created"@, self.date_created)
        &&& value_field(j, "date_last_updated"@, self.date_last_updated)
        &&& value_field(j, "date_due"@, self.date_due)
    }

    open spec fn omits_absent(&self, j: Json) -> bool {
        &&& self.cardholder.omits_absent(field_value(j, "cardholder"@))
        &&& self.date_created.omits_absent(field_value(j, "date_created"@))
        &&& self.date_last_updated.omits_absent(field_value(j, "date_last_updated"@))
        &&& self.date_due.omits_absent(field_value(j, "date_due"@))
    }

    open spec fn agrees(&self, other: &Self) -> bool {
        &&& self.first_six_digits.agrees(&other.first_six_digits)
        &&& self.last_four_digits.agrees(&other.last_four_digits)
        &&& self.expiration_month.agrees(&other.expiration_month)
        &&& self.expiration_year.agrees(&other.expiration_year)
        &&& self.card_number_length.agrees(&other.card_number_length)
        &&& self.security_code_length.agrees(&other.security_code_length)
        &&& self.cardholder.agrees(&other.cardholder)
        &&& self.date_created.agrees(&other.date_created)
        &&& self.date_last_updated.agrees(&other.date_last_updated)
        &&& self.date_due.agrees(&other.date_due)
    }

    open spec fn own_key(key: Seq<char>) -> bool {
        key == "first_six_digits"@ || key == "last_four_digits"@ || key == "expiration_month"@ || key == "expiration_year"@ || key == "card_number_length"@ || key == "security_code_length"@ || key == "cardholder"@ || key == "date_created"@ || key == "date_last_updated"@ || key == "date_due"@
    }

    open spec fn written_as(&self, j: Json) -> bool {
        &&& j is Object
        &&& forall|i: int| 0 <= i < entries_of(j).len() ==> Self::own_key(#[trigger] entries_of(j)[i].0@)
        &&& written_field(j, "first_six_digits"@, self.first_six_digits)
        &&& written_field(j, "last_four_digits"@, self.last_four_digits)
        &&& written_field(j, "expiration_month"@, self.expiration_month)
        &&& written_field(j, "expiration_year"@, self.expiration_year)
        &&& written_field(j, "card_number_length"@, self.card_number_length)
        &&& written_field(j, "security_code_length"@, self.security_code_length)
        &&& written_field(j, "cardholder"@, self.cardholder)
        &&& written_field(j, "date_created"@, self.date_created)
        &&& written_field(j, "date_last_updated"@, self.date_last_updated)
        &&& written_field(j, "date_due"@, self.date_due)
    }

    fn to_json(&self) -> (r: Json) {
        let mut entries: Vec<(String, Json)> = Vec::new();
        entries.push((String::from_str("first_six_digits"), self.first_six_digits.to_json()));
        assert(forall|i: int| 0 <= i < entries@.len() ==> Self::own_key(#[trigger] entries@[i].0@));
        entries.push((String::from_str("last_four_digits"), self.last_four_digits.to_json()));
        assert(forall|i: int| 0 <= i < entries@.len() ==> Self::own_key(#[trigger] entries@[i].0@));
        entries.push((String::from_str("expiration_month"), self.expiration_month.to_json()));
        assert(forall|i: int| 0 <= i < entries@.len() ==> Self::own_key(#[trigger] entries@[i].0@));
        entries.push((String::from_str("expiration_year"), self.expiration_year.to_json()));
        assert(forall|i: int| 0 <= i < entries@.len() ==> Self::own_key(#[trigger] entries@[i].0@));
        entries.push((String::from_str("card_number_length"), self.card_number_length.to_json()));
        assert(forall|i: int| 0 <= i < entries@.len() ==> Self::own_key(#[trigger] entries@[i].0@));
        entries.push((String::from_str("security_code_length"), self.security_code_length.to_json()));
        assert(forall|i: int| 0 <= i < entries@.len() ==> Self::own_key(#[trigger] entries@[i].0@));
        entries.push((String::from_str("cardholder"), self.cardholder.to_json()));
        assert(forall|i: int| 0 <= i < entries@.len() ==> Self::own_key(#[trigger] entries@[i].0@));
        entries.push((String::from_str("date_created"), self.date_created.to_json()));
        assert(forall|i: int| 0 <= i < entries@.len() ==> Self::own_key(#[trigger] entries@[i].0@));
        entries.push((String::from_str("date_last_updated"), self.date_last_updated.to_json()));
        assert(forall|i: int| 0 <= i < entries@.len() ==> Self::own_key(#[trigger] entries@[i].0@));
        entries.push((String::from_str("date_due"), self.date_due.to_json()));
        assert(forall|i: int| 0 <= i < entries@.len() ==> Self::own_key(#[trigger] entries@[i].0@));
        let r = Json::Object(entries);
        proof {
            reveal_strlit("first_six_digits");
            assert("first_six_digits"@.len() == 16);
            reveal_strlit("last_four_digits");
            assert("last_four_digits"@.len() == 16);
            reveal_strlit("expiration_month");
            assert("expiration_month"@.len() == 16);
            reveal_strlit("expiration_year");
            assert("expiration_year"@.len() == 15);
            reveal_strlit("card_number_length");
            assert("card_number_length"@.len() == 18);
            reveal_strlit("security_code_length");
            assert("security_code_length"@.len() == 20);
            reveal_strlit("cardholder");
            assert("cardholder"@.len() == 10);
            reveal_strlit("date_created");
            assert("date_created"@.len() == 12);
            reveal_strlit("date_last_updated");
            assert("date_last_updated"@.len() == 17);
            reveal_strlit("date_due");
            assert("date_due"@.len() == 8);
            assert("first_six_digits"@[0] != "last_four_digits"@[0]);
            assert("first_six_digits"@[0] != "expiration_month"@[0]);
            assert("last_four_digits"@[0] != "expiration_month"@[0]);
        }
        r
    }

    fn from_json(j: &Json) -> (r: Result<Self, DecodeError>) {
        if let Json::Object(_) = j {
        } else {
            return Err(DecodeError { path: Vec::new() });
        }
        let first_six_digits = match read_value::<String>(j, "first_six_digits") {
            Ok(x) => x,
            Err(e) => {
                return Err(e);
            },
        };
        let last_four_digits = match read_value::<String>(j, "last_four_digits") {
            Ok(x) => x,
            Err(e) => {
                return Err(e);
            },
        };
        let expiration_month = match read_value::<i64>(j, "expiration_month") {
            Ok(x) => x,
            Err(e) => {
                return Err(e);
            },
        };
        let expiration_year = match read_value::<i64>(j, "expiration_year") {
            Ok(x) => x,
            Err(e) => {
                return Err(e);
            },
        };
        let card_number_length = match read_value::<i64>(j, "card_number_length") {
            Ok(x) => x,
            Err(e) => {
                return Err(e);
            },
        };
        let security_code_length = match read_value::<i64>(j, "security_code_length") {
            Ok(x) => x,
            Err(e) => {
                return Err(e);
            },
        };
        let cardholder = match read_value::<Cardholder>(j, "cardholder") {
            Ok(x) => x,
            Err(e) => {
                return Err(e);
            },
        };
        let date_created = match read_value::<Timestamp>(j, "date_created") {
            Ok(x) => x,
            Err(e) => {
                return Err(e);
            },
        };
        let date_last_updated = match read_value::<Timestamp>(j, "date_last_updated") {
            Ok(x) => x,
            Err(e) => {
                return Err(e);
            },
        };
        let date_due = match read_value::<Timestamp>(j, "date_due") {
            Ok(x) => x,
            Err(e) => {
                return Err(e);
            },
        };
        Ok(Card { first_six_digits, last_four_digits, expiration_month, expiration_year, card_number_length, security_code_length, cardholder, date_created, date_last_updated, date_due })
    }

    proof fn lemma_wire_form_unique(&self, other: &Self, j: Json) {
        lemma_value_field_unique(j, "first_six_digits"@, self.first_six_digits, other.first_six_digits);
        lemma_value_field_unique(j, "last_four_digits"@, self.last_four_digits, other.last_four_digits);
        lemma_value_field_unique(j, "expiration_month"@, self.expiration_month, other.expiration_month);
        lemma_value_field_unique(j, "expiration_year"@, self.expiration_year, other.expiration_year);
        lemma_value_field_unique(j, "card_number_length"@, self.card_number_length, other.card_number_length);
        lemma_value_field_unique(j, "security_code_length"@, self.security_code_length, other.security_code_length);
        lemma_value_field_unique(j, "cardholder"@, self.cardholder, other.cardholder);
        lemma_value_field_unique(j, "date_created"@, self.date_created, other.date_created);
        lemma_value_field_unique(j, "date_last_updated"@, self.date_last_updated, other.date_last_updated);
        lemma_value_field_unique(j, "date_due"@, self.date_due, other.date_due);
    }
}

/// The owner of a credit or debit card.
#[derive(Debug, Clone, PartialEq)]
pub struct Cardholder {
    pub name: String,
    pub identification: PersonalIdentification,
}

impl WireValue for Cardholder {
    open spec fn wire_form(&self, j: Json) -> bool {
        &&& j is Object
        &&& value_field(j, "name"@, self.name)
        &&& value_field(j, "identification"@, self.identification)
    }

    open spec fn omits_absent(&self, j: Json) -> bool {
        self.identification.omits_absent(field_value(j, "identification"@))
    }

    open spec fn agrees(&self, other: &Self) -> bool {
        *self == *other
    }

    open spec fn own_key(key: Seq<char>) -> bool {
        key == "name"@ || key == "identification"@
    }

    open spec fn written_as(&self, j: Json) -> bool {
        &&& j is Object
        &&& forall|i: int| 0 <= i < entries_of(j).len() ==> Self::own_key(#[trigger] entries_of(j)[i].0@)
        &&& written_field(j, "name"@, self.name)
        &&& written_field(j, "identification"@, self.identification)
    }

    fn to_json(&self) -> (r: Json) {
        let mut entries: Vec<(String, Json)> = Vec::new();
        entries.push((String::from_str("name"), self.name.to_json()));
        assert(forall|i: int| 0 <= i < entries@.len() ==> Self::own_key(#[trigger] entries@[i].0@));
        entries.push((String::from_str("identification"), self.identification.to_json()));
        assert(forall|i: int| 0 <= i < entries@.len() ==> Self::own_key(#[trigger] entries@[i].0@));
        let r = Json::Object(entries);
        proof {
            reveal_strlit("name");
            assert("name"@.len() == 4);
            reveal_strlit("identification");
            assert("identification"@.len() == 14);
        }
        r
    }

    fn from_json(j: &Json) -> (r: Result<Self, DecodeError>) {
        if let Json::Object(_) = j {
        } else {
            return Err(DecodeError { path: Vec::new() });
        }
        let name = match read_value::<String>(j, "name") {
            Ok(x) => x,
            Err(e) => {
                return Err(e);
            },
        };
        let identification = match read_value::<PersonalIdentification>(j, "identification") {
            Ok(x) => x,
            Err(e) => {
                return Err(e);
            },
        };
        Ok(Cardholder { name, identification })
    }

    proof fn lemma_wire_form_unique(&self, other: &Self, j: Json) {
        lemma_value_field_unique(j, "name"@, self.name, other.name);
        lemma_value_field_unique(j, "identification"@, self.identification, other.identification);
    }
}

} // verus!
