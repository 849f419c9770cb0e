//! What is sent to create a checkout preference.
use vstd::prelude::*;

use crate::common_types::{BackUrls, CheckoutProPayer, Item, PaymentMethods, Timestamp};
use crate::json::{
    array_items, entries_of, field_value, has_key, lemma_absent_key, lemma_list_form_unique,
    lemma_opt_value_field_unique, lemma_value_field_unique, list_agrees, list_field,
    list_omits_absent, list_to_json, list_written_field, opt_value_field, opt_written_field,
    read_list_field, read_opt_value, read_value, str_equal, value_field, written_field, DecodeError,
    Json, WireValue,
};

verus! {

broadcast use crate::json::lemma_lookup_push;

/// Whether the buyer is sent back to the seller's site right after paying.
#[derive(Debug, PartialEq, Eq, Structural, Clone, Copy)]
pub enum AutoReturn {
    /// Only after approved payments.
    Approved,
    /// After every payment.
    All,
}

impl AutoReturn {
    /// The token that stands for this value on the wire.
    pub open spec fn spec_wire_name(self) -> Seq<char> {
        match self {
            AutoReturn::Approved => "approved"@,
            AutoReturn::All => "all"@,
        }
    }

    /// The value that a wire token stands for, if any.
    pub open spec fn spec_from_wire_name(s: Seq<char>) -> Option<AutoReturn> {
        if s == "approved"@ {
            Some(AutoReturn::Approved)
        } else if s == "all"@ {
            Some(AutoReturn::All)
        } else {
            None
        }
    }

    pub fn wire_name(&self) -> (r: &'static str)
        ensures
            r@ == self.spec_wire_name(),
    {
        match self {
            AutoReturn::Approved => "approved",
            AutoReturn::All => "all",
        }
    }

    pub fn from_wire_name(s: &str) -> (r: Option<AutoReturn>)
        ensures
            r == AutoReturn::spec_from_wire_name(s@),
    {
        if str_equal(s, "approved") {
            Some(AutoReturn::Approved)
        } else if str_equal(s, "all") {
            Some(AutoReturn::All)
        } else {
            None
        }
    }

    /// Each value reads back from its own token.
    pub proof fn lemma_wire_name_round_trip(self)
        ensures
            AutoReturn::spec_from_wire_name(self.spec_wire_name()) == Some(self),
    {
        reveal_strlit("approved");
        assert("approved"@.len() == 8);
        reveal_strlit("all");
        assert("all"@.len() == 3);
    }
}

/// The configuration of a hosted checkout page: what is sold, to whom, and
/// how the page behaves.
#[derive(Debug, PartialEq)]
pub struct CheckoutProPreferences {
    pub items: Vec<Item>,
    pub payer: CheckoutProPayer,
    /// The seller's account id.
    pub collector_id: i64,
    /// The token of an `AutoReturn`.
    pub auto_return: Option<String>,
    pub back_urls: Option<BackUrls>,
    pub payment_methods: Option<PaymentMethods>,
    /// Where the processor notifies payment updates.
    pub notification_url: Option<String>,
    /// How the purchase appears on the buyer's card invoice.
    pub statement_descriptor: String,
    pub external_reference: Option<String>,
    /// For offers limited in time: whether the preference expires, and its
    /// window as RFC 3339 texts.
    pub expires: Option<bool>,
    pub expiration_date_from: Option<String>,
    pub expiration_date_to: Option<String>,
}

impl WireValue for CheckoutProPreferences {
    open spec fn wire_form(&self, j: Json) -> bool {
        &&& j is Object
        &&& list_field(j, "items"@, self.items@)
        &&& value_field(j, "payer"@, self.payer)
        &&& value_field(j, "collector_id"@, self.collector_id)
        &&& opt_value_field(j, "auto_return"@, self.auto_return)
        &&& opt_value_field(j, "back_urls"@, self.back_urls)
        &&& opt_value_field(j, "payment_methods"@, self.payment_methods)
        &&& opt_value_field(j, "notification_url"@, self.notification_url)
        &&& value_field(j, "statement_descriptor"@, self.statement_descriptor)
        &&& opt_value_field(j, "external_reference"@, self.external_reference)
        &&& opt_value_field(j, "expires"@, self.expires)
        &&& opt_value_field(j, "expiration_date_from"@, self.expiration_date_from)
        &&& opt_value_field(j, "expiration_date_to"@, self.expiration_date_to)
    }

    open spec fn omits_absent(&self, j: Json) -> bool {
        &&& list_omits_absent(array_items(field_value(j, "items"@)), self.items@)
        &&& self.payer.omits_absent(field_value(j, "payer"@))
        &&& (self.auto_return is None ==> !has_key(j, "auto_return"@))
        &&& (self.back_urls is None ==> !has_key(j, "back_urls"@))
        &&& (self.back_urls is Some ==> self.back_urls.unwrap().omits_absent(field_value(j, "back_urls"@)))
        &&& (self.payment_methods is None ==> !has_key(j, "payment_methods"@))
        &&& (self.payment_methods is Some ==> self.payment_methods.unwrap().omits_absent(field_value(j, "payment_methods"@)))
        &&& (self.notification_url is None ==> !has_key(j, "notification_url"@))
        &&& (self.external_reference is None ==> !has_key(j, "external_reference"@))
        &&& (self.expires is None ==> !has_key(j, "expires"@))
        &&& (self.expiration_date_from is None ==> !has_key(j, "expiration_date_from"@))
        &&& (self.expiration_date_to is None ==> !has_key(j, "expiration_date_to"@))
    }

    open spec fn agrees(&self, other: &Self) -> bool {
        &&& list_agrees(self.items@, other.items@)
        &&& self.payer.agrees(&other.payer)
        &&& self.collector_id.agrees(&other.collector_id)
        &&& (self.auto_return is Some <==> other.auto_return is Some)
        &&& (self.auto_return is Some ==> self.auto_return.unwrap().agrees(&other.auto_return.unwrap()))
        &&& (self.back_urls is Some <==> other.back_urls is Some)
        &&& (self.back_urls is Some ==> self.back_urls.unwrap().agrees(&other.back_urls.unwrap()))
        &&& (self.payment_methods is Some <==> other.payment_methods is Some)
        &&& (self.payment_methods is Some ==> self.payment_methods.unwrap().agrees(&other.payment_methods.unwrap()))
        &&& (self.notification_url is Some <==> other.notification_url is Some)
        &&& (self.notification_url is Some ==> self.notification_url.unwrap().agrees(&other.notification_url.unwrap()))
        &&& self.statement_descriptor.agrees(&other.statement_descriptor)
        &&& (self.external_reference is Some <==> other.external_reference is Some)
        &&& (self.external_reference is Some ==> self.external_reference.unwrap().agrees(&other.external_reference.unwrap()))
        &&& (self.expires is Some <==> other.expires is Some)
        &&& (self.expires is Some ==> self.expires.unwrap().agrees(&other.expires.unwrap()))
        &&& (self.expiration_date_from is Some <==> other.expiration_date_from is Some)
        &&& (self.expiration_date_from is Some ==> self.expiration_date_from.unwrap().agrees(&other.expiration_date_from.unwrap()))
        &&& (self.expiration_date_to is Some <==> other.expiration_date_to is Some)
        &&& (self.expiration_date_to is Some ==> self.expiration_date_to.unwrap().agrees(&other.expiration_date_to.unwrap()))
    }

    open spec fn own_key(key: Seq<char>) -> bool {
        key == "items"@ || key == "payer"@ || key == "collector_id"@ || key == "auto_return"@ || key == "back_urls"@ || key == "payment_methods"@ || key == "notification_url"@ || key == "statement_descriptor"@ || key == "external_reference"@ || key == "expires"@ || key == "expiration_date_from"@ || key == "expiration_date_to"@
    }

    open spec fn written_as(&self, j: Json) -> bool {
        &&& j is Object
        &&& forall|i: int| 0 <= i < entries_of(j).len() ==> Self::own_key(#[trigger] entries_of(j)[i].0@)
        &&& list_written_field(j, "items"@, self.items@)
        &&& written_field(j, "payer"@, self.payer)
        &&& written_field(j, "collector_id"@, self.collector_id)
        &&& opt_written_field(j, "auto_return"@, self.auto_return)
        &&& opt_written_field(j, "back_urls"@, self.back_urls)
        &&& opt_written_field(j, "payment_methods"@, self.payment_methods)
        &&& opt_written_field(j, "notification_url"@, self.notification_url)
        &&& written_field(j, "statement_descriptor"@, self.statement_descriptor)
        &&& opt_written_field(j, "external_reference"@, self.external_reference)
        &&& opt_written_field(j, "expires"@, self.expires)
        &&& opt_written_field(j, "expiration_date_from"@, self.expiration_date_from)
        &&& opt_written_field(j, "expiration_date_to"@, self.expiration_date_to)
    }

    #[verifier::rlimit(100)]
    fn to_json(&self) -> (r: Json) {
        let mut entries: Vec<(String, Json)> = Vec::new();
        entries.push((String::from_str("items"), list_to_json(&self.items)));
        assert(forall|i: int| 0 <= i < entries@.len() ==> Self::own_key(#[trigger] entries@[i].0@));
        entries.push((String::from_str("payer"), self.payer.to_json()));
        assert(forall|i: int| 0 <= i < entries@.len() ==> Self::own_key(#[trigger] entries@[i].0@));
        entries.push((String::from_str("collector_id"), self.collector_id.to_json()));
        assert(forall|i: int| 0 <= i < entries@.len() ==> Self::own_key(#[trigger] entries@[i].0@));
        if let Some(x) = &self.auto_return {
            entries.push((String::from_str("auto_return"), x.to_json()));
            assert(forall|i: int| 0 <= i < entries@.len() ==> Self::own_key(#[trigger] entries@[i].0@));
        }
        if let Some(x) = &self.back_urls {
            entries.push((String::from_str("back_urls"), x.to_json()));
            assert(forall|i: int| 0 <= i < entries@.len() ==> Self::own_key(#[trigger] entries@[i].0@));
        }
        if let Some(x) = &self.payment_methods {
            entries.push((String::from_str("payment_methods"), x.to_json()));
            assert(forall|i: int| 0 <= i < entries@.len() ==> Self::own_key(#[trigger] entries@[i].0@));
        }
        if let Some(x) = &self.notification_url {
            entries.push((String::from_str("notification_url"), x.to_json()));
            assert(forall|i: int| 0 <= i < entries@.len() ==> Self::own_key(#[trigger] entries@[i].0@));
        }
        entries.push((String::from_str("statement_descriptor"), self.statement_descriptor.to_json()));
        assert(forall|i: int| 0 <= i < entries@.len() ==> Self::own_key(#[trigger] entries@[i].0@));
        if let Some(x) = &self.external_reference {
            entries.push((String::from_str("external_reference"), x.to_json()));
            assert(forall|i: int| 0 <= i < entries@.len() ==> Self::own_key(#[trigger] entries@[i].0@));
        }
        if let Some(x) = &self.expires {
            entries.push((String::from_str("expires"), x.to_json()));
            assert(forall|i: int| 0 <= i < entries@.len() ==> Self::own_key(#[trigger] entries@[i].0@));
        }
        if let Some(x) = &self.expiration_date_from {
            entries.push((String::from_str("expiration_date_from"), x.to_json()));
            assert(forall|i: int| 0 <= i < entries@.len() ==> Self::own_key(#[trigger] entries@[i].0@));
        }
        if let Some(x) = &self.expiration_date_to {
            entries.push((String::from_str("expiration_date_to"), x.to_json()));
            assert(forall|i: int| 0 <= i < entries@.len() ==> Self::own_key(#[trigger] entries@[i].0@));
        }
        let r = Json::Object(entries);
        proof {
            reveal_strlit("items");
            assert("items"@.len() == 5);
            reveal_strlit("payer");
            assert("payer"@.len() == 5);
            reveal_strlit("collector_id");
            assert("collector_id"@.len() == 12);
            reveal_strlit("auto_return");
            assert("auto_return"@.len() == 11);
            reveal_strlit("back_urls");
            assert("back_urls"@.len() == 9);
            reveal_strlit("payment_methods");
            assert("payment_methods"@.len() == 15);
            reveal_strlit("notification_url");
            assert("notification_url"@.len() == 16);
            reveal_strlit("statement_descriptor");
            assert("statement_descriptor"@.len() == 20);
            reveal_strlit("external_reference");
            assert("external_reference"@.len() == 18);
            reveal_strlit("expires");
            assert("expires"@.len() == 7);
            reveal_strlit("expiration_date_from");
            assert("expiration_date_from"@.len() == 20);
            reveal_strlit("expiration_date_to");
            assert("expiration_date_to"@.len() == 18);
            assert("items"@[0] != "payer"@[0]);
            assert("statement_descriptor"@[0] != "expiration_date_from"@[0]);
            assert("external_reference"@[2] != "expiration_date_to"@[2]);
            if self.auto_return is None {
                lemma_absent_key(r, "auto_return"@);
            }
            if self.back_urls is None {
                lemma_absent_key(r, "back_urls"@);
            }
            if self.payment_methods is None {
                lemma_absent_key(r, "payment_methods"@);
            }
            if self.notification_url is None {
                lemma_absent_key(r, "notification_url"@);
            }
            if self.external_reference is None {
                lemma_absent_key(r, "external_reference"@);
            }
            if self.expires is None {
                lemma_absent_key(r, "expires"@);
            }
            if self.expiration_date_from is None {
                lemma_absent_key(r, "expiration_date_from"@);
            }
            if self.expiration_date_to is None {
                lemma_absent_key(r, "expiration_date_to"@);
            }
        }
        r
    }

    fn from_json(j: &Json) -> (r: Result<Self, DecodeError>) {
        if let Json::Object(_) = j {
        } else {
            return Err(DecodeError { path: Vec::new() });
        }
        let items = match read_list_field::<Item>(j, "items") {
            Ok(x) => x,
            Err(e) => {
                return Err(e);
            },
        };
        let payer = match read_value::<CheckoutProPayer>(j, "payer") {
            Ok(x) => x,
            Err(e) => {
                return Err(e);
            },
        };
        let collector_id = match read_value::<i64>(j, "collector_id") {
            Ok(x) => x,
            Err(e) => {
                return Err(e);
            },
        };
        let auto_return = match read_opt_value::<String>(j, "auto_return") {
            Ok(x) => x,
            Err(e) => {
                return Err(e);
            },
        };
        let back_urls = match read_opt_value::<BackUrls>(j, "back_urls") {
            Ok(x) => x,
            Err(e) => {
                return Err(e);
            },
        };
        let payment_methods = match read_opt_value::<PaymentMethods>(j, "payment_methods") {
            Ok(x) => x,
            Err(e) => {
                return Err(e);
            },
        };
        let notification_url = match read_opt_value::<String>(j, "notification_url") {
            Ok(x) => x,
            Err(e) => {
                return Err(e);
            },
        };
        let statement_descriptor = match read_value::<String>(j, "statement_descriptor") {
            Ok(x) => x,
            Err(e) => {
                return Err(e);
            },
        };
        let external_reference = match read_opt_value::<String>(j, "external_reference") {
            Ok(x) => x,
            Err(e) => {
                return Err(e);
            },
        };
        let expires = match read_opt_value::<bool>(j, "expires") {
            Ok(x) => x,
            Err(e) => {
                return Err(e);
            },
        };
        let expiration_date_from = match read_opt_value::<String>(j, "expiration_date_from") {
            Ok(x) => x,
            Err(e) => {
                return Err(e);
            },
        };
        let expiration_date_to = match read_opt_value::<String>(j, "expiration_date_to") {
            Ok(x) => x,
            Err(e) => {
                return Err(e);
            },
        };
        Ok(CheckoutProPreferences { items, payer, collector_id, auto_return, back_urls, payment_methods, notification_url, statement_descriptor, external_reference, expires, expiration_date_from, expiration_date_to })
    }

    proof fn lemma_wire_form_unique(&self, other: &Self, j: Json) {
        lemma_list_form_unique(array_items(field_value(j, "items"@)), self.items@, other.items@);
        lemma_value_field_unique(j, "payer"@, self.payer, other.payer);
        lemma_value_field_unique(j, "collector_id"@, self.collector_id, other.collector_id);
        lemma_opt_value_field_unique(j, "auto_return"@, self.auto_return, other.auto_return);
        lemma_opt_value_field_unique(j, "back_urls"@, self.back_urls, other.back_urls);
        lemma_opt_value_field_unique(j, "payment_methods"@, self.payment_methods, other.payment_methods);
        lemma_opt_value_field_unique(j, "notification_url"@, self.notification_url, other.notification_url);
        lemma_value_field_unique(j, "statement_descriptor"@, self.statement_descriptor, other.statement_descriptor);
        lemma_opt_value_field_unique(j, "external_reference"@, self.external_reference, other.external_reference);
        lemma_opt_value_field_unique(j, "expires"@, self.expires, other.expires);
        lemma_opt_value_field_unique(j, "expiration_date_from"@, self.expiration_date_from, other.expiration_date_from);
        lemma_opt_value_field_unique(j, "expiration_date_to"@, self.expiration_date_to, other.expiration_date_to);
    }
}
/// The seller account that a new preference collects for.
pub const DEFAULT_COLLECTOR_ID: i64 = 182423046;

impl Default for CheckoutProPreferences {
    fn default() -> (r: Self)
        ensures
            r.is_blank(),
    {
        CheckoutProPreferences {
            items: Vec::new(),
            payer: CheckoutProPayer::default(),
            collector_id: DEFAULT_COLLECTOR_ID,
            auto_return: None,
            back_urls: None,
            payment_methods: None,
            notification_url: None,
            statement_descriptor: String::new(),
            external_reference: None,
            expires: None,
            expiration_date_from: None,
            expiration_date_to: None,
        }
    }
}

impl CheckoutProPreferences {
    /// No items, an empty payer, the default collector, an empty statement
    /// descriptor and nothing else.
    pub open spec fn is_blank(&self) -> bool {
        &&& self.items@.len() == 0
        &&& self.payer.email is None
        &&& self.payer.identification.document_type is None
        &&& self.payer.identification.number is None
        &&& self.payer.name is None
        &&& self.payer.surname is None
        &&& self.payer.phone is None
        &&& self.payer.address is None
        &&& self.collector_id == DEFAULT_COLLECTOR_ID
        &&& self.auto_return is None
        &&& self.back_urls is None
        &&& self.payment_methods is None
        &&& self.notification_url is None
        &&& self.statement_descriptor@.len() == 0
        &&& self.external_reference is None
        &&& self.expires is None
        &&& self.expiration_date_from is None
        &&& self.expiration_date_to is None
    }

    /// A blank preference. It needs at least a payer and an item before it
    /// passes validation.
    pub fn new() -> (r: Self)
        ensures
            r.is_blank(),
    {
        CheckoutProPreferences::default()
    }

    /// Sets where the buyer is sent back after paying.
    pub fn set_auto_return(self, auto_return: AutoReturn) -> (r: Self)
        ensures
            r.auto_return matches Some(s) && s@ == auto_return.spec_wire_name(),
            r == (CheckoutProPreferences { auto_return: r.auto_return, ..self }),
    {
        CheckoutProPreferences { auto_return: Some(String::from_str(auto_return.wire_name())), ..self }
    }

    /// Makes the preference valid only from `from_date` to `end_date`.
    pub fn set_limited_offer(self, from_date: Timestamp, end_date: Timestamp) -> (r: Self)
        ensures
            r.expires == Some(true),
            r.expiration_date_from matches Some(s) && s@ == from_date.spec_text(),
            r.expiration_date_to matches Some(s) && s@ == end_date.spec_text(),
            r == (CheckoutProPreferences {
                expires: r.expires,
                expiration_date_from: r.expiration_date_from,
                expiration_date_to: r.expiration_date_to,
                ..self
            }),
    {
        CheckoutProPreferences {
            expires: Some(true),
            expiration_date_from: Some(from_date.to_text()),
            expiration_date_to: Some(end_date.to_text()),
            ..self
        }
    }

    /// Sets the payer.
    pub fn set_payer(self, payer: CheckoutProPayer) -> (r: Self)
        ensures
            r == (CheckoutProPreferences { payer, ..self }),
    {
        CheckoutProPreferences { payer, ..self }
    }

    /// Sets the pages that the buyer is sent back to.
    pub fn set_backurls(self, success: Option<String>, pending: Option<String>, failure: Option<String>) -> (r: Self)
        ensures
            r == (CheckoutProPreferences { back_urls: Some(BackUrls { success, failure, pending }), ..self }),
    {
        CheckoutProPreferences { back_urls: Some(BackUrls { success, failure, pending }), ..self }
    }

    /// Sets the items.
    pub fn set_items(self, items: Vec<Item>) -> (r: Self)
        ensures
            r == (CheckoutProPreferences { items, ..self }),
    {
        CheckoutProPreferences { items, ..self }
    }

    /// Whether the preference may be sent: its payer has a non-empty email,
    /// an identification number and a document type.
    pub fn validate(&self) -> (r: bool)
        ensures
            r == self.payer.is_complete(),
    {
        self.payer.validate()
    }
}

} // verus!
