//! What the processor returns for a payment.
use vstd::prelude::*;

use crate::common_types::{Amount, Card, CurrencyId};
use crate::payments::requests::{AdditionalInfo, BuyerIdentification};
use crate::json::{
    array_items, entries_of, field_value, has_key, lemma_absent_key, lemma_list_form_unique,
    lemma_opt_value_field_unique, lemma_value_field_unique, list_agrees, list_field,
    list_omits_absent, list_to_json, list_written_field, opt_value_field, opt_written_field,
    read_list_field, read_opt_value, read_value, value_field, written_field, DecodeError, Json,
    Metadata, WireValue,
};

verus! {

broadcast use crate::json::lemma_lookup_push;

/// What comes back when a payment is created.
#[derive(Debug, PartialEq)]
pub struct CreatePaymentResponse {
    pub additional_info: Option<AdditionalInfo>,
    pub card: Card,
    pub collector_id: i64,
    pub coupon_amount: i64,
    pub currency_id: CurrencyId,
    pub date_approved: String,
    pub date_created: String,
    pub date_last_updated: String,
    pub description: String,
    pub external_reference: String,
    pub fee_details: Vec<FeeDetail>,
    pub id: i64,
    pub installments: i64,
    pub issuer_id: i64,
    pub metadata: Option<Metadata>,
    pub money_release_date: String,
    pub notification_url: String,
    pub order: Order,
    pub payer: BuyerIdentification,
    pub payment_method_id: String,
    pub payment_type_id: String,
    pub point_of_interaction: PointOfInteraction,
    pub processing_mode: String,
    pub shipping_amount: i64,
    pub statement_descriptor: String,
    pub status: String,
    pub status_detail: String,
    pub taxes_amount: i64,
    pub transaction_amount: Amount,
    pub transaction_amount_refunded: i64,
    pub transaction_details: TransactionDetails,
}

impl WireValue for CreatePaymentResponse {
    open spec fn wire_form(&self, j: Json) -> bool {
        &&& j is Object
        &&& opt_value_field(j, "additional_info"@, self.additional_info)
        &&& value_field(j, "card"@, self.card)
        &&& value_field(j, "collector_id"@, self.collector_id)
        &&& value_field(j, "coupon_amount"@, self.coupon_amount)
        &&& value_field(j, "currency_id"@, self.currency_id)
        &&& value_field(j, "date_approved"@, self.date_approved)
        &&& value_field(j, "date_created"@, self.date_created)
        &&& value_field(j, "date_last_updated"@, self.date_last_updated)
        &&& value_field(j, "description"@, self.description)
        &&& value_field(j, "external_reference"@, self.external_reference)
        &&& list_field(j, "fee_details"@, self.fee_details@)
        &&& value_field(j, "id"@, self.id)
        &&& value_field(j, "installments"@, self.installments)
        &&& value_field(j, "issuer_id"@, self.issuer_id)
        &&& opt_value_field(j, "metadata"@, self.metadata)
        &&& value_field(j, "money_release_date"@, self.money_release_date)
        &&& value_field(j, "notification_url"@, self.notification_url)
        &&& value_field(j, "order"@, self.order)
        &&& value_field(j, "payer"@, self.payer)
        &&& value_field(j, "payment_method_id"@, self.payment_method_id)
        &&& value_field(j, "payment_type_id"@, self.payment_type_id)
        &&& value_field(j, "point_of_interaction"@, self.point_of_interaction)
        &&& value_field(j, "processing_mode"@, self.processing_mode)
        &&& value_field(j, "shipping_amount"@, self.shipping_amount)
        &&& value_field(j, "statement_descriptor"@, self.statement_descriptor)
        &&& value_field(j, "status"@, self.status)
        &&& value_field(j, "status_detail"@, self.status_detail)
        &&& value_field(j, "taxes_amount"@, self.taxes_amount)
        &&& value_field(j, "transaction_amount"@, self.transaction_amount)
        &&& value_field(j, "transaction_amount_refunded"@, self.transaction_amount_refunded)
        &&& value_field(j, "transaction_details"@, self.transaction_details)
    }

    open spec fn omits_absent(&self, j: Json) -> bool {
        &&& (self.additional_info is None ==> !has_key(j, "additional_info"@))
        &&& (self.additional_info is Some ==> self.additional_info.unwrap().omits_absent(field_value(j, "additional_info"@)))
        &&& self.card.omits_absent(field_value(j, "card"@))
        &&& self.currency_id.omits_absent(field_value(j, "currency_id"@))
        &&& list_omits_absent(array_items(field_value(j, "fee_details"@)), self.fee_details@)
        &&& (self.metadata is None ==> !has_key(j, "metadata"@))
        &&& (self.metadata is Some ==> self.metadata.unwrap().omits_absent(field_value(j, "metadata"@)))
        &&& self.order.omits_absent(field_value(j, "order"@))
        &&& self.payer.omits_absent(field_value(j, "payer"@))
        &&& self.point_of_interaction.omits_absent(field_value(j, "point_of_interaction"@))
        &&& self.transaction_amount.omits_absent(field_value(j, "transaction_amount"@))
        &&& self.transaction_details.omits_absent(field_value(j, "transaction_details"@))
    }

    open spec fn agrees(&self, other: &Self) -> bool {
        &&& (self.additional_info is Some <==> other.additional_info is Some)
        &&& (self.additional_info is Some ==> self.additional_info.unwrap().agrees(&other.additional_info.unwrap()))
        &&& self.card.agrees(&other.card)
        &&& self.collector_id.agrees(&other.collector_id)
        &&& self.coupon_amount.agrees(&other.coupon_amount)
        &&& self.currency_id.agrees(&other.currency_id)
        &&& self.date_approved.agrees(&other.date_approved)
        &&& self.date_created.agrees(&other.date_created)
        &&& self.date_last_updated.agrees(&other.date_last_updated)
        &&& self.description.agrees(&other.description)
        &&& self.external_reference.agrees(&other.external_reference)
        &&& list_agrees(self.fee_details@, other.fee_details@)
        &&& self.id.agrees(&other.id)
        &&& self.installments.agrees(&other.installments)
        &&& self.issuer_id.agrees(&other.issuer_id)
        &&& (self.metadata is Some <==> other.metadata is Some)
        &&& (self.metadata is Some ==> self.metadata.unwrap().agrees(&other.metadata.unwrap()))
        &&& self.money_release_date.agrees(&other.money_release_date)
        &&& self.notification_url.agrees(&other.notification_url)
        &&& self.order.agrees(&other.order)
        &&& self.payer.agrees(&other.payer)
        &&& self.payment_method_id.agrees(&other.payment_method_id)
        &&& self.payment_type_id.agrees(&other.payment_type_id)
        &&& self.point_of_interaction.agrees(&other.point_of_interaction)
        &&& self.processing_mode.agrees(&other.processing_mode)
        &&& self.shipping_amount.agrees(&other.shipping_amount)
        &&& self.statement_descriptor.agrees(&other.statement_descriptor)
        &&& self.status.agrees(&other.status)
        &&& self.status_detail.agrees(&other.status_detail)
        &&& self.taxes_amount.agrees(&other.taxes_amount)
        &&& self.transaction_amount.agrees(&other.transaction_amount)
        &&& self.transaction_amount_refunded.agrees(&other.transaction_amount_refunded)
        &&& self.transaction_details.agrees(&other.transaction_details)
    }

    open spec fn own_key(key: Seq<char>) -> bool {
        key == "additional_info"@ || key == "card"@ || key == "collector_id"@ || key == "coupon_amount"@ || key == "currency_id"@ || key == "date_approved"@ || key == "date_created"@ || key == "date_last_updated"@ || key == "description"@ || key == "external_reference"@ || key == "fee_details"@ || key == "id"@ || key == "installments"@ || key == "issuer_id"@ || key == "metadata"@ || key == "money_release_date"@ || key == "notification_url"@ || key == "order"@ || key == "payer"@ || key == "payment_method_id"@ || key == "payment_type_id"@ || key == "point_of_interaction"@ || key == "processing_mode"@ || key == "shipping_amount"@ || key == "statement_descriptor"@ || key == "status"@ || key == "status_detail"@ || key == "taxes_amount"@ || key == "transaction_amount"@ || key == "transaction_amount_refunded"@ || key == "transaction_details"@
    }

    open spec fn written_as(&self, j: Json) -> bool {
        &&& j is Object
        &&& forall|i: int| 0 <= i < entries_of(j).len() ==> Self::own_key(#[trigger] entries_of(j)[i].0@)
        &&& opt_written_field(j, "additional_info"@, self.additional_info)
        &&& written_field(j, "card"@, self.card)
        &&& written_field(j, "collector_id"@, self.collector_id)
        &&& written_field(j, "coupon_amount"@, self.coupon_amount)
        &&& written_field(j, "currency_id"@, self.currency_id)
        &&& written_field(j, "date_approved"@, self.date_approved)
        &&& written_field(j, "date_created"@, self.date_created)
        &&& written_field(j, "date_last_updated"@, self.date_last_updated)
        &&& written_field(j, "description"@, self.description)
        &&& written_field(j, "external_reference"@, self.external_reference)
        &&& list_written_field(j, "fee_details"@, self.fee_details@)
        &&& written_field(j, "id"@, self.id)
        &&& written_field(j, "installments"@, self.installments)
        &&& written_field(j, "issuer_id"@, self.issuer_id)
        &&& opt_written_field(j, "metadata"@, self.metadata)
        &&& written_field(j, "money_release_date"@, self.money_release_date)
        &&& written_field(j, "notification_url"@, self.notification_url)
        &&& written_field(j, "order"@, self.order)
        &&& written_field(j, "payer"@, self.payer)
        &&& written_field(j, "payment_method_id"@, self.payment_method_id)
        &&& written_field(j, "payment_type_id"@, self.payment_type_id)
        &&& written_field(j, "point_of_interaction"@, self.point_of_interaction)
        &&& written_field(j, "processing_mode"@, self.processing_mode)
        &&& written_field(j, "shipping_amount"@, self.shipping_amount)
        &&& written_field(j, "statement_descriptor"@, self.statement_descriptor)
        &&& written_field(j, "status"@, self.status)
        &&& written_field(j, "status_detail"@, self.status_detail)
        &&& written_field(j, "taxes_amount"@, self.taxes_amount)
        &&& written_field(j, "transaction_amount"@, self.transaction_amount)
        &&& written_field(j, "transaction_amount_refunded"@, self.transaction_amount_refunded)
        &&& written_field(j, "transaction_details"@, self.transaction_details)
    }

    #[verifier::rlimit(100)]
    fn to_json(&self) -> (r: Json) {
        let mut entries: Vec<(String, Json)> = Vec::new();
        if let Some(x) = &self.additional_info {
            entries.push((String::from_str("additional_info"), x.to_json()));
            assert(forall|i: int| 0 <= i < entries@.len() ==> Self::own_key(#[trigger] entries@[i].0@));
        }
        entries.push((String::from_str("card"), self.card.to_json()));
        assert(forall|i: int| 0 <= i < entries@.len() ==> Self::own_key(#[trigger] entries@[i].0@));
        entries.push((String::from_str("collector_id"), self.collector_id.to_json()));
        assert(forall|i: int| 0 <= i < entries@.len() ==> Self::own_key(#[trigger] entries@[i].0@));
        entries.push((String::from_str("coupon_amount"), self.coupon_amount.to_json()));
        assert(forall|i: int| 0 <= i < entries@.len() ==> Self::own_key(#[trigger] entries@[i].0@));
        entries.push((String::from_str("currency_id"), self.currency_id.to_json()));
        assert(forall|i: int| 0 <= i < entries@.len() ==> Self::own_key(#[trigger] entries@[i].0@));
        entries.push((String::from_str("date_approved"), self.date_approved.to_json()));
        assert(forall|i: int| 0 <= i < entries@.len() ==> Self::own_key(#[trigger] entries@[i].0@));
        entries.push((String::from_str("date_created"), self.date_created.to_json()));
        assert(forall|i: int| 0 <= i < entries@.len() ==> Self::own_key(#[trigger] entries@[i].0@));
        entries.push((String::from_str("date_last_updated"), self.date_last_updated.to_json()));
        assert(forall|i: int| 0 <= i < entries@.len() ==> Self::own_key(#[trigger] entries@[i].0@));
        entries.push((String::from_str("description"), self.description.to_json()));
        assert(forall|i: int| 0 <= i < entries@.len() ==> Self::own_key(#[trigger] entries@[i].0@));
        entries.push((String::from_str("external_reference"), self.external_reference.to_json()));
        assert(forall|i: int| 0 <= i < entries@.len() ==> Self::own_key(#[trigger] entries@[i].0@));
        entries.push((String::from_str("fee_details"), list_to_json(&self.fee_details)));
        assert(forall|i: int| 0 <= i < entries@.len() ==> Self::own_key(#[trigger] entries@[i].0@));
        entries.push((String::from_str("id"), self.id.to_json()));
        assert(forall|i: int| 0 <= i < entries@.len() ==> Self::own_key(#[trigger] entries@[i].0@));
        entries.push((String::from_str("installments"), self.installments.to_json()));
        assert(forall|i: int| 0 <= i < entries@.len() ==> Self::own_key(#[trigger] entries@[i].0@));
        entries.push((String::from_str("issuer_id"), self.issuer_id.to_json()));
        assert(forall|i: int| 0 <= i < entries@.len() ==> Self::own_key(#[trigger] entries@[i].0@));
        if let Some(x) = &self.metadata {
            entries.push((String::from_str("metadata"), x.to_json()));
            assert(forall|i: int| 0 <= i < entries@.len() ==> Self::own_key(#[trigger] entries@[i].0@));
        }
        entries.push((String::from_str("money_release_date"), self.money_release_date.to_json()));
        assert(forall|i: int| 0 <= i < entries@.len() ==> Self::own_key(#[trigger] entries@[i].0@));
        entries.push((String::from_str("notification_url"), self.notification_url.to_json()));
        assert(forall|i: int| 0 <= i < entries@.len() ==> Self::own_key(#[trigger] entries@[i].0@));
        entries.push((String::from_str("order"), self.order.to_json()));
        assert(forall|i: int| 0 <= i < entries@.len() ==> Self::own_key(#[trigger] entries@[i].0@));
        entries.push((String::from_str("payer"), self.payer.to_json()));
        assert(forall|i: int| 0 <= i < entries@.len() ==> Self::own_key(#[trigger] entries@[i].0@));
        entries.push((String::from_str("payment_method_id"), self.payment_method_id.to_json()));
        assert(forall|i: int| 0 <= i < entries@.len() ==> Self::own_key(#[trigger] entries@[i].0@));
        entries.push((String::from_str("payment_type_id"), self.payment_type_id.to_json()));
        assert(forall|i: int| 0 <= i < entries@.len() ==> Self::own_key(#[trigger] entries@[i].0@));
        entries.push((String::from_str("point_of_interaction"), self.point_of_interaction.to_json()));
        assert(forall|i: int| 0 <= i < entries@.len() ==> Self::own_key(#[trigger] entries@[i].0@));
        entries.push((String::from_str("processing_mode"), self.processing_mode.to_json()));
        assert(forall|i: int| 0 <= i < entries@.len() ==> Self::own_key(#[trigger] entries@[i].0@));
        entries.push((String::from_str("shipping_amount"), self.shipping_amount.to_json()));
        assert(forall|i: int| 0 <= i < entries@.len() ==> Self::own_key(#[trigger] entries@[i].0@));
        entries.push((String::from_str("statement_descriptor"), self.statement_descriptor.to_json()));
        assert(forall|i: int| 0 <= i < entries@.len() ==> Self::own_key(#[trigger] entries@[i].0@));
        entries.push((String::from_str("status"), self.status.to_json()));
        assert(forall|i: int| 0 <= i < entries@.len() ==> Self::own_key(#[trigger] entries@[i].0@));
        entries.push((String::from_str("status_detail"), self.status_detail.to_json()));
        assert(forall|i: int| 0 <= i < entries@.len() ==> Self::own_key(#[trigger] entries@[i].0@));
        entries.push((String::from_str("taxes_amount"), self.taxes_amount.to_json()));
        assert(forall|i: int| 0 <= i < entries@.len() ==> Self::own_key(#[trigger] entries@[i].0@));
        entries.push((String::from_str("transaction_amount"), self.transaction_amount.to_json()));
        assert(forall|i: int| 0 <= i < entries@.len() ==> Self::own_key(#[trigger] entries@[i].0@));
        entries.push((String::from_str("transaction_amount_refunded"), self.transaction_amount_refunded.to_json()));
        assert(forall|i: int| 0 <= i < entries@.len() ==> Self::own_key(#[trigger] entries@[i].0@));
        entries.push((String::from_str("transaction_details"), self.transaction_details.to_json()));
        assert(forall|i: int| 0 <= i < entries@.len() ==> Self::own_key(#[trigger] entries@[i].0@));
        let r = Json::Object(entries);
        proof {
            reveal_strlit("additional_info");
            assert("additional_info"@.len() == 15);
            reveal_strlit("card");
            assert("card"@.len() == 4);
            reveal_strlit("collector_id");
            assert("collector_id"@.len() == 12);
            reveal_strlit("coupon_amount");
            assert("coupon_amount"@.len() == 13);
            reveal_strlit("currency_id");
            assert("currency_id"@.len() == 11);
            reveal_strlit("date_approved");
            assert("date_approved"@.len() == 13);
            reveal_strlit("date_created");
            assert("date_created"@.len() == 12);
            reveal_strlit("date_last_updated");
            assert("date_last_updated"@.len() == 17);
            reveal_strlit("description");
            assert("description"@.len() == 11);
            reveal_strlit("external_reference");
            assert("external_reference"@.len() == 18);
            reveal_strlit("fee_details");
            assert("fee_details"@.len() == 11);
            reveal_strlit("id");
            assert("id"@.len() == 2);
            reveal_strlit("installments");
            assert("installments"@.len() == 12);
            reveal_strlit("issuer_id");
            assert("issuer_id"@.len() == 9);
            reveal_strlit("metadata");
            assert("metadata"@.len() == 8);
            reveal_strlit("money_release_date");
            assert("money_release_date"@.len() == 18);
            reveal_strlit("notification_url");
            assert("notification_url"@.len() == 16);
            reveal_strlit("order");
            assert("order"@.len() == 5);
            reveal_strlit("payer");
            assert("payer"@.len() == 5);
            reveal_strlit("payment_method_id");
            assert("payment_method_id"@.len() == 17);
            reveal_strlit("payment_type_id");
            assert("payment_type_id"@.len() == 15);
            reveal_strlit("point_of_interaction");
            assert("point_of_interaction"@.len() == 20);
            reveal_strlit("processing_mode");
            assert("processing_mode"@.len() == 15);
            reveal_strlit("shipping_amount");
            assert("shipping_amount"@.len() == 15);
            reveal_strlit("statement_descriptor");
            assert("statement_descriptor"@.len() == 20);
            reveal_strlit("status");
            assert("status"@.len() == 6);
            reveal_strlit("status_detail");
            assert("status_detail"@.len() == 13);
            reveal_strlit("taxes_amount");
            assert("taxes_amount"@.len() == 12);
            reveal_strlit("transaction_amount");
            assert("transaction_amount"@.len() == 18);
            reveal_strlit("transaction_amount_refunded");
            assert("transaction_amount_refunded"@.len() == 27);
            reveal_strlit("transaction_details");
            assert("transaction_details"@.len() == 19);
            assert("additional_info"@[0] != "payment_type_id"@[0]);
            assert("additional_info"@[0] != "processing_mode"@[0]);
            assert("additional_info"@[0] != "shipping_amount"@[0]);
            assert("collector_id"@[0] != "date_created"@[0]);
            assert("collector_id"@[0] != "installments"@[0]);
            assert("collector_id"@[0] != "taxes_amount"@[0]);
            assert("coupon_amount"@[0] != "date_approved"@[0]);
            assert("coupon_amount"@[0] != "status_detail"@[0]);
            assert("currency_id"@[0] != "description"@[0]);
            assert("currency_id"@[0] != "fee_details"@[0]);
            assert("date_approved"@[0] != "status_detail"@[0]);
            assert("date_created"@[0] != "installments"@[0]);
            assert("date_created"@[0] != "taxes_amount"@[0]);
            assert("date_last_updated"@[0] != "payment_method_id"@[0]);
            assert("description"@[0] != "fee_details"@[0]);
            assert("external_reference"@[0] != "money_release_date"@[0]);
            assert("external_reference"@[0] != "transaction_amount"@[0]);
            assert("installments"@[0] != "taxes_amount"@[0]);
            assert("money_release_date"@[0] != "transaction_amount"@[0]);
            assert("order"@[0] != "payer"@[0]);
            assert("payment_type_id"@[1] != "processing_mode"@[1]);
            assert("payment_type_id"@[0] != "shipping_amount"@[0]);
            assert("point_of_interaction"@[0] != "statement_descriptor"@[0]);
            assert("processing_mode"@[0] != "shipping_amount"@[0]);
            if self.additional_info is None {
                lemma_absent_key(r, "additional_info"@);
            }
            if self.metadata is None {
                lemma_absent_key(r, "metadata"@);
            }
        }
        r
    }

    fn from_json(j: &Json) -> (r: Result<Self, DecodeError>) {
        if let Json::Object(_) = j {
        } else {
            return Err(DecodeError { path: Vec::new() });
        }
        let additional_info = match read_opt_value::<AdditionalInfo>(j, "additional_info") {
            Ok(x) => x,
            Err(e) => {
                return Err(e);
            },
        };
        let card = match read_value::<Card>(j, "card") {
            Ok(x) => x,
            Err(e) => {
                return Err(e);
            },
        };
        let collector_id = match read_value::<i64>(j, "collector_id") {
            Ok(x) => x,
            Err(e) => {
                return Err(e);
            },
        };
        let coupon_amount = match read_value::<i64>(j, "coupon_amount") {
            Ok(x) => x,
            Err(e) => {
                return Err(e);
            },
        };
        let currency_id = match read_value::<CurrencyId>(j, "currency_id") {
            Ok(x) => x,
            Err(e) => {
                return Err(e);
            },
        };
        let date_approved = match read_value::<String>(j, "date_approved") {
            Ok(x) => x,
            Err(e) => {
                return Err(e);
            },
        };
        let date_created = match read_value::<String>(j, "date_created") {
            Ok(x) => x,
            Err(e) => {
                return Err(e);
            },
        };
        let date_last_updated = match read_value::<String>(j, "date_last_updated") {
            Ok(x) => x,
            Err(e) => {
                return Err(e);
            },
        };
        let description = match read_value::<String>(j, "description") {
            Ok(x) => x,
            Err(e) => {
                return Err(e);
            },
        };
        let external_reference = match read_value::<String>(j, "external_reference") {
            Ok(x) => x,
            Err(e) => {
                return Err(e);
            },
        };
        let fee_details = match read_list_field::<FeeDetail>(j, "fee_details") {
            Ok(x) => x,
            Err(e) => {
                return Err(e);
            },
        };
        let id = match read_value::<i64>(j, "id") {
            Ok(x) => x,
            Err(e) => {
                return Err(e);
            },
        };
        let installments = match read_value::<i64>(j, "installments") {
            Ok(x) => x,
            Err(e) => {
                return Err(e);
            },
        };
        let issuer_id = match read_value::<i64>(j, "issuer_id") {
            Ok(x) => x,
            Err(e) => {
                return Err(e);
            },
        };
        let metadata = match read_opt_value::<Metadata>(j, "metadata") {
            Ok(x) => x,
            Err(e) => {
                return Err(e);
            },
        };
        let money_release_date = match read_value::<String>(j, "money_release_date") {
            Ok(x) => x,
            Err(e) => {
                return Err(e);
            },
        };
        let notification_url = match read_value::<String>(j, "notification_url") {
            Ok(x) => x,
            Err(e) => {
                return Err(e);
            },
        };
        let order = match read_value::<Order>(j, "order") {
            Ok(x) => x,
            Err(e) => {
                return Err(e);
            },
        };
        let payer = match read_value::<BuyerIdentification>(j, "payer") {
            Ok(x) => x,
            Err(e) => {
                return Err(e);
            },
        };
        let payment_method_id = match read_value::<String>(j, "payment_method_id") {
            Ok(x) => x,
            Err(e) => {
                return Err(e);
            },
        };
        let payment_type_id = match read_value::<String>(j, "payment_type_id") {
            Ok(x) => x,
            Err(e) => {
                return Err(e);
            },
        };
        let point_of_interaction = match read_value::<PointOfInteraction>(j, "point_of_interaction") {
            Ok(x) => x,
            Err(e) => {
                return Err(e);
            },
        };
        let processing_mode = match read_value::<String>(j, "processing_mode") {
            Ok(x) => x,
            Err(e) => {
                return Err(e);
            },
        };
        let shipping_amount = match read_value::<i64>(j, "shipping_amount") {
            Ok(x) => x,
            Err(e) => {
                return Err(e);
            },
        };
        let statement_descriptor = match read_value::<String>(j, "statement_descriptor") {
            Ok(x) => x,
            Err(e) => {
                return Err(e);
            },
        };
        let status = match read_value::<String>(j, "status") {
            Ok(x) => x,
            Err(e) => {
                return Err(e);
            },
        };
        let status_detail = match read_value::<String>(j, "status_detail") {
            Ok(x) => x,
            Err(e) => {
                return Err(e);
            },
        };
        let taxes_amount = match read_value::<i64>(j, "taxes_amount") {
            Ok(x) => x,
            Err(e) => {
                return Err(e);
            },
        };
        let transaction_amount = match read_value::<Amount>(j, "transaction_amount") {
            Ok(x) => x,
            Err(e) => {
                return Err(e);
            },
        };
        let transaction_amount_refunded = match read_value::<i64>(j, "transaction_amount_refunded") {
            Ok(x) => x,
            Err(e) => {
                return Err(e);
            },
        };
        let transaction_details = match read_value::<TransactionDetails>(j, "transaction_details") {
            Ok(x) => x,
            Err(e) => {
                return Err(e);
            },
        };
        Ok(CreatePaymentResponse { additional_info, card, collector_id, coupon_amount, currency_id, date_approved, date_created, date_last_updated, description, external_reference, fee_details, id, installments, issuer_id, metadata, money_release_date, notification_url, order, payer, payment_method_id, payment_type_id, point_of_interaction, processing_mode, shipping_amount, statement_descriptor, status, status_detail, taxes_amount, transaction_amount, transaction_amount_refunded, transaction_details })
    }

    proof fn lemma_wire_form_unique(&self, other: &Self, j: Json) {
        lemma_opt_value_field_unique(j, "additional_info"@, self.additional_info, other.additional_info);
        lemma_value_field_unique(j, "card"@, self.card, other.card);
        lemma_value_field_unique(j, "collector_id"@, self.collector_id, other.collector_id);
        lemma_value_field_unique(j, "coupon_amount"@, self.coupon_amount, other.coupon_amount);
        lemma_value_field_unique(j, "currency_id"@, self.currency_id, other.currency_id);
        lemma_value_field_unique(j, "date_approved"@, self.date_approved, other.date_approved);
        lemma_value_field_unique(j, "date_created"@, self.date_created, other.date_created);
        lemma_value_field_unique(j, "date_last_updated"@, self.date_last_updated, other.date_last_updated);
        lemma_value_field_unique(j, "description"@, self.description, other.description);
        lemma_value_field_unique(j, "external_reference"@, self.external_reference, other.external_reference);
        lemma_list_form_unique(array_items(field_value(j, "fee_details"@)), self.fee_details@, other.fee_details@);
        lemma_value_field_unique(j, "id"@, self.id, other.id);
        lemma_value_field_unique(j, "installments"@, self.installments, other.installments);
        lemma_value_field_unique(j, "issuer_id"@, self.issuer_id, other.issuer_id);
        lemma_opt_value_field_unique(j, "metadata"@, self.metadata, other.metadata);
        lemma_value_field_unique(j, "money_release_date"@, self.money_release_date, other.money_release_date);
        lemma_value_field_unique(j, "notification_url"@, self.notification_url, other.notification_url);
        lemma_value_field_unique(j, "order"@, self.order, other.order);
        lemma_value_field_unique(j, "payer"@, self.payer, other.payer);
        lemma_value_field_unique(j, "payment_method_id"@, self.payment_method_id, other.payment_method_id);
        lemma_value_field_unique(j, "payment_type_id"@, self.payment_type_id, other.payment_type_id);
        lemma_value_field_unique(j, "point_of_interaction"@, self.point_of_interaction, other.point_of_interaction);
        lemma_value_field_unique(j, "processing_mode"@, self.processing_mode, other.processing_mode);
        lemma_value_field_unique(j, "shipping_amount"@, self.shipping_amount, other.shipping_amount);
        lemma_value_field_unique(j, "statement_descriptor"@, self.statement_descriptor, other.statement_descriptor);
        lemma_value_field_unique(j, "status"@, self.status, other.status);
        lemma_value_field_unique(j, "status_detail"@, self.status_detail, other.status_detail);
        lemma_value_field_unique(j, "taxes_amount"@, self.taxes_amount, other.taxes_amount);
        lemma_value_field_unique(j, "transaction_amount"@, self.transaction_amount, other.transaction_amount);
        lemma_value_field_unique(j, "transaction_amount_refunded"@, self.transaction_amount_refunded, other.transaction_amount_refunded);
        lemma_value_field_unique(j, "transaction_details"@, self.transaction_details, other.transaction_details);
    }
}

/// The order of a created payment, as the processor returns it.
#[derive(Debug, Clone, PartialEq)]
pub struct Order {}

impl WireValue for Order {
    open spec fn wire_form(&self, j: Json) -> bool {
        &&& j is Object
    }

    open spec fn omits_absent(&self, j: Json) -> bool {
        true
    }

    open spec fn agrees(&self, other: &Self) -> bool {
        *self == *other
    }

    open spec fn own_key(key: Seq<char>) -> bool {
        false
    }

    open spec fn written_as(&self, j: Json) -> bool {
        &&& j is Object
        &&& forall|i: int| 0 <= i < entries_of(j).len() ==> Self::own_key(#[trigger] entries_of(j)[i].0@)
    }

    fn to_json(&self) -> (r: Json) {
        let mut entries: Vec<(String, Json)> = Vec::new();
        let r = Json::Object(entries);
        proof {
        }
        r
    }

    fn from_json(j: &Json) -> (r: Result<Self, DecodeError>) {
        if let Json::Object(_) = j {
        } else {
            return Err(DecodeError { path: Vec::new() });
        }
        Ok(Order {  })
    }

    proof fn lemma_wire_form_unique(&self, other: &Self, j: Json) {
    }
}

/// The amounts of a payment after fees.
#[derive(Debug, Clone, PartialEq)]
pub struct TransactionDetails {
    pub net_received_amount: Amount,
    pub total_paid_amount: Amount,
    pub overpaid_amount: i64,
    pub installment_amount: Amount,
}

impl WireValue for TransactionDetails {
    open spec fn wire_form(&self, j: Json) -> bool {
        &&& j is Object
        &&& value_field(j, "net_received_amount"@, self.net_received_amount)
        &&& value_field(j, "total_paid_amount"@, self.total_paid_amount)
        &&& value_field(j, "overpaid_amount"@, self.overpaid_amount)
        &&& value_field(j, "installment_amount"@, self.installment_amount)
    }

    open spec fn omits_absent(&self, j: Json) -> bool {
        &&& self.net_received_amount.omits_absent(field_value(j, "net_received_amount"@))
        &&& self.total_paid_amount.omits_absent(field_value(j, "total_paid_amount"@))
        &&& self.installment_amount.omits_absent(field_value(j, "installment_amount"@))
    }

    open spec fn agrees(&self, other: &Self) -> bool {
        *self == *other
    }

    open spec fn own_key(key: Seq<char>) -> bool {
        key == "net_received_amount"@ || key == "total_paid_amount"@ || key == "overpaid_amount"@ || key == "installment_amount"@
    }

    open spec fn written_as(&self, j: Json) -> bool {
        &&& j is Object
        &&& forall|i: int| 0 <= i < entries_of(j).len() ==> Self::own_key(#[trigger] entries_of(j)[i].0@)
        &&& written_field(j, "net_received_amount"@, self.net_received_amount)
        &&& written_field(j, "total_paid_amount"@, self.total_paid_amount)
        &&& written_field(j, "overpaid_amount"@, self.overpaid_amount)
        &&& written_field(j, "installment_amount"@, self.installment_amount)
    }

    fn to_json(&self) -> (r: Json) {
        let mut entries: Vec<(String, Json)> = Vec::new();
        entries.push((String::from_str("net_received_amount"), self.net_received_amount.to_json()));
        assert(forall|i: int| 0 <= i < entries@.len() ==> Self::own_key(#[trigger] entries@[i].0@));
        entries.push((String::from_str("total_paid_amount"), self.total_paid_amount.to_json()));
        assert(forall|i: int| 0 <= i < entries@.len() ==> Self::own_key(#[trigger] entries@[i].0@));
        entries.push((String::from_str("overpaid_amount"), self.overpaid_amount.to_json()));
        assert(forall|i: int| 0 <= i < entries@.len() ==> Self::own_key(#[trigger] entries@[i].0@));
        entries.push((String::from_str("installment_amount"), self.installment_amount.to_json()));
        assert(forall|i: int| 0 <= i < entries@.len() ==> Self::own_key(#[trigger] entries@[i].0@));
        let r = Json::Object(entries);
        proof {
            reveal_strlit("net_received_amount");
            assert("net_received_amount"@.len() == 19);
            reveal_strlit("total_paid_amount");
            assert("total_paid_amount"@.len() == 17);
            reveal_strlit("overpaid_amount");
            assert("overpaid_amount"@.len() == 15);
            reveal_strlit("installment_amount");
            assert("installment_amount"@.len() == 18);
        }
        r
    }

    fn from_json(j: &Json) -> (r: Result<Self, DecodeError>) {
        if let Json::Object(_) = j {
        } else {
            return Err(DecodeError { path: Vec::new() });
        }
        let net_received_amount = match read_value::<Amount>(j, "net_received_amount") {
            Ok(x) => x,
            Err(e) => {
                return Err(e);
            },
        };
        let total_paid_amount = match read_value::<Amount>(j, "total_paid_amount") {
            Ok(x) => x,
            Err(e) => {
                return Err(e);
            },
        };
        let overpaid_amount = match read_value::<i64>(j, "overpaid_amount") {
            Ok(x) => x,
            Err(e) => {
                return Err(e);
            },
        };
        let installment_amount = match read_value::<Amount>(j, "installment_amount") {
            Ok(x) => x,
            Err(e) => {
                return Err(e);
            },
        };
        Ok(TransactionDetails { net_received_amount, total_paid_amount, overpaid_amount, installment_amount })
    }

    proof fn lemma_wire_form_unique(&self, other: &Self, j: Json) {
        lemma_value_field_unique(j, "net_received_amount"@, self.net_received_amount, other.net_received_amount);
        lemma_value_field_unique(j, "total_paid_amount"@, self.total_paid_amount, other.total_paid_amount);
        lemma_value_field_unique(j, "overpaid_amount"@, self.overpaid_amount, other.overpaid_amount);
        lemma_value_field_unique(j, "installment_amount"@, self.installment_amount, other.installment_amount);
    }
}

/// A fee charged on a payment.
#[derive(Debug, Clone, PartialEq)]
pub struct FeeDetail {
    /// Sent under the key `type`.
    pub type_field: String,
    pub amount: Amount,
    pub fee_payer: String,
}

impl WireValue for FeeDetail {
    open spec fn wire_form(&self, j: Json) -> bool {
        &&& j is Object
        &&& value_field(j, "type"@, self.type_field)
        &&& value_field(j, "amount"@, self.amount)
        &&& value_field(j, "fee_payer"@, self.fee_payer)
    }

    open spec fn omits_absent(&self, j: Json) -> bool {
        self.amount.omits_absent(field_value(j, "amount"@))
    }

    open spec fn agrees(&self, other: &Self) -> bool {
        *self == *other
    }

    open spec fn own_key(key: Seq<char>) -> bool {
        key == "type"@ || key == "amount"@ || key == "fee_payer"@
    }

    open spec fn written_as(&self, j: Json) -> bool {
        &&& j is Object
        &&& forall|i: int| 0 <= i < entries_of(j).len() ==> Self::own_key(#[trigger] entries_of(j)[i].0@)
        &&& written_field(j, "type"@, self.type_field)
        &&& written_field(j, "amount"@, self.amount)
        &&& written_field(j, "fee_payer"@, self.fee_payer)
    }

    fn to_json(&self) -> (r: Json) {
        let mut entries: Vec<(String, Json)> = Vec::new();
        entries.push((String::from_str("type"), self.type_field.to_json()));
        assert(forall|i: int| 0 <= i < entries@.len() ==> Self::own_key(#[trigger] entries@[i].0@));
        entries.push((String::from_str("amount"), self.amount.to_json()));
        assert(forall|i: int| 0 <= i < entries@.len() ==> Self::own_key(#[trigger] entries@[i].0@));
        entries.push((String::from_str("fee_payer"), self.fee_payer.to_json()));
        assert(forall|i: int| 0 <= i < entries@.len() ==> Self::own_key(#[trigger] entries@[i].0@));
        let r = Json::Object(entries);
        proof {
            reveal_strlit("type");
            assert("type"@.len() == 4);
            reveal_strlit("amount");
            assert("amount"@.len() == 6);
            reveal_strlit("fee_payer");
            assert("fee_payer"@.len() == 9);
        }
        r
    }

    fn from_json(j: &Json) -> (r: Result<Self, DecodeError>) {
        if let Json::Object(_) = j {
        } else {
            return Err(DecodeError { path: Vec::new() });
        }
        let type_field = match read_value::<String>(j, "type") {
            Ok(x) => x,
            Err(e) => {
                return Err(e);
            },
        };
        let amount = match read_value::<Amount>(j, "amount") {
            Ok(x) => x,
            Err(e) => {
                return Err(e);
            },
        };
        let fee_payer = match read_value::<String>(j, "fee_payer") {
            Ok(x) => x,
            Err(e) => {
                return Err(e);
            },
        };
        Ok(FeeDetail { type_field, amount, fee_payer })
    }

    proof fn lemma_wire_form_unique(&self, other: &Self, j: Json) {
        lemma_value_field_unique(j, "type"@, self.type_field, other.type_field);
        lemma_value_field_unique(j, "amount"@, self.amount, other.amount);
        lemma_value_field_unique(j, "fee_payer"@, self.fee_payer, other.fee_payer);
    }
}

/// Where the payment was made.
#[derive(Debug, Clone, PartialEq)]
pub struct PointOfInteraction {
    /// Sent under the key `type`.
    pub type_field: String,
    pub application_data: ApplicationData,
    pub transaction_data: TransactionData,
}

impl WireValue for PointOfInteraction {
    open spec fn wire_form(&self, j: Json) -> bool {
        &&& j is Object
        &&& value_field(j, "type"@, self.type_field)
        &&& value_field(j, "application_data"@, self.application_data)
        &&& value_field(j, "transaction_data"@, self.transaction_data)
    }

    open spec fn omits_absent(&self, j: Json) -> bool {
        &&& self.application_data.omits_absent(field_value(j, "application_data"@))
        &&& self.transaction_data.omits_absent(field_value(j, "transaction_data"@))
    }

    open spec fn agrees(&self, other: &Self) -> bool {
        *self == *other
    }

    open spec fn own_key(key: Seq<char>) -> bool {
        key == "type"@ || key == "application_data"@ || key == "transaction_data"@
    }

    open spec fn written_as(&self, j: Json) -> bool {
        &&& j is Object
        &&& forall|i: int| 0 <= i < entries_of(j).len() ==> Self::own_key(#[trigger] entries_of(j)[i].0@)
        &&& written_field(j, "type"@, self.type_field)
        &&& written_field(j, "application_data"@, self.application_data)
        &&& written_field(j, "transaction_data"@, self.transaction_data)
    }

    fn to_json(&self) -> (r: Json) {
        let mut entries: Vec<(String, Json)> = Vec::new();
        entries.push((String::from_str("type"), self.type_field.to_json()));
        assert(forall|i: int| 0 <= i < entries@.len() ==> Self::own_key(#[trigger] entries@[i].0@));
        entries.push((String::from_str("application_data"), self.application_data.to_json()));
        assert(forall|i: int| 0 <= i < entries@.len() ==> Self::own_key(#[trigger] entries@[i].0@));
        entries.push((String::from_str("transaction_data"), self.transaction_data.to_json()));
        assert(forall|i: int| 0 <= i < entries@.len() ==> Self::own_key(#[trigger] entries@[i].0@));
        let r = Json::Object(entries);
        proof {
            reveal_strlit("type");
            assert("type"@.len() == 4);
            reveal_strlit("application_data");
            assert("application_data"@.len() == 16);
            reveal_strlit("transaction_data");
            assert("transaction_data"@.len() == 16);
            assert("application_data"@[0] != "transaction_data"@[0]);
        }
        r
    }

    fn from_json(j: &Json) -> (r: Result<Self, DecodeError>) {
        if let Json::Object(_) = j {
        } else {
            return Err(DecodeError { path: Vec::new() });
        }
        let type_field = match read_value::<String>(j, "type") {
            Ok(x) => x,
            Err(e) => {
                return Err(e);
            },
        };
        let application_data = match read_value::<ApplicationData>(j, "application_data") {
            Ok(x) => x,
            Err(e) => {
                return Err(e);
            },
        };
        let transaction_data = match read_value::<TransactionData>(j, "transaction_data") {
            Ok(x) => x,
            Err(e) => {
                return Err(e);
            },
        };
        Ok(PointOfInteraction { type_field, application_data, transaction_data })
    }

    proof fn lemma_wire_form_unique(&self, other: &Self, j: Json) {
        lemma_value_field_unique(j, "type"@, self.type_field, other.type_field);
        lemma_value_field_unique(j, "application_data"@, self.application_data, other.application_data);
        lemma_value_field_unique(j, "transaction_data"@, self.transaction_data, other.transaction_data);
    }
}

/// The application through which the payment was made.
#[derive(Debug, Clone, PartialEq)]
pub struct ApplicationData {
    pub name: String,
    pub version: String,
}

impl WireValue for ApplicationData {
    open spec fn wire_form(&self, j: Json) -> bool {
        &&& j is Object
        &&& value_field(j, "name"@, self.name)
        &&& value_field(j, "version"@, self.version)
    }

    open spec fn omits_absent(&self, j: Json) -> bool {
        true
    }

    open spec fn agrees(&self, other: &Self) -> bool {
        *self == *other
    }

    open spec fn own_key(key: Seq<char>) -> bool {
        key == "name"@ || key == "version"@
    }

    open spec fn written_as(&self, j: Json) -> bool {
        &&& j is Object
        &&& forall|i: int| 0 <= i < entries_of(j).len() ==> Self::own_key(#[trigger] entries_of(j)[i].0@)
        &&& written_field(j, "name"@, self.name)
        &&& written_field(j, "version"@, self.version)
    }

    fn to_json(&self) -> (r: Json) {
        let mut entries: Vec<(String, Json)> = Vec::new();
        entries.push((String::from_str("name"), self.name.to_json()));
        assert(forall|i: int| 0 <= i < entries@.len() ==> Self::own_key(#[trigger] entries@[i].0@));
        entries.push((String::from_str("version"), self.version.to_json()));
        assert(forall|i: int| 0 <= i < entries@.len() ==> Self::own_key(#[trigger] entries@[i].0@));
        let r = Json::Object(entries);
        proof {
            reveal_strlit("name");
            assert("name"@.len() == 4);
            reveal_strlit("version");
            assert("version"@.len() == 7);
        }
        r
    }

    fn from_json(j: &Json) -> (r: Result<Self, DecodeError>) {
        if let Json::Object(_) = j {
        } else {
            return Err(DecodeError { path: Vec::new() });
        }
        let name = match read_value::<String>(j, "name") {
            Ok(x) => x,
            Err(e) => {
                return Err(e);
            },
        };
        let version = match read_value::<String>(j, "version") {
            Ok(x) => x,
            Err(e) => {
                return Err(e);
            },
        };
        Ok(ApplicationData { name, version })
    }

    proof fn lemma_wire_form_unique(&self, other: &Self, j: Json) {
        lemma_value_field_unique(j, "name"@, self.name, other.name);
        lemma_value_field_unique(j, "version"@, self.version, other.version);
    }
}

/// What the buyer needs to complete a payment by code or ticket.
#[derive(Debug, Clone, PartialEq)]
pub struct TransactionData {
    pub qr_code_base64: String,
    pub qr_code: String,
    pub ticket_url: String,
}

impl WireValue for TransactionData {
    open spec fn wire_form(&self, j: Json) -> bool {
        &&& j is Object
        &&& value_field(j, "qr_code_base64"@, self.qr_code_base64)
        &&& value_field(j, "qr_code"@, self.qr_code)
        &&& value_field(j, "ticket_url"@, self.ticket_url)
    }

    open spec fn omits_absent(&self, j: Json) -> bool {
        true
    }

    open spec fn agrees(&self, other: &Self) -> bool {
        *self == *other
    }

    open spec fn own_key(key: Seq<char>) -> bool {
        key == "qr_code_base64"@ || key == "qr_code"@ || key == "ticket_url"@
    }

    open spec fn written_as(&self, j: Json) -> bool {
        &&& j is Object
        &&& forall|i: int| 0 <= i < entries_of(j).len() ==> Self::own_key(#[trigger] entries_of(j)[i].0@)
        &&& written_field(j, "qr_code_base64"@, self.qr_code_base64)
        &&& written_field(j, "qr_code"@, self.qr_code)
        &&& written_field(j, "ticket_url"@, self.ticket_url)
    }

    fn to_json(&self) -> (r: Json) {
        let mut entries: Vec<(String, Json)> = Vec::new();
        entries.push((String::from_str("qr_code_base64"), self.qr_code_base64.to_json()));
        assert(forall|i: int| 0 <= i < entries@.len() ==> Self::own_key(#[trigger] entries@[i].0@));
        entries.push((String::from_str("qr_code"), self.qr_code.to_json()));
        assert(forall|i: int| 0 <= i < entries@.len() ==> Self::own_key(#[trigger] entries@[i].0@));
        entries.push((String::from_str("ticket_url"), self.ticket_url.to_json()));
        assert(forall|i: int| 0 <= i < entries@.len() ==> Self::own_key(#[trigger] entries@[i].0@));
        let r = Json::Object(entries);
        proof {
            reveal_strlit("qr_code_base64");
            assert("qr_code_base64"@.len() == 14);
            reveal_strlit("qr_code");
            assert("qr_code"@.len() == 7);
            reveal_strlit("ticket_url");
            assert("ticket_url"@.len() == 10);
        }
        r
    }

    fn from_json(j: &Json) -> (r: Result<Self, DecodeError>) {
        if let Json::Object(_) = j {
        } else {
            return Err(DecodeError { path: Vec::new() });
        }
        let qr_code_base64 = match read_value::<String>(j, "qr_code_base64") {
            Ok(x) => x,
            Err(e) => {
                return Err(e);
            },
        };
        let qr_code = match read_value::<String>(j, "qr_code") {
            Ok(x) => x,
            Err(e) => {
                return Err(e);
            },
        };
        let ticket_url = match read_value::<String>(j, "ticket_url") {
            Ok(x) => x,
            Err(e) => {
                return Err(e);
            },
        };
        Ok(TransactionData { qr_code_base64, qr_code, ticket_url })
    }

    proof fn lemma_wire_form_unique(&self, other: &Self, j: Json) {
        lemma_value_field_unique(j, "qr_code_base64"@, self.qr_code_base64, other.qr_code_base64);
        lemma_value_field_unique(j, "qr_code"@, self.qr_code, other.qr_code);
        lemma_value_field_unique(j, "ticket_url"@, self.ticket_url, other.ticket_url);
    }
}

} // verus!
