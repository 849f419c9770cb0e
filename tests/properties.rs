use mercadopago_sdk_rust::common_types::{
    Amount, BackUrls, Card, Cardholder, CheckoutProPayer, CurrencyId, ExcludedPaymentMethod,
    ExcludedPaymentType, Item, PaymentMethods, PersonalIdentification, Timestamp,
};
use mercadopago_sdk_rust::datetime::DateTimeParts;
use mercadopago_sdk_rust::errors::{ApiError, SDKError, ValidationError};
use mercadopago_sdk_rust::helpers::{read_i64, Stringify};
use mercadopago_sdk_rust::json::{number_of, read_id_number, Json, WireValue};
use mercadopago_sdk_rust::payments::requests::{
    BuyerEntityType, BuyerType, DocumentType, PaymentMethodId, PaymentTypeId,
};
use mercadopago_sdk_rust::pipeline::{classify_response, TextPosition};
use mercadopago_sdk_rust::preferences::requests::{AutoReturn, CheckoutProPreferences};
use mercadopago_sdk_rust::webhooks::{Data, WebhookRequest};

fn s(v: &str) -> Json {
    Json::Str(v.to_string())
}

fn n(v: &str) -> Json {
    Json::Number(v.to_string())
}

fn obj(entries: Vec<(&str, Json)>) -> Json {
    Json::Object(entries.into_iter().map(|(k, v)| (k.to_string(), v)).collect())
}

fn keys(j: &Json) -> Vec<String> {
    match j {
        Json::Object(es) => es.iter().map(|(k, _)| k.clone()).collect(),
        _ => Vec::new(),
    }
}

fn get<'a>(j: &'a Json, key: &str) -> Option<&'a Json> {
    match j {
        Json::Object(es) => es.iter().find(|(k, _)| k == key).map(|(_, v)| v),
        _ => None,
    }
}

fn timestamp(text: &str) -> Timestamp {
    Timestamp::parse(text).unwrap()
}

fn sample_card() -> Card {
    Card {
        first_six_digits: "503143".to_string(),
        last_four_digits: "6351".to_string(),
        expiration_month: 11,
        expiration_year: 2025,
        card_number_length: 16,
        security_code_length: 3,
        cardholder: Cardholder {
            name: "APRO".to_string(),
            identification: PersonalIdentification::new(DocumentType::CPF, 12345678909),
        },
        date_created: timestamp("2022-06-07T12:34:56.789-04:00"),
        date_last_updated: timestamp("2022-06-08T00:00:00Z"),
        date_due: timestamp("2022-06-15T12:34:56-04:00"),
    }
}

fn complete_payer() -> CheckoutProPayer {
    CheckoutProPayer::standard_payer("fulano@beltrano.com.br".to_string(), DocumentType::CPF, 41810524485i64)
}

#[test]
fn minimal_item_rejects_zero_and_negative_quantities() {
    for q in [0, -1, i32::MIN] {
        let r = Item::minimal_item("A".to_string(), "B".to_string(), Amount::new(100, 2), q);
        assert!(matches!(r, Err(SDKError::ValidationError(ValidationError::ItemError(_)))));
    }
}

#[test]
fn minimal_item_keeps_its_fields() {
    let item = Item::minimal_item("Sample item".to_string(), "desc".to_string(), Amount::new(1500, 2), 3).unwrap();
    assert_eq!(item.title, "Sample item");
    assert_eq!(item.description, "desc");
    assert_eq!(item.quantity, 3);
    assert_eq!(item.unit_price, Amount::new(1500, 2));
    assert_eq!(item.id, None);
    assert_eq!(item.currency_id, None);
    assert_eq!(item.picture_url, None);
    assert_eq!(item.category_id, None);
}

#[test]
fn validate_needs_email_number_and_document_type() {
    let prefs = CheckoutProPreferences::new().set_payer(complete_payer());
    assert!(prefs.validate());

    let mut no_email = complete_payer();
    no_email.email = None;
    assert!(!CheckoutProPreferences::new().set_payer(no_email).validate());

    let mut empty_email = complete_payer();
    empty_email.email = Some(String::new());
    assert!(!CheckoutProPreferences::new().set_payer(empty_email).validate());

    let mut no_number = complete_payer();
    no_number.identification.number = None;
    assert!(!CheckoutProPreferences::new().set_payer(no_number).validate());

    let mut no_type = complete_payer();
    no_type.identification.document_type = None;
    assert!(!CheckoutProPreferences::new().set_payer(no_type).validate());

    assert!(!CheckoutProPreferences::new().validate());
}

#[test]
fn item_round_trip() {
    let mut item = Item::minimal_item("Sample item".to_string(), "".to_string(), Amount::new(1500, 2), 1).unwrap();
    assert_eq!(Item::from_json(&item.to_json()).unwrap(), item);
    item.id = Some("sku-1".to_string());
    item.currency_id = Some(CurrencyId::BRL);
    item.picture_url = Some("https://example.com/p.png".to_string());
    item.unit_price = Amount::new(-5, 2);
    assert_eq!(Item::from_json(&item.to_json()).unwrap(), item);
}

#[test]
fn card_round_trip() {
    let card = sample_card();
    let j = card.to_json();
    assert_eq!(get(&j, "date_created"), Some(&s("2022-06-07T12:34:56.789-04:00")));
    assert_eq!(Card::from_json(&j).unwrap(), card);
}

#[test]
fn preference_round_trip() {
    let item = Item::minimal_item("Sample item".to_string(), "".to_string(), Amount::new(1500, 2), 2).unwrap();
    let mut prefs = CheckoutProPreferences::new()
        .set_items(vec![item])
        .set_payer(complete_payer())
        .set_auto_return(AutoReturn::Approved)
        .set_backurls(Some("https://example.com/ok".to_string()), None, Some("https://example.com/ko".to_string()))
        .set_limited_offer(timestamp("2022-06-07T00:00:00Z"), timestamp("2022-06-14T00:00:00Z"));
    prefs.payment_methods = Some(PaymentMethods {
        excluded_payment_methods: vec![ExcludedPaymentMethod { id: Some("amex".to_string()) }],
        excluded_payment_types: vec![ExcludedPaymentType { id: Some("ticket".to_string()) }],
        installments: Some(6),
    });
    let j = prefs.to_json();
    assert_eq!(CheckoutProPreferences::from_json(&j).unwrap(), prefs);
    assert_eq!(get(&j, "auto_return"), Some(&s("approved")));
    assert_eq!(get(&j, "expires"), Some(&Json::Bool(true)));
    assert_eq!(get(&j, "expiration_date_from"), Some(&s("2022-06-07T00:00:00Z")));
    let blank = CheckoutProPreferences::new();
    assert_eq!(CheckoutProPreferences::from_json(&blank.to_json()).unwrap(), blank);
}

#[test]
fn webhook_round_trip() {
    let hook = WebhookRequest {
        notification_id: 12345,
        live_mode: true,
        type_field: "payment".to_string(),
        date_created: "2015-03-25T10:04:58.396-04:00".to_string(),
        application_id: 123123123,
        user_id: 44444,
        version: 1,
        api_version: "v1".to_string(),
        action: "payment.created".to_string(),
        data: Data { payment_id: "999999999".to_string() },
    };
    let j = hook.to_json();
    assert_eq!(get(&j, "id"), Some(&n("12345")));
    assert_eq!(get(&j, "type"), Some(&s("payment")));
    assert_eq!(WebhookRequest::from_json(&j).unwrap(), hook);
}

#[test]
fn absent_fields_are_left_out() {
    let item = Item::minimal_item("A".to_string(), "B".to_string(), Amount::new(1, 0), 1).unwrap();
    let j = item.to_json();
    assert_eq!(keys(&j), vec!["title", "description", "quantity", "unit_price"]);
    let pi = PersonalIdentification { document_type: None, number: None };
    assert_eq!(keys(&pi.to_json()), Vec::<String>::new());
    let urls = BackUrls { success: None, failure: Some("f".to_string()), pending: None };
    assert_eq!(keys(&urls.to_json()), vec!["failure"]);
    let blank = CheckoutProPreferences::new().to_json();
    assert!(!keys(&blank).contains(&"auto_return".to_string()));
    assert!(!keys(&blank).contains(&"back_urls".to_string()));
    assert!(!keys(&blank).contains(&"expires".to_string()));
}

#[test]
fn error_envelope_is_an_api_error() {
    let doc = obj(vec![
        ("message", s("invalid card_number")),
        ("status", n("400")),
        ("error", s("bad_request")),
        ("cause", Json::Array(vec![obj(vec![("description", s("invalid parameter")), ("code", s("E301"))])])),
    ]);
    match classify_response::<WebhookRequest>(Ok(&doc)) {
        Err(SDKError::ApiError(e)) => {
            assert_eq!(e.message, "invalid card_number");
            assert_eq!(e.status, 400);
            assert_eq!(e.error, "bad_request");
            let cause = e.cause.unwrap();
            assert_eq!(cause.len(), 1);
            assert_eq!(cause[0].code, "E301");
        },
        other => panic!("not an API error: {:?}", other),
    }
}

#[test]
fn error_envelope_wins_over_an_overlapping_payload() {
    // A body that is both an error envelope and a valid ApiError payload is
    // still an error.
    let doc = obj(vec![("message", s("m")), ("status", n("404")), ("error", s("not_found"))]);
    assert!(matches!(classify_response::<ApiError>(Ok(&doc)), Err(SDKError::ApiError(_))));
}

#[test]
fn malformed_body_is_a_decode_error() {
    match classify_response::<WebhookRequest>(Err(TextPosition { line: 1, column: 17 })) {
        Err(SDKError::DecodeError(e)) => assert_eq!(e.path_text(), "1:17"),
        other => panic!("not a decode error: {:?}", other),
    }
    let truncated = obj(vec![("id", n("1")), ("live_mode", Json::Bool(true))]);
    match classify_response::<WebhookRequest>(Ok(&truncated)) {
        Err(SDKError::DecodeError(e)) => {
            assert_eq!(e.path_text(), "$.type");
        },
        other => panic!("not a decode error: {:?}", other),
    }
    let nested = obj(vec![
        ("id", n("1")),
        ("live_mode", Json::Bool(true)),
        ("type", s("payment")),
        ("date_created", s("now")),
        ("application_id", n("2")),
        ("user_id", n("3")),
        ("version", n("1")),
        ("api_version", s("v1")),
        ("action", s("payment.created")),
        ("data", obj(vec![("id", n("9"))])),
    ]);
    match classify_response::<WebhookRequest>(Ok(&nested)) {
        Err(SDKError::DecodeError(e)) => assert_eq!(e.path_text(), "$.data.id"),
        other => panic!("not a decode error: {:?}", other),
    }
}

#[test]
fn identification_number_from_string_or_number() {
    let as_text = obj(vec![("number", s("12345678909"))]);
    let as_number = obj(vec![("number", n("12345678909"))]);
    assert_eq!(read_id_number(&as_text, "number").unwrap(), Some(12345678909));
    assert_eq!(read_id_number(&as_number, "number").unwrap(), Some(12345678909));
    assert_eq!(read_id_number(&obj(vec![]), "number").unwrap(), None);
    assert_eq!(read_id_number(&obj(vec![("number", Json::Null)]), "number").unwrap(), None);
    assert_eq!(read_id_number(&obj(vec![("number", s(""))]), "number").unwrap(), None);
    assert!(read_id_number(&obj(vec![("number", s("12a"))]), "number").is_err());
    let pi = PersonalIdentification::from_json(&obj(vec![("type", s("CPF")), ("number", n("12345678909"))])).unwrap();
    assert_eq!(pi, PersonalIdentification::new(DocumentType::CPF, 12345678909));
    assert_eq!(get(&pi.to_json(), "number"), Some(&s("12345678909")));
}

#[test]
fn amounts_are_written_exactly() {
    assert_eq!(Amount::new(1500, 2).to_text(), "15.00");
    assert_eq!(Amount::new(-5, 2).to_text(), "-0.05");
    assert_eq!(Amount::new(7, 0).to_text(), "7");
    assert_eq!(Amount::new(i64::MIN, 0).to_text(), "-9223372036854775808");
    assert_eq!(Amount::new(123, 5).to_text(), "0.00123");
}

#[test]
fn amounts_are_read_exactly() {
    assert_eq!(Amount::from_text("15.5"), Some(Amount::new(155, 1)));
    assert_eq!(Amount::from_text("-0.05"), Some(Amount::new(-5, 2)));
    assert_eq!(Amount::from_text("42"), Some(Amount::new(42, 0)));
    assert_eq!(Amount::from_text("9223372036854775807"), Some(Amount::new(i64::MAX, 0)));
    assert_eq!(Amount::from_text("9223372036854775808"), None);
    assert_eq!(Amount::from_text("1."), None);
    assert_eq!(Amount::from_text(".5"), None);
    assert_eq!(Amount::from_text("1.2.3"), None);
    assert_eq!(Amount::from_text("1e5"), None);
    assert_eq!(Amount::from_text(""), None);
    assert_eq!(Amount::from_text("-"), None);
}

#[test]
fn integers_are_read_exactly() {
    assert_eq!(read_i64("0"), Some(0));
    assert_eq!(read_i64("-9223372036854775808"), Some(i64::MIN));
    assert_eq!(read_i64("9223372036854775807"), Some(i64::MAX));
    assert_eq!(read_i64("9223372036854775808"), None);
    assert_eq!(read_i64("+1"), None);
    assert_eq!(read_i64(""), None);
    assert_eq!(read_i64("-"), None);
    assert_eq!(number_of(-42), n("-42"));
    assert_eq!(Some(12345678909i64).stringify(), Some("12345678909".to_string()));
    assert_eq!(None::<i64>.stringify(), None);
}

#[test]
fn wire_tokens_follow_their_tables() {
    assert_eq!(PaymentMethodId::BolBradesco.wire_name(), "bolbradesco");
    assert_eq!(PaymentMethodId::AccountMoney.wire_name(), "accountmoney");
    assert_eq!(PaymentTypeId::CreditCard.wire_name(), "credit_card");
    assert_eq!(PaymentTypeId::from_wire_name("account_money"), Some(PaymentTypeId::AccountMoney));
    assert_eq!(BuyerEntityType::Individual.wire_name(), "individual");
    assert_eq!(BuyerType::from_wire_name("guest"), Some(BuyerType::Guest));
    assert_eq!(DocumentType::CNPJ.wire_name(), "CNPJ");
    assert_eq!(CurrencyId::from_wire_name("UYU"), Some(CurrencyId::UYU));
    assert_eq!(AutoReturn::All.wire_name(), "all");
    assert_eq!(DocumentType::from_wire_name("cpf"), None);
    assert_eq!(PaymentMethodId::from_wire_name("diners"), None);
}

#[test]
fn timestamps_are_read_and_written_by_parts() {
    let t = Timestamp::parse("2022-06-07T12:34:56.789-04:00").unwrap();
    let p = t.parts();
    assert_eq!((p.year, p.month, p.day), (2022, 6, 7));
    assert_eq!((p.hour, p.minute, p.second), (12, 34, 56));
    assert_eq!(p.nanosecond, 789_000_000);
    assert_eq!(p.offset_seconds, -4 * 3600);
    assert!(Timestamp::parse("2022-13-07T12:34:56Z").is_none());
    let parts = DateTimeParts {
        year: 2023,
        month: 1,
        day: 2,
        hour: 3,
        minute: 4,
        second: 5,
        nanosecond: 0,
        offset_seconds: 0,
    };
    let made = Timestamp::from_parts(parts).unwrap();
    assert_eq!(made.to_text(), "2023-01-02T03:04:05Z");
    assert_eq!(made.parts(), parts);
    assert!(Timestamp::from_parts(DateTimeParts { month: 2, day: 30, ..parts }).is_none());
}
