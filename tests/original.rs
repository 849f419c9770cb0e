use mercadopago_sdk_rust::card_tokens::requests::CardTokenOptions;
use mercadopago_sdk_rust::card_tokens::responses::CardTokenResponse;
use mercadopago_sdk_rust::common_types::{
    Address, Amount, CheckoutProPayer, CurrencyId, Item, PersonalIdentification, Phone, Shipments,
};
use mercadopago_sdk_rust::json::{Json, Metadata, WireValue};
use mercadopago_sdk_rust::payments::requests::{
    AdditionalInfo, BuyerIdentification, BuyerInformation, BuyerType, CreatePaymentPayload,
    DocumentType, Order,
};
use mercadopago_sdk_rust::payments::responses::CreatePaymentResponse;
use mercadopago_sdk_rust::pipeline::classify_response;
use mercadopago_sdk_rust::preferences::requests::CheckoutProPreferences;
use mercadopago_sdk_rust::{HttpMethod, MercadoPagoSDK, MercadoPagoSDKBuilder, API_BASE_URL};

fn s(v: &str) -> Json {
    Json::Str(v.to_string())
}

fn n(v: &str) -> Json {
    Json::Number(v.to_string())
}

fn obj(entries: Vec<(&str, Json)>) -> Json {
    Json::Object(entries.into_iter().map(|(k, v)| (k.to_string(), v)).collect())
}

fn get<'a>(j: &'a Json, key: &str) -> Option<&'a Json> {
    match j {
        Json::Object(es) => es.iter().find(|(k, _)| k == key).map(|(_, v)| v),
        _ => None,
    }
}

fn create_sdk() -> MercadoPagoSDK {
    MercadoPagoSDKBuilder::with_token(
        "APP_USR-558881221729581-091712-44fdc612e60e3e638775d8b4003edd51-471763966",
    )
}

fn card_document() -> Vec<(&'static str, Json)> {
    vec![
        ("first_six_digits", s("503143")),
        ("last_four_digits", s("6351")),
        ("expiration_month", n("11")),
        ("expiration_year", n("2025")),
        ("card_number_length", n("16")),
        ("security_code_length", n("3")),
        (
            "cardholder",
            obj(vec![
                ("name", s("APRO")),
                ("identification", obj(vec![("type", s("CPF")), ("number", s("12345678909"))])),
            ]),
        ),
        ("date_created", s("2022-06-07T12:34:56.789-04:00")),
        ("date_last_updated", s("2022-06-07T12:34:56.789-04:00")),
        ("date_due", s("2022-06-15T12:34:56.789-04:00")),
    ]
}

#[test]
fn t_token_serialization() {
    let pi = PersonalIdentification::new(DocumentType::CPF, 12345678909);
    let opts = CardTokenOptions::new("5031433215406351", "11", "2025", "123", "APRO".to_string(), pi);
    let j = opts.to_json();
    assert_eq!(get(&j, "card_number"), Some(&s("5031433215406351")));
    assert_eq!(get(&j, "expiration_month"), Some(&s("11")));
    assert_eq!(get(&j, "expiration_year"), Some(&s("2025")));
    assert_eq!(get(&j, "security_code"), Some(&s("123")));
    let holder = get(&j, "cardholder").unwrap();
    assert_eq!(get(holder, "name"), Some(&s("APRO")));
    let id = get(holder, "identification").unwrap();
    assert_eq!(get(id, "type"), Some(&s("CPF")));
    assert_eq!(get(id, "number"), Some(&s("12345678909")));
    assert_eq!(get(&j, "public_key"), None);
}

#[test]
fn t_token_response() {
    let mut entries = vec![("id", s("ff8080814c11e237014c1ff593b57b4d"))];
    entries.extend(card_document());
    entries.push(("public_key", Json::Null));
    entries.push(("live_mode", Json::Bool(false)));
    entries.push(("luhn_validation", Json::Bool(true)));
    entries.push(("require_esc", Json::Bool(false)));
    entries.push(("status", s("active")));
    let doc = obj(entries);
    let payload = classify_response::<CardTokenResponse>(Ok(&doc));
    assert!(payload.is_ok());
    let token = payload.unwrap();
    assert_eq!(token.card_token_id, "ff8080814c11e237014c1ff593b57b4d");
    assert_eq!(token.card.first_six_digits, "503143");
    assert_eq!(token.card.last_four_digits, "6351");
    assert_eq!(token.card.expiration_month, 11);
    assert_eq!(token.card.expiration_year, 2025);
    assert_eq!(token.card.cardholder.name, "APRO");
    assert_eq!(token.card.cardholder.identification.number, Some(12345678909));
    assert_eq!(token.card.date_due.to_text(), "2022-06-15T12:34:56.789-04:00");
    assert_eq!(token.public_key, None);
    assert!(!token.live_mode);
    assert!(token.luhn_validation);
    assert!(!token.require_esc);
    assert_eq!(token.status, "active");
}

fn sample_payload() -> CreatePaymentPayload {
    let item = Item::minimal_item("Sample item".to_string(), "".to_string(), Amount::new(1500, 2), 1).unwrap();
    let mut metadata_entries = Vec::new();
    metadata_entries.push(("order_ref".to_string(), s("A-17")));
    metadata_entries.push(("tries".to_string(), n("2")));
    CreatePaymentPayload {
        description: "Payment for product".to_string(),
        installments: 1,
        order: Order { order_type: "mercadopago".to_string() },
        payer: BuyerIdentification {
            email: Some("test_user_123@testuser.com".to_string()),
            buyer_type: BuyerType::Customer,
            buyer_entity_type: None,
            identification: Some(PersonalIdentification::new(DocumentType::CPF, 19119119100)),
            first_name: Some("Test".to_string()),
            last_name: None,
        },
        payment_method_id: "visa".to_string(),
        token: Some("ff8080814c11e237014c1ff593b57b4d".to_string()),
        transaction_amount: Amount::new(5850, 2),
        external_reference: Some("MP0001".to_string()),
        binary_mode: Some(false),
        statement_descriptor: None,
        additional_info: Some(AdditionalInfo {
            items: vec![item],
            payer: BuyerInformation {
                first_name: Some("Test".to_string()),
                last_name: None,
                phone: Some(Phone { area_code: Some(11), number: Some("987654321".to_string()) }),
                address: None,
                registration_date: None,
            },
            shipments: Shipments {
                receiver_address: Some(Address {
                    zip_code: Some("12312-123".to_string()),
                    state_name: Some("Rio de Janeiro".to_string()),
                    city_name: Some("Buzios".to_string()),
                    street_name: Some("Av das Nacoes Unidas".to_string()),
                    street_number: Some(3003),
                }),
            },
            barcode: None,
        }),
        metadata: Some(Metadata { entries: metadata_entries }),
    }
}

#[test]
fn requests_t_payload_serialization() {
    let payload = sample_payload();
    let j = payload.to_json();
    let back = CreatePaymentPayload::from_json(&j).unwrap();
    assert_eq!(back, payload);
    assert_eq!(get(&j, "transaction_amount"), Some(&n("58.50")));
    assert_eq!(get(&j, "statement_descriptor"), None);
}

#[test]
fn responses_t_payload_serialization() {
    let mut card = card_document();
    card.push(("id", s("ignored")));
    let doc = obj(vec![
        ("card", obj(card)),
        ("collector_id", n("448876418")),
        ("coupon_amount", n("0")),
        ("currency_id", s("BRL")),
        ("date_approved", s("2022-06-07T12:34:57.000-04:00")),
        ("date_created", s("2022-06-07T12:34:56.000-04:00")),
        ("date_last_updated", s("2022-06-07T12:34:57.000-04:00")),
        ("description", s("Payment for product")),
        ("external_reference", s("MP0001")),
        ("fee_details", Json::Array(vec![obj(vec![("type", s("mercadopago_fee")), ("amount", n("2.93")), ("fee_payer", s("collector"))])])),
        ("id", n("1234567890")),
        ("installments", n("1")),
        ("issuer_id", n("25")),
        ("metadata", obj(vec![])),
        ("money_release_date", s("2022-06-25T12:34:57.000-04:00")),
        ("notification_url", s("https://example.com/notify")),
        ("order", obj(vec![])),
        ("payer", obj(vec![("email", s("test_user_123@testuser.com")), ("type", s("customer"))])),
        ("payment_method_id", s("visa")),
        ("payment_type_id", s("credit_card")),
        (
            "point_of_interaction",
            obj(vec![
                ("type", s("UNSPECIFIED")),
                ("application_data", obj(vec![("name", s("app")), ("version", s("1.0"))])),
                ("transaction_data", obj(vec![("qr_code_base64", s("")), ("qr_code", s("")), ("ticket_url", s(""))])),
            ]),
        ),
        ("processing_mode", s("aggregator")),
        ("shipping_amount", n("0")),
        ("statement_descriptor", s("MERCADOPAGO")),
        ("status", s("approved")),
        ("status_detail", s("accredited")),
        ("taxes_amount", n("0")),
        ("transaction_amount", n("58.5")),
        ("transaction_amount_refunded", n("0")),
        (
            "transaction_details",
            obj(vec![
                ("net_received_amount", n("55.57")),
                ("total_paid_amount", n("58.5")),
                ("overpaid_amount", n("0")),
                ("installment_amount", n("58.5")),
            ]),
        ),
    ]);
    let payload = CreatePaymentResponse::from_json(&doc).unwrap();
    assert_eq!(payload.id, 1234567890);
    assert_eq!(payload.currency_id, CurrencyId::BRL);
    assert_eq!(payload.transaction_amount, Amount::new(585, 1));
    assert_eq!(payload.fee_details.len(), 1);
    assert_eq!(payload.fee_details[0].type_field, "mercadopago_fee");
    assert_eq!(payload.fee_details[0].amount, Amount::new(293, 2));
    assert_eq!(payload.card.last_four_digits, "6351");
    assert_eq!(payload.payer.buyer_type, BuyerType::Customer);
    assert_eq!(payload.point_of_interaction.application_data.version, "1.0");
    assert_eq!(payload.transaction_details.net_received_amount, Amount::new(5557, 2));
}

#[test]
fn create_preference() {
    let sdk = create_sdk();

    let sample_item =
        Item::minimal_item("Sample item".to_string(), "".to_string(), Amount::new(1500, 2), 1).unwrap();

    let preferences = CheckoutProPreferences::new()
        .set_items(vec![sample_item])
        .set_payer(CheckoutProPayer::minimal_payer(
            "fulano@beltrano.com.br".to_string(),
            DocumentType::CPF,
            41810524485i64,
        ));

    let request = sdk.create_preferences_checkout_pro(preferences).expect("the payer is complete");
    assert_eq!(request.method, HttpMethod::Post);
    assert_eq!(request.url, format!("{}/checkout/preferences", API_BASE_URL));
    let items = get(&request.body, "items").unwrap();
    match items {
        Json::Array(xs) => {
            assert_eq!(xs.len(), 1);
            assert_eq!(get(&xs[0], "title"), Some(&s("Sample item")));
            assert_eq!(get(&xs[0], "unit_price"), Some(&n("15.00")));
            assert_eq!(get(&xs[0], "quantity"), Some(&n("1")));
        },
        _ => panic!("items is not a list"),
    }
    let payer = get(&request.body, "payer").unwrap();
    assert_eq!(get(payer, "email"), Some(&s("fulano@beltrano.com.br")));
    let id = get(payer, "identification").unwrap();
    assert_eq!(get(id, "number"), Some(&s("41810524485")));
    assert_eq!(get(&request.body, "collector_id"), Some(&n("182423046")));
}

#[test]
fn tokenize_card() {
    let sdk = create_sdk();

    let card_owner_pi = PersonalIdentification::new(DocumentType::CPF, 12345678909);
    let token_opts = CardTokenOptions::new(
        "5031433215406351",
        "11",
        "2025",
        "123",
        "APRO".to_string(),
        card_owner_pi,
    );

    let request = sdk.create_card_token(token_opts).expect("card token requests are always built");
    assert_eq!(request.url, format!("{}/v1/card_tokens", API_BASE_URL));
    assert_eq!(
        request.authorization(),
        "Bearer APP_USR-558881221729581-091712-44fdc612e60e3e638775d8b4003edd51-471763966"
    );
    assert_eq!(get(&request.body, "card_number"), Some(&s("5031433215406351")));
}
