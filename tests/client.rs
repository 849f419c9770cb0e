use mercadopago_sdk_rust::card_tokens::requests::CardTokenOptions;
use mercadopago_sdk_rust::common_types::{CheckoutProPayer, PersonalIdentification};
use mercadopago_sdk_rust::errors::{SDKError, ValidationError};
use mercadopago_sdk_rust::json::Json;
use mercadopago_sdk_rust::payments::requests::DocumentType;
use mercadopago_sdk_rust::preferences::requests::CheckoutProPreferences;
use mercadopago_sdk_rust::{MercadoPagoSDKBuilder, API_BASE_URL};

#[test]
fn incomplete_payer_is_refused_before_sending() {
    let sdk = MercadoPagoSDKBuilder::with_token("TOKEN");
    let r = sdk.create_preferences_checkout_pro(CheckoutProPreferences::new());
    assert!(matches!(r, Err(SDKError::ValidationError(ValidationError::PayerError(_)))));
}

#[test]
fn card_token_query_carries_the_public_key() {
    let sdk = MercadoPagoSDKBuilder::with_token("TOKEN");
    let mut opts = CardTokenOptions::new(
        "5031433215406351",
        "11",
        "2025",
        "123",
        "APRO".to_string(),
        PersonalIdentification::new(DocumentType::CPF, 12345678909),
    );
    opts.public_key = Some("TEST-abc".to_string());
    let request = sdk.create_card_token(opts).unwrap();
    assert_eq!(request.url, format!("{}/v1/card_tokens?public_key=TEST-abc", API_BASE_URL));
    match &request.body {
        Json::Object(es) => assert!(es.iter().any(|(k, v)| k == "public_key" && *v == Json::Str("TEST-abc".to_string()))),
        _ => panic!("the body is not an object"),
    }
}

#[test]
fn requests_carry_the_bearer_token() {
    let sdk = MercadoPagoSDKBuilder::with_token("abc123");
    assert_eq!(sdk.access_token, "abc123");
    let payer = CheckoutProPayer::minimal_payer("a@b.c".to_string(), DocumentType::DNI, Some(5i64));
    let request = sdk.create_preferences_checkout_pro(CheckoutProPreferences::new().set_payer(payer)).unwrap();
    assert_eq!(request.access_token, "abc123");
    assert_eq!(request.authorization(), "Bearer abc123");
}

fn keys_of(j: &Json) -> Vec<String> {
    match j {
        Json::Object(es) => es.iter().map(|(k, _)| k.clone()).collect(),
        _ => Vec::new(),
    }
}

#[test]
fn card_token_body_holds_exactly_its_keys() {
    let sdk = MercadoPagoSDKBuilder::with_token("TOKEN");
    let opts = CardTokenOptions::new(
        "5031433215406351",
        "11",
        "2025",
        "123",
        "APRO".to_string(),
        PersonalIdentification::new(DocumentType::CPF, 12345678909),
    );
    let request = sdk.create_card_token(opts).unwrap();
    assert_eq!(
        keys_of(&request.body),
        vec!["card_number", "expiration_month", "expiration_year", "security_code", "cardholder"]
    );
    let expected_holder = Json::Object(vec![
        ("name".to_string(), Json::Str("APRO".to_string())),
        (
            "identification".to_string(),
            Json::Object(vec![
                ("type".to_string(), Json::Str("CPF".to_string())),
                ("number".to_string(), Json::Str("12345678909".to_string())),
            ]),
        ),
    ]);
    match &request.body {
        Json::Object(es) => assert_eq!(es[4], ("cardholder".to_string(), expected_holder)),
        _ => panic!("the body is not an object"),
    }
}

#[test]
fn preference_body_holds_exactly_its_keys() {
    let sdk = MercadoPagoSDKBuilder::with_token("TOKEN");
    let payer = CheckoutProPayer::minimal_payer("fulano@beltrano.com.br".to_string(), DocumentType::CPF, 41810524485i64);
    let request = sdk.create_preferences_checkout_pro(CheckoutProPreferences::new().set_payer(payer)).unwrap();
    assert_eq!(keys_of(&request.body), vec!["items", "payer", "collector_id", "statement_descriptor"]);
}
