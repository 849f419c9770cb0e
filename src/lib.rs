//! A strongly typed client for the MercadoPago API: checkout preferences,
//! card tokens, payments and webhook notifications.
//!
//! Requests are built here as plain descriptions, with JSON bodies in the
//! library's own document type; responses are classified here once their
//! body has been read. Sending and receiving happen around the library.
use std::marker::PhantomData;

use vstd::prelude::*;

pub mod card_tokens;
pub mod common_types;
pub mod datetime;
pub mod errors;
pub mod helpers;
pub mod json;
pub mod payments;
pub mod pipeline;
pub mod preferences;
pub mod webhooks;

use crate::card_tokens::requests::CardTokenOptions;
use crate::card_tokens::responses::CardTokenResponse;
use crate::errors::{SDKError, ValidationError};
use crate::json::{has_key, Json, WireValue};
use crate::payments::requests::CreatePaymentPayload;
use crate::payments::responses::CreatePaymentResponse;
use crate::preferences::requests::CheckoutProPreferences;
use crate::preferences::responses::CheckoutProPreferencesResponse;

verus! {

/// The origin of every resource of the API.
pub const API_BASE_URL: &'static str = "https://api.mercadopago.com";

/// Makes clients.
#[derive(Debug)]
pub struct MercadoPagoSDKBuilder {}

impl MercadoPagoSDKBuilder {
    /// A client that sends the given access token with every request.
    pub fn with_token(client_access_token: &str) -> (r: MercadoPagoSDK)
        ensures
            r.access_token@ == client_access_token@,
    {
        MercadoPagoSDK { access_token: String::from_str(client_access_token) }
    }
}

/// A client of the API: the access token that authorizes its requests.
#[derive(Debug)]
pub struct MercadoPagoSDK {
    pub access_token: String,
}

/// The HTTP method of a request.
#[derive(Debug, Clone, Copy, PartialEq, Eq, Structural)]
pub enum HttpMethod {
    Post,
}

/// A request that is ready to send, once, and the type of value that its
/// response decodes to.
#[derive(Debug)]
pub struct SDKRequest<RP> {
    pub method: HttpMethod,
    pub url: String,
    pub access_token: String,
    pub body: Json,
    pub response_type: PhantomData<RP>,
}

impl<RP> SDKRequest<RP> {
    /// The value of the `Authorization` header: the access token as a
    /// bearer token.
    pub fn authorization(&self) -> (r: String)
        ensures
            r@ == "Bearer "@ + self.access_token@,
    {
        let mut r = String::from_str("Bearer ");
        r.append(self.access_token.as_str());
        r
    }
}

impl MercadoPagoSDK {
    /// A request that creates a checkout preference. A preference whose
    /// payer lacks an email, an identification number or a document type
    /// is refused, and nothing is built.
    pub fn create_preferences_checkout_pro(&self, opts: CheckoutProPreferences) -> (r: Result<
        SDKRequest<CheckoutProPreferencesResponse>,
        SDKError,
    >)
        ensures
            !opts.payer.is_complete() <==> r matches Err(SDKError::ValidationError(ValidationError::PayerError(_))),
            opts.payer.is_complete() <==> r is Ok,
            r matches Ok(req) ==> {
                &&& req.method == HttpMethod::Post
                &&& req.url@ == API_BASE_URL@ + "/checkout/preferences"@
                &&& req.access_token == self.access_token
                &&& opts.wire_form(req.body)
                &&& opts.omits_absent(req.body)
                &&& opts.written_as(req.body)
            },
    {
        if !opts.validate() {
            return Err(SDKError::ValidationError(ValidationError::PayerError(
                String::from_str("The payer needs an email, an identification number and a document type."),
            )));
        }
        let mut url = String::from_str(API_BASE_URL);
        url.append("/checkout/preferences");
        Ok(SDKRequest {
            method: HttpMethod::Post,
            url,
            access_token: self.access_token.clone(),
            body: opts.to_json(),
            response_type: PhantomData,
        })
    }

    /// A request that creates a card token, to pay with the card without
    /// sending its number again. A public key, when the options have one,
    /// goes in the query too.
    pub fn create_card_token(&self, opts: CardTokenOptions) -> (r: Result<SDKRequest<CardTokenResponse>, SDKError>)
        ensures
            r matches Ok(req) && {
                &&& req.method == HttpMethod::Post
                &&& req.url@ == API_BASE_URL@ + "/v1/card_tokens"@ + match opts.public_key {
                    Some(k) => "?public_key="@ + k@,
                    None => Seq::<char>::empty(),
                }
                &&& req.access_token == self.access_token
                &&& opts.wire_form(req.body)
                &&& opts.written_as(req.body)
                &&& opts.public_key is None ==> !has_key(req.body, "public_key"@)
            },
    {
        let mut url = String::from_str(API_BASE_URL);
        url.append("/v1/card_tokens");
        if let Some(k) = &opts.public_key {
            url.append("?public_key=");
            url.append(k.as_str());
        }
        Ok(SDKRequest {
            method: HttpMethod::Post,
            url,
            access_token: self.access_token.clone(),
            body: opts.to_json(),
            response_type: PhantomData,
        })
    }

    /// A request that creates a payment.
    pub fn create_payment(&self, opts: CreatePaymentPayload) -> (r: Result<SDKRequest<CreatePaymentResponse>, SDKError>)
        ensures
            r matches Ok(req) && {
                &&& req.method == HttpMethod::Post
                &&& req.url@ == API_BASE_URL@ + "/payments"@
                &&& req.access_token == self.access_token
                &&& opts.wire_form(req.body)
                &&& opts.omits_absent(req.body)
                &&& opts.written_as(req.body)
            },
    {
        let mut url = String::from_str(API_BASE_URL);
        url.append("/payments");
        Ok(SDKRequest {
            method: HttpMethod::Post,
            url,
            access_token: self.access_token.clone(),
            body: opts.to_json(),
            response_type: PhantomData,
        })
    }
}

} // verus!
