//! What a payment request carries: the payer, the order and the way of paying.
use vstd::prelude::*;

use crate::common_types::{Address, Amount, Item, PersonalIdentification, Phone, Shipments};
use crate::json::{
    array_items, entries_of, field_value, has_key, lemma_absent_key, lemma_list_form_unique,
    lemma_opt_value_field_unique, lemma_value_field_unique, list_agrees, list_field,
    list_omits_absent, list_to_json, list_written_field, opt_value_field, opt_written_field,
    read_list_field, read_opt_value, read_value, str_equal, value_field, written_field, DecodeError,
    Json, Metadata, WireValue,
};


verus! {

broadcast use crate::json::lemma_lookup_push;

/// Whether the buyer is a person or an organisation.
#[derive(Debug, PartialEq, Eq, Structural, Clone, Copy)]
pub enum BuyerEntityType {
    Individual,
    Association,
}

impl BuyerEntityType {
    /// The token that stands for this value on the wire.
    pub open spec fn spec_wire_name(self) -> Seq<char> {
        match self {
            BuyerEntityType::Individual => "individual"@,
            BuyerEntityType::Association => "association"@,
        }
    }

    /// The value that a wire token stands for, if any.
    pub open spec fn spec_from_wire_name(s: Seq<char>) -> Option<BuyerEntityType> {
        if s == "individual"@ {
            Some(BuyerEntityType::Individual)
        } else if s == "association"@ {
            Some(BuyerEntityType::Association)
        } else {
            None
        }
    }

    pub fn wire_name(&self) -> (r: &'static str)
        ensures
            r@ == self.spec_wire_name(),
    {
        match self {
            BuyerEntityType::Individual => "individual",
            BuyerEntityType::Association => "association",
        }
    }

    pub fn from_wire_name(s: &str) -> (r: Option<BuyerEntityType>)
        ensures
            r == BuyerEntityType::spec_from_wire_name(s@),
    {
        if str_equal(s, "individual") {
            Some(BuyerEntityType::Individual)
        } else if str_equal(s, "association") {
            Some(BuyerEntityType::Association)
        } else {
            None
        }
    }

    /// Each value reads back from its own token.
    pub proof fn lemma_wire_name_round_trip(self)
        ensures
            BuyerEntityType::spec_from_wire_name(self.spec_wire_name()) == Some(self),
    {
        reveal_strlit("individual");
        assert("individual"@.len() == 10);
        reveal_strlit("association");
        assert("association"@.len() == 11);
    }
}

impl WireValue for BuyerEntityType {
    open spec fn wire_form(&self, j: Json) -> bool {
        j matches Json::Str(s) && BuyerEntityType::spec_from_wire_name(s@) == Some(*self)
    }

    open spec fn omits_absent(&self, j: Json) -> bool {
        true
    }

    open spec fn agrees(&self, other: &Self) -> bool {
        *self == *other
    }

    open spec fn own_key(key: Seq<char>) -> bool {
        false
    }

    open spec fn written_as(&self, j: Json) -> bool {
        j matches Json::Str(s) && s@ == self.spec_wire_name()
    }

    fn to_json(&self) -> (r: Json) {
        proof {
            self.lemma_wire_name_round_trip();
        }
        Json::Str(String::from_str(self.wire_name()))
    }

    fn from_json(j: &Json) -> (r: Result<Self, DecodeError>) {
        match j {
            Json::Str(s) => match BuyerEntityType::from_wire_name(s.as_str()) {
                Some(v) => Ok(v),
                None => Err(DecodeError { path: Vec::new() }),
            },
            _ => Err(DecodeError { path: Vec::new() }),
        }
    }

    proof fn lemma_wire_form_unique(&self, other: &Self, j: Json) {
    }
}

/// How the buyer is known to the processor.
#[derive(Debug, PartialEq, Eq, Structural, Clone, Copy)]
pub enum BuyerType {
    Customer,
    Registered,
    Guest,
}

impl BuyerType {
    /// The token that stands for this value on the wire.
    pub open spec fn spec_wire_name(self) -> Seq<char> {
        match self {
            BuyerType::Customer => "customer"@,
            BuyerType::Registered => "registered"@,
            BuyerType::Guest => "guest"@,
        }
    }

    /// The value that a wire token stands for, if any.
    pub open spec fn spec_from_wire_name(s: Seq<char>) -> Option<BuyerType> {
        if s == "customer"@ {
            Some(BuyerType::Customer)
        } else if s == "registered"@ {
            Some(BuyerType::Registered)
        } else if s == "guest"@ {
            Some(BuyerType::Guest)
        } else {
            None
        }
    }

    pub fn wire_name(&self) -> (r: &'static str)
        ensures
            r@ == self.spec_wire_name(),
    {
        match self {
            BuyerType::Customer => "customer",
            BuyerType::Registered => "registered",
            BuyerType::Guest => "guest",
        }
    }

    pub fn from_wire_name(s: &str) -> (r: Option<BuyerType>)
        ensures
            r == BuyerType::spec_from_wire_name(s@),
    {
        if str_equal(s, "customer") {
            Some(BuyerType::Customer)
        } else if str_equal(s, "registered") {
            Some(BuyerType::Registered)
        } else if str_equal(s, "guest") {
            Some(BuyerType::Guest)
        } else {
            None
        }
    }

    /// Each value reads back from its own token.
    pub proof fn lemma_wire_name_round_trip(self)
        ensures
            BuyerType::spec_from_wire_name(self.spec_wire_name()) == Some(self),
    {
        reveal_strlit("customer");
        assert("customer"@.len() == 8);
        reveal_strlit("registered");
        assert("registered"@.len() == 10);
        reveal_strlit("guest");
        assert("guest"@.len() == 5);
    }
}

impl WireValue for BuyerType {
    open spec fn wire_form(&self, j: Json) -> bool {
        j matches Json::Str(s) && BuyerType::spec_from_wire_name(s@) == Some(*self)
    }

    open spec fn omits_absent(&self, j: Json) -> bool {
        true
    }

    open spec fn agrees(&self, other: &Self) -> bool {
        *self == *other
    }

    open spec fn own_key(key: Seq<char>) -> bool {
        false
    }

    open spec fn written_as(&self, j: Json) -> bool {
        j matches Json::Str(s) && s@ == self.spec_wire_name()
    }

    fn to_json(&self) -> (r: Json) {
        proof {
            self.lemma_wire_name_round_trip();
        }
        Json::Str(String::from_str(self.wire_name()))
    }

    fn from_json(j: &Json) -> (r: Result<Self, DecodeError>) {
        match j {
            Json::Str(s) => match BuyerType::from_wire_name(s.as_str()) {
                Some(v) => Ok(v),
                None => Err(DecodeError { path: Vec::new() }),
            },
            _ => Err(DecodeError { path: Vec::new() }),
        }
    }

    proof fn lemma_wire_form_unique(&self, other: &Self, j: Json) {
    }
}

/// The kind of means by which a payment is made.
#[derive(Debug, PartialEq, Eq, Structural, Clone, Copy)]
pub enum PaymentTypeId {
    CreditCard,
    DebitCard,
    /// Instant money transfer methods.
    BankTransfer,
    /// Pay-later methods, such as boleto, lotérica or another local payment.
    Ticket,
    /// Money held in a MercadoPago account.
    AccountMoney,
}

impl PaymentTypeId {
    /// The token that stands for this value on the wire.
    pub open spec fn spec_wire_name(self) -> Seq<char> {
        match self {
            PaymentTypeId::CreditCard => "credit_card"@,
            PaymentTypeId::DebitCard => "debit_card"@,
            PaymentTypeId::BankTransfer => "bank_transfer"@,
            PaymentTypeId::Ticket => "ticket"@,
            PaymentTypeId::AccountMoney => "account_money"@,
        }
    }

    /// The value that a wire token stands for, if any.
    pub open spec fn spec_from_wire_name(s: Seq<char>) -> Option<PaymentTypeId> {
        if s == "credit_card"@ {
            Some(PaymentTypeId::CreditCard)
        } else if s == "debit_card"@ {
            Some(PaymentTypeId::DebitCard)
        } else if s == "bank_transfer"@ {
            Some(PaymentTypeId::BankTransfer)
        } else if s == "ticket"@ {
            Some(PaymentTypeId::Ticket)
        } else if s == "account_money"@ {
            Some(PaymentTypeId::AccountMoney)
        } else {
            None
        }
    }

    pub fn wire_name(&self) -> (r: &'static str)
        ensures
            r@ == self.spec_wire_name(),
    {
        match self {
            PaymentTypeId::CreditCard => "credit_card",
            PaymentTypeId::DebitCard => "debit_card",
            PaymentTypeId::BankTransfer => "bank_transfer",
            PaymentTypeId::Ticket => "ticket",
            PaymentTypeId::AccountMoney => "account_money",
        }
    }

    pub fn from_wire_name(s: &str) -> (r: Option<PaymentTypeId>)
        ensures
            r == PaymentTypeId::spec_from_wire_name(s@),
    {
        if str_equal(s, "credit_card") {
            Some(PaymentTypeId::CreditCard)
        } else if str_equal(s, "debit_card") {
            Some(PaymentTypeId::DebitCard)
        } else if str_equal(s, "bank_transfer") {
            Some(PaymentTypeId::BankTransfer)
        } else if str_equal(s, "ticket") {
            Some(PaymentTypeId::Ticket)
        } else if str_equal(s, "account_money") {
            Some(PaymentTypeId::AccountMoney)
        } else {
            None
        }
    }

    /// Each value reads back from its own token.
    pub proof fn lemma_wire_name_round_trip(self)
        ensures
            PaymentTypeId::spec_from_wire_name(self.spec_wire_name()) == Some(self),
    {
        reveal_strlit("credit_card");
        assert("credit_card"@.len() == 11);
        reveal_strlit("debit_card");
        assert("debit_card"@.len() == 10);
        reveal_strlit("bank_transfer");
        assert("bank_transfer"@.len() == 13);
        reveal_strlit("ticket");
        assert("ticket"@.len() == 6);
        reveal_strlit("account_money");
        assert("account_money"@.len() == 13);
        assert("bank_transfer"@[0] != "account_money"@[0]);
    }
}

impl WireValue for PaymentTypeId {
    open spec fn wire_form(&self, j: Json) -> bool {
        j matches Json::Str(s) && PaymentTypeId::spec_from_wire_name(s@) == Some(*self)
    }

    open spec fn omits_absent(&self, j: Json) -> bool {
        true
    }

    open spec fn agrees(&self, other: &Self) -> bool {
        *self == *other
    }

    open spec fn own_key(key: Seq<char>) -> bool {
        false
    }

    open spec fn written_as(&self, j: Json) -> bool {
        j matches Json::Str(s) && s@ == self.spec_wire_name()
    }

    fn to_json(&self) -> (r: Json) {
        proof {
            self.lemma_wire_name_round_trip();
        }
        Json::Str(String::from_str(self.wire_name()))
    }

    fn from_json(j: &Json) -> (r: Result<Self, DecodeError>) {
        match j {
            Json::Str(s) => match PaymentTypeId::from_wire_name(s.as_str()) {
                Some(v) => Ok(v),
                None => Err(DecodeError { path: Vec::new() }),
            },
            _ => Err(DecodeError { path: Vec::new() }),
        }
    }

    proof fn lemma_wire_form_unique(&self, other: &Self, j: Json) {
    }
}

/// The particular means by which a payment is made.
#[derive(Debug, PartialEq, Eq, Structural, Clone, Copy)]
pub enum PaymentMethodId {
    Amex,
    Visa,
    Master,
    Hipercard,
    /// Payment at a lottery outlet without a boleto.
    Pec,
    Pix,
    /// Boleto Bradesco.
    BolBradesco,
    /// Money held in a MercadoPago account.
    AccountMoney,
    /// Elo debit.
    Debelo,
    /// Elo credit.
    Elo,
}

impl PaymentMethodId {
    /// The token that stands for this value on the wire.
    pub open spec fn spec_wire_name(self) -> Seq<char> {
        match self {
            PaymentMethodId::Amex => "amex"@,
            PaymentMethodId::Visa => "visa"@,
            PaymentMethodId::Master => "master"@,
            PaymentMethodId::Hipercard => "hipercard"@,
            PaymentMethodId::Pec => "pec"@,
            PaymentMethodId::Pix => "pix"@,
            PaymentMethodId::BolBradesco => "bolbradesco"@,
            PaymentMethodId::AccountMoney => "accountmoney"@,
            PaymentMethodId::Debelo => "debelo"@,
            PaymentMethodId::Elo => "elo"@,
        }
    }

    /// The value that a wire token stands for, if any.
    pub open spec fn spec_from_wire_name(s: Seq<char>) -> Option<PaymentMethodId> {
        if s == "amex"@ {
            Some(PaymentMethodId::Amex)
        } else if s == "visa"@ {
            Some(PaymentMethodId::Visa)
        } else if s == "master"@ {
            Some(PaymentMethodId::Master)
        } else if s == "hipercard"@ {
            Some(PaymentMethodId::Hipercard)
        } else if s == "pec"@ {
            Some(PaymentMethodId::Pec)
        } else if s == "pix"@ {
            Some(PaymentMethodId::Pix)
        } else if s == "bolbradesco"@ {
            Some(PaymentMethodId::BolBradesco)
        } else if s == "accountmoney"@ {
            Some(PaymentMethodId::AccountMoney)
        } else if s == "debelo"@ {
            Some(PaymentMethodId::Debelo)
        } else if s == "elo"@ {
            Some(PaymentMethodId::Elo)
        } else {
            None
        }
    }

    pub fn wire_name(&self) -> (r: &'static str)
        ensures
            r@ == self.spec_wire_name(),
    {
        match self {
            PaymentMethodId::Amex => "amex",
            PaymentMethodId::Visa => "visa",
            PaymentMethodId::Master => "master",
            PaymentMethodId::Hipercard => "hipercard",
            PaymentMethodId::Pec => "pec",
            PaymentMethodId::Pix => "pix",
            PaymentMethodId::BolBradesco => "bolbradesco",
            PaymentMethodId::AccountMoney => "accountmoney",
            PaymentMethodId::Debelo => "debelo",
            PaymentMethodId::Elo => "elo",
        }
    }

    pub fn from_wire_name(s: &str) -> (r: Option<PaymentMethodId>)
        ensures
            r == PaymentMethodId::spec_from_wire_name(s@),
    {
        if str_equal(s, "amex") {
            Some(PaymentMethodId::Amex)
        } else if str_equal(s, "visa") {
            Some(PaymentMethodId::Visa)
        } else if str_equal(s, "master") {
            Some(PaymentMethodId::Master)
        } else if str_equal(s, "hipercard") {
            Some(PaymentMethodId::Hipercard)
        } else if str_equal(s, "pec") {
            Some(PaymentMethodId::Pec)
        } else if str_equal(s, "pix") {
            Some(PaymentMethodId::Pix)
        } else if str_equal(s, "bolbradesco") {
            Some(PaymentMethodId::BolBradesco)
        } else if str_equal(s, "accountmoney") {
            Some(PaymentMethodId::AccountMoney)
        } else if str_equal(s, "debelo") {
            Some(PaymentMethodId::Debelo)
        } else if str_equal(s, "elo") {
            Some(PaymentMethodId::Elo)
        } else {
            None
        }
    }

    /// Each value reads back from its own token.
    pub proof fn lemma_wire_name_round_trip(self)
        ensures
            PaymentMethodId::spec_from_wire_name(self.spec_wire_name()) == Some(self),
    {
        reveal_strlit("amex");
        assert("amex"@.len() == 4);
        reveal_strlit("visa");
        assert("visa"@.len() == 4);
        reveal_strlit("master");
        assert("master"@.len() == 6);
        reveal_strlit("hipercard");
        assert("hipercard"@.len() == 9);
        reveal_strlit("pec");
        assert("pec"@.len() == 3);
        reveal_strlit("pix");
        assert("pix"@.len() == 3);
        reveal_strlit("bolbradesco");
        assert("bolbradesco"@.len() == 11);
        reveal_strlit("accountmoney");
        assert("accountmoney"@.len() == 12);
        reveal_strlit("debelo");
        assert("debelo"@.len() == 6);
        reveal_strlit("elo");
        assert("elo"@.len() == 3);
        assert("amex"@[0] != "visa"@[0]);
        assert("master"@[0] != "debelo"@[0]);
        assert("pec"@[1] != "pix"@[1]);
        assert("pec"@[0] != "elo"@[0]);
        assert("pix"@[0] != "elo"@[0]);
    }
}

impl WireValue for PaymentMethodId {
    open spec fn wire_form(&self, j: Json) -> bool {
        j matches Json::Str(s) && PaymentMethodId::spec_from_wire_name(s@) == Some(*self)
    }

    open spec fn omits_absent(&self, j: Json) -> bool {
        true
    }

    open spec fn agrees(&self, other: &Self) -> bool {
        *self == *other
    }

    open spec fn own_key(key: Seq<char>) -> bool {
        false
    }

    open spec fn written_as(&self, j: Json) -> bool {
        j matches Json::Str(s) && s@ == self.spec_wire_name()
    }

    fn to_json(&self) -> (r: Json) {
        proof {
            self.lemma_wire_name_round_trip();
        }
        Json::Str(String::from_str(self.wire_name()))
    }

    fn from_json(j: &Json) -> (r: Result<Self, DecodeError>) {
        match j {
            Json::Str(s) => match PaymentMethodId::from_wire_name(s.as_str()) {
                Some(v) => Ok(v),
                None => Err(DecodeError { path: Vec::new() }),
            },
            _ => Err(DecodeError { path: Vec::new() }),
        }
    }

    proof fn lemma_wire_form_unique(&self, other: &Self, j: Json) {
    }
}

/// Documents for personal identification.
#[derive(Debug, PartialEq, Eq, Structural, Clone, Copy)]
pub enum DocumentType {
    CPF,
    CNPJ,
    DNI,
}

impl DocumentType {
    /// The token that stands for this value on the wire.
    pub open spec fn spec_wire_name(self) -> Seq<char> {
        match self {
            DocumentType::CPF => "CPF"@,
            DocumentType::CNPJ => "CNPJ"@,
            DocumentType::DNI => "DNI"@,
        }
    }

    /// The value that a wire token stands for, if any.
    pub open spec fn spec_from_wire_name(s: Seq<char>) -> Option<DocumentType> {
        if s == "CPF"@ {
            Some(DocumentType::CPF)
        } else if s == "CNPJ"@ {
            Some(DocumentType::CNPJ)
        } else if s == "DNI"@ {
            Some(DocumentType::DNI)
        } else {
            None
        }
    }

    pub fn wire_name(&self) -> (r: &'static str)
        ensures
            r@ == self.spec_wire_name(),
    {
        match self {
            DocumentType::CPF => "CPF",
            DocumentType::CNPJ => "CNPJ",
            DocumentType::DNI => "DNI",
        }
    }

    pub fn from_wire_name(s: &str) -> (r: Option<DocumentType>)
        ensures
            r == DocumentType::spec_from_wire_name(s@),
    {
        if str_equal(s, "CPF") {
            Some(DocumentType::CPF)
        } else if str_equal(s, "CNPJ") {
            Some(DocumentType::CNPJ)
        } else if str_equal(s, "DNI") {
            Some(DocumentType::DNI)
        } else {
            None
        }
    }

    /// Each value reads back from its own token.
    pub proof fn lemma_wire_name_round_trip(self)
        ensures
            DocumentType::spec_from_wire_name(self.spec_wire_name()) == Some(self),
    {
        reveal_strlit("CPF");
        assert("CPF"@.len() == 3);
        reveal_strlit("CNPJ");
        assert("CNPJ"@.len() == 4);
        reveal_strlit("DNI");
        assert("DNI"@.len() == 3);
        assert("CPF"@[0] != "DNI"@[0]);
    }
}

impl WireValue for DocumentType {
    open spec fn wire_form(&self, j: Json) -> bool {
        j matches Json::Str(s) && DocumentType::spec_from_wire_name(s@) == Some(*self)
    }

    open spec fn omits_absent(&self, j: Json) -> bool {
        true
    }

    open spec fn agrees(&self, other: &Self) -> bool {
        *self == *other
    }

    open spec fn own_key(key: Seq<char>) -> bool {
        false
    }

    open spec fn written_as(&self, j: Json) -> bool {
        j matches Json::Str(s) && s@ == self.spec_wire_name()
    }

    fn to_json(&self) -> (r: Json) {
        proof {
            self.lemma_wire_name_round_trip();
        }
        Json::Str(String::from_str(self.wire_name()))
    }

    fn from_json(j: &Json) -> (r: Result<Self, DecodeError>) {
        match j {
            Json::Str(s) => match DocumentType::from_wire_name(s.as_str()) {
                Some(v) => Ok(v),
                None => Err(DecodeError { path: Vec::new() }),
            },
            _ => Err(DecodeError { path: Vec::new() }),
        }
    }

    proof fn lemma_wire_form_unique(&self, other: &Self, j: Json) {
    }
}


/// What is sent to create a payment.
#[derive(Debug, PartialEq)]
pub struct CreatePaymentPayload {
    /// What the payment is for.
    pub description: String,
    pub installments: i64,
    pub order: Order,
    pub payer: BuyerIdentification,
    pub payment_method_id: String,
    /// The card token, for card payments.
    pub token: Option<String>,
    pub transaction_amount: Amount,
    pub external_reference: Option<String>,
    /// Whether the payment can only be approved or rejected at once.
    pub binary_mode: Option<bool>,
    /// How the payment appears on the card statement.
    pub statement_descriptor: Option<String>,
    pub additional_info: Option<AdditionalInfo>,
    pub metadata: Option<Metadata>,
}

impl WireValue for CreatePaymentPayload {
    open spec fn wire_form(&self, j: Json) -> bool {
        &&& j is Object
        &&& value_field(j, "description"@, self.description)
        &&& value_field(j, "installments"@, self.installments)
        &&& value_field(j, "order"@, self.order)
        &&& value_field(j, "payer"@, self.payer)
        &&& value_field(j, "payment_method_id"@, self.payment_method_id)
        &&& opt_value_field(j, "token"@, self.token)
        &&& value_field(j, "transaction_amount"@, self.transaction_amount)
        &&& opt_value_field(j, "external_reference"@, self.external_reference)
        &&& opt_value_field(j, "binary_mode"@, self.binary_mode)
        &&& opt_value_field(j, "statement_descriptor"@, self.statement_descriptor)
        &&& opt_value_field(j, "additional_info"@, self.additional_info)
        &&& opt_value_field(j, "metadata"@, self.metadata)
    }

    open spec fn omits_absent(&self, j: Json) -> bool {
        &&& self.order.omits_absent(field_value(j, "order"@))
        &&& self.payer.omits_absent(field_value(j, "payer"@))
        &&& (self.token is None ==> !has_key(j, "token"@))
        &&& self.transaction_amount.omits_absent(field_value(j, "transaction_amount"@))
        &&& (self.external_reference is None ==> !has_key(j, "external_reference"@))
        &&& (self.binary_mode is None ==> !has_key(j, "binary_mode"@))
        &&& (self.statement_descriptor is None ==> !has_key(j, "statement_descriptor"@))
        &&& (self.additional_info is None ==> !has_key(j, "additional_info"@))
        &&& (self.additional_info is Some ==> self.additional_info.unwrap().omits_absent(field_value(j, "additional_info"@)))
        &&& (self.metadata is None ==> !has_key(j, "metadata"@))
        &&& (self.metadata is Some ==> self.metadata.unwrap().omits_absent(field_value(j, "metadata"@)))
    }

    open spec fn agrees(&self, other: &Self) -> bool {
        &&& self.description.agrees(&other.description)
        &&& self.installments.agrees(&other.installments)
        &&& self.order.agrees(&other.order)
        &&& self.payer.agrees(&other.payer)
        &&& self.payment_method_id.agrees(&other.payment_method_id)
        &&& (self.token is Some <==> other.token is Some)
        &&& (self.token is Some ==> self.token.unwrap().agrees(&other.token.unwrap()))
        &&& self.transaction_amount.agrees(&other.transaction_amount)
        &&& (self.external_reference is Some <==> other.external_reference is Some)
        &&& (self.external_reference is Some ==> self.external_reference.unwrap().agrees(&other.external_reference.unwrap()))
        &&& (self.binary_mode is Some <==> other.binary_mode is Some)
        &&& (self.binary_mode is Some ==> self.binary_mode.unwrap().agrees(&other.binary_mode.unwrap()))
        &&& (self.statement_descriptor is Some <==> other.statement_descriptor is Some)
        &&& (self.statement_descriptor is Some ==> self.statement_descriptor.unwrap().agrees(&other.statement_descriptor.unwrap()))
        &&& (self.additional_info is Some <==> other.additional_info is Some)
        &&& (self.additional_info is Some ==> self.additional_info.unwrap().agrees(&other.additional_info.unwrap()))
        &&& (self.metadata is Some <==> other.metadata is Some)
        &&& (self.metadata is Some ==> self.metadata.unwrap().agrees(&other.metadata.unwrap()))
    }

    open spec fn own_key(key: Seq<char>) -> bool {
        key == "description"@ || key == "installments"@ || key == "order"@ || key == "payer"@ || key == "payment_method_id"@ || key == "token"@ || key == "transaction_amount"@ || key == "external_reference"@ || key == "binary_mode"@ || key == "statement_descriptor"@ || key == "additional_info"@ || key == "metadata"@
    }

    open spec fn written_as(&self, j: Json) -> bool {
        &&& j is Object
        &&& forall|i: int| 0 <= i < entries_of(j).len() ==> Self::own_key(#[trigger] entries_of(j)[i].0@)
        &&& written_field(j, "description"@, self.description)
        &&& written_field(j, "installments"@, self.installments)
        &&& written_field(j, "order"@, self.order)
        &&& written_field(j, "payer"@, self.payer)
        &&& written_field(j, "payment_method_id"@, self.payment_method_id)
        &&& opt_written_field(j, "token"@, self.token)
        &&& written_field(j, "transaction_amount"@, self.transaction_amount)
        &&& opt_written_field(j, "external_reference"@, self.external_reference)
        &&& opt_written_field(j, "binary_mode"@, self.binary_mode)
        &&& opt_written_field(j, "statement_descriptor"@, self.statement_descriptor)
        &&& opt_written_field(j, "additional_info"@, self.additional_info)
        &&& opt_written_field(j, "metadata"@, self.metadata)
    }

    #[verifier::rlimit(100)]
    fn to_json(&self) -> (r: Json) {
        let mut entries: Vec<(String, Json)> = Vec::new();
        entries.push((String::from_str("description"), self.description.to_json()));
        assert(forall|i: int| 0 <= i < entries@.len() ==> Self::own_key(#[trigger] entries@[i].0@));
        entries.push((String::from_str("installments"), self.installments.to_json()));
        assert(forall|i: int| 0 <= i < entries@.len() ==> Self::own_key(#[trigger] entries@[i].0@));
        entries.push((String::from_str("order"), self.order.to_json()));
        assert(forall|i: int| 0 <= i < entries@.len() ==> Self::own_key(#[trigger] entries@[i].0@));
        entries.push((String::from_str("payer"), self.payer.to_json()));
        assert(forall|i: int| 0 <= i < entries@.len() ==> Self::own_key(#[trigger] entries@[i].0@));
        entries.push((String::from_str("payment_method_id"), self.payment_method_id.to_json()));
        assert(forall|i: int| 0 <= i < entries@.len() ==> Self::own_key(#[trigger] entries@[i].0@));
        if let Some(x) = &self.token {
            entries.push((String::from_str("token"), x.to_json()));
            assert(forall|i: int| 0 <= i < entries@.len() ==> Self::own_key(#[trigger] entries@[i].0@));
        }
        entries.push((String::from_str("transaction_amount"), self.transaction_amount.to_json()));
        assert(forall|i: int| 0 <= i < entries@.len() ==> Self::own_key(#[trigger] entries@[i].0@));
        if let Some(x) = &self.external_reference {
            entries.push((String::from_str("external_reference"), x.to_json()));
            assert(forall|i: int| 0 <= i < entries@.len() ==> Self::own_key(#[trigger] entries@[i].0@));
        }
        if let Some(x) = &self.binary_mode {
            entries.push((String::from_str("binary_mode"), x.to_json()));
            assert(forall|i: int| 0 <= i < entries@.len() ==> Self::own_key(#[trigger] entries@[i].0@));
        }
        if let Some(x) = &self.statement_descriptor {
            entries.push((String::from_str("statement_descriptor"), x.to_json()));
            assert(forall|i: int| 0 <= i < entries@.len() ==> Self::own_key(#[trigger] entries@[i].0@));
        }
        if let Some(x) = &self.additional_info {
            entries.push((String::from_str("additional_info"), x.to_json()));
            assert(forall|i: int| 0 <= i < entries@.len() ==> Self::own_key(#[trigger] entries@[i].0@));
        }
        if let Some(x) = &self.metadata {
            entries.push((String::from_str("metadata"), x.to_json()));
            assert(forall|i: int| 0 <= i < entries@.len() ==> Self::own_key(#[trigger] entries@[i].0@));
        }
        let r = Json::Object(entries);
        proof {
            reveal_strlit("description");
            assert("description"@.len() == 11);
            reveal_strlit("installments");
            assert("installments"@.len() == 12);
            reveal_strlit("order");
            assert("order"@.len() == 5);
            reveal_strlit("payer");
            assert("payer"@.len() == 5);
            reveal_strlit("payment_method_id");
            assert("payment_method_id"@.len() == 17);
            reveal_strlit("token");
            assert("token"@.len() == 5);
            reveal_strlit("transaction_amount");
            assert("transaction_amount"@.len() == 18);
            reveal_strlit("external_reference");
            assert("external_reference"@.len() == 18);
            reveal_strlit("binary_mode");
            assert("binary_mode"@.len() == 11);
            reveal_strlit("statement_descriptor");
            assert("statement_descriptor"@.len() == 20);
            reveal_strlit("additional_info");
            assert("additional_info"@.len() == 15);
            reveal_strlit("metadata");
            assert("metadata"@.len() == 8);
            assert("description"@[0] != "binary_mode"@[0]);
            assert("order"@[0] != "payer"@[0]);
            assert("order"@[0] != "token"@[0]);
            assert("payer"@[0] != "token"@[0]);
            assert("transaction_amount"@[0] != "external_reference"@[0]);
            if self.token is None {
                lemma_absent_key(r, "token"@);
            }
            if self.external_reference is None {
                lemma_absent_key(r, "external_reference"@);
            }
            if self.binary_mode is None {
                lemma_absent_key(r, "binary_mode"@);
            }
            if self.statement_descriptor is None {
                lemma_absent_key(r, "statement_descriptor"@);
            }
            if self.additional_info is None {
                lemma_absent_key(r, "additional_info"@);
            }
            if self.metadata is None {
                lemma_absent_key(r, "metadata"@);
            }
        }
        r
    }

    fn from_json(j: &Json) -> (r: Result<Self, DecodeError>) {
        if let Json::Object(_) = j {
        } else {
            return Err(DecodeError { path: Vec::new() });
        }
        let description = match read_value::<String>(j, "description") {
            Ok(x) => x,
            Err(e) => {
                return Err(e);
            },
        };
        let installments = match read_value::<i64>(j, "installments") {
            Ok(x) => x,
            Err(e) => {
                return Err(e);
            },
        };
        let order = match read_value::<Order>(j, "order") {
            Ok(x) => x,
            Err(e) => {
                return Err(e);
            },
        };
        let payer = match read_value::<BuyerIdentification>(j, "payer") {
            Ok(x) => x,
            Err(e) => {
                return Err(e);
            },
        };
        let payment_method_id = match read_value::<String>(j, "payment_method_id") {
            Ok(x) => x,
            Err(e) => {
                return Err(e);
            },
        };
        let token = match read_opt_value::<String>(j, "token") {
            Ok(x) => x,
            Err(e) => {
                return Err(e);
            },
        };
        let transaction_amount = match read_value::<Amount>(j, "transaction_amount") {
            Ok(x) => x,
            Err(e) => {
                return Err(e);
            },
        };
        let external_reference = match read_opt_value::<String>(j, "external_reference") {
            Ok(x) => x,
            Err(e) => {
                return Err(e);
            },
        };
        let binary_mode = match read_opt_value::<bool>(j, "binary_mode") {
            Ok(x) => x,
            Err(e) => {
                return Err(e);
            },
        };
        let statement_descriptor = match read_opt_value::<String>(j, "statement_descriptor") {
            Ok(x) => x,
            Err(e) => {
                return Err(e);
            },
        };
        let additional_info = match read_opt_value::<AdditionalInfo>(j, "additional_info") {
            Ok(x) => x,
            Err(e) => {
                return Err(e);
            },
        };
        let metadata = match read_opt_value::<Metadata>(j, "metadata") {
            Ok(x) => x,
            Err(e) => {
                return Err(e);
            },
        };
        Ok(CreatePaymentPayload { description, installments, order, payer, payment_method_id, token, transaction_amount, external_reference, binary_mode, statement_descriptor, additional_info, metadata })
    }

    proof fn lemma_wire_form_unique(&self, other: &Self, j: Json) {
        lemma_value_field_unique(j, "description"@, self.description, other.description);
        lemma_value_field_unique(j, "installments"@, self.installments, other.installments);
        lemma_value_field_unique(j, "order"@, self.order, other.order);
        lemma_value_field_unique(j, "payer"@, self.payer, other.payer);
        lemma_value_field_unique(j, "payment_method_id"@, self.payment_method_id, other.payment_method_id);
        lemma_opt_value_field_unique(j, "token"@, self.token, other.token);
        lemma_value_field_unique(j, "transaction_amount"@, self.transaction_amount, other.transaction_amount);
        lemma_opt_value_field_unique(j, "external_reference"@, self.external_reference, other.external_reference);
        lemma_opt_value_field_unique(j, "binary_mode"@, self.binary_mode, other.binary_mode);
        lemma_opt_value_field_unique(j, "statement_descriptor"@, self.statement_descriptor, other.statement_descriptor);
        lemma_opt_value_field_unique(j, "additional_info"@, self.additional_info, other.additional_info);
        lemma_opt_value_field_unique(j, "metadata"@, self.metadata, other.metadata);
    }
}

/// What else is known of the purchase: its items, the buyer and where the
/// goods go.
#[derive(Debug, Clone, PartialEq)]
pub struct AdditionalInfo {
    pub items: Vec<Item>,
    pub payer: BuyerInformation,
    pub shipments: Shipments,
    pub barcode: Option<Barcode>,
}

impl WireValue for AdditionalInfo {
    open spec fn wire_form(&self, j: Json) -> bool {
        &&& j is Object
        &&& list_field(j, "items"@, self.items@)
        &&& value_field(j, "payer"@, self.payer)
        &&& value_field(j, "shipments"@, self.shipments)
        &&& opt_value_field(j, "barcode"@, self.barcode)
    }

    open spec fn omits_absent(&self, j: Json) -> bool {
        &&& list_omits_absent(array_items(field_value(j, "items"@)), self.items@)
        &&& self.payer.omits_absent(field_value(j, "payer"@))
        &&& self.shipments.omits_absent(field_value(j, "shipments"@))
        &&& (self.barcode is None ==> !has_key(j, "barcode"@))
        &&& (self.barcode is Some ==> self.barcode.unwrap().omits_absent(field_value(j, "barcode"@)))
    }

    open spec fn agrees(&self, other: &Self) -> bool {
        &&& list_agrees(self.items@, other.items@)
        &&& self.payer.agrees(&other.payer)
        &&& self.shipments.agrees(&other.shipments)
        &&& (self.barcode is Some <==> other.barcode is Some)
        &&& (self.barcode is Some ==> self.barcode.unwrap().agrees(&other.barcode.unwrap()))
    }

    open spec fn own_key(key: Seq<char>) -> bool {
        key == "items"@ || key == "payer"@ || key == "shipments"@ || key == "barcode"@
    }

    open spec fn written_as(&self, j: Json) -> bool {
        &&& j is Object
        &&& forall|i: int| 0 <= i < entries_of(j).len() ==> Self::own_key(#[trigger] entries_of(j)[i].0@)
        &&& list_written_field(j, "items"@, self.items@)
        &&& written_field(j, "payer"@, self.payer)
        &&& written_field(j, "shipments"@, self.shipments)
        &&& opt_written_field(j, "barcode"@, self.barcode)
    }

    fn to_json(&self) -> (r: Json) {
        let mut entries: Vec<(String, Json)> = Vec::new();
        entries.push((String::from_str("items"), list_to_json(&self.items)));
        assert(forall|i: int| 0 <= i < entries@.len() ==> Self::own_key(#[trigger] entries@[i].0@));
        entries.push((String::from_str("payer"), self.payer.to_json()));
        assert(forall|i: int| 0 <= i < entries@.len() ==> Self::own_key(#[trigger] entries@[i].0@));
        entries.push((String::from_str("shipments"), self.shipments.to_json()));
        assert(forall|i: int| 0 <= i < entries@.len() ==> Self::own_key(#[trigger] entries@[i].0@));
        if let Some(x) = &self.barcode {
            entries.push((String::from_str("barcode"), x.to_json()));
            assert(forall|i: int| 0 <= i < entries@.len() ==> Self::own_key(#[trigger] entries@[i].0@));
        }
        let r = Json::Object(entries);
        proof {
            reveal_strlit("items");
            assert("items"@.len() == 5);
            reveal_strlit("payer");
            assert("payer"@.len() == 5);
            reveal_strlit("shipments");
            assert("shipments"@.len() == 9);
            reveal_strlit("barcode");
            assert("barcode"@.len() == 7);
            assert("items"@[0] != "payer"@[0]);
            if self.barcode is None {
                lemma_absent_key(r, "barcode"@);
            }
        }
        r
    }

    fn from_json(j: &Json) -> (r: Result<Self, DecodeError>) {
        if let Json::Object(_) = j {
        } else {
            return Err(DecodeError { path: Vec::new() });
        }
        let items = match read_list_field::<Item>(j, "items") {
            Ok(x) => x,
            Err(e) => {
                return Err(e);
            },
        };
        let payer = match read_value::<BuyerInformation>(j, "payer") {
            Ok(x) => x,
            Err(e) => {
                return Err(e);
            },
        };
        let shipments = match read_value::<Shipments>(j, "shipments") {
            Ok(x) => x,
            Err(e) => {
                return Err(e);
            },
        };
        let barcode = match read_opt_value::<Barcode>(j, "barcode") {
            Ok(x) => x,
            Err(e) => {
                return Err(e);
            },
        };
        Ok(AdditionalInfo { items, payer, shipments, barcode })
    }

    proof fn lemma_wire_form_unique(&self, other: &Self, j: Json) {
        lemma_list_form_unique(array_items(field_value(j, "items"@)), self.items@, other.items@);
        lemma_value_field_unique(j, "payer"@, self.payer, other.payer);
        lemma_value_field_unique(j, "shipments"@, self.shipments, other.shipments);
        lemma_opt_value_field_unique(j, "barcode"@, self.barcode, other.barcode);
    }
}

/// What is known of the buyer.
#[derive(Debug, Clone, PartialEq)]
pub struct BuyerInformation {
    pub first_name: Option<String>,
    pub last_name: Option<String>,
    pub phone: Option<Phone>,
    pub address: Option<Address>,
    pub registration_date: Option<String>,
}

impl WireValue for BuyerInformation {
    open spec fn wire_form(&self, j: Json) -> bool {
        &&& j is Object
        &&& opt_value_field(j, "first_name"@, self.first_name)
        &&& opt_value_field(j, "last_name"@, self.last_name)
        &&& opt_value_field(j, "phone"@, self.phone)
        &&& opt_value_field(j, "address"@, self.address)
        &&& opt_value_field(j, "registration_date"@, self.registration_date)
    }

    open spec fn omits_absent(&self, j: Json) -> bool {
        &&& (self.first_name is None ==> !has_key(j, "first_name"@))
        &&& (self.last_name is None ==> !has_key(j, "last_name"@))
        &&& (self.phone is None ==> !has_key(j, "phone"@))
        &&& (self.phone is Some ==> self.phone.unwrap().omits_absent(field_value(j, "phone"@)))
        &&& (self.address is None ==> !has_key(j, "address"@))
        &&& (self.address is Some ==> self.address.unwrap().omits_absent(field_value(j, "address"@)))
        &&& (self.registration_date is None ==> !has_key(j, "registration_date"@))
    }

    open spec fn agrees(&self, other: &Self) -> bool {
        *self == *other
    }

    open spec fn own_key(key: Seq<char>) -> bool {
        key == "first_name"@ || key == "last_name"@ || key == "phone"@ || key == "address"@ || key == "registration_date"@
    }

    open spec fn written_as(&self, j: Json) -> bool {
        &&& j is Object
        &&& forall|i: int| 0 <= i < entries_of(j).len() ==> Self::own_key(#[trigger] entries_of(j)[i].0@)
        &&& opt_written_field(j, "first_name"@, self.first_name)
        &&& opt_written_field(j, "last_name"@, self.last_name)
        &&& opt_written_field(j, "phone"@, self.phone)
        &&& opt_written_field(j, "address"@, self.address)
        &&& opt_written_field(j, "registration_date"@, self.registration_date)
    }

    fn to_json(&self) -> (r: Json) {
        let mut entries: Vec<(String, Json)> = Vec::new();
        if let Some(x) = &self.first_name {
            entries.push((String::from_str("first_name"), x.to_json()));
            assert(forall|i: int| 0 <= i < entries@.len() ==> Self::own_key(#[trigger] entries@[i].0@));
        }
        if let Some(x) = &self.last_name {
            entries.push((String::from_str("last_name"), x.to_json()));
            assert(forall|i: int| 0 <= i < entries@.len() ==> Self::own_key(#[trigger] entries@[i].0@));
        }
        if let Some(x) = &self.phone {
            entries.push((String::from_str("phone"), x.to_json()));
            assert(forall|i: int| 0 <= i < entries@.len() ==> Self::own_key(#[trigger] entries@[i].0@));
        }
        if let Some(x) = &self.address {
            entries.push((String::from_str("address"), x.to_json()));
            assert(forall|i: int| 0 <= i < entries@.len() ==> Self::own_key(#[trigger] entries@[i].0@));
        }
        if let Some(x) = &self.registration_date {
            entries.push((String::from_str("registration_date"), x.to_json()));
            assert(forall|i: int| 0 <= i < entries@.len() ==> Self::own_key(#[trigger] entries@[i].0@));
        }
        let r = Json::Object(entries);
        proof {
            reveal_strlit("first_name");
            assert("first_name"@.len() == 10);
            reveal_strlit("last_name");
            assert("last_name"@.len() == 9);
            reveal_strlit("phone");
            assert("phone"@.len() == 5);
            reveal_strlit("address");
            assert("address"@.len() == 7);
            reveal_strlit("registration_date");
            assert("registration_date"@.len() == 17);
            if self.first_name is None {
                lemma_absent_key(r, "first_name"@);
            }
            if self.last_name is None {
                lemma_absent_key(r, "last_name"@);
            }
            if self.phone is None {
                lemma_absent_key(r, "phone"@);
            }
            if self.address is None {
                lemma_absent_key(r, "address"@);
            }
            if self.registration_date is None {
                lemma_absent_key(r, "registration_date"@);
            }
        }
        r
    }

    fn from_json(j: &Json) -> (r: Result<Self, DecodeError>) {
        if let Json::Object(_) = j {
        } else {
            return Err(DecodeError { path: Vec::new() });
        }
        let first_name = match read_opt_value::<String>(j, "first_name") {
            Ok(x) => x,
            Err(e) => {
                return Err(e);
            },
        };
        let last_name = match read_opt_value::<String>(j, "last_name") {
            Ok(x) => x,
            Err(e) => {
                return Err(e);
            },
        };
        let phone = match read_opt_value::<Phone>(j, "phone") {
            Ok(x) => x,
            Err(e) => {
                return Err(e);
            },
        };
        let address = match read_opt_value::<Address>(j, "address") {
            Ok(x) => x,
            Err(e) => {
                return Err(e);
            },
        };
        let registration_date = match read_opt_value::<String>(j, "registration_date") {
            Ok(x) => x,
            Err(e) => {
                return Err(e);
            },
        };
        Ok(BuyerInformation { first_name, last_name, phone, address, registration_date })
    }

    proof fn lemma_wire_form_unique(&self, other: &Self, j: Json) {
        lemma_opt_value_field_unique(j, "first_name"@, self.first_name, other.first_name);
        lemma_opt_value_field_unique(j, "last_name"@, self.last_name, other.last_name);
        lemma_opt_value_field_unique(j, "phone"@, self.phone, other.phone);
        lemma_opt_value_field_unique(j, "address"@, self.address, other.address);
        lemma_opt_value_field_unique(j, "registration_date"@, self.registration_date, other.registration_date);
    }
}

/// A barcode; the processor fills it in.
#[derive(Debug, Clone, PartialEq)]
pub struct Barcode {}

impl WireValue for Barcode {
    open spec fn wire_form(&self, j: Json) -> bool {
        &&& j is Object
    }

    open spec fn omits_absent(&self, j: Json) -> bool {
        true
    }

    open spec fn agrees(&self, other: &Self) -> bool {
        *self == *other
    }

    open spec fn own_key(key: Seq<char>) -> bool {
        false
    }

    open spec fn written_as(&self, j: Json) -> bool {
        &&& j is Object
        &&& forall|i: int| 0 <= i < entries_of(j).len() ==> Self::own_key(#[trigger] entries_of(j)[i].0@)
    }

    fn to_json(&self) -> (r: Json) {
        let mut entries: Vec<(String, Json)> = Vec::new();
        let r = Json::Object(entries);
        proof {
        }
        r
    }

    fn from_json(j: &Json) -> (r: Result<Self, DecodeError>) {
        if let Json::Object(_) = j {
        } else {
            return Err(DecodeError { path: Vec::new() });
        }
        Ok(Barcode {  })
    }

    proof fn lemma_wire_form_unique(&self, other: &Self, j: Json) {
    }
}

/// The order that a payment belongs to.
#[derive(Debug, Clone, PartialEq)]
pub struct Order {
    /// Sent under the key `type`.
    pub order_type: String,
}

impl WireValue for Order {
    open spec fn wire_form(&self, j: Json) -> bool {
        &&& j is Object
        &&& value_field(j, "type"@, self.order_type)
    }

    open spec fn omits_absent(&self, j: Json) -> bool {
        true
    }

    open spec fn agrees(&self, other: &Self) -> bool {
        *self == *other
    }

    open spec fn own_key(key: Seq<char>) -> bool {
        key == "type"@
    }

    open spec fn written_as(&self, j: Json) -> bool {
        &&& j is Object
        &&& forall|i: int| 0 <= i < entries_of(j).len() ==> Self::own_key(#[trigger] entries_of(j)[i].0@)
        &&& written_field(j, "type"@, self.order_type)
    }

    fn to_json(&self) -> (r: Json) {
        let mut entries: Vec<(String, Json)> = Vec::new();
        entries.push((String::from_str("type"), self.order_type.to_json()));
        assert(forall|i: int| 0 <= i < entries@.len() ==> Self::own_key(#[trigger] entries@[i].0@));
        let r = Json::Object(entries);
        proof {
            reveal_strlit("type");
        }
        r
    }

    fn from_json(j: &Json) -> (r: Result<Self, DecodeError>) {
        if let Json::Object(_) = j {
        } else {
            return Err(DecodeError { path: Vec::new() });
        }
        let order_type = match read_value::<String>(j, "type") {
            Ok(x) => x,
            Err(e) => {
                return Err(e);
            },
        };
        Ok(Order { order_type })
    }

    proof fn lemma_wire_form_unique(&self, other: &Self, j: Json) {
        lemma_value_field_unique(j, "type"@, self.order_type, other.order_type);
    }
}

/// Who pays.
#[derive(Debug, Clone, PartialEq)]
pub struct BuyerIdentification {
    pub email: Option<String>,
    /// Sent under the key `type`.
    pub buyer_type: BuyerType,
    /// Sent under the key `entity_type`.
    pub buyer_entity_type: Option<BuyerEntityType>,
    pub identification: Option<PersonalIdentification>,
    pub first_name: Option<String>,
    pub last_name: Option<String>,
}

impl WireValue for BuyerIdentification {
    open spec fn wire_form(&self, j: Json) -> bool {
        &&& j is Object
        &&& opt_value_field(j, "email"@, self.email)
        &&& value_field(j, "type"@, self.buyer_type)
        &&& opt_value_field(j, "entity_type"@, self.buyer_entity_type)
        &&& opt_value_field(j, "identification"@, self.identification)
        &&& opt_value_field(j, "first_name"@, self.first_name)
        &&& opt_value_field(j, "last_name"@, self.last_name)
    }

    open spec fn omits_absent(&self, j: Json) -> bool {
        &&& (self.email is None ==> !has_key(j, "email"@))
        &&& self.buyer_type.omits_absent(field_value(j, "type"@))
        &&& (self.buyer_entity_type is None ==> !has_key(j, "entity_type"@))
        &&& (self.buyer_entity_type is Some ==> self.buyer_entity_type.unwrap().omits_absent(field_value(j, "entity_type"@)))
        &&& (self.identification is None ==> !has_key(j, "identification"@))
        &&& (self.identification is Some ==> self.identification.unwrap().omits_absent(field_value(j, "identification"@)))
        &&& (self.first_name is None ==> !has_key(j, "first_name"@))
        &&& (self.last_name is None ==> !has_key(j, "last_name"@))
    }

    open spec fn agrees(&self, other: &Self) -> bool {
        *self == *other
    }

    open spec fn own_key(key: Seq<char>) -> bool {
        key == "email"@ || key == "type"@ || key == "entity_type"@ || key == "identification"@ || key == "first_name"@ || key == "last_name"@
    }

    open spec fn written_as(&self, j: Json) -> bool {
        &&& j is Object
        &&& forall|i: int| 0 <= i < entries_of(j).len() ==> Self::own_key(#[trigger] entries_of(j)[i].0@)
        &&& opt_written_field(j, "email"@, self.email)
        &&& written_field(j, "type"@, self.buyer_type)
        &&& opt_written_field(j, "entity_type"@, self.buyer_entity_type)
        &&& opt_written_field(j, "identification"@, self.identification)
        &&& opt_written_field(j, "first_name"@, self.first_name)
        &&& opt_written_field(j, "last_name"@, self.last_name)
    }

    fn to_json(&self) -> (r: Json) {
        let mut entries: Vec<(String, Json)> = Vec::new();
        if let Some(x) = &self.email {
            entries.push((String::from_str("email"), x.to_json()));
            assert(forall|i: int| 0 <= i < entries@.len() ==> Self::own_key(#[trigger] entries@[i].0@));
        }
        entries.push((String::from_str("type"), self.buyer_type.to_json()));
        assert(forall|i: int| 0 <= i < entries@.len() ==> Self::own_key(#[trigger] entries@[i].0@));
        if let Some(x) = &self.buyer_entity_type {
            entries.push((String::from_str("entity_type"), x.to_json()));
            assert(forall|i: int| 0 <= i < entries@.len() ==> Self::own_key(#[trigger] entries@[i].0@));
        }
        if let Some(x) = &self.identification {
            entries.push((String::from_str("identification"), x.to_json()));
            assert(forall|i: int| 0 <= i < entries@.len() ==> Self::own_key(#[trigger] entries@[i].0@));
        }
        if let Some(x) = &self.first_name {
            entries.push((String::from_str("first_name"), x.to_json()));
            assert(forall|i: int| 0 <= i < entries@.len() ==> Self::own_key(#[trigger] entries@[i].0@));
        }
        if let Some(x) = &self.last_name {
            entries.push((String::from_str("last_name"), x.to_json()));
            assert(forall|i: int| 0 <= i < entries@.len() ==> Self::own_key(#[trigger] entries@[i].0@));
        }
        let r = Json::Object(entries);
        proof {
            reveal_strlit("email");
            assert("email"@.len() == 5);
            reveal_strlit("type");
            assert("type"@.len() == 4);
            reveal_strlit("entity_type");
            assert("entity_type"@.len() == 11);
            reveal_strlit("identification");
            assert("identification"@.len() == 14);
            reveal_strlit("first_name");
            assert("first_name"@.len() == 10);
            reveal_strlit("last_name");
            assert("last_name"@.len() == 9);
            if self.email is None {
                lemma_absent_key(r, "email"@);
            }
            if self.buyer_entity_type is None {
                lemma_absent_key(r, "entity_type"@);
            }
            if self.identification is None {
                lemma_absent_key(r, "identification"@);
            }
            if self.first_name is None {
                lemma_absent_key(r, "first_name"@);
            }
            if self.last_name is None {
                lemma_absent_key(r, "last_name"@);
            }
        }
        r
    }

    fn from_json(j: &Json) -> (r: Result<Self, DecodeError>) {
        if let Json::Object(_) = j {
        } else {
            return Err(DecodeError { path: Vec::new() });
        }
        let email = match read_opt_value::<String>(j, "email") {
            Ok(x) => x,
            Err(e) => {
                return Err(e);
            },
        };
        let buyer_type = match read_value::<BuyerType>(j, "type") {
            Ok(x) => x,
            Err(e) => {
                return Err(e);
            },
        };
        let buyer_entity_type = match read_opt_value::<BuyerEntityType>(j, "entity_type") {
            Ok(x) => x,
            Err(e) => {
                return Err(e);
            },
        };
        let identification = match read_opt_value::<PersonalIdentification>(j, "identification") {
            Ok(x) => x,
            Err(e) => {
                return Err(e);
            },
        };
        let first_name = match read_opt_value::<String>(j, "first_name") {
            Ok(x) => x,
            Err(e) => {
                return Err(e);
            },
        };
        let last_name = match read_opt_value::<String>(j, "last_name") {
            Ok(x) => x,
            Err(e) => {
                return Err(e);
            },
        };
        Ok(BuyerIdentification { email, buyer_type, buyer_entity_type, identification, first_name, last_name })
    }

    proof fn lemma_wire_form_unique(&self, other: &Self, j: Json) {
        lemma_opt_value_field_unique(j, "email"@, self.email, other.email);
        lemma_value_field_unique(j, "type"@, self.buyer_type, other.buyer_type);
        lemma_opt_value_field_unique(j, "entity_type"@, self.buyer_entity_type, other.buyer_entity_type);
        lemma_opt_value_field_unique(j, "identification"@, self.identification, other.identification);
        lemma_opt_value_field_unique(j, "first_name"@, self.first_name, other.first_name);
        lemma_opt_value_field_unique(j, "last_name"@, self.last_name, other.last_name);
    }
}

} // verus!
