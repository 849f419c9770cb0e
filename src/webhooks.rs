//! Notifications that the processor pushes to the seller.
use vstd::prelude::*;

use crate::json::{
    entries_of, field_value, lemma_value_field_unique, read_value, value_field, written_field,
    DecodeError, Json, WireValue,
};

verus! {

broadcast use crate::json::lemma_lookup_push;

/// A notification that the processor sends when a payment changes. It is
/// only ever read, never sent.
#[derive(Debug, Clone, PartialEq)]
pub struct WebhookRequest {
    /// Sent under the key `id`.
    pub notification_id: i64,
    /// Whether the notification comes from production rather than a sandbox.
    pub live_mode: bool,
    /// Sent under the key `type`.
    pub type_field: String,
    pub date_created: String,
    pub application_id: i64,
    /// The user that receives the notification.
    pub user_id: i64,
    pub version: i64,
    pub api_version: String,
    pub action: String,
    pub data: Data,
}

impl WireValue for WebhookRequest {
    open spec fn wire_form(&self, j: Json) -> bool {
        &&& j is Object
        &&& value_field(j, "id"@, self.notification_id)
        &&& value_field(j, "live_mode"@, self.live_mode)
        &&& value_field(j, "type"@, self.type_field)
        &&& value_field(j, "date_created"@, self.date_created)
        &&& value_field(j, "application_id"@, self.application_id)
        &&& value_field(j, "user_id"@, self.user_id)
        &&& value_field(j, "version"@, self.version)
        &&& value_field(j, "api_version"@, self.api_version)
        &&& value_field(j, "action"@, self.action)
        &&& value_field(j, "data"@, self.data)
    }

    open spec fn omits_absent(&self, j: Json) -> bool {
        self.data.omits_absent(field_value(j, "data"@))
    }

    open spec fn agrees(&self, other: &Self) -> bool {
        *self == *other
    }

    open spec fn own_key(key: Seq<char>) -> bool {
        key == "id"@ || key == "live_mode"@ || key == "type"@ || key == "date_created"@ || key == "application_id"@ || key == "user_id"@ || key == "version"@ || key == "api_version"@ || key == "action"@ || key == "data"@
    }

    open spec fn written_as(&self, j: Json) -> bool {
        &&& j is Object
        &&& forall|i: int| 0 <= i < entries_of(j).len() ==> Self::own_key(#[trigger] entries_of(j)[i].0@)
        &&& written_field(j, "id"@, self.notification_id)
        &&& written_field(j, "live_mode"@, self.live_mode)
        &&& written_field(j, "type"@, self.type_field)
        &&& written_field(j, "date_created"@, self.date_created)
        &&& written_field(j, "application_id"@, self.application_id)
        &&& written_field(j, "user_id"@, self.user_id)
        &&& written_field(j, "version"@, self.version)
        &&& written_field(j, "api_version"@, self.api_version)
        &&& written_field(j, "action"@, self.action)
        &&& written_field(j, "data"@, self.data)
    }

    fn to_json(&self) -> (r: Json) {
        let mut entries: Vec<(String, Json)> = Vec::new();
        entries.push((String::from_str("id"), self.notification_id.to_json()));
        assert(forall|i: int| 0 <= i < entries@.len() ==> Self::own_key(#[trigger] entries@[i].0@));
        entries.push((String::from_str("live_mode"), self.live_mode.to_json()));
        assert(forall|i: int| 0 <= i < entries@.len() ==> Self::own_key(#[trigger] entries@[i].0@));
        entries.push((String::from_str("type"), self.type_field.to_json()));
        assert(forall|i: int| 0 <= i < entries@.len() ==> Self::own_key(#[trigger] entries@[i].0@));
        entries.push((String::from_str("date_created"), self.date_created.to_json()));
        assert(forall|i: int| 0 <= i < entries@.len() ==> Self::own_key(#[trigger] entries@[i].0@));
        entries.push((String::from_str("application_id"), self.application_id.to_json()));
        assert(forall|i: int| 0 <= i < entries@.len() ==> Self::own_key(#[trigger] entries@[i].0@));
        entries.push((String::from_str("user_id"), self.user_id.to_json()));
        assert(forall|i: int| 0 <= i < entries@.len() ==> Self::own_key(#[trigger] entries@[i].0@));
        entries.push((String::from_str("version"), self.version.to_json()));
        assert(forall|i: int| 0 <= i < entries@.len() ==> Self::own_key(#[trigger] entries@[i].0@));
        entries.push((String::from_str("api_version"), self.api_version.to_json()));
        assert(forall|i: int| 0 <= i < entries@.len() ==> Self::own_key(#[trigger] entries@[i].0@));
        entries.push((String::from_str("action"), self.action.to_json()));
        assert(forall|i: int| 0 <= i < entries@.len() ==> Self::own_key(#[trigger] entries@[i].0@));
        entries.push((String::from_str("data"), self.data.to_json()));
        assert(forall|i: int| 0 <= i < entries@.len() ==> Self::own_key(#[trigger] entries@[i].0@));
        let r = Json::Object(entries);
        proof {
            reveal_strlit("id");
            assert("id"@.len() == 2);
            reveal_strlit("live_mode");
            assert("live_mode"@.len() == 9);
            reveal_strlit("type");
            assert("type"@.len() == 4);
            reveal_strlit("date_created");
            assert("date_created"@.len() == 12);
            reveal_strlit("application_id");
            assert("application_id"@.len() == 14);
            reveal_strlit("user_id");
            assert("user_id"@.len() == 7);
            reveal_strlit("version");
            assert("version"@.len() == 7);
            reveal_strlit("api_version");
            assert("api_version"@.len() == 11);
            reveal_strlit("action");
            assert("action"@.len() == 6);
            reveal_strlit("data");
            assert("data"@.len() == 4);
            assert("type"@[0] != "data"@[0]);
            assert("user_id"@[0] != "version"@[0]);
        }
        r
    }

    fn from_json(j: &Json) -> (r: Result<Self, DecodeError>) {
        if let Json::Object(_) = j {
        } else {
            return Err(DecodeError { path: Vec::new() });
        }
        let notification_id = match read_value::<i64>(j, "id") {
            Ok(x) => x,
            Err(e) => {
                return Err(e);
            },
        };
        let live_mode = match read_value::<bool>(j, "live_mode") {
            Ok(x) => x,
            Err(e) => {
                return Err(e);
            },
        };
        let type_field = match read_value::<String>(j, "type") {
            Ok(x) => x,
            Err(e) => {
                return Err(e);
            },
        };
        let date_created = match read_value::<String>(j, "date_created") {
            Ok(x) => x,
            Err(e) => {
                return Err(e);
            },
        };
        let application_id = match read_value::<i64>(j, "application_id") {
            Ok(x) => x,
            Err(e) => {
                return Err(e);
            },
        };
        let user_id = match read_value::<i64>(j, "user_id") {
            Ok(x) => x,
            Err(e) => {
                return Err(e);
            },
        };
        let version = match read_value::<i64>(j, "version") {
            Ok(x) => x,
            Err(e) => {
                return Err(e);
            },
        };
        let api_version = match read_value::<String>(j, "api_version") {
            Ok(x) => x,
            Err(e) => {
                return Err(e);
            },
        };
        let action = match read_value::<String>(j, "action") {
            Ok(x) => x,
            Err(e) => {
                return Err(e);
            },
        };
        let data = match read_value::<Data>(j, "data") {
            Ok(x) => x,
            Err(e) => {
                return Err(e);
            },
        };
        Ok(WebhookRequest { notification_id, live_mode, type_field, date_created, application_id, user_id, version, api_version, action, data })
    }

    proof fn lemma_wire_form_unique(&self, other: &Self, j: Json) {
        lemma_value_field_unique(j, "id"@, self.notification_id, other.notification_id);
        lemma_value_field_unique(j, "live_mode"@, self.live_mode, other.live_mode);
        lemma_value_field_unique(j, "type"@, self.type_field, other.type_field);
        lemma_value_field_unique(j, "date_created"@, self.date_created, other.date_created);
        lemma_value_field_unique(j, "application_id"@, self.application_id, other.application_id);
        lemma_value_field_unique(j, "user_id"@, self.user_id, other.user_id);
        lemma_value_field_unique(j, "version"@, self.version, other.version);
        lemma_value_field_unique(j, "api_version"@, self.api_version, other.api_version);
        lemma_value_field_unique(j, "action"@, self.action, other.action);
        lemma_value_field_unique(j, "data"@, self.data, other.data);
    }
}

/// What a notification is about.
#[derive(Debug, Clone, PartialEq)]
pub struct Data {
    /// Sent under the key `id`.
    pub payment_id: String,
}

impl WireValue for Data {
    open spec fn wire_form(&self, j: Json) -> bool {
        &&& j is Object
        &&& value_field(j, "id"@, self.payment_id)
    }

    open spec fn omits_absent(&self, j: Json) -> bool {
        true
    }

    open spec fn agrees(&self, other: &Self) -> bool {
        *self == *other
    }

    open spec fn own_key(key: Seq<char>) -> bool {
        key == "id"@
    }

    open spec fn written_as(&self, j: Json) -> bool {
        &&& j is Object
        &&& forall|i: int| 0 <= i < entries_of(j).len() ==> Self::own_key(#[trigger] entries_of(j)[i].0@)
        &&& written_field(j, "id"@, self.payment_id)
    }

    fn to_json(&self) -> (r: Json) {
        let mut entries: Vec<(String, Json)> = Vec::new();
        entries.push((String::from_str("id"), self.payment_id.to_json()));
        assert(forall|i: int| 0 <= i < entries@.len() ==> Self::own_key(#[trigger] entries@[i].0@));
        let r = Json::Object(entries);
        proof {
            reveal_strlit("id");
        }
        r
    }

    fn from_json(j: &Json) -> (r: Result<Self, DecodeError>) {
        if let Json::Object(_) = j {
        } else {
            return Err(DecodeError { path: Vec::new() });
        }
        let payment_id = match read_value::<String>(j, "id") {
            Ok(x) => x,
            Err(e) => {
                return Err(e);
            },
        };
        Ok(Data { payment_id })
    }

    proof fn lemma_wire_form_unique(&self, other: &Self, j: Json) {
        lemma_value_field_unique(j, "id"@, self.payment_id, other.payment_id);
    }
}

} // verus!
