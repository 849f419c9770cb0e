//! What the processor returns for a checkout preference.
use vstd::prelude::*;

use crate::json::{
    entries_of, lemma_value_field_unique, read_value, value_field, written_field, DecodeError, Json,
    WireValue,
};

verus! {

broadcast use crate::json::lemma_lookup_push;

/// What comes back when a checkout preference is created: its id, and the
/// pages where the buyer pays.
#[derive(Debug, Clone, PartialEq)]
pub struct CheckoutProPreferencesResponse {
    pub id: String,
    pub collector_id: i64,
    /// The checkout page.
    pub init_point: String,
    /// The checkout page in the sandbox.
    pub sandbox_init_point: String,
}

impl WireValue for CheckoutProPreferencesResponse {
    open spec fn wire_form(&self, j: Json) -> bool {
        &&& j is Object
        &&& value_field(j, "id"@, self.id)
        &&& value_field(j, "collector_id"@, self.collector_id)
        &&& value_field(j, "init_point"@, self.init_point)
        &&& value_field(j, "sandbox_init_point"@, self.sandbox_init_point)
    }

    open spec fn omits_absent(&self, j: Json) -> bool {
        true
    }

    open spec fn agrees(&self, other: &Self) -> bool {
        *self == *other
    }

    open spec fn own_key(key: Seq<char>) -> bool {
        key == "id"@ || key == "collector_id"@ || key == "init_point"@ || key == "sandbox_init_point"@
    }

    open spec fn written_as(&self, j: Json) -> bool {
        &&& j is Object
        &&& forall|i: int| 0 <= i < entries_of(j).len() ==> Self::own_key(#[trigger] entries_of(j)[i].0@)
        &&& written_field(j, "id"@, self.id)
        &&& written_field(j, "collector_id"@, self.collector_id)
        &&& written_field(j, "init_point"@, self.init_point)
        &&& written_field(j, "sandbox_init_point"@, self.sandbox_init_point)
    }

    fn to_json(&self) -> (r: Json) {
        let mut entries: Vec<(String, Json)> = Vec::new();
        entries.push((String::from_str("id"), self.id.to_json()));
        assert(forall|i: int| 0 <= i < entries@.len() ==> Self::own_key(#[trigger] entries@[i].0@));
        entries.push((String::from_str("collector_id"), self.collector_id.to_json()));
        assert(forall|i: int| 0 <= i < entries@.len() ==> Self::own_key(#[trigger] entries@[i].0@));
        entries.push((String::from_str("init_point"), self.init_point.to_json()));
        assert(forall|i: int| 0 <= i < entries@.len() ==> Self::own_key(#[trigger] entries@[i].0@));
        entries.push((String::from_str("sandbox_init_point"), self.sandbox_init_point.to_json()));
        assert(forall|i: int| 0 <= i < entries@.len() ==> Self::own_key(#[trigger] entries@[i].0@));
        let r = Json::Object(entries);
        proof {
            reveal_strlit("id");
            assert("id"@.len() == 2);
            reveal_strlit("collector_id");
            assert("collector_id"@.len() == 12);
            reveal_strlit("init_point");
            assert("init_point"@.len() == 10);
            reveal_strlit("sandbox_init_point");
            assert("sandbox_init_point"@.len() == 18);
        }
        r
    }

    fn from_json(j: &Json) -> (r: Result<Self, DecodeError>) {
        if let Json::Object(_) = j {
        } else {
            return Err(DecodeError { path: Vec::new() });
        }
        let id = match read_value::<String>(j, "id") {
            Ok(x) => x,
            Err(e) => {
                return Err(e);
            },
        };
        let collector_id = match read_value::<i64>(j, "collector_id") {
            Ok(x) => x,
            Err(e) => {
                return Err(e);
            },
        };
        let init_point = match read_value::<String>(j, "init_point") {
            Ok(x) => x,
            Err(e) => {
                return Err(e);
            },
        };
        let sandbox_init_point = match read_value::<String>(j, "sandbox_init_point") {
            Ok(x) => x,
            Err(e) => {
                return Err(e);
            },
        };
        Ok(CheckoutProPreferencesResponse { id, collector_id, init_point, sandbox_init_point })
    }

    proof fn lemma_wire_form_unique(&self, other: &Self, j: Json) {
        lemma_value_field_unique(j, "id"@, self.id, other.id);
        lemma_value_field_unique(j, "collector_id"@, self.collector_id, other.collector_id);
        lemma_value_field_unique(j, "init_point"@, self.init_point, other.init_point);
        lemma_value_field_unique(j, "sandbox_init_point"@, self.sandbox_init_point, other.sandbox_init_point);
    }
}

} // verus!
