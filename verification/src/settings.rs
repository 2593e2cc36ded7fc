//! Settings: keyed values attached to entities.
use vstd::prelude::*;
use crate::json::JsonValue;

pub mod keys;

verus! {

/// A setting of an entity.
#[derive(Debug)]
pub struct Setting {
    pub entity_id: i64,
    pub key: String,
    pub value: JsonValue,
    pub updated_at: Option<String>,
}

} // verus!
