//! Relations: typed links between entities (topology, connectivity, calculation chains).
use vstd::prelude::*;
use crate::json::{JsonValue, JsonView};

pub mod predicates;

verus! {

/// A link `from_id --predicate--> to_id`, with attributes of the link.
#[derive(Debug)]
pub struct RelationRecord {
    /// The source entity.
    pub from_id: String,
    /// The nature of the link (see `predicates`).
    pub predicate: String,
    /// The target entity.
    pub to_id: String,
    /// Additional context (coefficients, addresses, priorities, ...).
    pub attributes: JsonValue,
    /// A structural link of the system.
    pub is_system: bool,
}

/// The model of a relation.
pub struct RelationRecordView {
    pub from_id: Seq<char>,
    pub predicate: Seq<char>,
    pub to_id: Seq<char>,
    pub attributes: JsonView,
    pub is_system: bool,
}

impl View for RelationRecord {
    type V = RelationRecordView;

    open spec fn view(&self) -> RelationRecordView {
        RelationRecordView {
            from_id: self.from_id@,
            predicate: self.predicate@,
            to_id: self.to_id@,
            attributes: self.attributes@,
            is_system: self.is_system,
        }
    }
}

} // verus!
