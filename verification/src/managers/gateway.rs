//! Gateways: the type check of new gateways, the lifecycle events they raise, and the
//! registry of their operational states.
use vstd::prelude::*;
use crate::entities::{Entity, EntityType};
use crate::json::{JsonValue, JsonView, entries_view};
use crate::registry::Registry;
use crate::text::to_string_of;

verus! {

/// A gateway at run time: its entity fields and whether it is connected.
#[derive(Debug)]
pub struct GatewayInstance {
    pub id: String,
    pub label: String,
    pub interface_id: String,
    pub configuration: JsonValue,
    pub is_connected: bool,
}

/// The drivers a gateway can run.
#[derive(Debug, Clone, Copy, PartialEq, Eq, Structural)]
pub enum GatewayDriver {
    Mqtt,
    ModbusIp,
    ModbusRtu,
    Zigbee,
    Virtual,
}

/// Only gateway entities may be created as gateways.
pub fn check_gateway_entity(entity: &Entity) -> (r: Result<(), String>)
    ensures
        match r {
            Ok(()) => entity.entity_type == EntityType::Gateway,
            Err(e) => entity.entity_type != EntityType::Gateway && e@ == "Type mismatch: expected Gateway"@,
        },
{
    match entity.entity_type {
        EntityType::Gateway => Ok(()),
        _ => Err(to_string_of("Type mismatch: expected Gateway")),
    }
}

/// The lifecycle events of a gateway record.
#[derive(Debug, Clone, Copy, PartialEq, Eq, Structural)]
pub enum GatewayLifecycle {
    Created,
    Updated,
    Deleted,
}

/// The point topic of a lifecycle event.
pub open spec fn lifecycle_point_spec(e: GatewayLifecycle) -> Seq<char> {
    match e {
        GatewayLifecycle::Created => "gateway/created"@,
        GatewayLifecycle::Updated => "gateway/updated"@,
        GatewayLifecycle::Deleted => "gateway/deleted"@,
    }
}

/// The log message of a lifecycle event that succeeded.
pub open spec fn lifecycle_message_spec(e: GatewayLifecycle) -> Seq<char> {
    match e {
        GatewayLifecycle::Created => "Gateway successfully created in database"@,
        GatewayLifecycle::Updated => "Gateway record updated in database"@,
        GatewayLifecycle::Deleted => "Gateway successfully removed from database"@,
    }
}

impl GatewayLifecycle {
    pub fn point_topic(&self) -> (r: String)
        ensures
            r@ == lifecycle_point_spec(*self),
    {
        match self {
            GatewayLifecycle::Created => to_string_of("gateway/created"),
            GatewayLifecycle::Updated => to_string_of("gateway/updated"),
            GatewayLifecycle::Deleted => to_string_of("gateway/deleted"),
        }
    }

    pub fn message(&self) -> (r: String)
        ensures
            r@ == lifecycle_message_spec(*self),
    {
        match self {
            GatewayLifecycle::Created => to_string_of("Gateway successfully created in database"),
            GatewayLifecycle::Updated => to_string_of("Gateway record updated in database"),
            GatewayLifecycle::Deleted => to_string_of("Gateway successfully removed from database"),
        }
    }
}

/// The state reported for a gateway that has none: `{"status": "unknown"}`.
pub open spec fn unknown_state() -> JsonView {
    JsonView::Object(seq![("status"@, JsonView::Text("unknown"@))])
}

/// The operational state of each gateway, keyed by gateway identifier.
pub struct GatewayStates {
    states: Registry<JsonValue>,
}

impl GatewayStates {
    /// The model: the state of each gateway that has one.
    pub closed spec fn states(&self) -> Map<Seq<char>, JsonView> {
        self.states.map().map_values(|v: JsonValue| v@)
    }

    /// The state a read of gateway `id` gives.
    pub open spec fn state_of(&self, id: Seq<char>) -> JsonView {
        if self.states().contains_key(id) {
            self.states()[id]
        } else {
            unknown_state()
        }
    }

    /// No gateway has a state.
    pub fn new() -> (r: Self)
        ensures
            r.states() == Map::<Seq<char>, JsonView>::empty(),
    {
        let r = GatewayStates { states: Registry::new() };
        assert(r.states() =~= Map::<Seq<char>, JsonView>::empty());
        r
    }

    /// Records the state of gateway `id`.
    pub fn update_state(&mut self, id: String, state: JsonValue)
        ensures
            final(self).states() == old(self).states().insert(id@, state@),
    {
        let ghost k = id@;
        let ghost sv = state@;
        self.states.insert(id, state);
        assert(self.states() =~= old(self).states().insert(k, sv));
    }

    /// The state of gateway `id`, or `{"status": "unknown"}`.
    pub fn get_state(&self, id: &str) -> (r: JsonValue)
        ensures
            r@ == self.state_of(id@),
    {
        match self.states.get(id) {
            Some(v) => v.duplicate(),
            None => {
                let v = vec![(to_string_of("status"), JsonValue::text("unknown"))];
                assert(entries_view(v@) =~= unknown_state()->Object_0);
                JsonValue::Object(v)
            },
        }
    }

    /// Forgets the state of gateway `id`.
    pub fn remove_state(&mut self, id: &str)
        ensures
            final(self).states() == old(self).states().remove(id@),
    {
        let _ = self.states.remove(id);
        assert(self.states() =~= old(self).states().remove(id@));
    }
}

/// A read gives back the state last recorded for the gateway, and recording the state of one
/// gateway leaves the others' as they were.
pub proof fn lemma_state_read_after_write(before: GatewayStates, after: GatewayStates, id: Seq<char>, state: JsonView, other: Seq<char>)
    requires
        after.states() == before.states().insert(id, state),
    ensures
        after.state_of(id) == state,
        other != id ==> after.state_of(other) == before.state_of(other),
{
}

/// After its state is forgotten, a gateway reads as unknown; the others are unaffected.
pub proof fn lemma_state_after_remove(before: GatewayStates, after: GatewayStates, id: Seq<char>, other: Seq<char>)
    requires
        after.states() == before.states().remove(id),
    ensures
        after.state_of(id) == unknown_state(),
        other != id ==> after.state_of(other) == before.state_of(other),
{
}

} // verus!
