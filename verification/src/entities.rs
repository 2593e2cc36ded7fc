//! Entities: every object the system knows (devices, gateways, interfaces, users, ...).
use vstd::prelude::*;
use vstd::utf8::is_ascii_chars;
use crate::json::{JsonValue, JsonView, empty_object_view};
use crate::text::{concat2, lowercase_of, str_eq, to_lowercase, to_string_of, lemma_lowercase_fixed, lemma_lowercase_idempotent_ascii};

verus! {

/// The kinds of entities.
#[derive(Debug, Clone, Copy, PartialEq, Eq, Hash, Structural)]
pub enum EntityType {
    System,
    User,
    Asset,
    Area,
    Interface,
    Gateway,
    Device,
    Controller,
    Regulator,
    Virtual,
    Integration,
    Service,
}

/// The stored name of an entity type.
pub open spec fn entity_type_name(t: EntityType) -> Seq<char> {
    match t {
        EntityType::System => "system"@,
        EntityType::User => "user"@,
        EntityType::Asset => "asset"@,
        EntityType::Area => "area"@,
        EntityType::Interface => "interface"@,
        EntityType::Gateway => "gateway"@,
        EntityType::Device => "device"@,
        EntityType::Controller => "controller"@,
        EntityType::Regulator => "regulator"@,
        EntityType::Virtual => "virtual"@,
        EntityType::Integration => "integration"@,
        EntityType::Service => "service"@,
    }
}

/// The entity type named by a lowercase text.
pub open spec fn entity_type_from_lower(s: Seq<char>) -> Option<EntityType> {
    if s == "system"@ {
        Some(EntityType::System)
    } else if s == "user"@ {
        Some(EntityType::User)
    } else if s == "asset"@ {
        Some(EntityType::Asset)
    } else if s == "area"@ {
        Some(EntityType::Area)
    } else if s == "interface"@ {
        Some(EntityType::Interface)
    } else if s == "gateway"@ {
        Some(EntityType::Gateway)
    } else if s == "device"@ {
        Some(EntityType::Device)
    } else if s == "controller"@ {
        Some(EntityType::Controller)
    } else if s == "regulator"@ {
        Some(EntityType::Regulator)
    } else if s == "virtual"@ {
        Some(EntityType::Virtual)
    } else if s == "integration"@ {
        Some(EntityType::Integration)
    } else if s == "service"@ {
        Some(EntityType::Service)
    } else {
        None
    }
}

/// The entity type read from a text, whatever its letter case.
pub open spec fn entity_type_from_text(s: Seq<char>) -> Option<EntityType> {
    entity_type_from_lower(lowercase_of(s))
}

impl EntityType {
    /// The stored name of the type.
    pub fn to_string(&self) -> (r: String)
        ensures
            r@ == entity_type_name(*self),
    {
        match self {
            EntityType::System => to_string_of("system"),
            EntityType::User => to_string_of("user"),
            EntityType::Asset => to_string_of("asset"),
            EntityType::Area => to_string_of("area"),
            EntityType::Interface => to_string_of("interface"),
            EntityType::Gateway => to_string_of("gateway"),
            EntityType::Device => to_string_of("device"),
            EntityType::Controller => to_string_of("controller"),
            EntityType::Regulator => to_string_of("regulator"),
            EntityType::Virtual => to_string_of("virtual"),
            EntityType::Integration => to_string_of("integration"),
            EntityType::Service => to_string_of("service"),
        }
    }

    /// Reads a type from its name, whatever the letter case.
    pub fn from_name(s: &str) -> (r: Result<EntityType, String>)
        ensures
            match r {
                Ok(t) => entity_type_from_text(s@) == Some(t),
                Err(e) => entity_type_from_text(s@) is None && e@ == "Unknown EntityType: "@ + s@,
            },
    {
        let l = to_lowercase(s);
        let t = l.as_str();
        if str_eq(t, "system") {
            Ok(EntityType::System)
        } else if str_eq(t, "user") {
            Ok(EntityType::User)
        } else if str_eq(t, "asset") {
            Ok(EntityType::Asset)
        } else if str_eq(t, "area") {
            Ok(EntityType::Area)
        } else if str_eq(t, "interface") {
            Ok(EntityType::Interface)
        } else if str_eq(t, "gateway") {
            Ok(EntityType::Gateway)
        } else if str_eq(t, "device") {
            Ok(EntityType::Device)
        } else if str_eq(t, "controller") {
            Ok(EntityType::Controller)
        } else if str_eq(t, "regulator") {
            Ok(EntityType::Regulator)
        } else if str_eq(t, "virtual") {
            Ok(EntityType::Virtual)
        } else if str_eq(t, "integration") {
            Ok(EntityType::Integration)
        } else if str_eq(t, "service") {
            Ok(EntityType::Service)
        } else {
            Err(concat2("Unknown EntityType: ", s))
        }
    }
}

impl std::str::FromStr for EntityType {
    type Err = String;

    /// `s.parse()`: the same as `EntityType::from_name(s)`.
    fn from_str(s: &str) -> (r: Result<EntityType, String>)
        ensures
            match r {
                Ok(t) => entity_type_from_text(s@) == Some(t),
                Err(e) => entity_type_from_text(s@) is None && e@ == "Unknown EntityType: "@ + s@,
            },
    {
        EntityType::from_name(s)
    }
}

/// Reading back the stored name of a type gives the type.
pub proof fn lemma_entity_type_round_trip(t: EntityType)
    ensures
        entity_type_from_text(entity_type_name(t)) == Some(t),
{
    reveal_strlit("system");
    reveal_strlit("user");
    reveal_strlit("asset");
    reveal_strlit("area");
    reveal_strlit("interface");
    reveal_strlit("gateway");
    reveal_strlit("device");
    reveal_strlit("controller");
    reveal_strlit("regulator");
    reveal_strlit("virtual");
    reveal_strlit("integration");
    reveal_strlit("service");
    let s = entity_type_name(t);
    assert(is_ascii_chars(s));
    assert forall|i: int| 0 <= i < s.len() implies !('A' <= #[trigger] s[i] && s[i] <= 'Z') by {}
    lemma_lowercase_fixed(s);
    assert("user"@[0] != "area"@[0]);
    assert("asset"@[0] != "system"@[0]);
    assert("area"@[0] != "user"@[0]);
    assert("device"@[0] != "system"@[0]);
    assert("virtual"@[0] != "gateway"@[0]);
    assert("service"@[0] != "virtual"@[0]);
    assert("service"@[0] != "gateway"@[0]);
    assert("service"@[1] != "system"@[1]);
    assert("device"@[0] != "system"@[0]);
    assert("regulator"@[0] != "interface"@[0]);
}

/// An entity record.
#[derive(Debug)]
pub struct Entity {
    /// Unique identifier (slug or path), such as "edge1/kitchen/shelly_pro3em".
    pub id: String,
    pub entity_type: EntityType,
    pub template_id: Option<String>,
    /// Display name, such as "Main Meter".
    pub label: Option<String>,
    pub description: Option<String>,
    pub configuration: JsonValue,
    pub attributes: JsonValue,
    pub is_enabled: bool,
    pub is_system: bool,
}

impl Default for Entity {
    fn default() -> (r: Self)
        ensures
            r.id@ == "new_entity"@,
            r.entity_type == EntityType::Device,
            r.template_id is None,
            r.label is None,
            r.description is None,
            r.configuration@ == empty_object_view(),
            r.attributes@ == empty_object_view(),
            r.is_enabled,
            !r.is_system,
    {
        Entity {
            id: to_string_of("new_entity"),
            entity_type: EntityType::Device,
            template_id: None,
            label: None,
            description: None,
            configuration: JsonValue::empty_object(),
            attributes: JsonValue::empty_object(),
            is_enabled: true,
            is_system: false,
        }
    }
}

/// Reading a type ignores the letter case of an ASCII text: the text and its lowercase give
/// the same type.
pub proof fn lemma_entity_type_case_insensitive(s: Seq<char>)
    requires
        is_ascii_chars(s),
    ensures
        entity_type_from_text(lowercase_of(s)) == entity_type_from_text(s),
{
    lemma_lowercase_idempotent_ascii(s);
}

} // verus!
