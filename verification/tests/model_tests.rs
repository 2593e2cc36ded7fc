use osheems_common::entities::{Entity, EntityType};
use osheems_common::json::{JsonNumber, JsonValue};
use osheems_common::relations::predicates;
use osheems_common::settings::keys;
use osheems_common::traits::{TraitCategory, TraitDefinition, TraitRegistry};
use osheems_common::users::{User, UserRole};

const ALL_TYPES: [EntityType; 12] = [
    EntityType::System,
    EntityType::User,
    EntityType::Asset,
    EntityType::Area,
    EntityType::Interface,
    EntityType::Gateway,
    EntityType::Device,
    EntityType::Controller,
    EntityType::Regulator,
    EntityType::Virtual,
    EntityType::Integration,
    EntityType::Service,
];

const ALL_ROLES: [UserRole; 6] =
    [UserRole::Guest, UserRole::Viewer, UserRole::User, UserRole::Admin, UserRole::Operator, UserRole::SuperAdmin];

#[test]
fn entity_type_names() {
    assert_eq!(EntityType::System.to_string(), "system");
    assert_eq!(EntityType::Gateway.to_string(), "gateway");
    assert_eq!(EntityType::Integration.to_string(), "integration");
    assert_eq!(EntityType::Service.to_string(), "service");
}

#[test]
fn entity_type_round_trip() {
    for t in ALL_TYPES {
        assert_eq!(EntityType::from_name(&t.to_string()), Ok(t));
    }
}

#[test]
fn entity_type_parse_ignores_case() {
    assert_eq!(EntityType::from_name("GATEWAY"), Ok(EntityType::Gateway));
    assert_eq!(EntityType::from_name("Device"), Ok(EntityType::Device));
}

#[test]
fn entity_type_parses_from_text() {
    assert_eq!("Interface".parse::<EntityType>(), Ok(EntityType::Interface));
    assert_eq!("bogus".parse::<EntityType>(), Err("Unknown EntityType: bogus".to_string()));
}

#[test]
fn entity_type_parse_error() {
    assert_eq!(EntityType::from_name("meter"), Err("Unknown EntityType: meter".to_string()));
}

#[test]
fn default_entity() {
    let e = Entity::default();
    assert_eq!(e.id, "new_entity");
    assert_eq!(e.entity_type, EntityType::Device);
    assert!(e.template_id.is_none());
    assert!(e.label.is_none());
    assert!(e.description.is_none());
    assert_eq!(e.configuration.as_object().map(|o| o.len()), Some(0));
    assert_eq!(e.attributes.as_object().map(|o| o.len()), Some(0));
    assert!(e.is_enabled);
    assert!(!e.is_system);
}

#[test]
fn role_names() {
    assert_eq!(UserRole::SuperAdmin.to_string(), "superadmin");
    assert_eq!(UserRole::Operator.to_string(), "operator");
    assert_eq!(UserRole::Admin.to_string(), "admin");
    assert_eq!(UserRole::User.to_string(), "user");
    assert_eq!(UserRole::Viewer.to_string(), "viewer");
    assert_eq!(UserRole::Guest.to_string(), "guest");
}

#[test]
fn role_round_trip() {
    for r in ALL_ROLES {
        assert_eq!(UserRole::from_text(&r.to_string()), r);
        assert_eq!(UserRole::from(r.to_string()), r);
    }
}

#[test]
fn role_parse_ignores_case_and_defaults_to_guest() {
    assert_eq!(UserRole::from_text("ADMIN"), UserRole::Admin);
    assert_eq!(UserRole::from(String::from("SuperAdmin")), UserRole::SuperAdmin);
    assert_eq!(UserRole::from_text("root"), UserRole::Guest);
    assert_eq!(UserRole::from_text(""), UserRole::Guest);
}

fn user(role: UserRole) -> User {
    User { entity_id: 1, username: "bob".to_string(), role, last_login: None }
}

#[test]
fn permissions_follow_the_hierarchy() {
    assert!(user(UserRole::Admin).has_permission(UserRole::User));
    assert!(user(UserRole::Admin).has_permission(UserRole::Admin));
    assert!(!user(UserRole::Viewer).has_permission(UserRole::Operator));
    assert!(user(UserRole::Operator).has_permission(UserRole::Admin));
    assert!(!user(UserRole::Admin).has_permission(UserRole::Operator));
}

#[test]
fn permission_laws_on_every_role() {
    for a in ALL_ROLES {
        assert!(user(a).has_permission(a));
        assert!(user(UserRole::SuperAdmin).has_permission(a));
        assert!(user(a).has_permission(UserRole::Guest));
        for b in ALL_ROLES {
            assert!(user(a).has_permission(b) || user(b).has_permission(a));
            if user(a).has_permission(b) && user(b).has_permission(a) {
                assert_eq!(a, b);
            }
            for c in ALL_ROLES {
                if user(a).has_permission(b) && user(b).has_permission(c) {
                    assert!(user(a).has_permission(c));
                }
            }
        }
    }
}

#[test]
fn trait_definition_new() {
    let d = TraitDefinition::new("flow", TraitCategory::Fluid, "m3/h", "Flow rate");
    assert_eq!(d.id, "flow");
    assert_eq!(d.category, TraitCategory::Fluid);
    assert_eq!(d.default_unit, "m3/h");
    assert_eq!(d.description, "Flow rate");
}

#[test]
fn official_traits() {
    let r = TraitRegistry::build();
    assert!(r.trait_exists("voltage"));
    assert!(r.trait_exists("energy_active_import_kwh"));
    assert!(r.trait_exists("status"));
    assert!(!r.trait_exists("Voltage"));
    assert!(!r.trait_exists("flow"));
    let t = r.get("temperature").unwrap();
    assert_eq!(t.id, "temperature");
    assert_eq!(t.category, TraitCategory::Thermal);
    assert_eq!(t.default_unit, "\u{b0}C");
    let p = r.get("power_factor").unwrap();
    assert_eq!(p.default_unit, "");
    assert_eq!(r.get("battery_soc").unwrap().category, TraitCategory::Storage);
    assert!(r.get("humidity").is_none());
}

#[test]
fn registry_lookup_gives_the_definition_with_that_id() {
    let r = TraitRegistry::build();
    for id in ["voltage", "current", "switch_cmd", "rssi", "uptime"] {
        assert_eq!(r.get(id).unwrap().id, id);
    }
}

#[test]
fn predicates_and_setting_keys() {
    assert_eq!(predicates::HAS_GATEWAY, "has_gateway");
    assert_eq!(predicates::USES_INTERFACE, "uses_interface");
    assert_eq!(predicates::CONNECTED_TO, "connected_to");
    assert_eq!(predicates::IS_CHILD_OF, "is_child_of");
    assert_eq!(keys::SYSTEM_NAME, "system.name");
    assert_eq!(keys::RETENTION_POLICY_DAYS, "system.retention_days");
}

#[test]
fn json_numbers_convert() {
    let big = JsonValue::Number(JsonNumber::PosInt(u64::MAX));
    assert_eq!(big.as_u64(), Some(u64::MAX));
    assert_eq!(big.as_i64(), None);
    let neg = JsonValue::Number(JsonNumber::NegInt(-5));
    assert_eq!(neg.as_i64(), Some(-5));
    assert_eq!(neg.as_u64(), None);
    let f = JsonValue::Number(JsonNumber::Float(1.5f64.to_bits()));
    assert_eq!(f.as_u64(), None);
    assert_eq!(f.as_i64(), None);
    assert_eq!(JsonValue::Text("x".to_string()).as_u64(), None);
}
