//! The standard environment written into an empty main database: the system entity, its
//! network interface and local MQTT gateway, the links between them, the system accounts and
//! the first setting.
use vstd::prelude::*;
use crate::db::main_db::{EntityRecord, EntityRecordView, SettingRecord, SettingRecordView, UserRecord, UserRecordView};
use crate::entities::EntityType;
use crate::json::{JsonNumber, JsonValue, JsonView, entries_view};
use crate::relations::{RelationRecord, RelationRecordView};
use crate::relations::predicates::{HAS_GATEWAY, USES_INTERFACE};
use crate::text::to_string_of;
use crate::users::{UserRole, role_name};

verus! {

/// One write of the bootstrap.
#[derive(Debug)]
pub enum BootstrapStep {
    CreateEntity(EntityRecord),
    CreateRelation(RelationRecord),
    CreateUser(UserRecord),
    CreateSetting(SettingRecord),
}

/// The model of one write of the bootstrap.
pub enum BootstrapStepView {
    CreateEntity(EntityRecordView),
    CreateRelation(RelationRecordView),
    CreateUser(UserRecordView),
    CreateSetting(SettingRecordView),
}

impl View for BootstrapStep {
    type V = BootstrapStepView;

    open spec fn view(&self) -> BootstrapStepView {
        match self {
            BootstrapStep::CreateEntity(e) => BootstrapStepView::CreateEntity(e@),
            BootstrapStep::CreateRelation(r) => BootstrapStepView::CreateRelation(r@),
            BootstrapStep::CreateUser(u) => BootstrapStepView::CreateUser(u@),
            BootstrapStep::CreateSetting(s) => BootstrapStepView::CreateSetting(s@),
        }
    }
}

pub open spec fn steps_view(v: Seq<BootstrapStep>) -> Seq<BootstrapStepView> {
    Seq::new(v.len(), |i: int| v[i]@)
}

pub open spec fn jtext(s: &str) -> JsonView {
    JsonView::Text(s@)
}

pub open spec fn jint(n: u64) -> JsonView {
    JsonView::Number(JsonNumber::PosInt(n))
}

/// The configuration of the local MQTT gateway.
pub open spec fn local_broker_config() -> JsonView {
    JsonView::Object(
        seq![
            ("broker_host"@, jtext("192.168.5.11")),
            ("broker_port"@, jint(1883)),
            ("broker_topic"@, jtext("osheems")),
            ("client_id"@, jtext("osheems_core")),
            ("password"@, jtext("05H3M5")),
            ("username"@, jtext("oshems")),
        ],
    )
}

/// The writes of the bootstrap, in order.
pub open spec fn bootstrap_steps() -> Seq<BootstrapStepView> {
    seq![
        BootstrapStepView::CreateEntity(EntityRecordView {
            id: "system"@,
            entity_type: EntityType::System,
            template_id: None,
            label: Some("OSHEEMS Core System"@),
            description: Some("Root entity for system settings"@),
            configuration: JsonView::Object(Seq::empty()),
            attributes: JsonView::Object(seq![("version"@, jtext("0.1.0"))]),
            is_system: true,
        }),
        BootstrapStepView::CreateEntity(EntityRecordView {
            id: "net_eth0"@,
            entity_type: EntityType::Interface,
            template_id: None,
            label: Some("Ethernet Interface (eth0)"@),
            description: Some("Physical network connection for OSHEEMS"@),
            configuration: JsonView::Object(seq![("name"@, jtext("eth0"))]),
            attributes: JsonView::Object(seq![("driver"@, jtext("standard_network"))]),
            is_system: true,
        }),
        BootstrapStepView::CreateEntity(EntityRecordView {
            id: "mqtt_local"@,
            entity_type: EntityType::Gateway,
            template_id: None,
            label: Some("OSHEEMS MQTT Broker"@),
            description: Some("Primary communication bus for OSHEEMS"@),
            configuration: local_broker_config(),
            attributes: JsonView::Object(seq![("protocol"@, jtext("mqtt"))]),
            is_system: true,
        }),
        BootstrapStepView::CreateRelation(RelationRecordView {
            from_id: "system"@,
            predicate: "has_gateway"@,
            to_id: "mqtt_local"@,
            attributes: JsonView::Object(seq![("is_core"@, JsonView::Bool(true))]),
            is_system: true,
        }),
        BootstrapStepView::CreateRelation(RelationRecordView {
            from_id: "mqtt_local"@,
            predicate: "uses_interface"@,
            to_id: "net_eth0"@,
            attributes: JsonView::Object(seq![("connection_type"@, jtext("persistent")), ("priority"@, jint(1))]),
            is_system: true,
        }),
        BootstrapStepView::CreateUser(UserRecordView {
            username: "osheems"@,
            password_hash: "05H33M5_hash"@,
            role: role_name(UserRole::SuperAdmin),
            description: Some("Default root administrator account"@),
            is_system: true,
        }),
        BootstrapStepView::CreateUser(UserRecordView {
            username: "operator"@,
            password_hash: "operator_hash"@,
            role: role_name(UserRole::Operator),
            description: Some("Standard system operator account"@),
            is_system: true,
        }),
        BootstrapStepView::CreateSetting(SettingRecordView {
            entity_id: "system"@,
            key: "system.name"@,
            value: jtext("My OSHEEMS Installation"),
            is_system: true,
        }),
        BootstrapStepView::CreateSetting(SettingRecordView {
            entity_id: "system"@,
            key: "system.version"@,
            value: jtext("0.1.0"),
            is_system: true,
        }),
    ]
}

fn text_entry(k: &str, v: &str) -> (r: (String, JsonValue))
    ensures
        r.0@ == k@,
        r.1@ == JsonView::Text(v@),
{
    (to_string_of(k), JsonValue::text(v))
}

fn int_entry(k: &str, n: u64) -> (r: (String, JsonValue))
    ensures
        r.0@ == k@,
        r.1@ == jint(n),
{
    (to_string_of(k), JsonValue::Number(JsonNumber::PosInt(n)))
}

fn object1(a: (String, JsonValue)) -> (r: JsonValue)
    ensures
        r@ == JsonView::Object(seq![(a.0@, a.1@)]),
{
    let v = vec![a];
    assert(entries_view(v@) =~= seq![(v@[0].0@, v@[0].1@)]);
    JsonValue::Object(v)
}

fn object2(a: (String, JsonValue), b: (String, JsonValue)) -> (r: JsonValue)
    ensures
        r@ == JsonView::Object(seq![(a.0@, a.1@), (b.0@, b.1@)]),
{
    let v = vec![a, b];
    assert(entries_view(v@) =~= seq![(v@[0].0@, v@[0].1@), (v@[1].0@, v@[1].1@)]);
    JsonValue::Object(v)
}

fn local_broker() -> (r: JsonValue)
    ensures
        r@ == local_broker_config(),
{
    let v = vec![
        text_entry("broker_host", "192.168.5.11"),
        int_entry("broker_port", 1883),
        text_entry("broker_topic", "osheems"),
        text_entry("client_id", "osheems_core"),
        text_entry("password", "05H3M5"),
        text_entry("username", "oshems"),
    ];
    assert(entries_view(v@) =~= local_broker_config()->Object_0);
    JsonValue::Object(v)
}

/// The writes that set up the standard environment, in order; none when the system entity
/// already exists.
pub fn bootstrap_plan(system_exists: bool) -> (r: Vec<BootstrapStep>)
    ensures
        steps_view(r@) == if system_exists {
            Seq::<BootstrapStepView>::empty()
        } else {
            bootstrap_steps()
        },
{
    let mut steps: Vec<BootstrapStep> = Vec::new();
    if system_exists {
        assert(steps_view(steps@) =~= Seq::<BootstrapStepView>::empty());
        return steps;
    }
    steps.push(BootstrapStep::CreateEntity(EntityRecord {
        id: to_string_of("system"),
        entity_type: EntityType::System,
        template_id: None,
        label: Some(to_string_of("OSHEEMS Core System")),
        description: Some(to_string_of("Root entity for system settings")),
        configuration: JsonValue::empty_object(),
        attributes: object1(text_entry("version", "0.1.0")),
        is_system: true,
    }));
    steps.push(BootstrapStep::CreateEntity(EntityRecord {
        id: to_string_of("net_eth0"),
        entity_type: EntityType::Interface,
        template_id: None,
        label: Some(to_string_of("Ethernet Interface (eth0)")),
        description: Some(to_string_of("Physical network connection for OSHEEMS")),
        configuration: object1(text_entry("name", "eth0")),
        attributes: object1(text_entry("driver", "standard_network")),
        is_system: true,
    }));
    steps.push(BootstrapStep::CreateEntity(EntityRecord {
        id: to_string_of("mqtt_local"),
        entity_type: EntityType::Gateway,
        template_id: None,
        label: Some(to_string_of("OSHEEMS MQTT Broker")),
        description: Some(to_string_of("Primary communication bus for OSHEEMS")),
        configuration: local_broker(),
        attributes: object1(text_entry("protocol", "mqtt")),
        is_system: true,
    }));
    steps.push(BootstrapStep::CreateRelation(RelationRecord {
        from_id: to_string_of("system"),
        predicate: to_string_of(HAS_GATEWAY),
        to_id: to_string_of("mqtt_local"),
        attributes: object1((to_string_of("is_core"), JsonValue::Bool(true))),
        is_system: true,
    }));
    steps.push(BootstrapStep::CreateRelation(RelationRecord {
        from_id: to_string_of("mqtt_local"),
        predicate: to_string_of(USES_INTERFACE),
        to_id: to_string_of("net_eth0"),
        attributes: object2(text_entry("connection_type", "persistent"), int_entry("priority", 1)),
        is_system: true,
    }));
    steps.push(BootstrapStep::CreateUser(UserRecord {
        username: to_string_of("osheems"),
        password_hash: to_string_of("05H33M5_hash"),
        role: UserRole::SuperAdmin.to_string(),
        description: Some(to_string_of("Default root administrator account")),
        is_system: true,
    }));
    steps.push(BootstrapStep::CreateUser(UserRecord {
        username: to_string_of("operator"),
        password_hash: to_string_of("operator_hash"),
        role: UserRole::Operator.to_string(),
        description: Some(to_string_of("Standard system operator account")),
        is_system: true,
    }));
    steps.push(BootstrapStep::CreateSetting(SettingRecord {
        entity_id: to_string_of("system"),
        key: to_string_of("system.name"),
        value: JsonValue::text("My OSHEEMS Installation"),
        is_system: true,
    }));
    steps.push(BootstrapStep::CreateSetting(SettingRecord {
        entity_id: to_string_of("system"),
        key: to_string_of("system.version"),
        value: JsonValue::text("0.1.0"),
        is_system: true,
    }));
    assert(steps_view(steps@) =~= bootstrap_steps());
    steps
}

/// The entity created at step `i` of `steps`, if that step creates an entity.
pub open spec fn created_entity(steps: Seq<BootstrapStepView>, i: int) -> Option<Seq<char>> {
    match steps[i] {
        BootstrapStepView::CreateEntity(e) => Some(e.id),
        _ => None,
    }
}

/// Every link and every setting of the bootstrap refers to entities that an earlier write of
/// the bootstrap creates.
pub proof fn lemma_bootstrap_references()
    ensures
        forall|i: int|
            0 <= i < bootstrap_steps().len() ==> match #[trigger] bootstrap_steps()[i] {
                BootstrapStepView::CreateRelation(r) => (exists|j: int| 0 <= j < i && created_entity(bootstrap_steps(), j)
                    == Some(r.from_id)) && (exists|j: int| 0 <= j < i && created_entity(bootstrap_steps(), j) == Some(r.to_id)),
                BootstrapStepView::CreateSetting(s) => exists|j: int| 0 <= j < i && created_entity(bootstrap_steps(), j) == Some(
                    s.entity_id,
                ),
                _ => true,
            },
{
    let s = bootstrap_steps();
    assert(created_entity(s, 0) == Some("system"@));
    assert(created_entity(s, 1) == Some("net_eth0"@));
    assert(created_entity(s, 2) == Some("mqtt_local"@));
}

} // verus!
