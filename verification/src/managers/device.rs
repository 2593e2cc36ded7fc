//! Devices: the records written when a device is added behind a gateway.
use vstd::prelude::*;
use crate::db::main_db::{EntityRecord, EntityRecordView};
use crate::entities::EntityType;
use crate::json::{JsonValue, JsonView};
use crate::managers::template::EntityTemplate;
use crate::relations::{RelationRecord, RelationRecordView};
use crate::relations::predicates::CONNECTED_TO;
use crate::text::{concat3, to_string_of};

verus! {

/// A device at run time.
#[derive(Debug, Clone)]
pub struct DeviceInstance {
    pub id: String,
    pub template_id: String,
    pub gateway_id: String,
    pub is_online: bool,
}

/// The entity of a new device built on a template of model `model`.
pub open spec fn device_record_spec(id: Seq<char>, template_id: Seq<char>, label: Seq<char>, model: Seq<char>) -> EntityRecordView {
    EntityRecordView {
        id,
        entity_type: EntityType::Device,
        template_id: Some(template_id),
        label: Some(label),
        description: Some("Device "@ + label + " based on "@ + model),
        configuration: JsonView::Object(Seq::empty()),
        attributes: JsonView::Object(Seq::empty()),
        is_system: false,
    }
}

/// The link of a new device to its gateway, carrying the connection parameters.
pub open spec fn device_link_spec(id: Seq<char>, gateway_id: Seq<char>, params: JsonView) -> RelationRecordView {
    RelationRecordView { from_id: id, predicate: "connected_to"@, to_id: gateway_id, attributes: params, is_system: false }
}

/// The records that add device `id` on template `template_id` behind gateway `gateway_id`;
/// the template must be loaded (`template`).
pub fn plan_add_device(
    id: &str,
    template_id: &str,
    gateway_id: &str,
    label: &str,
    conn_params: JsonValue,
    template: Option<&EntityTemplate>,
) -> (r: Result<(EntityRecord, RelationRecord), String>)
    ensures
        match r {
            Ok((e, l)) => template is Some && e@ == device_record_spec(id@, template_id@, label@, template.unwrap().definition.identity.model@)
                && l@ == device_link_spec(id@, gateway_id@, conn_params@),
            Err(m) => template is None && m@ == "Template '"@ + template_id@ + "' not found"@,
        },
{
    let t = match template {
        Some(t) => t,
        None => {
            return Err(concat3("Template '", template_id, "' not found"));
        },
    };
    let mut description = concat3("Device ", label, " based on ");
    description.append(t.definition.identity.model.as_str());
    let entity = EntityRecord {
        id: to_string_of(id),
        entity_type: EntityType::Device,
        template_id: Some(to_string_of(template_id)),
        label: Some(to_string_of(label)),
        description: Some(description),
        configuration: JsonValue::empty_object(),
        attributes: JsonValue::empty_object(),
        is_system: false,
    };
    let link = RelationRecord {
        from_id: to_string_of(id),
        predicate: to_string_of(CONNECTED_TO),
        to_id: to_string_of(gateway_id),
        attributes: conn_params,
        is_system: false,
    };
    Ok((entity, link))
}

} // verus!
