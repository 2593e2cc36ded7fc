//! The dispatch decisions of the bus: which component an incoming message goes to, and the
//! message handed to it.
use vstd::prelude::*;
use crate::core_bus::types::MqttSuffix;
use crate::text::{concat3, debug_text, to_string_of};

verus! {

/// The components that receive bus messages.
#[derive(Debug, Clone, Copy, PartialEq, Eq, Structural)]
pub enum DispatchTarget {
    /// Measurements, for storage.
    Telemetry,
    /// Commands and reads, for the driver layer.
    Driver,
    /// System and equipment logs.
    Logs,
    /// Configuration updates, for the entity layer.
    Entities,
}

/// Where a message with a given suffix goes.
pub open spec fn target_of(suffix: MqttSuffix) -> DispatchTarget {
    match suffix {
        MqttSuffix::Evt => DispatchTarget::Telemetry,
        MqttSuffix::SetValue | MqttSuffix::Get => DispatchTarget::Driver,
        MqttSuffix::Logs => DispatchTarget::Logs,
        MqttSuffix::Conf => DispatchTarget::Entities,
    }
}

/// The name a component is reported under when its channel drops a message.
pub open spec fn target_label(t: DispatchTarget) -> Seq<char> {
    match t {
        DispatchTarget::Telemetry => "Telemetry"@,
        DispatchTarget::Driver => "Driver"@,
        DispatchTarget::Logs => "Log"@,
        DispatchTarget::Entities => "Entity"@,
    }
}

impl DispatchTarget {
    /// The component that handles messages with this suffix.
    pub fn for_suffix(suffix: MqttSuffix) -> (r: DispatchTarget)
        ensures
            r == target_of(suffix),
    {
        match suffix {
            MqttSuffix::Evt => DispatchTarget::Telemetry,
            MqttSuffix::SetValue | MqttSuffix::Get => DispatchTarget::Driver,
            MqttSuffix::Logs => DispatchTarget::Logs,
            MqttSuffix::Conf => DispatchTarget::Entities,
        }
    }

    /// The error reported when the component's channel refuses a message for `reason`.
    pub fn drop_error(&self, reason: &str) -> (r: String)
        ensures
            r@ == "Dispatcher: "@ + target_label(*self) + " drop: "@ + reason@,
    {
        let label = match self {
            DispatchTarget::Telemetry => "Telemetry",
            DispatchTarget::Driver => "Driver",
            DispatchTarget::Logs => "Log",
            DispatchTarget::Entities => "Entity",
        };
        let mut s = concat3("Dispatcher: ", label, " drop: ");
        s.append(reason);
        s
    }
}

/// What `format!("{:?}", serde_json::from_slice::<serde_json::Value>(bytes))` gives for a
/// payload that parses as JSON; nothing for one that does not.
pub uninterp spec fn json_payload_debug_text(bytes: Seq<u8>) -> Option<Seq<char>>;

/// What `String::from_utf8_lossy(bytes)` gives.
pub uninterp spec fn utf8_lossy_text(bytes: Seq<u8>) -> Seq<char>;

/// Calls `serde_json::from_slice::<serde_json::Value>` on the payload and writes the value
/// with its `Debug` format; gives nothing when the payload is not JSON. The text is a
/// function of the payload alone.
#[verifier::external_body]
fn json_payload_debug(bytes: &[u8]) -> (r: Option<String>)
    ensures
        match r {
            Some(t) => json_payload_debug_text(bytes@) == Some(t@),
            None => json_payload_debug_text(bytes@) is None,
        },
{
    serde_json::from_slice::<serde_json::Value>(bytes).ok().map(|v| format!("{:?}", v))
}

/// Calls `String::from_utf8_lossy`: the payload decoded as UTF-8, each invalid sequence
/// replaced by U+FFFD. The text is a function of the payload alone; a payload of ASCII
/// bytes reads as the same characters. What it gives for other bytes is left to the name.
#[verifier::external_body]
fn utf8_lossy(bytes: &[u8]) -> (r: String)
    ensures
        r@ == utf8_lossy_text(bytes@),
        (forall|i: int| 0 <= i < bytes@.len() ==> bytes@[i] < 128) ==> r@ == Seq::new(
            bytes@.len(),
            |i: int| bytes@[i] as char,
        ),
{
    String::from_utf8_lossy(bytes).to_string()
}

/// Writes `serde_json::Value::String(s)` with its `Debug` format, which serde_json writes
/// as `String(` and the `Debug` text of `s`, then `)`.
#[verifier::external_body]
fn json_string_debug(s: String) -> (r: String)
    ensures
        r@ == "String("@ + debug_text(s@) + ")"@,
{
    format!("{:?}", serde_json::Value::String(s))
}

/// The data text of a dispatched message: the payload read as JSON, or else as a JSON string
/// of its UTF-8 decoding, written in the `Debug` format.
pub open spec fn dispatch_data(payload: Seq<u8>) -> Seq<char> {
    match json_payload_debug_text(payload) {
        Some(t) => t,
        None => "String("@ + debug_text(utf8_lossy_text(payload)) + ")"@,
    }
}

/// The message handed to a component.
#[derive(Debug)]
pub struct BusMessage {
    pub role: String,
    pub device_id: String,
    pub data: String,
}

/// The message for a payload received from `role` about `device_id`.
pub fn build_message(role: &str, device_id: &str, payload: &[u8]) -> (r: BusMessage)
    ensures
        r.role@ == role@,
        r.device_id@ == device_id@,
        r.data@ == dispatch_data(payload@),
{
    let data = match json_payload_debug(payload) {
        Some(t) => t,
        None => json_string_debug(utf8_lossy(payload)),
    };
    BusMessage { role: to_string_of(role), device_id: to_string_of(device_id), data }
}

} // verus!
