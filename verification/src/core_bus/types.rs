//! The vocabulary of the internal bus: message suffixes, node roles and telemetry payloads.
use vstd::prelude::*;
use vstd::utf8::is_ascii_chars;
use crate::json::{JsonValue, JsonView};
use crate::text::{concat2, lowercase_of, str_eq, to_lowercase, to_string_of, lemma_lowercase_fixed};

verus! {

/// The last segment of a bus topic: what kind of message it carries.
#[derive(Debug, Clone, Copy, PartialEq, Eq, Structural)]
pub enum MqttSuffix {
    Get,
    SetValue,
    Evt,
    Conf,
    Logs,
}

/// The written name of a suffix.
pub open spec fn suffix_name(s: MqttSuffix) -> Seq<char> {
    match s {
        MqttSuffix::Get => "get"@,
        MqttSuffix::SetValue => "set"@,
        MqttSuffix::Evt => "evt"@,
        MqttSuffix::Conf => "conf"@,
        MqttSuffix::Logs => "logs"@,
    }
}

/// The suffix named by a lowercase text; `log` is accepted for `logs`.
pub open spec fn suffix_from_lower(s: Seq<char>) -> Option<MqttSuffix> {
    if s == "get"@ {
        Some(MqttSuffix::Get)
    } else if s == "set"@ {
        Some(MqttSuffix::SetValue)
    } else if s == "evt"@ {
        Some(MqttSuffix::Evt)
    } else if s == "conf"@ {
        Some(MqttSuffix::Conf)
    } else if s == "logs"@ || s == "log"@ {
        Some(MqttSuffix::Logs)
    } else {
        None
    }
}

/// The suffix read from a text, whatever its letter case.
pub open spec fn suffix_from_text(s: Seq<char>) -> Option<MqttSuffix> {
    suffix_from_lower(lowercase_of(s))
}

impl MqttSuffix {
    /// The written name of the suffix.
    pub fn to_string(&self) -> (r: String)
        ensures
            r@ == suffix_name(*self),
    {
        match self {
            MqttSuffix::Get => to_string_of("get"),
            MqttSuffix::SetValue => to_string_of("set"),
            MqttSuffix::Evt => to_string_of("evt"),
            MqttSuffix::Conf => to_string_of("conf"),
            MqttSuffix::Logs => to_string_of("logs"),
        }
    }

    /// Reads a suffix, whatever the letter case.
    pub fn try_from(value: &str) -> (r: Result<MqttSuffix, String>)
        ensures
            match r {
                Ok(s) => suffix_from_text(value@) == Some(s),
                Err(e) => suffix_from_text(value@) is None && e@ == "Unknown suffix: "@ + value@,
            },
    {
        let l = to_lowercase(value);
        let t = l.as_str();
        if str_eq(t, "get") {
            Ok(MqttSuffix::Get)
        } else if str_eq(t, "set") {
            Ok(MqttSuffix::SetValue)
        } else if str_eq(t, "evt") {
            Ok(MqttSuffix::Evt)
        } else if str_eq(t, "conf") {
            Ok(MqttSuffix::Conf)
        } else if str_eq(t, "logs") || str_eq(t, "log") {
            Ok(MqttSuffix::Logs)
        } else {
            Err(concat2("Unknown suffix: ", value))
        }
    }
}

/// Reading back the written name of a suffix gives the suffix.
pub proof fn lemma_suffix_round_trip(s: MqttSuffix)
    ensures
        suffix_from_text(suffix_name(s)) == Some(s),
        is_ascii_chars(suffix_name(s)),
        lowercase_of(suffix_name(s)) == suffix_name(s),
{
    reveal_strlit("get");
    reveal_strlit("set");
    reveal_strlit("evt");
    reveal_strlit("conf");
    reveal_strlit("logs");
    reveal_strlit("log");
    let n = suffix_name(s);
    assert(is_ascii_chars(n));
    assert forall|i: int| 0 <= i < n.len() implies !('A' <= #[trigger] n[i] && n[i] <= 'Z') by {}
    lemma_lowercase_fixed(n);
    assert("set"@[0] != "get"@[0]);
    assert("evt"@[0] != "get"@[0]);
    assert("evt"@[0] != "set"@[0]);
    assert("logs"@[0] != "conf"@[0]);
}

/// The role of a node on the bus.
#[derive(Debug, Clone, Copy, PartialEq, Eq, Structural)]
pub enum OsheemsRole {
    Core,
    Edge,
}

/// The written name of a role.
pub open spec fn node_role_name(r: OsheemsRole) -> Seq<char> {
    match r {
        OsheemsRole::Core => "core"@,
        OsheemsRole::Edge => "edge"@,
    }
}

impl OsheemsRole {
    /// The written name of the role.
    pub fn to_string(&self) -> (r: String)
        ensures
            r@ == node_role_name(*self),
    {
        match self {
            OsheemsRole::Core => to_string_of("core"),
            OsheemsRole::Edge => to_string_of("edge"),
        }
    }
}

/// A normalised telemetry measurement published on the bus.
#[derive(Debug)]
pub struct CorePayload {
    pub value: JsonValue,
    pub unit: String,
    pub label: String,
    pub timestamp: u64,
}

/// The model of a telemetry measurement.
pub struct CorePayloadView {
    pub value: JsonView,
    pub unit: Seq<char>,
    pub label: Seq<char>,
    pub timestamp: u64,
}

impl View for CorePayload {
    type V = CorePayloadView;

    open spec fn view(&self) -> CorePayloadView {
        CorePayloadView { value: self.value@, unit: self.unit@, label: self.label@, timestamp: self.timestamp }
    }
}

} // verus!
