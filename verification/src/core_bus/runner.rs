//! The connection settings of the bus client, read from the bus gateway's configuration.
use vstd::prelude::*;
use crate::entities::Entity;
use crate::json::{JsonValue, JsonView};
use crate::text::str_eq;
use crate::text::{concat2, to_string_of};

verus! {

/// The bus client: it connects to the broker and carries publications both ways.
pub struct CoreBusRunner;

/// How to reach an MQTT broker.
#[derive(Debug)]
pub struct MqttSettings {
    pub client_id: String,
    pub host: String,
    pub port: u16,
    pub keep_alive_secs: u64,
    pub credentials: Option<(String, String)>,
}

/// The model of broker settings.
pub struct MqttSettingsView {
    pub client_id: Seq<char>,
    pub host: Seq<char>,
    pub port: u16,
    pub keep_alive_secs: u64,
    pub credentials: Option<(Seq<char>, Seq<char>)>,
}

impl View for MqttSettings {
    type V = MqttSettingsView;

    open spec fn view(&self) -> MqttSettingsView {
        MqttSettingsView {
            client_id: self.client_id@,
            host: self.host@,
            port: self.port,
            keep_alive_secs: self.keep_alive_secs,
            credentials: match self.credentials {
                Some((u, p)) => Some((u@, p@)),
                None => None,
            },
        }
    }
}

/// A text member of the configuration.
pub open spec fn text_member(config: JsonView, key: Seq<char>) -> Option<Seq<char>> {
    match config.get(key) {
        Some(v) => v.as_text(),
        None => None,
    }
}

/// Both user name and password, when both are text members.
pub open spec fn credentials_of(config: JsonView) -> Option<(Seq<char>, Seq<char>)> {
    match (text_member(config, "username"@), text_member(config, "password"@)) {
        (Some(u), Some(p)) => Some((u, p)),
        _ => None,
    }
}

/// The broker port: the integer member `broker_port` cut to 16 bits, or 1883.
pub open spec fn core_bus_port(config: JsonView) -> u16 {
    match config.get("broker_port"@) {
        Some(v) => match v.as_i64() {
            Some(n) => n as u16,
            None => 1883,
        },
        None => 1883,
    }
}

/// The settings of the bus client named `name`: the broker host is required.
pub open spec fn core_bus_settings(name: Seq<char>, config: JsonView) -> Result<MqttSettingsView, Seq<char>> {
    match text_member(config, "broker_host"@) {
        Some(host) => Ok(
            MqttSettingsView {
                client_id: "core-"@ + name,
                host,
                port: core_bus_port(config),
                keep_alive_secs: 5,
                credentials: credentials_of(config),
            },
        ),
        None => Err("CoreBus: Missing host"@),
    }
}

/// A text member of the configuration, as an owned string.
pub fn text_member_of(config: &JsonValue, key: &str) -> (r: Option<String>)
    ensures
        match r {
            Some(s) => text_member(config@, key@) == Some(s@),
            None => text_member(config@, key@) is None,
        },
{
    match config.get(key) {
        Some(v) => match v.as_str() {
            Some(s) => Some(to_string_of(s)),
            None => None,
        },
        None => None,
    }
}

/// User name and password, when both are text members.
pub fn credentials_from(config: &JsonValue) -> (r: Option<(String, String)>)
    ensures
        match r {
            Some((u, p)) => credentials_of(config@) == Some((u@, p@)),
            None => credentials_of(config@) is None,
        },
{
    match (text_member_of(config, "username"), text_member_of(config, "password")) {
        (Some(u), Some(p)) => Some((u, p)),
        _ => None,
    }
}

impl CoreBusRunner {
    /// The broker settings of the bus client named `name`, from its configuration.
    pub fn connection_settings(name: &str, config: &JsonValue) -> (r: Result<MqttSettings, String>)
        ensures
            match r {
                Ok(s) => core_bus_settings(name@, config@) == Ok::<MqttSettingsView, Seq<char>>(s@),
                Err(e) => core_bus_settings(name@, config@) == Err::<MqttSettingsView, Seq<char>>(e@),
            },
    {
        let host = match text_member_of(config, "broker_host") {
            Some(h) => h,
            None => {
                return Err(to_string_of("CoreBus: Missing host"));
            },
        };
        let port: u16 = match config.get("broker_port") {
            Some(v) => match v.as_i64() {
                Some(n) => n as u16,
                None => 1883,
            },
            None => 1883,
        };
        let credentials = credentials_from(config);
        Ok(
            MqttSettings {
                client_id: concat2("core-", name),
                host,
                port,
                keep_alive_secs: 5,
                credentials,
            },
        )
    }
}

/// The first entity of `gateways` with identifier `mqtt_local`.
pub open spec fn local_gateway(gateways: Seq<Entity>) -> Option<Entity>
    decreases gateways.len(),
{
    if gateways.len() == 0 {
        None
    } else if gateways[0].id@ == "mqtt_local"@ {
        Some(gateways[0])
    } else {
        local_gateway(gateways.drop_first())
    }
}

/// The configuration of the bus client: that of the local MQTT gateway when it is an object,
/// an empty object otherwise.
pub open spec fn bus_config_spec(gateways: Seq<Entity>) -> JsonView {
    match local_gateway(gateways) {
        Some(g) => if g.configuration@ is Object {
            g.configuration@
        } else {
            JsonView::Object(Seq::empty())
        },
        None => JsonView::Object(Seq::empty()),
    }
}

proof fn lemma_local_gateway_at(gateways: Seq<Entity>, i: int)
    requires
        0 <= i <= gateways.len(),
        forall|j: int| 0 <= j < i ==> (#[trigger] gateways[j]).id@ != "mqtt_local"@,
    ensures
        i < gateways.len() && gateways[i].id@ == "mqtt_local"@ ==> local_gateway(gateways) == Some(gateways[i]),
        i == gateways.len() ==> local_gateway(gateways) is None,
    decreases i,
{
    if i > 0 {
        assert forall|j: int| 0 <= j < i - 1 implies (#[trigger] gateways.drop_first()[j]).id@ != "mqtt_local"@ by {
            assert(gateways.drop_first()[j] == gateways[j + 1]);
        }
        lemma_local_gateway_at(gateways.drop_first(), i - 1);
    }
}

/// The configuration of the bus client, from the gateway entities.
pub fn bus_config(gateways: &Vec<Entity>) -> (r: JsonValue)
    ensures
        r@ == bus_config_spec(gateways@),
{
    let mut i: usize = 0;
    while i < gateways.len()
        invariant
            i <= gateways@.len(),
            forall|j: int| 0 <= j < i ==> (#[trigger] gateways@[j]).id@ != "mqtt_local"@,
        decreases gateways@.len() - i,
    {
        if str_eq(gateways[i].id.as_str(), "mqtt_local") {
            proof {
                lemma_local_gateway_at(gateways@, i as int);
            }
            if gateways[i].configuration.is_object() {
                return gateways[i].configuration.duplicate();
            } else {
                return JsonValue::empty_object();
            }
        }
        i = i + 1;
    }
    proof {
        lemma_local_gateway_at(gateways@, i as int);
    }
    JsonValue::empty_object()
}

} // verus!
