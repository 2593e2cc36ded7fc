//! The decisions of a gateway's MQTT runner: how to reach its broker, what to subscribe to,
//! which measurements a device's processed message yields, and which commands to publish.
use vstd::prelude::*;
use crate::core_bus::runner::{MqttSettings, MqttSettingsView, credentials_from, credentials_of, text_member, text_member_of};
use crate::core_bus::types::{CorePayload, CorePayloadView};
use crate::json::{JsonValue, JsonView, array_view, entries_get, entries_view};
use crate::managers::driver::{ActiveDriver, ResourceBundle, ResourceBundleView};
use crate::runners::NetworkAction;
use crate::text::{concat2, concat3, str_eq, to_string_of};

verus! {

/// The runner of a gateway that speaks MQTT.
pub struct MqttRunner;

/// An unsigned integer member of a configuration.
pub open spec fn u64_member(config: JsonView, key: Seq<char>) -> Option<u64> {
    match config.get(key) {
        Some(v) => v.as_u64(),
        None => None,
    }
}

/// The broker host of a gateway: `host`, or else `broker_host`.
pub open spec fn gateway_host(config: JsonView) -> Option<Seq<char>> {
    match text_member(config, "host"@) {
        Some(h) => Some(h),
        None => text_member(config, "broker_host"@),
    }
}

/// The broker port of a gateway: `port`, or else `broker_port`, or 1883, cut to 16 bits.
pub open spec fn gateway_port(config: JsonView) -> u16 {
    (match u64_member(config, "port"@) {
        Some(p) => p,
        None => match u64_member(config, "broker_port"@) {
            Some(p) => p,
            None => 1883,
        },
    }) as u16
}

/// The broker settings of gateway `id`.
pub open spec fn gateway_settings_spec(id: Seq<char>, config: JsonView) -> Result<MqttSettingsView, Seq<char>> {
    match gateway_host(config) {
        Some(host) => Ok(
            MqttSettingsView {
                client_id: "gw-"@ + id,
                host,
                port: gateway_port(config),
                keep_alive_secs: 5,
                credentials: credentials_of(config),
            },
        ),
        None => Err("Gateway '"@ + id + "': Missing host/broker_host in configuration"@),
    }
}

/// For each device, in order, that names a `device_topic`: the device and its topic filter.
pub open spec fn subscriptions_of(ids: Seq<Seq<char>>, bundles: Seq<ResourceBundle>) -> Seq<(Seq<char>, Seq<char>)>
    decreases ids.len(),
{
    if ids.len() == 0 || bundles.len() != ids.len() {
        Seq::empty()
    } else {
        let p = subscriptions_of(ids.drop_last(), bundles.drop_last());
        match text_member(bundles.last().configuration@, "device_topic"@) {
            Some(t) => p.push((ids.last(), t + "/#"@)),
            None => p,
        }
    }
}

/// The label of a measurement: the user's label for it, or the mapping's, or its identifier.
pub open spec fn point_label(config: JsonView, def: JsonView, id: Seq<char>) -> Seq<char> {
    let user = match config.get("labels"@) {
        Some(l) => text_member(l, id),
        None => None,
    };
    match user {
        Some(u) => u,
        None => match text_member(def, "label"@) {
            Some(d) => d,
            None => id,
        },
    }
}

/// The first state whose `id` is `id`.
pub open spec fn first_with_id(states: Seq<JsonView>, id: Seq<char>) -> Option<JsonView>
    decreases states.len(),
{
    if states.len() == 0 {
        None
    } else if states[0].index("id"@).as_text() == Some(id) {
        Some(states[0])
    } else {
        first_with_id(states.drop_first(), id)
    }
}

/// The unit of a measurement: the `unit` of the template state with its identifier, or empty.
pub open spec fn point_unit(template: JsonView, id: Seq<char>) -> Seq<char> {
    match template.index("points"@).index("states"@).as_array() {
        Some(states) => match first_with_id(states, id) {
            Some(s) => match s.index("unit"@).as_text() {
                Some(u) => u,
                None => Seq::empty(),
            },
            None => Seq::empty(),
        },
        None => Seq::empty(),
    }
}

/// The measurement points of the MQTT mapping: `mappings.mqtt.points`.
pub open spec fn mqtt_points(mappings: JsonView) -> Option<Seq<(Seq<char>, JsonView)>> {
    match mappings.get("mqtt"@) {
        Some(m) => match m.get("points"@) {
            Some(p) => p.as_object(),
            None => None,
        },
        None => None,
    }
}

/// For each mapped point, in order, that the device's metrics hold: the point and its payload.
pub open spec fn telemetry_of(
    points: Seq<(Seq<char>, JsonView)>,
    bundle: ResourceBundleView,
    metrics: JsonView,
    ts: u64,
) -> Seq<(Seq<char>, CorePayloadView)>
    decreases points.len(),
{
    if points.len() == 0 {
        Seq::empty()
    } else {
        let p = telemetry_of(points.drop_last(), bundle, metrics, ts);
        let id = points.last().0;
        match metrics.get(id) {
            Some(v) => p.push(
                (
                    id,
                    CorePayloadView {
                        value: v,
                        unit: point_unit(bundle.template, id),
                        label: point_label(bundle.configuration, points.last().1, id),
                        timestamp: ts,
                    },
                ),
            ),
            None => p,
        }
    }
}

/// The measurements a device's processed metrics yield.
pub open spec fn telemetry_for(bundle: ResourceBundleView, metrics: JsonView, ts: u64) -> Seq<(Seq<char>, CorePayloadView)> {
    match mqtt_points(bundle.mappings) {
        Some(points) => telemetry_of(points, bundle, metrics, ts),
        None => Seq::empty(),
    }
}

/// The model of a list of measurements.
pub open spec fn payloads_view(v: Seq<(String, CorePayload)>) -> Seq<(Seq<char>, CorePayloadView)> {
    Seq::new(v.len(), |i: int| (v[i].0@, v[i].1@))
}

/// The model of a list of pairs of texts.
pub open spec fn pairs_view(v: Seq<(String, String)>) -> Seq<(Seq<char>, Seq<char>)> {
    Seq::new(v.len(), |i: int| (v[i].0@, v[i].1@))
}

/// Each published point comes from a point of the MQTT mapping that the metrics hold: it
/// carries that metric's value and the given time, and its label is the user's label for the
/// point (`labels.{id}` in the configuration) when there is one, else the mapping's `label`,
/// else the point's identifier.
pub proof fn lemma_telemetry_points(points: Seq<(Seq<char>, JsonView)>, bundle: ResourceBundleView, metrics: JsonView, ts: u64, i: int)
    requires
        0 <= i < telemetry_of(points, bundle, metrics, ts).len(),
    ensures
        ({
            let (id, p) = telemetry_of(points, bundle, metrics, ts)[i];
            let user = match bundle.configuration.get("labels"@) {
                Some(l) => text_member(l, id),
                None => None,
            };
            exists|j: int|
                0 <= j < points.len() && #[trigger] points[j].0 == id && metrics.get(id) == Some(p.value) && p.timestamp == ts
                    && (user is Some ==> p.label == user->0) && (user is None && text_member(points[j].1, "label"@) is Some
                    ==> p.label == text_member(points[j].1, "label"@)->0) && (user is None && text_member(points[j].1, "label"@) is None
                    ==> p.label == id)
        }),
    decreases points.len(),
{
    let out = telemetry_of(points, bundle, metrics, ts);
    let init = points.drop_last();
    let prev = telemetry_of(init, bundle, metrics, ts);
    let n = points.len() - 1;
    if i < prev.len() {
        lemma_telemetry_points(init, bundle, metrics, ts, i);
        assert(out[i] == prev[i]);
        let (id, p) = prev[i];
        let user = match bundle.configuration.get("labels"@) {
            Some(l) => text_member(l, id),
            None => None,
        };
        let j = choose|j: int|
            0 <= j < init.len() && #[trigger] init[j].0 == id && metrics.get(id) == Some(p.value) && p.timestamp == ts
                && (user is Some ==> p.label == user->0) && (user is None && text_member(init[j].1, "label"@) is Some
                ==> p.label == text_member(init[j].1, "label"@)->0) && (user is None && text_member(init[j].1, "label"@) is None
                ==> p.label == id);
        assert(points[j] == init[j]);
    } else {
        assert(i == prev.len());
        assert(points[n] == points.last());
    }
}

/// What `telemetry_points` publishes for a bundle: nothing without an MQTT mapping; with one,
/// each point is a point of the mapping held by the metrics, labelled by the user's label,
/// else the mapping's, else its identifier.
pub proof fn lemma_published_labels(bundle: ResourceBundleView, metrics: JsonView, ts: u64, i: int)
    requires
        0 <= i < telemetry_for(bundle, metrics, ts).len(),
    ensures
        mqtt_points(bundle.mappings) is Some,
        ({
            let points = mqtt_points(bundle.mappings)->0;
            let (id, p) = telemetry_for(bundle, metrics, ts)[i];
            let user = match bundle.configuration.get("labels"@) {
                Some(l) => text_member(l, id),
                None => None,
            };
            exists|j: int|
                0 <= j < points.len() && #[trigger] points[j].0 == id && metrics.get(id) == Some(p.value) && p.timestamp == ts
                    && (user is Some ==> p.label == user->0) && (user is None && text_member(points[j].1, "label"@) is Some
                    ==> p.label == text_member(points[j].1, "label"@)->0) && (user is None && text_member(points[j].1, "label"@) is None
                    ==> p.label == id)
        }),
{
    lemma_telemetry_points(mqtt_points(bundle.mappings)->0, bundle, metrics, ts, i);
}

proof fn lemma_first_with_id(states: Seq<JsonView>, id: Seq<char>, i: int)
    requires
        0 <= i <= states.len(),
        forall|j: int| 0 <= j < i ==> states[j].index("id"@).as_text() != Some(id),
    ensures
        i < states.len() && states[i].index("id"@).as_text() == Some(id) ==> first_with_id(states, id) == Some(states[i]),
        i == states.len() ==> first_with_id(states, id) is None,
    decreases i,
{
    if i > 0 {
        lemma_first_with_id(states.drop_first(), id, i - 1);
    }
}

fn u64_member_of(config: &JsonValue, key: &str) -> (r: Option<u64>)
    ensures
        r == u64_member(config@, key@),
{
    match config.get(key) {
        Some(v) => v.as_u64(),
        None => None,
    }
}

/// The label of a measurement.
fn label_of(config: &JsonValue, def: &JsonValue, id: &str) -> (r: String)
    ensures
        r@ == point_label(config@, def@, id@),
{
    let user = match config.get("labels") {
        Some(l) => text_member_of(l, id),
        None => None,
    };
    match user {
        Some(u) => u,
        None => match text_member_of(def, "label") {
            Some(d) => d,
            None => to_string_of(id),
        },
    }
}

/// The unit of a measurement.
fn unit_of(template: &JsonValue, id: &str) -> (r: String)
    ensures
        r@ == point_unit(template@, id@),
{
    let states_holder = template.index("points").index("states");
    match states_holder.as_array() {
        Some(states) => {
            let ghost sv = array_view(states@);
            let mut i: usize = 0;
            while i < states.len()
                invariant
                    i <= states.len(),
                    sv == array_view(states@),
                    template@.index("points"@).index("states"@).as_array() == Some(sv),
                    forall|j: int| 0 <= j < i ==> sv[j].index("id"@).as_text() != Some(id@),
                decreases states.len() - i,
            {
                let idv = states[i].index("id");
                let hit = match idv.as_str() {
                    Some(s) => str_eq(s, id),
                    None => false,
                };
                if hit {
                    proof {
                        lemma_first_with_id(sv, id@, i as int);
                    }
                    let u = states[i].index("unit");
                    return match u.as_str() {
                        Some(t) => to_string_of(t),
                        None => String::new(),
                    };
                }
                i = i + 1;
            }
            proof {
                lemma_first_with_id(sv, id@, i as int);
            }
            String::new()
        },
        None => String::new(),
    }
}

impl MqttRunner {
    /// The broker settings of gateway `gateway_id`, from its configuration.
    pub fn gateway_settings(gateway_id: &str, config: &JsonValue) -> (r: Result<MqttSettings, String>)
        ensures
            match r {
                Ok(s) => gateway_settings_spec(gateway_id@, config@) == Ok::<MqttSettingsView, Seq<char>>(s@),
                Err(e) => gateway_settings_spec(gateway_id@, config@) == Err::<MqttSettingsView, Seq<char>>(e@),
            },
    {
        let host = match text_member_of(config, "host") {
            Some(h) => h,
            None => match text_member_of(config, "broker_host") {
                Some(h) => h,
                None => {
                    return Err(concat3("Gateway '", gateway_id, "': Missing host/broker_host in configuration"));
                },
            },
        };
        let port_wide: u64 = match u64_member_of(config, "port") {
            Some(p) => p,
            None => match u64_member_of(config, "broker_port") {
                Some(p) => p,
                None => 1883,
            },
        };
        let port = port_wide as u16;
        Ok(
            MqttSettings {
                client_id: concat2("gw-", gateway_id),
                host,
                port,
                keep_alive_secs: 5,
                credentials: credentials_from(config),
            },
        )
    }

    /// The topic filters to subscribe to: `{device_topic}/#` for each device that names one.
    pub fn subscriptions(driver: &ActiveDriver) -> (r: Vec<(String, String)>)
        ensures
            pairs_view(r@) == subscriptions_of(driver.devices_resources.key_seq(), driver.devices_resources.value_seq()),
    {
        let devices = &driver.devices_resources;
        proof {
            use_type_invariant(devices);
            devices.lemma_keys();
        }
        let n = devices.len();
        let mut out: Vec<(String, String)> = Vec::new();
        let mut i: usize = 0;
        assert(pairs_view(out@) =~= Seq::<(Seq<char>, Seq<char>)>::empty());
        assert(subscriptions_of(devices.key_seq().subrange(0, 0), devices.value_seq().subrange(0, 0))
            == Seq::<(Seq<char>, Seq<char>)>::empty());
        while i < n
            invariant
                n == devices.count(),
                devices.key_seq().len() == n,
                devices.value_seq().len() == n,
                i <= n,
                pairs_view(out@) == subscriptions_of(devices.key_seq().subrange(0, i as int), devices.value_seq().subrange(0, i as int)),
            decreases n - i,
        {
            let ghost before = pairs_view(out@);
            let ghost ks = devices.key_seq().subrange(0, i + 1);
            let ghost vs = devices.value_seq().subrange(0, i + 1);
            proof {
                assert(ks.drop_last() =~= devices.key_seq().subrange(0, i as int));
                assert(vs.drop_last() =~= devices.value_seq().subrange(0, i as int));
            }
            let id = devices.key_at_index(i);
            let bundle = devices.value_at(i);
            match text_member_of(&bundle.configuration, "device_topic") {
                Some(t) => {
                    let filter = concat2(t.as_str(), "/#");
                    out.push((id.clone(), filter));
                    assert(pairs_view(out@) =~= before.push((ks.last(), t@ + "/#"@)));
                },
                None => {},
            }
            i = i + 1;
        }
        assert(devices.key_seq().subrange(0, n as int) =~= devices.key_seq());
        assert(devices.value_seq().subrange(0, n as int) =~= devices.value_seq());
        out
    }

    /// The measurements to publish for the metrics a device's script produced, stamped `ts`.
    pub fn telemetry_points(bundle: &ResourceBundle, metrics: &JsonValue, ts: u64) -> (r: Vec<(String, CorePayload)>)
        ensures
            payloads_view(r@) == telemetry_for(bundle@, metrics@, ts),
    {
        let mut out: Vec<(String, CorePayload)> = Vec::new();
        let mqtt = match bundle.mappings.get("mqtt") {
            Some(m) => m,
            None => {
                assert(payloads_view(out@) =~= Seq::<(Seq<char>, CorePayloadView)>::empty());
                return out;
            },
        };
        let points_holder = match mqtt.get("points") {
            Some(p) => p,
            None => {
                assert(payloads_view(out@) =~= Seq::<(Seq<char>, CorePayloadView)>::empty());
                return out;
            },
        };
        let points = match points_holder.as_object() {
            Some(p) => p,
            None => {
                assert(payloads_view(out@) =~= Seq::<(Seq<char>, CorePayloadView)>::empty());
                return out;
            },
        };
        let ghost pv = entries_view(points@);
        let ghost bv = bundle@;
        assert(mqtt_points(bv.mappings) == Some(pv));
        let mut i: usize = 0;
        assert(pv.subrange(0, 0) =~= Seq::<(Seq<char>, JsonView)>::empty());
        assert(payloads_view(out@) =~= Seq::<(Seq<char>, CorePayloadView)>::empty());
        while i < points.len()
            invariant
                i <= points.len(),
                pv == entries_view(points@),
                bv == bundle@,
                payloads_view(out@) == telemetry_of(pv.subrange(0, i as int), bv, metrics@, ts),
            decreases points.len() - i,
        {
            let ghost before = payloads_view(out@);
            let ghost sub = pv.subrange(0, i + 1);
            proof {
                assert(sub.drop_last() =~= pv.subrange(0, i as int));
                assert(sub.last() == pv[i as int]);
            }
            let id = &points[i].0;
            let def = &points[i].1;
            match metrics.get(id.as_str()) {
                Some(v) => {
                    let payload = CorePayload {
                        value: v.duplicate(),
                        unit: unit_of(&bundle.template, id.as_str()),
                        label: label_of(&bundle.configuration, def, id.as_str()),
                        timestamp: ts,
                    };
                    out.push((id.clone(), payload));
                    assert(payloads_view(out@) =~= before.push((sub.last().0, payloads_view(out@).last().1)));
                },
                None => {},
            }
            i = i + 1;
        }
        assert(pv.subrange(0, points.len() as int) =~= pv);
        out
    }

    /// The device a routing script named: none when the name is empty or `null`.
    pub fn routed_device(name: String) -> (r: Option<String>)
        ensures
            match r {
                Some(d) => d@ == name@ && name@.len() > 0 && name@ != "null"@,
                None => name@.len() == 0 || name@ == "null"@,
            },
    {
        if name.as_str().is_empty() || str_eq(name.as_str(), "null") {
            None
        } else {
            Some(name)
        }
    }

    /// The publication for a command received from the core: nothing when it names no topic.
    pub fn command_action(topic: String, payload: String) -> (r: Option<NetworkAction>)
        ensures
            match r {
                Some(a) => topic@.len() > 0 && a.topic@ == topic@ && a.payload@ == payload@,
                None => topic@.len() == 0,
            },
    {
        if topic.as_str().is_empty() {
            None
        } else {
            Some(NetworkAction { topic, payload })
        }
    }
}

} // verus!
