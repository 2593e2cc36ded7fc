//! Topics of the internal bus: how a publication is addressed and how an incoming topic is
//! routed. A topic reads `osheems/{role}/{device_topic}/{suffix}/{point_topic}`.
use vstd::prelude::*;
use crate::core_bus::types::{MqttSuffix, suffix_from_text, suffix_name, lemma_suffix_round_trip};
use crate::json::{JsonValue, JsonView, entries_view};
use crate::text::{
    concat2, concat3, to_string_of, is_split_of, join_seq, parts_free_of, split_char, str_eq, strings_view, to_lowercase,
    lemma_split_unique,
};

pub use crate::core_bus::types::CorePayload;

verus! {

/// The topic a publication is sent on.
pub open spec fn bus_topic(role: Seq<char>, device_topic: Seq<char>, suffix: MqttSuffix, point_topic: Seq<char>) -> Seq<char> {
    "osheems/"@ + role + "/"@ + device_topic + "/"@ + suffix_name(suffix) + "/"@ + point_topic
}

/// The route read from the `/`-separated parts of an incoming topic: four or five parts, the
/// first `osheems`, the fourth a known suffix.
pub open spec fn route_of_parts(parts: Seq<Seq<char>>) -> Option<(Seq<char>, Seq<char>, MqttSuffix)> {
    if (parts.len() == 4 || parts.len() == 5) && parts[0] == "osheems"@ && suffix_from_text(parts[3]) is Some {
        Some((parts[1], parts[2], suffix_from_text(parts[3]).unwrap()))
    } else {
        None
    }
}

/// The destination of an incoming bus message: the node role and device topic it names and
/// the kind of message.
#[derive(Debug)]
pub struct BusRoute {
    pub role: String,
    pub device_topic: String,
    pub suffix: MqttSuffix,
}

/// `osheems/{role}/{device_topic}/{suffix}/{point_topic}`.
pub fn publish_topic(role: &str, device_topic: &str, suffix: MqttSuffix, point_topic: &str) -> (r: String)
    ensures
        r@ == bus_topic(role@, device_topic@, suffix, point_topic@),
{
    let name = suffix.to_string();
    let lower = to_lowercase(name.as_str());
    proof {
        lemma_suffix_round_trip(suffix);
    }
    let mut t = concat2("osheems/", role);
    t.append("/");
    t.append(device_topic);
    t.append("/");
    t.append(lower.as_str());
    t.append("/");
    t.append(point_topic);
    t
}

/// Routes an incoming topic; topics that are not bus topics give nothing.
pub fn parse_bus_topic(topic: &str) -> (r: Option<BusRoute>)
    ensures
        forall|parts: Seq<Seq<char>>|
            is_split_of(parts, topic@, '/') ==> match r {
                Some(b) => route_of_parts(parts) == Some((b.role@, b.device_topic@, b.suffix)),
                None => route_of_parts(parts) is None,
            },
{
    let parts = split_char(topic, '/');
    let ghost p = strings_view(parts@);
    proof {
        assert forall|q: Seq<Seq<char>>| is_split_of(q, topic@, '/') implies q == p by {
            lemma_split_unique(q, p, '/');
        }
    }
    let n = parts.len();
    if (n == 4 || n == 5) && str_eq(parts[0].as_str(), "osheems") {
        assert(parts@[0]@ == p[0]);
        match MqttSuffix::try_from(parts[3].as_str()) {
            Ok(suffix) => {
                assert(p[1] == parts@[1]@ && p[2] == parts@[2]@ && p[3] == parts@[3]@);
                Some(BusRoute { role: parts[1].clone(), device_topic: parts[2].clone(), suffix })
            },
            Err(_) => {
                assert(p[3] == parts@[3]@);
                None
            },
        }
    } else {
        None
    }
}

/// A topic built for a publication routes back to the role, device topic and suffix it was
/// built from, when the role, device topic and point topic hold no `/`.
pub proof fn lemma_topic_round_trip(role: Seq<char>, device_topic: Seq<char>, suffix: MqttSuffix, point_topic: Seq<char>)
    requires
        !role.contains('/'),
        !device_topic.contains('/'),
        !point_topic.contains('/'),
    ensures
        forall|parts: Seq<Seq<char>>|
            is_split_of(parts, bus_topic(role, device_topic, suffix, point_topic), '/')
                ==> route_of_parts(parts) == Some((role, device_topic, suffix)),
{
    reveal_strlit("osheems/");
    reveal_strlit("osheems");
    reveal_strlit("/");
    lemma_suffix_round_trip(suffix);
    let name = suffix_name(suffix);
    reveal_strlit("get");
    reveal_strlit("set");
    reveal_strlit("evt");
    reveal_strlit("conf");
    reveal_strlit("logs");
    assert(!name.contains('/'));
    assert(!"osheems"@.contains('/'));
    let p = seq!["osheems"@, role, device_topic, name, point_topic];
    assert(parts_free_of(p, '/'));
    let sep = seq!['/'];
    let o = "osheems"@;
    let p1 = seq![o];
    let p2 = seq![o, role];
    let p3 = seq![o, role, device_topic];
    let p4 = seq![o, role, device_topic, name];
    assert(p2.drop_last() =~= p1);
    assert(p3.drop_last() =~= p2);
    assert(p4.drop_last() =~= p3);
    assert(p.drop_last() =~= p4);
    assert(join_seq(p1, '/') == o);
    assert(join_seq(p2, '/') == o + sep + role);
    assert(join_seq(p3, '/') == o + sep + role + sep + device_topic);
    assert(join_seq(p4, '/') == o + sep + role + sep + device_topic + sep + name);
    assert(join_seq(p, '/') == o + sep + role + sep + device_topic + sep + name + sep + point_topic);
    assert("osheems/"@ =~= o + sep);
    assert("/"@ =~= sep);
    assert(join_seq(p, '/') =~= bus_topic(role, device_topic, suffix, point_topic));
    assert forall|parts: Seq<Seq<char>>|
        is_split_of(parts, bus_topic(role, device_topic, suffix, point_topic), '/') implies route_of_parts(parts) == Some(
        (role, device_topic, suffix),
    ) by {
        lemma_split_unique(parts, p, '/');
    }
}

/// The topic of a measurement: always under the `evt` suffix.
pub fn telemetry_topic(role: &str, device_topic: &str, point_topic: &str) -> (r: String)
    ensures
        r@ == bus_topic(role@, device_topic@, MqttSuffix::Evt, point_topic@),
{
    publish_topic(role, device_topic, MqttSuffix::Evt, point_topic)
}

/// The device topic under which the managers publish their events and logs.
pub const SYSTEM_DEVICE_TOPIC: &'static str = "osheems/core/system";

/// The payload of a lifecycle event: `{"id": id}`.
pub open spec fn event_payload_spec(id: Seq<char>) -> JsonView {
    JsonView::Object(seq![("id"@, JsonView::Text(id))])
}

/// `{"id": id}`.
pub fn event_payload(id: &str) -> (r: JsonValue)
    ensures
        r@ == event_payload_spec(id@),
{
    let v = vec![(to_string_of("id"), JsonValue::text(id))];
    assert(entries_view(v@) =~= seq![("id"@, JsonView::Text(id@))]);
    JsonValue::Object(v)
}

/// The payload of the event of an interface that was opened: `{"id": id, "status": "online"}`.
pub open spec fn online_payload_spec(id: Seq<char>) -> JsonView {
    JsonView::Object(seq![("id"@, JsonView::Text(id)), ("status"@, JsonView::Text("online"@))])
}

/// `{"id": id, "status": "online"}`.
pub fn online_event_payload(id: &str) -> (r: JsonValue)
    ensures
        r@ == online_payload_spec(id@),
{
    let v = vec![(to_string_of("id"), JsonValue::text(id)), (to_string_of("status"), JsonValue::text("online"))];
    assert(entries_view(v@) =~= online_payload_spec(id@)->Object_0);
    JsonValue::Object(v)
}

/// The payload of a technical log line of a manager.
pub open spec fn log_payload_spec(id: Seq<char>, level: Seq<char>, module: Seq<char>, msg: Seq<char>, ts: Seq<char>) -> JsonView {
    JsonView::Object(
        seq![
            ("id"@, JsonView::Text(id)),
            ("level"@, JsonView::Text(level)),
            ("module"@, JsonView::Text(module)),
            ("msg"@, JsonView::Text(msg)),
            ("ts"@, JsonView::Text(ts)),
        ],
    )
}

/// `{"id", "level", "module", "msg", "ts"}` of a log line stamped `ts`.
pub fn log_payload(id: &str, level: &str, module: &str, msg: &str, ts: &str) -> (r: JsonValue)
    ensures
        r@ == log_payload_spec(id@, level@, module@, msg@, ts@),
{
    let v = vec![
        (to_string_of("id"), JsonValue::text(id)),
        (to_string_of("level"), JsonValue::text(level)),
        (to_string_of("module"), JsonValue::text(module)),
        (to_string_of("msg"), JsonValue::text(msg)),
        (to_string_of("ts"), JsonValue::text(ts)),
    ];
    assert(entries_view(v@) =~= log_payload_spec(id@, level@, module@, msg@, ts@)->Object_0);
    JsonValue::Object(v)
}

/// The point topic of a log line of level `level` from the manager of `area`: `{area}/{level}`.
pub fn log_point_topic(area: &str, level: &str) -> (r: String)
    ensures
        r@ == area@ + "/"@ + level@,
{
    concat3(area, "/", level)
}

} // verus!
