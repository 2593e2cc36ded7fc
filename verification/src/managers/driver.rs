//! Drivers: the resources (template, scripts, mappings, configuration) of a gateway, of its
//! interface and of its devices, assembled into one active driver.
use vstd::prelude::*;
use crate::entities::Entity;
use crate::json::{JsonValue, JsonView, entries_get, entries_has, entries_insert, entries_view, lemma_entries_get_at, lemma_entries_insert_get};
use crate::managers::template::ConfigField;
use crate::registry::Registry;
use crate::text::{ends_with, has_suffix, strings_view, to_string_of, concat3};

verus! {

/// The script language of a driver.
#[derive(Debug, Clone, Copy, PartialEq, Eq, Structural)]
pub enum EngineType {
    Rhai,
    JavaScript,
}

/// What an entity brings to a driver: its template, scripts, protocol mappings and its
/// configuration merged over the template's.
#[derive(Debug)]
pub struct ResourceBundle {
    pub template_id: String,
    pub template: JsonValue,
    pub engine_type: EngineType,
    pub scripts: Registry<String>,
    pub mappings: JsonValue,
    pub configuration: JsonValue,
}

/// The model of a resource bundle.
pub struct ResourceBundleView {
    pub template_id: Seq<char>,
    pub template: JsonView,
    pub engine_type: EngineType,
    pub scripts: Map<Seq<char>, Seq<char>>,
    pub mappings: JsonView,
    pub configuration: JsonView,
}

impl View for ResourceBundle {
    type V = ResourceBundleView;

    open spec fn view(&self) -> ResourceBundleView {
        ResourceBundleView {
            template_id: self.template_id@,
            template: self.template@,
            engine_type: self.engine_type,
            scripts: self.scripts.map().map_values(|s: String| s@),
            mappings: self.mappings@,
            configuration: self.configuration@,
        }
    }
}

/// A gateway's driver: its own resources, those of its interface, and those of each device
/// connected to it.
#[derive(Debug)]
pub struct ActiveDriver {
    pub gateway_id: String,
    pub main_engine: EngineType,
    pub entity: ResourceBundle,
    pub gateway: ResourceBundle,
    pub interface: ResourceBundle,
    pub devices_resources: Registry<ResourceBundle>,
}

/// Setting each entry of `entries`, in order, on `base`.
pub open spec fn insert_all(base: JsonView, entries: Seq<(Seq<char>, JsonView)>) -> JsonView
    decreases entries.len(),
{
    if entries.len() == 0 {
        base
    } else {
        insert_all(base, entries.drop_last()).insert(entries.last().0, entries.last().1)
    }
}

/// The template's configuration with the entity's configuration set over it, when both are
/// objects; the template's configuration otherwise.
pub open spec fn merged_config(defaults: JsonView, overrides: JsonView) -> JsonView {
    match (defaults, overrides) {
        (JsonView::Object(_), JsonView::Object(oe)) => insert_all(defaults, oe),
        _ => defaults,
    }
}

/// A bundle with no template: empty template, mappings and configuration, no scripts.
pub open spec fn virtual_bundle_view(id: Seq<char>) -> ResourceBundleView {
    ResourceBundleView {
        template_id: id,
        template: JsonView::Object(Seq::empty()),
        engine_type: EngineType::Rhai,
        scripts: Map::empty(),
        mappings: JsonView::Object(Seq::empty()),
        configuration: JsonView::Object(Seq::empty()),
    }
}

/// The engine of a set of scripts: JavaScript when some script name ends in `.js`.
pub open spec fn engine_of(scripts: Map<Seq<char>, Seq<char>>) -> EngineType {
    if exists|k: Seq<char>| scripts.contains_key(k) && has_suffix(k, ".js"@) {
        EngineType::JavaScript
    } else {
        EngineType::Rhai
    }
}

/// Keys of the entries are pairwise distinct.
pub open spec fn distinct_keys(e: Seq<(Seq<char>, JsonView)>) -> bool {
    forall|i: int, j: int| 0 <= i < e.len() && 0 <= j < e.len() && i != j ==> e[i].0 != e[j].0
}

proof fn lemma_entries_get_push(e: Seq<(Seq<char>, JsonView)>, x: (Seq<char>, JsonView), k: Seq<char>)
    ensures
        entries_get(e.push(x), k) == if entries_has(e, k) {
            entries_get(e, k)
        } else if x.0 == k {
            Some(x.1)
        } else {
            None
        },
    decreases e.len(),
{
    crate::json::lemma_entries_get_has(e, k);
    let ex = e.push(x);
    if e.len() > 0 {
        assert(ex[0] == e[0]);
        if e[0].0 == k {
            assert(entries_has(e, k));
        } else {
            lemma_entries_get_push(e.drop_first(), x, k);
            assert(ex.drop_first() =~= e.drop_first().push(x));
            crate::json::lemma_entries_get_has(e.drop_first(), k);
            if entries_has(e.drop_first(), k) {
                let i = choose|i: int| 0 <= i < e.drop_first().len() && e.drop_first()[i].0 == k;
                assert(e[i + 1].0 == k);
            }
            if entries_has(e, k) {
                let i = choose|i: int| 0 <= i < e.len() && e[i].0 == k;
                assert(e.drop_first()[i - 1].0 == k);
            }
        }
    } else {
        assert(ex.drop_first() =~= Seq::<(Seq<char>, JsonView)>::empty());
        assert(entries_get(ex.drop_first(), k) is None);
    }
}

/// Merging: a key set by the entity's configuration has the entity's value; every other key
/// keeps the template's value.
pub proof fn lemma_merge_lookup(defaults: JsonView, overrides: JsonView, k: Seq<char>)
    requires
        defaults is Object,
        overrides is Object,
        distinct_keys(overrides->Object_0),
    ensures
        merged_config(defaults, overrides).get(k) == match overrides.get(k) {
            Some(v) => Some(v),
            None => defaults.get(k),
        },
{
    lemma_insert_all_lookup(defaults, overrides->Object_0, k);
    crate::json::lemma_entries_get_has(overrides->Object_0, k);
}

proof fn lemma_insert_all_lookup(base: JsonView, e: Seq<(Seq<char>, JsonView)>, k: Seq<char>)
    requires
        base is Object,
        distinct_keys(e),
    ensures
        insert_all(base, e) is Object,
        insert_all(base, e).get(k) == if entries_has(e, k) {
            entries_get(e, k)
        } else {
            base.get(k)
        },
    decreases e.len(),
{
    if e.len() > 0 {
        let p = e.drop_last();
        assert(distinct_keys(p)) by {
            assert forall|i: int, j: int| 0 <= i < p.len() && 0 <= j < p.len() && i != j implies p[i].0 != p[j].0 by {
                assert(p[i] == e[i] && p[j] == e[j]);
            }
        }
        lemma_insert_all_lookup(base, p, k);
        let prev = insert_all(base, p);
        lemma_entries_insert_get(prev->Object_0, e.last().0, e.last().1, k);
        assert(e =~= p.push(e.last()));
        lemma_entries_get_push(p, e.last(), k);
        if entries_has(p, k) && e.last().0 == k {
            let i = choose|i: int| 0 <= i < p.len() && p[i].0 == k;
            assert(e[i].0 == e[e.len() - 1].0);
        }
        if !entries_has(p, k) && e.last().0 == k {
            assert(entries_has(e, k)) by {
                assert(e[e.len() - 1].0 == k);
            }
        }
        if entries_has(e, k) && e.last().0 != k {
            let i = choose|i: int| 0 <= i < e.len() && e[i].0 == k;
            assert(p[i].0 == k);
        }
    }
}

impl ResourceBundle {
    /// A placeholder bundle for an entity without a template.
    pub fn virtual_bundle(id: &str) -> (r: ResourceBundle)
        ensures
            r@ == virtual_bundle_view(id@),
    {
        let r = ResourceBundle {
            template_id: to_string_of(id),
            template: JsonValue::empty_object(),
            engine_type: EngineType::Rhai,
            scripts: Registry::new(),
            mappings: JsonValue::empty_object(),
            configuration: JsonValue::empty_object(),
        };
        assert(r.scripts.map().map_values(|s: String| s@) =~= Map::<Seq<char>, Seq<char>>::empty());
        r
    }

    /// A copy of the bundle.
    pub fn duplicate(&self) -> (r: ResourceBundle)
        ensures
            r@ == self@,
    {
        ResourceBundle {
            template_id: self.template_id.clone(),
            template: self.template.duplicate(),
            engine_type: self.engine_type,
            scripts: self.scripts.duplicate(),
            mappings: self.mappings.duplicate(),
            configuration: self.configuration.duplicate(),
        }
    }

    /// The entry script `main.rhai`.
    pub fn main_script(&self) -> (r: Option<&String>)
        ensures
            match r {
                Some(s) => self@.scripts.contains_key("main.rhai"@) && self@.scripts["main.rhai"@] == s@,
                None => !self@.scripts.contains_key("main.rhai"@),
            },
    {
        self.scripts.get("main.rhai")
    }
}

/// The engine that runs a set of scripts.
pub fn engine_type_for(scripts: &Registry<String>) -> (r: EngineType)
    ensures
        r == engine_of(scripts.map().map_values(|s: String| s@)),
{
    proof {
        use_type_invariant(scripts);
        scripts.lemma_keys();
    }
    let ghost m = scripts.map().map_values(|s: String| s@);
    let n = scripts.len();
    let mut i: usize = 0;
    while i < n
        invariant
            n == scripts.count(),
            i <= n,
            scripts.wf(),
            forall|j: int| 0 <= j < i ==> !has_suffix(#[trigger] scripts.key_seq()[j], ".js"@),
        decreases n - i,
    {
        if ends_with(scripts.key_at_index(i).as_str(), ".js") {
            proof {
                scripts.lemma_keys();
                let k = scripts.key_seq()[i as int];
                assert(scripts.key_seq().contains(k));
                assert(scripts.map().contains_key(k));
                assert(scripts.map().map_values(|s: String| s@).contains_key(k));
            }
            return EngineType::JavaScript;
        }
        i = i + 1;
    }
    proof {
        scripts.lemma_keys();
        assert forall|k: Seq<char>| m.contains_key(k) implies !has_suffix(k, ".js"@) by {
            assert(scripts.map().contains_key(k));
            assert(scripts.key_seq().contains(k));
            let j = choose|j: int| 0 <= j < scripts.key_seq().len() && scripts.key_seq()[j] == k;
            assert(!has_suffix(scripts.key_seq()[j], ".js"@));
        }
    }
    EngineType::Rhai
}

/// The template's configuration with the entity's configuration set over it.
pub fn merge_configuration(defaults: JsonValue, overrides: &JsonValue) -> (r: JsonValue)
    ensures
        r@ == merged_config(defaults@, overrides@),
{
    if !defaults.is_object() {
        return defaults;
    }
    match overrides {
        JsonValue::Object(entries) => {
            let ghost oe = crate::json::entries_view(entries@);
            assert(overrides@ == JsonView::Object(oe));
            let ghost d = defaults@;
            let mut acc = defaults;
            let mut i: usize = 0;
            assert(oe.subrange(0, 0) =~= Seq::<(Seq<char>, JsonView)>::empty());
            while i < entries.len()
                invariant
                    i <= entries.len(),
                    oe == crate::json::entries_view(entries@),
                    acc@ == insert_all(d, oe.subrange(0, i as int)),
                decreases entries.len() - i,
            {
                let k = entries[i].0.clone();
                let v = entries[i].1.duplicate();
                acc = acc.insert(k, v);
                proof {
                    let s = oe.subrange(0, i + 1);
                    assert(s.drop_last() =~= oe.subrange(0, i as int));
                    assert(s.last() == oe[i as int]);
                }
                i = i + 1;
            }
            assert(oe.subrange(0, entries.len() as int) =~= oe);
            acc
        },
        _ => defaults,
    }
}

/// The template key of an entity: its template identifier, or `default`.
pub fn template_key(entity: &Entity) -> (r: String)
    ensures
        r@ == match entity.template_id {
            Some(t) => t@,
            None => "default"@,
        },
{
    match &entity.template_id {
        Some(t) => t.clone(),
        None => to_string_of("default"),
    }
}

/// The default values of a template's configuration fields: an object with, in order, each
/// field's name and its `default`.
pub open spec fn field_defaults(names: Seq<Seq<char>>, fields: Seq<ConfigField>) -> JsonView {
    JsonView::Object(Seq::new(names.len(), |i: int| (names[i], fields[i].default@)))
}

/// The defaults of a template's fields hold, under each field's name, that field's default,
/// and nothing else.
pub proof fn lemma_field_defaults_get(fields: Registry<ConfigField>, k: Seq<char>)
    requires
        fields.wf(),
    ensures
        field_defaults(fields.key_seq(), fields.value_seq()).get(k) == if fields.map().contains_key(k) {
            Some(fields.map()[k].default@)
        } else {
            None::<JsonView>
        },
{
    fields.lemma_keys();
    let names = fields.key_seq();
    let vals = fields.value_seq();
    let e = Seq::new(names.len(), |i: int| (names[i], vals[i].default@));
    assert(field_defaults(names, vals) == JsonView::Object(e));
    if fields.map().contains_key(k) {
        assert(names.contains(k));
        let i = choose|i: int| 0 <= i < names.len() && names[i] == k;
        assert forall|j: int| 0 <= j < i implies e[j].0 != k by {
            assert(names[j] != names[i]);
        }
        lemma_entries_get_at(e, k, i);
        assert(fields.map()[names[i]] == vals[i]);
    } else {
        assert forall|j: int| 0 <= j < names.len() implies e[j].0 != k by {
            assert(names.contains(names[j]));
        }
        lemma_entries_get_at(e, k, names.len() as int);
    }
}

/// The default values of a template's configuration fields.
pub fn configuration_defaults(fields: &Registry<ConfigField>) -> (r: JsonValue)
    ensures
        r@ == field_defaults(fields.key_seq(), fields.value_seq()),
{
    proof {
        use_type_invariant(fields);
        fields.lemma_keys();
    }
    let n = fields.len();
    let mut v: Vec<(String, JsonValue)> = Vec::new();
    let mut i: usize = 0;
    while i < n
        invariant
            n == fields.count(),
            fields.key_seq().len() == n,
            fields.value_seq().len() == n,
            i <= n,
            v@.len() == i,
            entries_view(v@) =~= Seq::new(i as nat, |j: int| (fields.key_seq()[j], fields.value_seq()[j].default@)),
        decreases n - i,
    {
        let k = fields.key_at_index(i).clone();
        let d = fields.value_at(i).default.duplicate();
        let ghost before = v@;
        assert(k@ == fields.key_seq()[i as int]);
        assert(d@ == fields.value_seq()[i as int].default@);
        v.push((k, d));
        assert(v@ == before.push((k, d)));
        assert forall|j: int| 0 <= j < v@.len() implies #[trigger] entries_view(v@)[j] == (
            fields.key_seq()[j],
            fields.value_seq()[j].default@,
        ) by {
            if j < i {
                assert(v@[j] == before[j]);
                assert(entries_view(before)[j] == (before[j].0@, before[j].1@));
            }
        }
        assert(entries_view(v@) =~= Seq::new((i + 1) as nat, |j: int| (fields.key_seq()[j], fields.value_seq()[j].default@)));
        i = i + 1;
    }
    JsonValue::Object(v)
}

/// The bundle of an entity whose template is found: the template's definition, scripts and
/// mappings, and the defaults of the template's configuration fields with the entity's
/// configuration set over them.
pub fn bundle_from_template(
    template_id: &str,
    template: JsonValue,
    fields: &Registry<ConfigField>,
    scripts: Registry<String>,
    mappings: JsonValue,
    entity: &Entity,
) -> (r: ResourceBundle)
    ensures
        r.template_id@ == template_id@,
        r.template@ == template@,
        r.engine_type == engine_of(scripts.map().map_values(|s: String| s@)),
        r.scripts.map() == scripts.map(),
        r.mappings@ == mappings@,
        r.configuration@ == merged_config(field_defaults(fields.key_seq(), fields.value_seq()), entity.configuration@),
{
    let defaults = configuration_defaults(fields);
    let configuration = merge_configuration(defaults, &entity.configuration);
    let engine_type = engine_type_for(&scripts);
    ResourceBundle {
        template_id: to_string_of(template_id),
        template,
        engine_type,
        scripts,
        mappings,
        configuration,
    }
}

/// In a bundle built from a template, a configuration key has the entity's value where the
/// entity's configuration sets it, else the default of the template's field of that name,
/// else nothing.
pub proof fn lemma_bundle_configuration_lookup(fields: Registry<ConfigField>, overrides: JsonView, k: Seq<char>)
    requires
        fields.wf(),
        overrides is Object,
        distinct_keys(overrides->Object_0),
    ensures
        merged_config(field_defaults(fields.key_seq(), fields.value_seq()), overrides).get(k) == match overrides.get(k) {
            Some(v) => Some(v),
            None => if fields.map().contains_key(k) {
                Some(fields.map()[k].default@)
            } else {
                None::<JsonView>
            },
        },
{
    lemma_merge_lookup(field_defaults(fields.key_seq(), fields.value_seq()), overrides, k);
    lemma_field_defaults_get(fields, k);
}

/// The bundle of an entity whose template is not found: a placeholder holding the entity's
/// configuration.
pub fn bundle_without_template(template_id: &str, entity: &Entity) -> (r: ResourceBundle)
    ensures
        r@ == (ResourceBundleView { configuration: entity.configuration@, ..virtual_bundle_view(template_id@) }),
{
    let mut b = ResourceBundle::virtual_bundle(template_id);
    b.configuration = entity.configuration.duplicate();
    b
}

/// A device's bundle with the attributes of its connection (an address, a topic, ...) set
/// as `relation_attributes` in its configuration, when that is an object.
pub fn with_relation_attributes(bundle: ResourceBundle, attributes: &JsonValue) -> (r: ResourceBundle)
    ensures
        r@ == (ResourceBundleView {
            configuration: bundle@.configuration.insert("relation_attributes"@, attributes@),
            ..bundle@
        }),
        r.scripts == bundle.scripts,
{
    let ResourceBundle { template_id, template, engine_type, scripts, mappings, configuration } = bundle;
    let configuration = configuration.insert(to_string_of("relation_attributes"), attributes.duplicate());
    ResourceBundle { template_id, template, engine_type, scripts, mappings, configuration }
}

/// The driver of a gateway, from the bundles of the gateway, its interface and its devices.
pub fn assemble_driver(
    gateway_id: &str,
    gateway: ResourceBundle,
    interface: ResourceBundle,
    devices: Registry<ResourceBundle>,
) -> (r: ActiveDriver)
    ensures
        r.gateway_id@ == gateway_id@,
        r.main_engine == gateway.engine_type,
        r.entity@ == gateway@,
        r.gateway@ == gateway@,
        r.interface@ == interface@,
        r.devices_resources == devices,
{
    let entity = gateway.duplicate();
    ActiveDriver {
        gateway_id: to_string_of(gateway_id),
        main_engine: gateway.engine_type,
        entity,
        gateway,
        interface,
        devices_resources: devices,
    }
}

/// The identifiers of the enabled entities, in order.
pub open spec fn enabled_id_seq(es: Seq<Entity>) -> Seq<Seq<char>>
    decreases es.len(),
{
    if es.len() == 0 {
        Seq::empty()
    } else {
        let p = enabled_id_seq(es.drop_last());
        if es.last().is_enabled {
            p.push(es.last().id@)
        } else {
            p
        }
    }
}

/// The identifiers of the enabled entities, in order.
pub fn enabled_ids(entities: &Vec<Entity>) -> (r: Vec<String>)
    ensures
        strings_view(r@) == enabled_id_seq(entities@),
{
    let mut out: Vec<String> = Vec::new();
    let mut j: usize = 0;
    assert(entities@.subrange(0, 0) =~= Seq::<Entity>::empty());
    assert(strings_view(out@) =~= Seq::<Seq<char>>::empty());
    while j < entities.len()
        invariant
            j <= entities@.len(),
            strings_view(out@) == enabled_id_seq(entities@.subrange(0, j as int)),
        decreases entities@.len() - j,
    {
        let ghost before = strings_view(out@);
        if entities[j].is_enabled {
            out.push(entities[j].id.clone());
            assert(strings_view(out@) =~= before.push(entities@[j as int].id@));
        }
        assert(entities@.subrange(0, j + 1).drop_last() =~= entities@.subrange(0, j as int));
        j = j + 1;
    }
    assert(entities@.subrange(0, entities@.len() as int) =~= entities@);
    out
}

impl ActiveDriver {
    /// The entry script of the gateway, or the error naming the gateway.
    pub fn gateway_main_script(&self) -> (r: Result<&String, String>)
        ensures
            match r {
                Ok(s) => self.gateway@.scripts.contains_key("main.rhai"@) && self.gateway@.scripts["main.rhai"@] == s@,
                Err(e) => !self.gateway@.scripts.contains_key("main.rhai"@)
                    && e@ == "Gateway '"@ + self.gateway_id@ + "': main.rhai not found"@,
            },
    {
        match self.gateway.main_script() {
            Some(s) => Ok(s),
            None => Err(concat3("Gateway '", self.gateway_id.as_str(), "': main.rhai not found")),
        }
    }
}

/// The entry script of a device, or the error naming the device.
pub fn device_main_script<'a>(id: &str, bundle: &'a ResourceBundle) -> (r: Result<&'a String, String>)
    ensures
        match r {
            Ok(s) => bundle@.scripts.contains_key("main.rhai"@) && bundle@.scripts["main.rhai"@] == s@,
            Err(e) => !bundle@.scripts.contains_key("main.rhai"@) && e@ == "Device '"@ + id@ + "': main.rhai not found"@,
        },
{
    match bundle.main_script() {
        Some(s) => Ok(s),
        None => Err(concat3("Device '", id, "': main.rhai not found")),
    }
}

} // verus!
