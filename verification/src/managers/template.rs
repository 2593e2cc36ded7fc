//! Entity templates: the definition of a kind of device or gateway (identity, configuration
//! fields, data points), its protocol mappings and its scripts; and the registry of templates
//! keyed by their folder, checked against the trait registry.
use vstd::prelude::*;
use crate::json::JsonValue;
use crate::registry::Registry;
use crate::text::{
    concat2, concat3, debug_of, debug_text, file_parts, replace_all, replace_char, split_file_name, str_eq,
    to_string_of, trim_char, trim_seq,
};
use crate::traits::{TraitDefinitionView, TraitRegistry, official_traits};

verus! {

/// The content of a protocol mapping file: transport settings and the protocol address of
/// each point.
#[derive(Debug)]
pub struct ProtocolMapping {
    pub transport_config: JsonValue,
    pub points: Registry<JsonValue>,
}

/// A data point of a template: its identifier, trait, unit and value type.
#[derive(Debug, Clone)]
pub struct DataPoint {
    pub id: String,
    /// The trait of the point (`trait` in template files).
    pub trait_id: String,
    pub unit: Option<String>,
    /// The value type, mostly for actions (`type` in template files).
    pub value_type: Option<String>,
}

/// The points of a template: the states it reports and the actions it accepts.
#[derive(Debug, Clone)]
pub struct TemplatePoints {
    pub states: Vec<DataPoint>,
    pub actions: Vec<DataPoint>,
}

/// A configuration field of a template.
#[derive(Debug)]
pub struct ConfigField {
    /// The field type (`type` in template files).
    pub field_type: String,
    pub default: JsonValue,
    pub description: String,
    pub only_for: Option<String>,
}

/// The identity of a template.
#[derive(Debug, Clone)]
pub struct TemplateIdentity {
    pub brand: String,
    pub model: String,
    pub traits: Vec<String>,
    pub protocols: Vec<String>,
}

/// The content of a `template.json` file.
#[derive(Debug)]
pub struct TemplateDefinition {
    pub template_id: String,
    pub version: String,
    pub entity_type: String,
    pub identity: TemplateIdentity,
    pub configuration: Registry<ConfigField>,
    pub points: TemplatePoints,
}

/// A template folder: the definition, the mappings (keyed by protocol) and the scripts
/// (keyed by file name).
#[derive(Debug)]
pub struct EntityTemplate {
    pub definition: TemplateDefinition,
    pub mappings: Registry<ProtocolMapping>,
    pub scripts: Registry<String>,
}

/// The first point whose trait is not known.
pub open spec fn first_unknown_trait(points: Seq<DataPoint>, known: Map<Seq<char>, TraitDefinitionView>) -> Option<Seq<char>>
    decreases points.len(),
{
    if points.len() == 0 {
        None
    } else if !known.contains_key(points[0].trait_id@) {
        Some(points[0].trait_id@)
    } else {
        first_unknown_trait(points.drop_first(), known)
    }
}

/// The validation of a template against the known traits: the first unknown trait of the states,
/// then of the actions, is reported.
pub open spec fn trait_validation(def: TemplateDefinition, known: Map<Seq<char>, TraitDefinitionView>) -> Result<(), Seq<char>> {
    match first_unknown_trait(def.points.states@, known) {
        Some(t) => Err("Unknown trait '"@ + t + "' in states for template at "@ + debug_text(def.template_id@)),
        None => match first_unknown_trait(def.points.actions@, known) {
            Some(t) => Err("Unknown trait '"@ + t + "' in actions for template at "@ + debug_text(def.template_id@)),
            None => Ok(()),
        },
    }
}

proof fn lemma_first_unknown_at(points: Seq<DataPoint>, known: Map<Seq<char>, TraitDefinitionView>, i: int)
    requires
        0 <= i <= points.len(),
        forall|j: int| 0 <= j < i ==> known.contains_key(#[trigger] points[j].trait_id@),
    ensures
        i < points.len() && !known.contains_key(points[i].trait_id@) ==> first_unknown_trait(points, known) == Some(
            points[i].trait_id@,
        ),
        i == points.len() ==> first_unknown_trait(points, known) is None,
    decreases i,
{
    if i > 0 {
        assert forall|j: int| 0 <= j < i - 1 implies known.contains_key(#[trigger] points.drop_first()[j].trait_id@) by {
            assert(points.drop_first()[j] == points[j + 1]);
        }
        lemma_first_unknown_at(points.drop_first(), known, i - 1);
    }
}

/// When no point has an unknown trait, every point's trait is known.
pub proof fn lemma_no_unknown_trait(points: Seq<DataPoint>, known: Map<Seq<char>, TraitDefinitionView>)
    requires
        first_unknown_trait(points, known) is None,
    ensures
        forall|j: int| 0 <= j < points.len() ==> known.contains_key(#[trigger] points[j].trait_id@),
    decreases points.len(),
{
    if points.len() > 0 {
        lemma_no_unknown_trait(points.drop_first(), known);
        assert forall|j: int| 0 <= j < points.len() implies known.contains_key(#[trigger] points[j].trait_id@) by {
            if j > 0 {
                assert(points[j] == points.drop_first()[j - 1]);
            }
        }
    }
}

/// A template that passes validation uses only known traits, in its states and its actions.
pub proof fn lemma_checked_template_traits(def: TemplateDefinition, known: Map<Seq<char>, TraitDefinitionView>)
    requires
        trait_validation(def, known) is Ok,
    ensures
        forall|j: int| 0 <= j < def.points.states@.len() ==> known.contains_key(#[trigger] def.points.states@[j].trait_id@),
        forall|j: int| 0 <= j < def.points.actions@.len() ==> known.contains_key(#[trigger] def.points.actions@[j].trait_id@),
{
    lemma_no_unknown_trait(def.points.states@, known);
    lemma_no_unknown_trait(def.points.actions@, known);
}

/// The index of the first point whose trait `traits` does not know.
pub(crate) fn first_unknown_point(traits: &TraitRegistry, points: &Vec<DataPoint>) -> (r: Option<usize>)
    ensures
        match r {
            Some(i) => i < points@.len() && first_unknown_trait(points@, traits.defs()) == Some(points@[i as int].trait_id@),
            None => first_unknown_trait(points@, traits.defs()) is None,
        },
{
    let mut i: usize = 0;
    while i < points.len()
        invariant
            i <= points@.len(),
            forall|j: int| 0 <= j < i ==> traits.defs().contains_key(#[trigger] points@[j].trait_id@),
        decreases points@.len() - i,
    {
        if !traits.trait_exists(points[i].trait_id.as_str()) {
            proof {
                lemma_first_unknown_at(points@, traits.defs(), i as int);
            }
            return Some(i);
        }
        i = i + 1;
    }
    proof {
        lemma_first_unknown_at(points@, traits.defs(), i as int);
    }
    None
}

/// What `Path::new(path).strip_prefix(base)` gives, written with `to_string_lossy`.
pub uninterp spec fn path_relative_text(path: Seq<char>, base: Seq<char>) -> Option<Seq<char>>;

/// Calls `std::path::Path::strip_prefix` and writes the relative path with
/// `to_string_lossy`; nothing when `base` is not a prefix of `path`, component by component.
/// The result is a function of the two paths alone.
#[verifier::external_body]
fn relative_path(path: &str, base: &str) -> (r: Option<String>)
    ensures
        match r {
            Some(s) => path_relative_text(path@, base@) == Some(s@),
            None => path_relative_text(path@, base@) is None,
        },
{
    std::path::Path::new(path).strip_prefix(base).ok().map(|p| p.to_string_lossy().to_string())
}

/// The key of a template folder from its path relative to the templates root: `/`-separated,
/// without leading or trailing `/`; `default` for the root itself or a folder outside it.
pub open spec fn key_from_relative(rel: Option<Seq<char>>) -> Seq<char> {
    match rel {
        Some(r) => {
            let c = trim_seq(replace_all(r, '\\', '/'), '/');
            if c.len() == 0 {
                "default"@
            } else {
                c
            }
        },
        None => "default"@,
    }
}

/// The key of the template folder `folder` under the templates root `base`.
pub fn template_key(folder: &str, base: &str) -> (r: String)
    ensures
        r@ == key_from_relative(path_relative_text(folder@, base@)),
{
    match relative_path(folder, base) {
        Some(rel) => {
            let s = replace_char(rel.as_str(), '\\', '/');
            let c = trim_char(s.as_str(), '/');
            if c.as_str().is_empty() {
                to_string_of("default")
            } else {
                c
            }
        },
        None => to_string_of("default"),
    }
}

/// The protocol a file of the `mappings` folder describes: the stem of a `.json` file.
pub fn mapping_protocol(file_name: &str) -> (r: Option<String>)
    ensures
        match r {
            Some(p) => file_parts(file_name@).1 == Some("json"@) && p@ == file_parts(file_name@).0,
            None => file_parts(file_name@).1 != Some("json"@),
        },
{
    let (stem, ext) = split_file_name(file_name);
    match ext {
        Some(e) => if str_eq(e.as_str(), "json") {
            Some(stem)
        } else {
            None
        },
        None => None,
    }
}

/// A file of the `scripts` folder is kept under its name when it is a `.rhai` or `.js` file.
pub fn script_file(file_name: &str) -> (r: Option<String>)
    ensures
        match r {
            Some(n) => (file_parts(file_name@).1 == Some("rhai"@) || file_parts(file_name@).1 == Some("js"@)) && n@ == file_name@,
            None => !(file_parts(file_name@).1 == Some("rhai"@) || file_parts(file_name@).1 == Some("js"@)),
        },
{
    let (_, ext) = split_file_name(file_name);
    match ext {
        Some(e) => if str_eq(e.as_str(), "rhai") || str_eq(e.as_str(), "js") {
            Some(to_string_of(file_name))
        } else {
            None
        },
        None => None,
    }
}

/// The loaded templates, keyed by folder, and the traits they are checked against.
pub struct TemplateManager {
    templates: Registry<EntityTemplate>,
    traits: TraitRegistry,
}

impl TemplateManager {
    /// The model: each loaded template under its key.
    pub closed spec fn templates(&self) -> Map<Seq<char>, EntityTemplate> {
        self.templates.map()
    }

    /// Some key holds `t`.
    pub open spec fn holds_template(&self, t: EntityTemplate) -> bool {
        exists|k: Seq<char>| #[trigger] self.templates().contains_key(k) && self.templates()[k] == t
    }

    /// The traits templates are checked against.
    pub closed spec fn known_traits(&self) -> Map<Seq<char>, TraitDefinitionView> {
        self.traits.defs()
    }

    /// No template yet; the official traits.
    pub fn with_official_traits() -> (r: Self)
        ensures
            r.templates() == Map::<Seq<char>, EntityTemplate>::empty(),
            r.known_traits() == official_traits(),
    {
        TemplateManager { templates: Registry::new(), traits: TraitRegistry::build() }
    }

    /// Every trait used by the template's states and actions is known.
    pub fn validate_traits(&self, template: &EntityTemplate) -> (r: Result<(), String>)
        ensures
            match r {
                Ok(()) => trait_validation(template.definition, self.known_traits()) is Ok,
                Err(e) => trait_validation(template.definition, self.known_traits()) == Err::<(), Seq<char>>(e@),
            },
    {
        let def = &template.definition;
        match first_unknown_point(&self.traits, &def.points.states) {
            Some(i) => {
                let id = debug_of(def.template_id.as_str());
                let mut m = concat3("Unknown trait '", def.points.states[i].trait_id.as_str(), "' in states for template at ");
                m.append(id.as_str());
                return Err(m);
            },
            None => {},
        }
        match first_unknown_point(&self.traits, &def.points.actions) {
            Some(i) => {
                let id = debug_of(def.template_id.as_str());
                let mut m = concat3("Unknown trait '", def.points.actions[i].trait_id.as_str(), "' in actions for template at ");
                m.append(id.as_str());
                Err(m)
            },
            None => Ok(()),
        }
    }

    /// Registers a loaded template under `key`, replacing any template with that key.
    pub fn register(&mut self, key: String, template: EntityTemplate)
        ensures
            final(self).templates() == old(self).templates().insert(key@, template),
            final(self).known_traits() == old(self).known_traits(),
    {
        self.templates.insert(key, template);
    }

    /// The template with key `id`.
    pub fn get_template(&self, id: &str) -> (r: Option<&EntityTemplate>)
        ensures
            match r {
                Some(t) => self.templates().contains_key(id@) && self.templates()[id@] == *t,
                None => !self.templates().contains_key(id@),
            },
    {
        self.templates.get(id)
    }

    /// The number of templates.
    pub fn count(&self) -> (r: usize)
        ensures
            r == self.templates().dom().len(),
    {
        proof {
            use_type_invariant(&self.templates);
            self.templates.lemma_keys();
        }
        self.templates.len()
    }

    /// All templates, each once.
    pub fn list_templates(&self) -> (r: Vec<&EntityTemplate>)
        ensures
            r@.len() == self.templates().dom().len(),
            forall|i: int| 0 <= i < r@.len() ==> #[trigger] self.holds_template(*r@[i]),
            forall|k: Seq<char>| #[trigger] self.templates().contains_key(k) ==> exists|i: int| 0 <= i < r@.len() && self.templates()[k] == *#[trigger] r@[i],
    {
        proof {
            use_type_invariant(&self.templates);
            self.templates.lemma_keys();
        }
        let n = self.templates.len();
        let mut out: Vec<&EntityTemplate> = Vec::new();
        let mut i: usize = 0;
        while i < n
            invariant
                n == self.templates.count(),
                self.templates.wf(),
                self.templates.key_seq().len() == n,
                self.templates.value_seq().len() == n,
                forall|j: int| 0 <= j < n ==> #[trigger] self.templates.map()[self.templates.key_seq()[j]] == self.templates.value_seq()[j],
                forall|k: Seq<char>| #[trigger] self.templates.map().contains_key(k) <==> self.templates.key_seq().contains(k),
                i <= n,
                out@.len() == i,
                forall|j: int| 0 <= j < i ==> *out@[j] == self.templates.value_seq()[j],
            decreases n - i,
        {
            out.push(self.templates.value_at(i));
            i = i + 1;
        }
        proof {
            assert forall|j: int| 0 <= j < out@.len() implies #[trigger] self.holds_template(*out@[j]) by {
                let k = self.templates.key_seq()[j];
                assert(self.templates.key_seq().contains(k));
                assert(self.templates.map().contains_key(k));
                assert(self.templates.map()[k] == self.templates.value_seq()[j]);
                assert(self.templates().contains_key(k) && self.templates()[k] == *out@[j]);
            }
            assert forall|k: Seq<char>| #[trigger] self.templates().contains_key(k) implies exists|j: int| 0 <= j < out@.len() && self.templates()[k] == *#[trigger] out@[j] by {
                assert(self.templates.key_seq().contains(k));
                let j = choose|j: int| 0 <= j < self.templates.key_seq().len() && self.templates.key_seq()[j] == k;
                assert(self.templates.map()[self.templates.key_seq()[j]] == self.templates.value_seq()[j]);
                assert(*out@[j] == self.templates.value_seq()[j]);
            }
        }
        out
    }
}

} // verus!
