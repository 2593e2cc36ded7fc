//! The flat template catalogue: templates keyed by their `template_id`, each with its
//! protocol mappings, checked against the trait registry when loaded.
use vstd::prelude::*;
pub use crate::managers::template::{ConfigField, DataPoint, ProtocolMapping, TemplateIdentity, TemplatePoints};
use crate::managers::template::{first_unknown_point, first_unknown_trait, lemma_no_unknown_trait};
use crate::registry::Registry;
use crate::text::{concat3, to_string_of};
use crate::traits::{TraitDefinitionView, TraitRegistry, official_traits};

verus! {

/// A template of the catalogue, with the mappings found beside it.
#[derive(Debug)]
pub struct EntityTemplate {
    pub template_id: String,
    pub version: String,
    pub entity_type: String,
    pub identity: TemplateIdentity,
    pub config: Registry<ConfigField>,
    pub points: TemplatePoints,
    pub mappings: Registry<ProtocolMapping>,
}

/// The validation of a catalogue template: the first unknown trait of the states, then of the
/// actions, is reported with the template's identifier.
pub open spec fn catalogue_validation(t: EntityTemplate, known: Map<Seq<char>, TraitDefinitionView>) -> Result<(), Seq<char>> {
    match first_unknown_trait(t.points.states@, known) {
        Some(x) => Err("Unknown trait '"@ + x + "' in states of "@ + t.template_id@),
        None => match first_unknown_trait(t.points.actions@, known) {
            Some(x) => Err("Unknown trait '"@ + x + "' in actions of "@ + t.template_id@),
            None => Ok(()),
        },
    }
}

/// The catalogue built from templates loaded in this order: each under its identifier, a
/// later template replacing an earlier one with the same identifier.
pub open spec fn catalogue_of(loaded: Seq<EntityTemplate>) -> Map<Seq<char>, EntityTemplate>
    decreases loaded.len(),
{
    if loaded.len() == 0 {
        Map::empty()
    } else {
        catalogue_of(loaded.drop_last()).insert(loaded.last().template_id@, loaded.last())
    }
}

/// The templates under a root folder, keyed by identifier.
pub struct TemplateManager {
    base_path: String,
    templates: Registry<EntityTemplate>,
    traits: TraitRegistry,
}

impl TemplateManager {
    /// The model: each template under its identifier.
    pub closed spec fn templates(&self) -> Map<Seq<char>, EntityTemplate> {
        self.templates.map()
    }

    /// The traits templates are checked against.
    pub closed spec fn known_traits(&self) -> Map<Seq<char>, TraitDefinitionView> {
        self.traits.defs()
    }

    /// The root folder that is scanned.
    pub closed spec fn root(&self) -> Seq<char> {
        self.base_path@
    }

    /// Some identifier holds `t`.
    pub open spec fn holds_template(&self, t: EntityTemplate) -> bool {
        exists|k: Seq<char>| #[trigger] self.templates().contains_key(k) && self.templates()[k] == t
    }

    /// An empty catalogue over `base_path`, checked against the official traits.
    pub fn with_base_path(base_path: String) -> (r: Self)
        ensures
            r.templates() == Map::<Seq<char>, EntityTemplate>::empty(),
            r.known_traits() == official_traits(),
            r.root() == base_path@,
    {
        TemplateManager { base_path, templates: Registry::new(), traits: TraitRegistry::build() }
    }

    /// The root folder.
    pub fn base_path(&self) -> (r: &String)
        ensures
            r@ == self.root(),
    {
        &self.base_path
    }

    /// Every trait used by the template's states and actions is known.
    pub fn validate_traits(&self, template: &EntityTemplate) -> (r: Result<(), String>)
        ensures
            match r {
                Ok(()) => catalogue_validation(*template, self.known_traits()) is Ok,
                Err(e) => catalogue_validation(*template, self.known_traits()) == Err::<(), Seq<char>>(e@),
            },
    {
        match first_unknown_point(&self.traits, &template.points.states) {
            Some(i) => {
                let mut m = concat3("Unknown trait '", template.points.states[i].trait_id.as_str(), "' in states of ");
                m.append(template.template_id.as_str());
                return Err(m);
            },
            None => {},
        }
        match first_unknown_point(&self.traits, &template.points.actions) {
            Some(i) => {
                let mut m = concat3("Unknown trait '", template.points.actions[i].trait_id.as_str(), "' in actions of ");
                m.append(template.template_id.as_str());
                Err(m)
            },
            None => Ok(()),
        }
    }

    /// Replaces the catalogue by the templates loaded in this order.
    pub fn replace_templates(&mut self, loaded: Vec<EntityTemplate>)
        ensures
            final(self).templates() == catalogue_of(loaded@),
            final(self).known_traits() == old(self).known_traits(),
            final(self).root() == old(self).root(),
    {
        let ghost all = loaded@;
        let n = loaded.len();
        let mut rest = loaded;
        let mut fresh: Registry<EntityTemplate> = Registry::new();
        let mut k: usize = 0;
        while rest.len() > 0
            invariant
                all.len() == n,
                k <= all.len(),
                rest@ == all.subrange(k as int, all.len() as int),
                fresh.map() == catalogue_of(all.subrange(0, k as int)),
            decreases rest@.len(),
        {
            assert(k < all.len());
            let t = rest.remove(0);
            proof {
                assert(t == all[k as int]);
                assert(all.subrange(0, k + 1).drop_last() =~= all.subrange(0, k as int));
                assert(all.subrange(0, k + 1).last() == all[k as int]);
                assert(rest@ =~= all.subrange(k + 1, all.len() as int));
            }
            let key = to_string_of(t.template_id.as_str());
            fresh.insert(key, t);
            k = k + 1;
        }
        proof {
            assert(all.subrange(0, k as int) =~= all);
        }
        self.templates = fresh;
    }

    /// The template with identifier `id`.
    pub fn get_template(&self, id: &str) -> (r: Option<&EntityTemplate>)
        ensures
            match r {
                Some(t) => self.templates().contains_key(id@) && self.templates()[id@] == *t,
                None => !self.templates().contains_key(id@),
            },
    {
        self.templates.get(id)
    }

    /// All templates, each once.
    pub fn list_templates(&self) -> (r: Vec<&EntityTemplate>)
        ensures
            r@.len() == self.templates().dom().len(),
            forall|i: int| 0 <= i < r@.len() ==> #[trigger] self.holds_template(*r@[i]),
            forall|k: Seq<char>| #[trigger] self.templates().contains_key(k) ==> exists|i: int| 0 <= i < r@.len() && self.templates()[k] == *#[trigger] r@[i],
    {
        proof {
            use_type_invariant(&self.templates);
            self.templates.lemma_keys();
        }
        let n = self.templates.len();
        let mut out: Vec<&EntityTemplate> = Vec::new();
        let mut i: usize = 0;
        while i < n
            invariant
                n == self.templates.count(),
                self.templates.wf(),
                self.templates.key_seq().len() == n,
                self.templates.value_seq().len() == n,
                forall|j: int| 0 <= j < n ==> #[trigger] self.templates.map()[self.templates.key_seq()[j]] == self.templates.value_seq()[j],
                forall|k: Seq<char>| #[trigger] self.templates.map().contains_key(k) <==> self.templates.key_seq().contains(k),
                i <= n,
                out@.len() == i,
                forall|j: int| 0 <= j < i ==> *out@[j] == self.templates.value_seq()[j],
            decreases n - i,
        {
            out.push(self.templates.value_at(i));
            i = i + 1;
        }
        proof {
            assert forall|j: int| 0 <= j < out@.len() implies #[trigger] self.holds_template(*out@[j]) by {
                let k = self.templates.key_seq()[j];
                assert(self.templates.key_seq().contains(k));
                assert(self.templates.map().contains_key(k));
                assert(self.templates().contains_key(k) && self.templates()[k] == *out@[j]);
            }
            assert forall|k: Seq<char>| #[trigger] self.templates().contains_key(k) implies exists|j: int| 0 <= j < out@.len() && self.templates()[k] == *#[trigger] out@[j] by {
                assert(self.templates.key_seq().contains(k));
                let j = choose|j: int| 0 <= j < self.templates.key_seq().len() && self.templates.key_seq()[j] == k;
                assert(self.templates.map()[self.templates.key_seq()[j]] == self.templates.value_seq()[j]);
                assert(*out@[j] == self.templates.value_seq()[j]);
            }
        }
        out
    }
}

/// A catalogue template that passes validation uses only known traits, in its states and its
/// actions.
pub proof fn lemma_validated_template_traits(t: EntityTemplate, known: Map<Seq<char>, TraitDefinitionView>)
    requires
        catalogue_validation(t, known) is Ok,
    ensures
        forall|j: int| 0 <= j < t.points.states@.len() ==> known.contains_key(#[trigger] t.points.states@[j].trait_id@),
        forall|j: int| 0 <= j < t.points.actions@.len() ==> known.contains_key(#[trigger] t.points.actions@[j].trait_id@),
{
    lemma_no_unknown_trait(t.points.states@, known);
    lemma_no_unknown_trait(t.points.actions@, known);
}

/// After a reload, the template found under an identifier is the last loaded one with that
/// identifier, and an identifier that no loaded template has finds nothing.
pub proof fn lemma_catalogue_lookup(loaded: Seq<EntityTemplate>, id: Seq<char>)
    ensures
        (exists|i: int| 0 <= i < loaded.len() && #[trigger] loaded[i].template_id@ == id) ==> {
            &&& catalogue_of(loaded).contains_key(id)
            &&& exists|i: int|
                0 <= i < loaded.len() && catalogue_of(loaded)[id] == #[trigger] loaded[i] && loaded[i].template_id@ == id
                    && forall|j: int| i < j < loaded.len() ==> #[trigger] loaded[j].template_id@ != id
        },
        (forall|i: int| 0 <= i < loaded.len() ==> #[trigger] loaded[i].template_id@ != id) ==> !catalogue_of(loaded).contains_key(id),
    decreases loaded.len(),
{
    if loaded.len() > 0 {
        let init = loaded.drop_last();
        lemma_catalogue_lookup(init, id);
        let n = loaded.len() - 1;
        if loaded[n].template_id@ == id {
            assert(catalogue_of(loaded)[id] == loaded[n]);
        } else {
            if exists|i: int| 0 <= i < loaded.len() && #[trigger] loaded[i].template_id@ == id {
                let w = choose|i: int| 0 <= i < loaded.len() && #[trigger] loaded[i].template_id@ == id;
                assert(init[w].template_id@ == id);
                let i = choose|i: int|
                    0 <= i < init.len() && catalogue_of(init)[id] == #[trigger] init[i] && init[i].template_id@ == id
                        && forall|j: int| i < j < init.len() ==> #[trigger] init[j].template_id@ != id;
                assert(loaded[i] == init[i]);
                assert forall|j: int| i < j < loaded.len() implies #[trigger] loaded[j].template_id@ != id by {
                    if j < n {
                        assert(loaded[j] == init[j]);
                    }
                }
            }
            assert forall|i: int| 0 <= i < init.len() && (forall|i2: int| 0 <= i2 < loaded.len() ==> #[trigger] loaded[i2].template_id@ != id) implies #[trigger] init[i].template_id@ != id by {
                assert(loaded[i] == init[i]);
            }
        }
    }
}

} // verus!
