//! Compilation of a driver's scripts: the gateway's entry script and each device's, with the
//! errors that name the script at fault.
use vstd::prelude::*;
use crate::json::{JsonValue, JsonView, empty_object_view, entries_view, lemma_entries_get_at};
use crate::managers::driver::{ActiveDriver, ResourceBundle, ResourceBundleView, device_main_script};
use crate::registry::Registry;
use crate::text::{concat3, has_prefix, to_string_of};

verus! {

#[verifier::external_type_specification]
#[verifier::external_body]
pub struct ExRhaiEngine(rhai::Engine);

#[verifier::external_type_specification]
#[verifier::external_body]
pub struct ExRhaiAst(rhai::AST);

/// A compiled script with the text it was compiled from.
pub struct CompiledScript {
    pub ast: rhai::AST,
    pub source: String,
}

/// Calls `rhai::Engine::compile` on a script and keeps the script's text beside the result;
/// a compilation error is written with its `Display` format. Whether a script compiles
/// depends on the engine's settings and registered functions as well as on the script, so
/// only the text that was compiled is stated.
#[verifier::external_body]
fn compile_script(engine: &rhai::Engine, script: &str) -> (r: Result<CompiledScript, String>)
    ensures
        r matches Ok(c) ==> c.source@ == script@,
{
    engine.compile(script).map(|ast| CompiledScript { ast, source: script.to_string() }).map_err(|e| e.to_string())
}

/// The bundle has an entry script `main.rhai`.
pub open spec fn has_main_script(b: ResourceBundleView) -> bool {
    b.scripts.contains_key("main.rhai"@)
}

/// The error of a script of kind `kind` (`Gateway` or `Device`) of `id` that does not compile.
pub open spec fn compile_error_prefix(kind: Seq<char>, id: Seq<char>) -> Seq<char> {
    "Error compiling "@ + kind + " ("@ + id + "): "@
}

/// The outcome of compiling the script of `kind` `id`: the compiled script, or the compiler's
/// error `e` written as `Error compiling {kind} ({id}): {e}`.
pub fn compile_outcome(kind: &str, id: &str, compiled: Result<CompiledScript, String>) -> (r: Result<CompiledScript, String>)
    ensures
        match compiled {
            Ok(a) => r == Ok::<CompiledScript, String>(a),
            Err(e) => match r {
                Ok(_) => false,
                Err(m) => m@ == compile_error_prefix(kind@, id@) + e@,
            },
        },
{
    match compiled {
        Ok(a) => Ok(a),
        Err(e) => {
            let mut m = concat3("Error compiling ", kind, " (");
            m.append(id);
            m.append("): ");
            m.append(e.as_str());
            Err(m)
        },
    }
}

/// The compiled scripts of a driver: the gateway's and each device's, keyed by device.
pub struct CompiledScripts {
    pub gateway: CompiledScript,
    pub devices: Registry<CompiledScript>,
}

/// Compiles the entry scripts of a driver. On success every bundle has its `main.rhai`, the
/// gateway's compiled script is its `main.rhai`, and each device has its compiled script,
/// compiled from that device's `main.rhai`. A gateway without `main.rhai` fails with the error
/// naming it; otherwise a failure is a compilation error of the gateway's script, or the
/// missing or failing script of some device.
pub fn compile_driver(engine: &rhai::Engine, driver: &ActiveDriver) -> (r: Result<CompiledScripts, String>)
    ensures
        match r {
            Ok(c) => {
                &&& has_main_script(driver.gateway@)
                &&& forall|k: Seq<char>| #[trigger] driver.devices_resources.map().contains_key(k)
                    ==> has_main_script(driver.devices_resources.map()[k]@)
                &&& c.gateway.source@ == driver.gateway@.scripts["main.rhai"@]
                &&& c.devices.map().dom() == driver.devices_resources.map().dom()
                &&& forall|k: Seq<char>| #[trigger] c.devices.map().contains_key(k)
                    ==> c.devices.map()[k].source@ == driver.devices_resources.map()[k]@.scripts["main.rhai"@]
            },
            Err(e) => if !has_main_script(driver.gateway@) {
                e@ == "Gateway '"@ + driver.gateway_id@ + "': main.rhai not found"@
            } else {
                ||| has_prefix(e@, compile_error_prefix("Gateway"@, driver.gateway_id@))
                ||| exists|k: Seq<char>| #[trigger] driver.devices_resources.map().contains_key(k) && (
                    (!has_main_script(driver.devices_resources.map()[k]@) && e@ == "Device '"@ + k
                        + "': main.rhai not found"@) || has_prefix(e@, compile_error_prefix("Device"@, k)))
            },
        },
{
    let gateway_content = driver.gateway_main_script()?;
    let gateway_ast = match compile_outcome("Gateway", driver.gateway_id.as_str(), compile_script(engine, gateway_content.as_str())) {
        Ok(a) => a,
        Err(e) => {
            proof {
                let p = compile_error_prefix("Gateway"@, driver.gateway_id@);
                assert(e@.subrange(0, p.len() as int) =~= p);
            }
            return Err(e);
        },
    };
    let devices = &driver.devices_resources;
    proof {
        use_type_invariant(devices);
        devices.lemma_keys();
    }
    let n = devices.len();
    let mut out: Registry<CompiledScript> = Registry::new();
    let mut i: usize = 0;
    while i < n
        invariant
            n == devices.count(),
            *devices == driver.devices_resources,
            has_main_script(driver.gateway@),
            devices.wf(),
            devices.key_seq().len() == n,
            devices.value_seq().len() == n,
            forall|j: int| 0 <= j < n ==> #[trigger] devices.map()[devices.key_seq()[j]] == devices.value_seq()[j],
            forall|k: Seq<char>| #[trigger] devices.map().contains_key(k) <==> devices.key_seq().contains(k),
            i <= n,
            forall|j: int| 0 <= j < i ==> has_main_script(#[trigger] devices.value_seq()[j]@),
            forall|k: Seq<char>| #[trigger] out.map().contains_key(k) <==> devices.key_seq().subrange(0, i as int).contains(k),
            forall|k: Seq<char>| #[trigger] out.map().contains_key(k) ==> out.map()[k].source@ == devices.map()[k]@.scripts["main.rhai"@],
            gateway_ast.source@ == driver.gateway@.scripts["main.rhai"@],
        decreases n - i,
    {
        let id = devices.key_at_index(i);
        let bundle = devices.value_at(i);
        proof {
            assert(devices.key_seq().contains(devices.key_seq()[i as int]));
            assert(devices.map().contains_key(id@));
        }
        let content = match device_main_script(id.as_str(), bundle) {
            Ok(c) => c,
            Err(e) => {
                proof {
                    assert(devices.map()[id@] == *bundle);
                    assert(driver.devices_resources.map().contains_key(id@));
                }
                return Err(e);
            },
        };
        let ast = match compile_outcome("Device", id.as_str(), compile_script(engine, content.as_str())) {
            Ok(a) => a,
            Err(e) => {
                proof {
                    let p = compile_error_prefix("Device"@, id@);
                    assert(e@.subrange(0, p.len() as int) =~= p);
                    assert(driver.devices_resources.map().contains_key(id@));
                }
                return Err(e);
            },
        };
        let ghost before = out.map();
        let key = id.clone();
        out.insert(key, ast);
        proof {
            assert(out.map() == before.insert(id@, ast));
            assert(devices.map()[id@] == *bundle);
            assert forall|k: Seq<char>| #[trigger] out.map().contains_key(k) <==> devices.key_seq().subrange(0, i + 1).contains(k) by {
                let s0 = devices.key_seq().subrange(0, i as int);
                let s1 = devices.key_seq().subrange(0, i + 1);
                assert(s1 =~= s0.push(id@));
                if s0.contains(k) {
                    let j = choose|j: int| 0 <= j < s0.len() && s0[j] == k;
                    assert(s1[j] == k);
                }
                if s1.contains(k) && k != id@ {
                    let j = choose|j: int| 0 <= j < s1.len() && s1[j] == k;
                    assert(j < i);
                    assert(s0[j] == k);
                }
                if k == id@ {
                    assert(s1[i as int] == k);
                }
            }
        }
        i = i + 1;
    }
    proof {
        assert(devices.key_seq().subrange(0, n as int) =~= devices.key_seq());
        assert(out.map().dom() =~= devices.map().dom());
        assert forall|k: Seq<char>| #[trigger] devices.map().contains_key(k) implies has_main_script(devices.map()[k]@) by {
            let j = choose|j: int| 0 <= j < devices.key_seq().len() && devices.key_seq()[j] == k;
            assert(devices.map()[devices.key_seq()[j]] == devices.value_seq()[j]);
        }
    }
    Ok(CompiledScripts { gateway: gateway_ast, devices: out })
}

/// What a script sees of a bundle: its template, mappings and configuration (`config`), and
/// an `entity` with the bundle's `relation_attributes` (an empty object when its configuration
/// has none) and its configuration again.
pub open spec fn bundle_context_spec(b: ResourceBundleView) -> JsonView {
    JsonView::Object(
        seq![
            ("template"@, b.template),
            ("mappings"@, b.mappings),
            ("config"@, b.configuration),
            (
                "entity"@,
                JsonView::Object(
                    seq![
                        ("relation_attributes"@, match b.configuration.get("relation_attributes"@) {
                            Some(v) => v,
                            None => empty_object_view(),
                        }),
                        ("config"@, b.configuration),
                    ],
                ),
            ),
        ],
    )
}

/// What the scripts of a driver see: the contexts of its interface and gateway bundles, and
/// under `devices` the context of each device's bundle keyed by device.
pub open spec fn script_context_spec(d: ActiveDriver) -> JsonView {
    JsonView::Object(
        seq![
            ("interface"@, bundle_context_spec(d.interface@)),
            ("gateway"@, bundle_context_spec(d.gateway@)),
            (
                "devices"@,
                JsonView::Object(
                    Seq::new(
                        d.devices_resources.key_seq().len(),
                        |i: int| (d.devices_resources.key_seq()[i], bundle_context_spec(d.devices_resources.value_seq()[i]@)),
                    ),
                ),
            ),
        ],
    )
}

/// The context a script sees of one bundle.
pub fn bundle_context(b: &ResourceBundle) -> (r: JsonValue)
    ensures
        r@ == bundle_context_spec(b@),
{
    let rel = match b.configuration.get("relation_attributes") {
        Some(v) => v.duplicate(),
        None => JsonValue::empty_object(),
    };
    let ghost rv0 = rel@;
    let entity = vec![(to_string_of("relation_attributes"), rel), (to_string_of("config"), b.configuration.duplicate())];
    assert(rel@ == match b@.configuration.get("relation_attributes"@) {
        Some(v) => v,
        None => empty_object_view(),
    });
    let ghost rv = rv0;
    assert(entries_view(entity@) =~= seq![("relation_attributes"@, rv), ("config"@, b.configuration@)]);
    let ghost ev = entries_view(entity@);
    let ent = JsonValue::Object(entity);
    assert(ent@ == JsonView::Object(ev));
    assert(rv == match b@.configuration.get("relation_attributes"@) {
        Some(v) => v,
        None => empty_object_view(),
    });
    assert(ent@ == JsonView::Object(seq![("relation_attributes"@, rv), ("config"@, b@.configuration)]));
    let ghost entv = ent@;
    let v = vec![
        (to_string_of("template"), b.template.duplicate()),
        (to_string_of("mappings"), b.mappings.duplicate()),
        (to_string_of("config"), b.configuration.duplicate()),
        (to_string_of("entity"), ent),
    ];
    assert(entries_view(v@) =~= seq![
        ("template"@, b@.template),
        ("mappings"@, b@.mappings),
        ("config"@, b@.configuration),
        ("entity"@, entv),
    ]);
    let ghost ent_spec = JsonView::Object(
        seq![
            ("relation_attributes"@, match b@.configuration.get("relation_attributes"@) {
                Some(x) => x,
                None => empty_object_view(),
            }),
            ("config"@, b@.configuration),
        ],
    );
    assert(entv->Object_0 =~= ent_spec->Object_0);
    assert(entv == ent_spec);
    let r = JsonValue::Object(v);
    assert(r@ == JsonView::Object(
        seq![
            ("template"@, b@.template),
            ("mappings"@, b@.mappings),
            ("config"@, b@.configuration),
            ("entity"@, ent_spec),
        ],
    ));
    r
}

/// The context the scripts of a driver see.
pub fn script_context(driver: &ActiveDriver) -> (r: JsonValue)
    ensures
        r@ == script_context_spec(*driver),
{
    let devices = &driver.devices_resources;
    proof {
        use_type_invariant(devices);
        devices.lemma_keys();
    }
    let n = devices.len();
    let mut out: Vec<(String, JsonValue)> = Vec::new();
    let mut i: usize = 0;
    while i < n
        invariant
            n == devices.count(),
            devices.key_seq().len() == n,
            devices.value_seq().len() == n,
            i <= n,
            out@.len() == i,
            entries_view(out@) =~= Seq::new(
                i as nat,
                |j: int| (devices.key_seq()[j], bundle_context_spec(devices.value_seq()[j]@)),
            ),
        decreases n - i,
    {
        let k = devices.key_at_index(i).clone();
        let c = bundle_context(devices.value_at(i));
        let ghost before = out@;
        out.push((k, c));
        assert forall|j: int| 0 <= j < out@.len() implies #[trigger] entries_view(out@)[j] == (
            devices.key_seq()[j],
            bundle_context_spec(devices.value_seq()[j]@),
        ) by {
            if j < i {
                assert(out@[j] == before[j]);
                assert(entries_view(before)[j] == (before[j].0@, before[j].1@));
            }
        }
        assert(entries_view(out@) =~= Seq::new(
            (i + 1) as nat,
            |j: int| (devices.key_seq()[j], bundle_context_spec(devices.value_seq()[j]@)),
        ));
        i = i + 1;
    }
    let v = vec![
        (to_string_of("interface"), bundle_context(&driver.interface)),
        (to_string_of("gateway"), bundle_context(&driver.gateway)),
        (to_string_of("devices"), JsonValue::Object(out)),
    ];
    assert(entries_view(v@) =~= script_context_spec(*driver)->Object_0);
    JsonValue::Object(v)
}

/// The context of a bundle shows that bundle: its template, its mappings, its configuration
/// under `config`, and under `entity` its relation attributes (an empty object when it has
/// none) and its configuration.
pub proof fn lemma_bundle_context_members(b: ResourceBundleView)
    ensures
        bundle_context_spec(b).get("template"@) == Some(b.template),
        bundle_context_spec(b).get("mappings"@) == Some(b.mappings),
        bundle_context_spec(b).get("config"@) == Some(b.configuration),
        bundle_context_spec(b).get("entity"@) is Some,
        bundle_context_spec(b).get("entity"@)->0.get("relation_attributes"@) == Some(
            match b.configuration.get("relation_attributes"@) {
                Some(v) => v,
                None => empty_object_view(),
            },
        ),
        bundle_context_spec(b).get("entity"@)->0.get("config"@) == Some(b.configuration),
{
    reveal_strlit("template");
    reveal_strlit("mappings");
    reveal_strlit("config");
    reveal_strlit("entity");
    reveal_strlit("relation_attributes");
    let e = bundle_context_spec(b)->Object_0;
    assert("mappings"@[0] != "template"@[0]);
    assert("config"@.len() != "template"@.len());
    assert("config"@[0] != "mappings"@[0]);
    assert("entity"@.len() != "template"@.len());
    assert("entity"@[0] != "mappings"@[0]);
    assert("entity"@[0] != "config"@[0]);
    lemma_entries_get_at(e, "template"@, 0);
    lemma_entries_get_at(e, "mappings"@, 1);
    lemma_entries_get_at(e, "config"@, 2);
    lemma_entries_get_at(e, "entity"@, 3);
    let inner = bundle_context_spec(b).get("entity"@)->0->Object_0;
    assert("config"@.len() != "relation_attributes"@.len());
    lemma_entries_get_at(inner, "relation_attributes"@, 0);
    lemma_entries_get_at(inner, "config"@, 1);
}

/// The context of a driver shows its interface's bundle under `interface`, its gateway's
/// bundle under `gateway`, and under `devices` the bundle of each of its devices, keyed by
/// device, and nothing for a key that is not a device.
pub proof fn lemma_script_context_members(d: ActiveDriver, k: Seq<char>)
    requires
        d.devices_resources.wf(),
    ensures
        script_context_spec(d).get("interface"@) == Some(bundle_context_spec(d.interface@)),
        script_context_spec(d).get("gateway"@) == Some(bundle_context_spec(d.gateway@)),
        script_context_spec(d).get("devices"@) is Some,
        d.devices_resources.map().contains_key(k) ==> script_context_spec(d).get("devices"@)->0.get(k) == Some(
            bundle_context_spec(d.devices_resources.map()[k]@),
        ),
        !d.devices_resources.map().contains_key(k) ==> script_context_spec(d).get("devices"@)->0.get(k) is None,
        bundle_context_spec(d.interface@).get("config"@) == Some(d.interface@.configuration),
        bundle_context_spec(d.gateway@).get("config"@) == Some(d.gateway@.configuration),
{
    reveal_strlit("interface");
    reveal_strlit("gateway");
    reveal_strlit("devices");
    let e = script_context_spec(d)->Object_0;
    assert("gateway"@.len() != "interface"@.len());
    assert("devices"@[0] != "interface"@[0]);
    assert("devices"@[0] != "gateway"@[0]);
    lemma_entries_get_at(e, "interface"@, 0);
    lemma_entries_get_at(e, "gateway"@, 1);
    lemma_entries_get_at(e, "devices"@, 2);
    lemma_bundle_context_members(d.interface@);
    lemma_bundle_context_members(d.gateway@);
    let regs = d.devices_resources;
    regs.lemma_keys();
    let keys = regs.key_seq();
    let vals = regs.value_seq();
    let de = Seq::new(keys.len(), |i: int| (keys[i], bundle_context_spec(vals[i]@)));
    assert(script_context_spec(d).get("devices"@)->0 == JsonView::Object(de));
    if regs.map().contains_key(k) {
        assert(keys.contains(k));
        let i = choose|i: int| 0 <= i < keys.len() && keys[i] == k;
        assert forall|j: int| 0 <= j < i implies de[j].0 != k by {
            assert(keys[j] != keys[i]);
        }
        lemma_entries_get_at(de, k, i);
        assert(regs.map()[keys[i]] == vals[i]);
    } else {
        assert forall|j: int| 0 <= j < keys.len() implies de[j].0 != k by {
            assert(keys.contains(keys[j]));
        }
        lemma_entries_get_at(de, k, keys.len() as int);
    }
}

} // verus!
