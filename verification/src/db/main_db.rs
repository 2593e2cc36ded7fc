//! The records written to the main database, and the queries read from it.
use vstd::prelude::*;
use crate::entities::EntityType;
use crate::json::{JsonValue, JsonView};
use crate::text::{concat2, strings_view, to_string_of};

verus! {

/// The fields of an entity to create.
#[derive(Debug)]
pub struct EntityRecord {
    pub id: String,
    pub entity_type: EntityType,
    pub template_id: Option<String>,
    pub label: Option<String>,
    pub description: Option<String>,
    pub configuration: JsonValue,
    pub attributes: JsonValue,
    pub is_system: bool,
}

/// The model of an entity to create.
pub struct EntityRecordView {
    pub id: Seq<char>,
    pub entity_type: EntityType,
    pub template_id: Option<Seq<char>>,
    pub label: Option<Seq<char>>,
    pub description: Option<Seq<char>>,
    pub configuration: JsonView,
    pub attributes: JsonView,
    pub is_system: bool,
}

pub open spec fn opt_view(o: Option<String>) -> Option<Seq<char>> {
    match o {
        Some(s) => Some(s@),
        None => None,
    }
}

impl View for EntityRecord {
    type V = EntityRecordView;

    open spec fn view(&self) -> EntityRecordView {
        EntityRecordView {
            id: self.id@,
            entity_type: self.entity_type,
            template_id: opt_view(self.template_id),
            label: opt_view(self.label),
            description: opt_view(self.description),
            configuration: self.configuration@,
            attributes: self.attributes@,
            is_system: self.is_system,
        }
    }
}

/// The fields of a user account to create.
#[derive(Debug)]
pub struct UserRecord {
    pub username: String,
    pub password_hash: String,
    pub role: String,
    pub description: Option<String>,
    pub is_system: bool,
}

/// The model of a user account to create.
pub struct UserRecordView {
    pub username: Seq<char>,
    pub password_hash: Seq<char>,
    pub role: Seq<char>,
    pub description: Option<Seq<char>>,
    pub is_system: bool,
}

impl View for UserRecord {
    type V = UserRecordView;

    open spec fn view(&self) -> UserRecordView {
        UserRecordView {
            username: self.username@,
            password_hash: self.password_hash@,
            role: self.role@,
            description: opt_view(self.description),
            is_system: self.is_system,
        }
    }
}

/// The fields of a setting to create.
#[derive(Debug)]
pub struct SettingRecord {
    pub entity_id: String,
    pub key: String,
    pub value: JsonValue,
    pub is_system: bool,
}

/// The model of a setting to create.
pub struct SettingRecordView {
    pub entity_id: Seq<char>,
    pub key: Seq<char>,
    pub value: JsonView,
    pub is_system: bool,
}

impl View for SettingRecord {
    type V = SettingRecordView;

    open spec fn view(&self) -> SettingRecordView {
        SettingRecordView { entity_id: self.entity_id@, key: self.key@, value: self.value@, is_system: self.is_system }
    }
}

/// The identifier of the entity that holds a user account.
pub open spec fn user_entity_id_spec(username: Seq<char>) -> Seq<char> {
    "user_"@ + username
}

/// `user_{username}`.
pub fn user_entity_id(username: &str) -> (r: String)
    ensures
        r@ == user_entity_id_spec(username@),
{
    concat2("user_", username)
}

/// The columns read for an entity.
pub open spec fn entity_select() -> Seq<char> {
    "SELECT id, entity_type, template_id, label, description, configuration, attributes, is_enabled, is_system FROM entities"@
}

/// The query listing entities, optionally of one type, and its parameters.
pub open spec fn entities_query_spec(entity_type: Option<Seq<char>>) -> (Seq<char>, Seq<Seq<char>>) {
    match entity_type {
        Some(t) => (entity_select() + " WHERE entity_type = ?"@, seq![t]),
        None => (entity_select(), Seq::empty()),
    }
}

/// The query listing entities, optionally only those of type `entity_type`.
pub fn entities_query(entity_type: Option<&str>) -> (r: (String, Vec<String>))
    ensures
        (r.0@, strings_view(r.1@)) == entities_query_spec(match entity_type {
            Some(t) => Some(t@),
            None => None,
        }),
{
    let mut q = to_string_of(
        "SELECT id, entity_type, template_id, label, description, configuration, attributes, is_enabled, is_system FROM entities",
    );
    let mut params: Vec<String> = Vec::new();
    match entity_type {
        Some(t) => {
            q.append(" WHERE entity_type = ?");
            params.push(to_string_of(t));
            assert(strings_view(params@) =~= seq![t@]);
        },
        None => {
            assert(strings_view(params@) =~= Seq::<Seq<char>>::empty());
        },
    }
    (q, params)
}

/// A filter clause and its parameter, when the filter is given.
pub open spec fn filter_clause(clause: Seq<char>, value: Option<Seq<char>>) -> (Seq<char>, Seq<Seq<char>>) {
    match value {
        Some(v) => (clause, seq![v]),
        None => (Seq::empty(), Seq::empty()),
    }
}

/// The query listing relations filtered by any of source, predicate and target.
pub open spec fn relations_query_spec(
    from_id: Option<Seq<char>>,
    predicate: Option<Seq<char>>,
    to_id: Option<Seq<char>>,
) -> (Seq<char>, Seq<Seq<char>>) {
    let f = filter_clause(" AND from_id = ?"@, from_id);
    let p = filter_clause(" AND predicate = ?"@, predicate);
    let t = filter_clause(" AND to_id = ?"@, to_id);
    (
        "SELECT from_id, predicate, to_id, attributes, is_system FROM relations WHERE 1=1"@ + f.0 + p.0 + t.0,
        f.1 + p.1 + t.1,
    )
}

pub open spec fn opt_str_view(o: Option<&str>) -> Option<Seq<char>> {
    match o {
        Some(s) => Some(s@),
        None => None,
    }
}

fn add_filter(q: &mut String, params: &mut Vec<String>, clause: &str, value: Option<&str>)
    ensures
        final(q)@ == old(q)@ + filter_clause(clause@, opt_str_view(value)).0,
        strings_view(final(params)@) == strings_view(old(params)@) + filter_clause(clause@, opt_str_view(value)).1,
{
    match value {
        Some(v) => {
            q.append(clause);
            let ghost before = strings_view(params@);
            params.push(to_string_of(v));
            assert(strings_view(params@) =~= before + seq![v@]);
        },
        None => {
            assert(q@ =~= q@ + Seq::<char>::empty());
            assert(strings_view(params@) =~= strings_view(params@) + Seq::<Seq<char>>::empty());
        },
    }
}

/// The query listing the relations that match every given filter.
pub fn relations_query(from_id: Option<&str>, predicate: Option<&str>, to_id: Option<&str>) -> (r: (String, Vec<String>))
    ensures
        (r.0@, strings_view(r.1@)) == relations_query_spec(opt_str_view(from_id), opt_str_view(predicate), opt_str_view(to_id)),
{
    let mut q = to_string_of("SELECT from_id, predicate, to_id, attributes, is_system FROM relations WHERE 1=1");
    let mut params: Vec<String> = Vec::new();
    assert(strings_view(params@) =~= Seq::<Seq<char>>::empty());
    add_filter(&mut q, &mut params, " AND from_id = ?", from_id);
    add_filter(&mut q, &mut params, " AND predicate = ?", predicate);
    add_filter(&mut q, &mut params, " AND to_id = ?", to_id);
    proof {
        let f = filter_clause(" AND from_id = ?"@, opt_str_view(from_id));
        let p = filter_clause(" AND predicate = ?"@, opt_str_view(predicate));
        let t = filter_clause(" AND to_id = ?"@, opt_str_view(to_id));
        assert(strings_view(params@) =~= f.1 + p.1 + t.1);
    }
    (q, params)
}

/// A flag column: the stored integer, or `default` when it cannot be read, equals 1.
pub fn column_flag(value: Option<i64>, default: i64) -> (r: bool)
    ensures
        r == (match value {
            Some(v) => v,
            None => default,
        } == 1),
{
    match value {
        Some(v) => v == 1,
        None => default == 1,
    }
}

} // verus!
