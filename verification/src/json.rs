//! A JSON document model: the configuration, template and payload values of the system.
//!
//! `JsonValue` is the executable value; `JsonView` is its mathematical model. Objects are
//! sequences of (key, value) entries looked up by the first entry with the key.
use vstd::prelude::*;
use crate::text::{str_eq, to_string_of};

verus! {

/// A JSON number, by the representation it was read with. A float is held by the bits
/// of its IEEE-754 double (`f64::to_bits`), so that no arithmetic is ever done on it here.
#[derive(Debug, Clone, Copy, PartialEq, Eq, Structural)]
pub enum JsonNumber {
    PosInt(u64),
    NegInt(i64),
    Float(u64),
}

/// The mathematical model of a JSON value.
#[verifier::ext_equal]
pub enum JsonView {
    Null,
    Bool(bool),
    Number(JsonNumber),
    Text(Seq<char>),
    Array(Seq<JsonView>),
    Object(Seq<(Seq<char>, JsonView)>),
}

/// A JSON value.
#[derive(Debug)]
pub enum JsonValue {
    Null,
    Bool(bool),
    Number(JsonNumber),
    Text(String),
    Array(Vec<JsonValue>),
    Object(Vec<(String, JsonValue)>),
}

pub open spec fn json_view(j: JsonValue) -> JsonView
    decreases j,
{
    match j {
        JsonValue::Null => JsonView::Null,
        JsonValue::Bool(b) => JsonView::Bool(b),
        JsonValue::Number(n) => JsonView::Number(n),
        JsonValue::Text(s) => JsonView::Text(s@),
        JsonValue::Array(v) => JsonView::Array(
            Seq::new(
                v.len() as nat,
                |i: int|
                    if 0 <= i < v.len() {
                        json_view(v[i])
                    } else {
                        JsonView::Null
                    },
            ),
        ),
        JsonValue::Object(v) => JsonView::Object(entries_view(v@)),
    }
}

/// The model of the entries of an object.
pub open spec fn entries_view(v: Seq<(String, JsonValue)>) -> Seq<(Seq<char>, JsonView)>
    decreases v,
{
    Seq::new(
        v.len(),
        |i: int|
            if 0 <= i < v.len() {
                (v[i].0@, json_view(v[i].1))
            } else {
                (Seq::empty(), JsonView::Null)
            },
    )
}

impl View for JsonValue {
    type V = JsonView;

    open spec fn view(&self) -> JsonView {
        json_view(*self)
    }
}

/// The model of the items of an array.
pub open spec fn array_view(v: Seq<JsonValue>) -> Seq<JsonView> {
    Seq::new(v.len(), |i: int| v[i]@)
}

/// The value of the first entry whose key is `key`.
pub open spec fn entries_get(e: Seq<(Seq<char>, JsonView)>, key: Seq<char>) -> Option<JsonView>
    decreases e.len(),
{
    if e.len() == 0 {
        None
    } else if e[0].0 == key {
        Some(e[0].1)
    } else {
        entries_get(e.drop_first(), key)
    }
}

/// The entries after setting `key` to `val`: the first entry with that key is replaced in
/// place, or a new entry is appended.
pub open spec fn entries_insert(e: Seq<(Seq<char>, JsonView)>, key: Seq<char>, val: JsonView) -> Seq<
    (Seq<char>, JsonView),
>
    decreases e.len(),
{
    if e.len() == 0 {
        seq![(key, val)]
    } else if e[0].0 == key {
        e.update(0, (key, val))
    } else {
        seq![e[0]] + entries_insert(e.drop_first(), key, val)
    }
}

/// Some key of the entries is `key`.
pub open spec fn entries_has(e: Seq<(Seq<char>, JsonView)>, key: Seq<char>) -> bool {
    exists|i: int| 0 <= i < e.len() && e[i].0 == key
}

impl JsonView {
    /// `value.get(key)`: the member `key` of an object; nothing for other values.
    pub open spec fn get(self, key: Seq<char>) -> Option<JsonView> {
        match self {
            JsonView::Object(e) => entries_get(e, key),
            _ => None,
        }
    }

    /// `value[key]`: the member `key` of an object, or null.
    pub open spec fn index(self, key: Seq<char>) -> JsonView {
        match self.get(key) {
            Some(v) => v,
            None => JsonView::Null,
        }
    }

    pub open spec fn as_text(self) -> Option<Seq<char>> {
        match self {
            JsonView::Text(s) => Some(s),
            _ => None,
        }
    }

    /// A number that is a non-negative integer.
    pub open spec fn as_u64(self) -> Option<u64> {
        match self {
            JsonView::Number(JsonNumber::PosInt(n)) => Some(n),
            _ => None,
        }
    }

    /// A number that is an integer in the range of `i64`.
    pub open spec fn as_i64(self) -> Option<i64> {
        match self {
            JsonView::Number(JsonNumber::PosInt(n)) => if n <= i64::MAX {
                Some(n as i64)
            } else {
                None
            },
            JsonView::Number(JsonNumber::NegInt(n)) => Some(n),
            _ => None,
        }
    }

    pub open spec fn as_array(self) -> Option<Seq<JsonView>> {
        match self {
            JsonView::Array(a) => Some(a),
            _ => None,
        }
    }

    pub open spec fn as_object(self) -> Option<Seq<(Seq<char>, JsonView)>> {
        match self {
            JsonView::Object(e) => Some(e),
            _ => None,
        }
    }

    pub open spec fn is_object(self) -> bool {
        self is Object
    }

    /// `value[key] = val`: a null value becomes an object first; an object gets the member.
    pub open spec fn index_set(self, key: Seq<char>, val: JsonView) -> JsonView {
        match self {
            JsonView::Null => JsonView::Object(seq![(key, val)]),
            _ => self.insert(key, val),
        }
    }

    /// Setting the member `key` of an object; other values are left as they are.
    pub open spec fn insert(self, key: Seq<char>, val: JsonView) -> JsonView {
        match self {
            JsonView::Object(e) => JsonView::Object(entries_insert(e, key, val)),
            _ => self,
        }
    }
}

pub open spec fn empty_object_view() -> JsonView {
    JsonView::Object(Seq::empty())
}

/// Looking up after setting a key gives the value set; other keys are unaffected.
pub proof fn lemma_entries_insert_get(
    e: Seq<(Seq<char>, JsonView)>,
    key: Seq<char>,
    val: JsonView,
    other: Seq<char>,
)
    ensures
        entries_get(entries_insert(e, key, val), other) == if other == key {
            Some(val)
        } else {
            entries_get(e, other)
        },
    decreases e.len(),
{
    let r = entries_insert(e, key, val);
    if e.len() == 0 {
        assert(r.drop_first() =~= Seq::<(Seq<char>, JsonView)>::empty());
        assert(entries_get(r.drop_first(), other) is None);
    } else if e[0].0 == key {
        assert(r.drop_first() =~= e.drop_first());
    } else {
        lemma_entries_insert_get(e.drop_first(), key, val, other);
        assert(r[0] == e[0]);
        assert(r.drop_first() =~= entries_insert(e.drop_first(), key, val));
    }
}

/// The first entry with a key decides the lookup.
pub proof fn lemma_entries_get_at(e: Seq<(Seq<char>, JsonView)>, key: Seq<char>, i: int)
    requires
        0 <= i <= e.len(),
        forall|j: int| 0 <= j < i ==> e[j].0 != key,
    ensures
        i < e.len() && e[i].0 == key ==> entries_get(e, key) == Some(e[i].1),
        i == e.len() ==> entries_get(e, key) is None,
    decreases i,
{
    if i > 0 {
        lemma_entries_get_at(e.drop_first(), key, i - 1);
    }
}

/// A lookup finds something exactly when some entry has the key.
pub proof fn lemma_entries_get_has(e: Seq<(Seq<char>, JsonView)>, key: Seq<char>)
    ensures
        entries_get(e, key) is Some <==> entries_has(e, key),
    decreases e.len(),
{
    if e.len() > 0 {
        lemma_entries_get_has(e.drop_first(), key);
        if entries_has(e.drop_first(), key) {
            let i = choose|i: int| 0 <= i < e.len() - 1 && e.drop_first()[i].0 == key;
            assert(e[i + 1].0 == key);
        }
        if entries_has(e, key) && e[0].0 != key {
            let i = choose|i: int| 0 <= i < e.len() && e[i].0 == key;
            assert(e.drop_first()[i - 1].0 == key);
        }
    }
}

impl JsonValue {
    /// `Value::Object(Map::new())`.
    pub fn empty_object() -> (r: JsonValue)
        ensures
            r@ == empty_object_view(),
    {
        let v: Vec<(String, JsonValue)> = Vec::new();
        assert(entries_view(v@) =~= Seq::<(Seq<char>, JsonView)>::empty());
        JsonValue::Object(v)
    }

    /// A string value.
    pub fn text(s: &str) -> (r: JsonValue)
        ensures
            r@ == JsonView::Text(s@),
    {
        JsonValue::Text(to_string_of(s))
    }

    /// A copy of the value.
    #[verifier::loop_isolation(false)]
    pub fn duplicate(&self) -> (r: JsonValue)
        ensures
            r@ == self@,
        decreases self,
    {
        match self {
            JsonValue::Null => JsonValue::Null,
            JsonValue::Bool(b) => JsonValue::Bool(*b),
            JsonValue::Number(n) => JsonValue::Number(*n),
            JsonValue::Text(s) => JsonValue::Text(s.clone()),
            JsonValue::Array(v) => {
                let mut out: Vec<JsonValue> = Vec::new();
                let mut i: usize = 0;
                while i < v.len()
                    invariant
                        i <= v.len(),
                        out.len() == i,
                        forall|j: int| 0 <= j < i ==> out@[j]@ == v@[j]@,
                    decreases v.len() - i,
                {
                    proof {
                        broadcast use vstd::std_specs::vec::axiom_vec_index_decreases;
                        assert(decreases_to!(*self => *v));
                        assert(decreases_to!(*v => v[i as int]));
                    }
                    out.push(v[i].duplicate());
                    i = i + 1;
                }
                let r = JsonValue::Array(out);
                assert(r@ =~= self@) by {
                    if let JsonView::Array(a) = r@ {
                        if let JsonView::Array(b) = self@ {
                            assert(a =~= b);
                        }
                    }
                }
                r
            },
            JsonValue::Object(v) => {
                let mut out: Vec<(String, JsonValue)> = Vec::new();
                let mut i: usize = 0;
                while i < v.len()
                    invariant
                        i <= v.len(),
                        out.len() == i,
                        forall|j: int| 0 <= j < i ==> out@[j].0@ == v@[j].0@ && out@[j].1@ == v@[j].1@,
                    decreases v.len() - i,
                {
                    let k = v[i].0.clone();
                    proof {
                        broadcast use vstd::std_specs::vec::axiom_vec_index_decreases;
                        assert(decreases_to!(*self => *v));
                        assert(decreases_to!(*v => v[i as int]));
                        assert(decreases_to!(v[i as int] => v[i as int].1));
                    }
                    let d = v[i].1.duplicate();
                    out.push((k, d));
                    i = i + 1;
                }
                let r = JsonValue::Object(out);
                assert(entries_view(out@) =~= entries_view(v@));
                r
            },
        }
    }

    /// `value.get(key)`.
    pub fn get(&self, key: &str) -> (r: Option<&JsonValue>)
        ensures
            match r {
                Some(v) => self@.get(key@) == Some(v@),
                None => self@.get(key@) is None,
            },
    {
        match self {
            JsonValue::Object(v) => {
                let ghost e = entries_view(v@);
                assert(self@ == JsonView::Object(e));
                let mut i: usize = 0;
                while i < v.len()
                    invariant
                        i <= v.len(),
                        e == entries_view(v@),
                        self@ == JsonView::Object(e),
                        forall|j: int| 0 <= j < i ==> e[j].0 != key@,
                    decreases v.len() - i,
                {
                    if str_eq(v[i].0.as_str(), key) {
                        proof {
                            lemma_entries_get_at(e, key@, i as int);
                            assert(self@ == JsonView::Object(e));
                            assert(e[i as int].1 == v@[i as int].1@);
                        }
                        return Some(&v[i].1);
                    }
                    i = i + 1;
                }
                proof {
                    lemma_entries_get_at(e, key@, i as int);
                    assert(self@ == JsonView::Object(e));
                }
                None
            },
            _ => None,
        }
    }

    /// `value.as_str()`.
    pub fn as_str(&self) -> (r: Option<&str>)
        ensures
            match r {
                Some(s) => self@.as_text() == Some(s@),
                None => self@.as_text() is None,
            },
    {
        match self {
            JsonValue::Text(s) => Some(s.as_str()),
            _ => None,
        }
    }

    /// `value.as_u64()`.
    pub fn as_u64(&self) -> (r: Option<u64>)
        ensures
            r == self@.as_u64(),
    {
        match self {
            JsonValue::Number(JsonNumber::PosInt(n)) => Some(*n),
            _ => None,
        }
    }

    /// `value.as_i64()`.
    pub fn as_i64(&self) -> (r: Option<i64>)
        ensures
            r == self@.as_i64(),
    {
        match self {
            JsonValue::Number(JsonNumber::PosInt(n)) => if *n <= 9223372036854775807u64 {
                Some(*n as i64)
            } else {
                None
            },
            JsonValue::Number(JsonNumber::NegInt(n)) => Some(*n),
            _ => None,
        }
    }

    /// `value.as_array()`.
    pub fn as_array(&self) -> (r: Option<&Vec<JsonValue>>)
        ensures
            match r {
                Some(v) => self@.as_array() == Some(array_view(v@)),
                None => self@.as_array() is None,
            },
    {
        match self {
            JsonValue::Array(v) => {
                assert(self@.as_array().unwrap() =~= array_view(v@));
                Some(v)
            },
            _ => None,
        }
    }

    /// `value.as_object()`: the entries of an object.
    pub fn as_object(&self) -> (r: Option<&Vec<(String, JsonValue)>>)
        ensures
            match r {
                Some(v) => self@.as_object() == Some(entries_view(v@)),
                None => self@.as_object() is None,
            },
    {
        match self {
            JsonValue::Object(v) => Some(v),
            _ => None,
        }
    }

    pub fn is_object(&self) -> (r: bool)
        ensures
            r == self@.is_object(),
    {
        match self {
            JsonValue::Object(_) => true,
            _ => false,
        }
    }

    /// The member `key` of `self[key]` as a copy, or null.
    pub fn index(&self, key: &str) -> (r: JsonValue)
        ensures
            r@ == self@.index(key@),
    {
        match self.get(key) {
            Some(v) => v.duplicate(),
            None => JsonValue::Null,
        }
    }

    /// `value[key] = val` on a null or object value.
    pub fn index_set(self, key: String, val: JsonValue) -> (r: JsonValue)
        requires
            self@ is Null || self@ is Object,
        ensures
            r@ == self@.index_set(key@, val@),
    {
        match self {
            JsonValue::Null => {
                let v = vec![(key, val)];
                assert(entries_view(v@) =~= seq![(v@[0].0@, v@[0].1@)]);
                JsonValue::Object(v)
            },
            _ => self.insert(key, val),
        }
    }

    /// Sets the member `key` of an object (`as_object_mut().insert(key, val)`); a value that is
    /// not an object is returned unchanged.
    #[verifier::loop_isolation(false)]
    pub fn insert(self, key: String, val: JsonValue) -> (r: JsonValue)
        ensures
            r@ == self@.insert(key@, val@),
    {
        match self {
            JsonValue::Object(v) => {
                let ghost e = entries_view(v@);
                assert(self@ == JsonView::Object(e));
                let ghost s = self@;
                let mut v = v;
                let mut i: usize = 0;
                while i < v.len()
                    invariant
                        i <= v.len(),
                        e == entries_view(v@),
                        s == JsonView::Object(e),
                        forall|j: int| 0 <= j < i ==> e[j].0 != key@,
                    decreases v.len() - i,
                {
                    if str_eq(v[i].0.as_str(), key.as_str()) {
                        let ghost old_v = v@;
                        v.set(i, (key, val));
                        proof {
                            lemma_insert_at(e, key@, val@, i as int);
                            assert(entries_view(v@) =~= e.update(i as int, (key@, val@)));
                        }
                        let r = JsonValue::Object(v);
                        assert(r@ == JsonView::Object(entries_view(v@)));
                        return r;
                    }
                    i = i + 1;
                }
                let ghost old_v = v@;
                v.push((key, val));
                proof {
                    lemma_insert_at(e, key@, val@, i as int);
                    assert(entries_view(v@) =~= e.push((key@, val@)));
                }
                JsonValue::Object(v)
            },
            _ => self,
        }
    }
}

/// Setting a key whose first occurrence is at `i` replaces that entry; setting a key that
/// does not occur appends it.
pub proof fn lemma_insert_at(e: Seq<(Seq<char>, JsonView)>, key: Seq<char>, val: JsonView, i: int)
    requires
        0 <= i <= e.len(),
        forall|j: int| 0 <= j < i ==> e[j].0 != key,
    ensures
        i < e.len() && e[i].0 == key ==> entries_insert(e, key, val) == e.update(i, (key, val)),
        i == e.len() ==> entries_insert(e, key, val) == e.push((key, val)),
    decreases i,
{
    if i > 0 {
        lemma_insert_at(e.drop_first(), key, val, i - 1);
        if i < e.len() && e[i].0 == key {
            assert(seq![e[0]] + e.drop_first().update(i - 1, (key, val)) =~= e.update(i, (key, val)));
        }
        if i == e.len() {
            assert(seq![e[0]] + e.drop_first().push((key, val)) =~= e.push((key, val)));
        }
    } else {
        if e.len() == 0 {
            assert(seq![(key, val)] =~= e.push((key, val)));
        }
    }
}

} // verus!
