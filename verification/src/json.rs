use vstd::prelude::*;
use crate::text::str_eq;

verus! {

/// Mathematical model of a JSON document: strings and numbers by their text,
/// arrays as sequences, objects as sequences of (key, value) members.
pub enum JsonModel {
    Null,
    Bool(bool),
    Number(Seq<char>),
    Str(Seq<char>),
    Array(Seq<JsonModel>),
    Object(Seq<(Seq<char>, JsonModel)>),
}

/// A JSON document as the library holds it. A number keeps its JSON text;
/// an object keeps its members in order.
#[derive(Debug)]
pub enum JsonValue {
    Null,
    Bool(bool),
    Number(String),
    Str(String),
    Array(Vec<JsonValue>),
    Object(Vec<(String, JsonValue)>),
}

pub open spec fn model_items(items: Seq<JsonValue>) -> Seq<JsonModel>
    decreases items,
{
    if items.len() == 0 {
        Seq::empty()
    } else {
        model_items(items.drop_last()).push(items.last().model())
    }
}

pub open spec fn model_members(members: Seq<(String, JsonValue)>) -> Seq<(Seq<char>, JsonModel)>
    decreases members,
{
    if members.len() == 0 {
        Seq::empty()
    } else {
        model_members(members.drop_last()).push((members.last().0@, members.last().1.model()))
    }
}

impl JsonValue {
    pub open spec fn model(self) -> JsonModel
        decreases self,
    {
        match self {
            JsonValue::Null => JsonModel::Null,
            JsonValue::Bool(b) => JsonModel::Bool(b),
            JsonValue::Number(n) => JsonModel::Number(n@),
            JsonValue::Str(s) => JsonModel::Str(s@),
            JsonValue::Array(items) => JsonModel::Array(model_items(items@)),
            JsonValue::Object(members) => JsonModel::Object(model_members(members@)),
        }
    }
}

/// `i` is the first position of a member named `key`.
pub open spec fn first_key_at(members: Seq<(Seq<char>, JsonModel)>, key: Seq<char>, i: int) -> bool {
    &&& 0 <= i < members.len()
    &&& members[i].0 == key
    &&& forall|j: int| 0 <= j < i ==> members[j].0 != key
}

pub open spec fn has_key(members: Seq<(Seq<char>, JsonModel)>, key: Seq<char>) -> bool {
    exists|i: int| first_key_at(members, key, i)
}

pub open spec fn key_index(members: Seq<(Seq<char>, JsonModel)>, key: Seq<char>) -> int {
    choose|i: int| first_key_at(members, key, i)
}

/// The value of the member named `key` (the first one, if the name repeats).
pub open spec fn member_of(members: Seq<(Seq<char>, JsonModel)>, key: Seq<char>) -> Option<JsonModel> {
    if has_key(members, key) {
        Some(members[key_index(members, key)].1)
    } else {
        None
    }
}

/// The members with the member `key` set to `value`: replaced in place where
/// the name occurs, appended where it does not.
pub open spec fn with_member(
    members: Seq<(Seq<char>, JsonModel)>,
    key: Seq<char>,
    value: JsonModel,
) -> Seq<(Seq<char>, JsonModel)> {
    if has_key(members, key) {
        members.update(key_index(members, key), (key, value))
    } else {
        members.push((key, value))
    }
}

impl JsonModel {
    /// What `Value::get` with a key gives: the member of an object, nothing otherwise.
    pub open spec fn member(self, key: Seq<char>) -> Option<JsonModel> {
        match self {
            JsonModel::Object(members) => member_of(members, key),
            _ => None,
        }
    }

    /// What `Value::get` with a position gives: the item of an array, nothing otherwise.
    pub open spec fn item(self, i: int) -> Option<JsonModel> {
        match self {
            JsonModel::Array(items) => if 0 <= i < items.len() { Some(items[i]) } else { None },
            _ => None,
        }
    }

    /// What `Value::as_str` gives.
    pub open spec fn text(self) -> Option<Seq<char>> {
        match self {
            JsonModel::Str(s) => Some(s),
            _ => None,
        }
    }
}

/// The first position of a name is unique.
pub proof fn lemma_first_key_unique(members: Seq<(Seq<char>, JsonModel)>, key: Seq<char>, i: int)
    requires
        first_key_at(members, key, i),
    ensures
        has_key(members, key),
        key_index(members, key) == i,
{
    let c = key_index(members, key);
    assert(first_key_at(members, key, c));
    if c < i {
        assert(members[c].0 != key);
    } else if c > i {
        assert(members[i].0 != key);
    }
}

pub proof fn lemma_model_members_index(members: Seq<(String, JsonValue)>)
    ensures
        model_members(members).len() == members.len(),
        forall|i: int| 0 <= i < members.len() ==> #[trigger] model_members(members)[i] == (members[i].0@, members[i].1.model()),
    decreases members.len(),
{
    if members.len() > 0 {
        lemma_model_members_index(members.drop_last());
    }
}

pub proof fn lemma_model_items_index(items: Seq<JsonValue>)
    ensures
        model_items(items).len() == items.len(),
        forall|i: int| 0 <= i < items.len() ==> #[trigger] model_items(items)[i] == items[i].model(),
    decreases items.len(),
{
    if items.len() > 0 {
        lemma_model_items_index(items.drop_last());
    }
}

pub proof fn lemma_model_members_push(members: Seq<(String, JsonValue)>, m: (String, JsonValue))
    ensures
        model_members(members.push(m)) == model_members(members).push((m.0@, m.1.model())),
{
    assert(members.push(m).drop_last() =~= members);
}

pub proof fn lemma_model_items_push(items: Seq<JsonValue>, v: JsonValue)
    ensures
        model_items(items.push(v)) == model_items(items).push(v.model()),
{
    assert(items.push(v).drop_last() =~= items);
}

pub proof fn lemma_model_members_update(members: Seq<(String, JsonValue)>, i: int, m: (String, JsonValue))
    requires
        0 <= i < members.len(),
    ensures
        model_members(members.update(i, m)) == model_members(members).update(i, (m.0@, m.1.model())),
{
    lemma_model_members_index(members);
    lemma_model_members_index(members.update(i, m));
    assert(model_members(members.update(i, m)) =~= model_members(members).update(i, (m.0@, m.1.model())));
}

/// Setting a member changes the value under that name and no other.
pub proof fn lemma_with_member_member(
    members: Seq<(Seq<char>, JsonModel)>,
    key: Seq<char>,
    value: JsonModel,
    other: Seq<char>,
)
    ensures
        member_of(with_member(members, key, value), other) == if other == key {
            Some(value)
        } else {
            member_of(members, other)
        },
{
    let after = with_member(members, key, value);
    if has_key(members, key) {
        let k = key_index(members, key);
        assert(first_key_at(members, key, k));
        if other == key {
            assert(first_key_at(after, key, k));
            lemma_first_key_unique(after, key, k);
        } else if has_key(members, other) {
            let j = key_index(members, other);
            assert(first_key_at(members, other, j));
            assert(j != k);
            assert(first_key_at(after, other, j));
            lemma_first_key_unique(after, other, j);
        } else {
            assert forall|j: int| !first_key_at(after, other, j) by {
                if first_key_at(after, other, j) {
                    assert(j != k);
                    assert forall|l: int| 0 <= l < j implies members[l].0 != other by {
                        if l != k {
                            assert(after[l] == members[l]);
                        }
                    }
                    assert(first_key_at(members, other, j));
                }
            }
        }
    } else {
        let n = members.len() as int;
        if other == key {
            assert forall|j: int| 0 <= j < n implies after[j].0 != key by {
                if after[j].0 == key {
                    assert(members[j].0 == key);
                    lemma_some_first(members, key, j);
                }
            }
            assert(first_key_at(after, key, n));
            lemma_first_key_unique(after, key, n);
        } else if has_key(members, other) {
            let j = key_index(members, other);
            assert(first_key_at(members, other, j));
            assert(first_key_at(after, other, j));
            lemma_first_key_unique(after, other, j);
        } else {
            assert forall|j: int| !first_key_at(after, other, j) by {
                if first_key_at(after, other, j) {
                    assert(j < n);
                    assert forall|l: int| 0 <= l < j implies members[l].0 != other by {
                        assert(after[l] == members[l]);
                    }
                    assert(first_key_at(members, other, j));
                }
            }
        }
    }
}

/// A name that occurs somewhere has a first position.
pub proof fn lemma_some_first(members: Seq<(Seq<char>, JsonModel)>, key: Seq<char>, i: int)
    requires
        0 <= i < members.len(),
        members[i].0 == key,
    ensures
        has_key(members, key),
    decreases i,
{
    if forall|j: int| 0 <= j < i ==> members[j].0 != key {
        assert(first_key_at(members, key, i));
    } else {
        let j = choose|j: int| 0 <= j < i && members[j].0 == key;
        lemma_some_first(members, key, j);
    }
}

/// Text as an owned string.
pub fn owned(s: &str) -> (r: String)
    ensures
        r@ == s@,
{
    s.to_owned()
}

/// An empty member list.
pub fn new_members() -> (v: Vec<(String, JsonValue)>)
    ensures
        model_members(v@) == Seq::<(Seq<char>, JsonModel)>::empty(),
        numbers_ok(JsonModel::Object(model_members(v@))),
{
    Vec::new()
}

/// An empty item list.
pub fn new_items() -> (v: Vec<JsonValue>)
    ensures
        model_items(v@) == Seq::<JsonModel>::empty(),
        numbers_ok(JsonModel::Array(model_items(v@))),
{
    Vec::new()
}

/// Appends a member to a member list.
pub fn push_member(members: &mut Vec<(String, JsonValue)>, key: &str, value: JsonValue)
    ensures
        model_members(final(members)@) == model_members(old(members)@).push((key@, value.model())),
        numbers_ok(JsonModel::Object(model_members(old(members)@))) && numbers_ok(value.model())
            ==> numbers_ok(JsonModel::Object(model_members(final(members)@))),
{
    let ghost before = members@;
    let k = owned(key);
    members.push((k, value));
    proof {
        lemma_model_members_push(before, (k, value));
        let new_ms = model_members(members@);
        assert(new_ms.drop_last() =~= model_members(before));
    }
}

/// Appends an item to an item list.
pub fn push_item(items: &mut Vec<JsonValue>, value: JsonValue)
    ensures
        model_items(final(items)@) == model_items(old(items)@).push(value.model()),
        numbers_ok(JsonModel::Array(model_items(old(items)@))) && numbers_ok(value.model())
            ==> numbers_ok(JsonModel::Array(model_items(final(items)@))),
{
    let ghost before = items@;
    items.push(value);
    proof {
        lemma_model_items_push(before, value);
        let new_is = model_items(items@);
        assert(new_is.drop_last() =~= model_items(before));
    }
}

impl JsonValue {
    /// A JSON string with the given text.
    pub fn string(s: &str) -> (r: JsonValue)
        ensures
            r.model() == JsonModel::Str(s@),
            numbers_ok(r.model()),
    {
        JsonValue::Str(owned(s))
    }

    /// A JSON number for an integer, written in decimal.
    pub fn integer(i: i64) -> (r: JsonValue)
        ensures
            r.model() == JsonModel::Number(crate::text::decimal(i as int)),
            numbers_ok(r.model()),
    {
        JsonValue::Number(integer_text(i))
    }

    /// Whether the value is an object.
    pub fn is_object(&self) -> (r: bool)
        ensures
            r == (self.model() is Object),
    {
        match self {
            JsonValue::Object(_) => true,
            _ => false,
        }
    }

    /// The text of a string value (`Value::as_str`).
    pub fn as_str(&self) -> (r: Option<&str>)
        ensures
            match r {
                Some(t) => self.model().text() == Some(t@),
                None => self.model().text() is None,
            },
    {
        match self {
            JsonValue::Str(s) => Some(s.as_str()),
            _ => None,
        }
    }

    /// The member named `key` of an object (`Value::get` with a key).
    pub fn get(&self, key: &str) -> (r: Option<&JsonValue>)
        ensures
            match r {
                Some(v) => self.model().member(key@) == Some(v.model()),
                None => self.model().member(key@) is None,
            },
    {
        match self {
            JsonValue::Object(members) => {
                proof {
                    lemma_model_members_index(members@);
                }
                let ghost ms = model_members(members@);
                assert(self.model() == JsonModel::Object(ms));
                let mut i: usize = 0;
                while i < members.len()
                    invariant
                        self.model() == JsonModel::Object(ms),
                        ms == model_members(members@),
                        ms.len() == members.len(),
                        forall|j: int| 0 <= j < members.len() ==> #[trigger] ms[j] == (members@[j].0@, members@[j].1.model()),
                        i <= members.len(),
                        forall|j: int| 0 <= j < i ==> ms[j].0 != key@,
                    decreases members.len() - i,
                {
                    if str_eq(members[i].0.as_str(), key) {
                        proof {
                            assert(ms[i as int] == (members@[i as int].0@, members@[i as int].1.model()));
                            assert(first_key_at(ms, key@, i as int));
                            lemma_first_key_unique(ms, key@, i as int);
                            assert(self.model() == JsonModel::Object(ms));
                        }
                        return Some(&members[i].1);
                    }
                    i += 1;
                }
                assert forall|j: int| !first_key_at(ms, key@, j) by {}
                None
            },
            _ => None,
        }
    }

    /// The item at position `i` of an array (`Value::get` with a position).
    pub fn item(&self, i: usize) -> (r: Option<&JsonValue>)
        ensures
            match r {
                Some(v) => self.model().item(i as int) == Some(v.model()),
                None => self.model().item(i as int) is None,
            },
    {
        match self {
            JsonValue::Array(items) => {
                proof {
                    lemma_model_items_index(items@);
                }
                if i < items.len() {
                    Some(&items[i])
                } else {
                    None
                }
            },
            _ => None,
        }
    }

    /// Sets the member `key` of an object to `value` (`map[key] = value`) and
    /// hands back the value it replaced: the member is replaced in place where
    /// the name occurs and appended where it does not.
    pub fn replace_member(self, key: &str, value: JsonValue) -> (r: (JsonValue, Option<JsonValue>))
        requires
            self.model() is Object,
        ensures
            match self.model() {
                JsonModel::Object(ms) => {
                    &&& r.0.model() == JsonModel::Object(with_member(ms, key@, value.model()))
                    &&& match r.1 {
                        Some(old) => member_of(ms, key@) == Some(old.model()),
                        None => member_of(ms, key@) is None,
                    }
                },
                _ => false,
            },
    {
        let ghost m0 = self.model();
        match self {
            JsonValue::Object(mut members) => {
                proof {
                    lemma_model_members_index(members@);
                }
                let ghost ms = model_members(members@);
                assert(m0 == JsonModel::Object(ms));
                let mut i: usize = 0;
                while i < members.len()
                    invariant
                        self.model() == m0,
                        m0 == JsonModel::Object(ms),
                        ms == model_members(members@),
                        ms.len() == members.len(),
                        forall|j: int| 0 <= j < members.len() ==> #[trigger] ms[j] == (members@[j].0@, members@[j].1.model()),
                        i <= members.len(),
                        forall|j: int| 0 <= j < i ==> ms[j].0 != key@,
                    decreases members.len() - i,
                {
                    if str_eq(members[i].0.as_str(), key) {
                        proof {
                            assert(ms[i as int] == (members@[i as int].0@, members@[i as int].1.model()));
                            assert(first_key_at(ms, key@, i as int));
                            lemma_first_key_unique(ms, key@, i as int);
                        }
                        let ghost before = members@;
                        let k = owned(key);
                        let old = members.remove(i);
                        members.insert(i, (k, value));
                        proof {
                            assert(members@ =~= before.update(i as int, (k, value)));
                            lemma_model_members_update(before, i as int, (k, value));
                            assert(with_member(ms, key@, value.model()) == ms.update(i as int, (key@, value.model())));
                        }
                        return (JsonValue::Object(members), Some(old.1));
                    }
                    i += 1;
                }
                assert forall|j: int| !first_key_at(ms, key@, j) by {}
                push_member(&mut members, key, value);
                (JsonValue::Object(members), None)
            },
            _ => (JsonValue::Null, None),
        }
    }

    /// Sets the member `key` of an object to `value` (`map[key] = value`).
    pub fn with_member(self, key: &str, value: JsonValue) -> (r: JsonValue)
        requires
            self.model() is Object,
        ensures
            match self.model() {
                JsonModel::Object(ms) => r.model() == JsonModel::Object(with_member(ms, key@, value.model())),
                _ => false,
            },
    {
        let (r, _old) = self.replace_member(key, value);
        r
    }
}

/// Setting a member twice leaves what setting it once to the second value leaves.
pub proof fn lemma_with_member_twice(
    members: Seq<(Seq<char>, JsonModel)>,
    key: Seq<char>,
    first: JsonModel,
    second: JsonModel,
)
    ensures
        with_member(with_member(members, key, first), key, second) == with_member(members, key, second),
{
    let once = with_member(members, key, first);
    if has_key(members, key) {
        let k = key_index(members, key);
        assert(first_key_at(members, key, k));
        assert(first_key_at(once, key, k));
        lemma_first_key_unique(once, key, k);
        assert(once.update(k, (key, second)) =~= members.update(k, (key, second)));
    } else {
        let n = members.len() as int;
        assert forall|j: int| 0 <= j < n implies once[j].0 != key by {
            if once[j].0 == key {
                lemma_some_first(members, key, j);
            }
        }
        assert(first_key_at(once, key, n));
        lemma_first_key_unique(once, key, n);
        assert(once.update(n, (key, second)) =~= members.push((key, second)));
    }
}

/// `serde_json::Value`, declared so that the conversions below can name it.
/// Nothing is claimed of it: proofs never see inside a value of it.
#[verifier::external_type_specification]
#[verifier::external_body]
pub struct ExJsonValue(serde_json::Value);

/// The document that `serde_json::from_str::<serde_json::Value>` reads from a
/// text, as the library holds it; nothing where serde_json refuses the text.
pub uninterp spec fn json_parse(text: Seq<char>) -> Option<JsonModel>;

/// The text that `serde_json::to_string_pretty` writes for a document.
pub uninterp spec fn json_pretty(doc: JsonModel) -> Seq<char>;

/// The description (its `Display`) of the error with which
/// `serde_json::from_str::<serde_json::Value>` refuses a text.
pub uninterp spec fn json_parse_error(text: Seq<char>) -> Seq<char>;

/// The description (its `Display`) of the error with which
/// `serde_json::Number` refuses the first number text of a document, in
/// document order, that it does not read.
pub uninterp spec fn json_render_error(doc: JsonModel) -> Seq<char>;

/// Converts a parsed `serde_json::Value`, variant for variant, into the
/// library's document (a number keeps its JSON text). Claims nothing.
#[verifier::external_body]
fn document_from_value(v: serde_json::Value) -> JsonValue {
    match v {
        serde_json::Value::Null => JsonValue::Null,
        serde_json::Value::Bool(b) => JsonValue::Bool(b),
        serde_json::Value::Number(n) => JsonValue::Number(n.to_string()),
        serde_json::Value::String(s) => JsonValue::Str(s),
        serde_json::Value::Array(a) => JsonValue::Array(a.into_iter().map(document_from_value).collect()),
        serde_json::Value::Object(m) => JsonValue::Object(m.into_iter().map(|(k, x)| (k, document_from_value(x))).collect()),
    }
}

/// Converts a document, variant for variant, into a `serde_json::Value`; a
/// number text that `serde_json::Number` does not read is refused with its
/// error. Claims nothing.
#[verifier::external_body]
fn value_from_document(doc: JsonValue) -> Result<serde_json::Value, String> {
    Ok(match doc {
        JsonValue::Null => serde_json::Value::Null,
        JsonValue::Bool(b) => serde_json::Value::Bool(b),
        JsonValue::Number(t) => serde_json::Value::Number(t.parse::<serde_json::Number>().map_err(|e| e.to_string())?),
        JsonValue::Str(s) => serde_json::Value::String(s),
        JsonValue::Array(a) => serde_json::Value::Array(a.into_iter().map(value_from_document).collect::<Result<_, _>>()?),
        JsonValue::Object(m) => serde_json::Value::Object(
            m.into_iter().map(|(k, x)| value_from_document(x).map(|v| (k, v))).collect::<Result<_, _>>()?,
        ),
    })
}

/// Parses JSON text with `serde_json::from_str` into a `serde_json::Value`
/// and hands it over as a document. Claimed: the document is `json_parse` of
/// the text, and an error comes exactly where `json_parse` gives nothing,
/// with serde_json's description of it. A number of the document is the text that
/// `serde_json::Number` writes (its `Display`); nothing is said of whether
/// `serde_json::Number` reads that text back: without its `float_roundtrip`
/// feature it reads a float approximately, so a float close to `f64::MAX` may
/// come back out of range.
#[verifier::external_body]
pub(crate) fn parse_json(text: &str) -> (r: Result<JsonValue, String>)
    ensures
        match r {
            Ok(v) => json_parse(text@) == Some(v.model()),
            Err(e) => json_parse(text@) is None && e@ == json_parse_error(text@),
        },
{
    match serde_json::from_str::<serde_json::Value>(text) {
        Ok(v) => Ok(document_from_value(v)),
        Err(e) => Err(e.to_string()),
    }
}

/// Setting a member to a value whose numbers `serde_json` reads keeps an
/// object's numbers readable.
pub proof fn lemma_with_member_numbers(members: Seq<(Seq<char>, JsonModel)>, key: Seq<char>, value: JsonModel)
    requires
        numbers_ok(JsonModel::Object(members)),
        numbers_ok(value),
    ensures
        numbers_ok(JsonModel::Object(with_member(members, key, value))),
{
    let after = with_member(members, key, value);
    lemma_members_numbers_ok(members);
    lemma_members_numbers_ok(after);
    assert forall|i: int| 0 <= i < after.len() implies numbers_ok(#[trigger] after[i].1) by {
        if has_key(members, key) {
            if i != key_index(members, key) {
                assert(after[i] == members[i]);
            }
        } else if i < members.len() {
            assert(after[i] == members[i]);
        }
    }
}

/// A member of an object whose numbers `serde_json` reads has readable numbers too.
pub proof fn lemma_member_numbers(members: Seq<(Seq<char>, JsonModel)>, key: Seq<char>)
    requires
        numbers_ok(JsonModel::Object(members)),
    ensures
        member_of(members, key) matches Some(v) ==> numbers_ok(v),
{
    lemma_members_numbers_ok(members);
    if has_key(members, key) {
        let k = key_index(members, key);
        assert(first_key_at(members, key, k));
        assert(numbers_ok(members[k].1));
    }
}

/// Whether `serde_json::Number` reads the text (its `FromStr`).
pub uninterp spec fn json_number_text(t: Seq<char>) -> bool;

/// Every number of the document is a text that `serde_json::Number` reads.
pub open spec fn numbers_ok(doc: JsonModel) -> bool
    decreases doc,
{
    match doc {
        JsonModel::Number(t) => json_number_text(t),
        JsonModel::Array(items) => items_numbers_ok(items),
        JsonModel::Object(ms) => members_numbers_ok(ms),
        _ => true,
    }
}

/// Every number of the items is a text that `serde_json::Number` reads.
pub open spec fn items_numbers_ok(items: Seq<JsonModel>) -> bool
    decreases items,
{
    if items.len() == 0 {
        true
    } else {
        items_numbers_ok(items.drop_last()) && numbers_ok(items.last())
    }
}

/// Every number of the members' values is a text that `serde_json::Number` reads.
pub open spec fn members_numbers_ok(ms: Seq<(Seq<char>, JsonModel)>) -> bool
    decreases ms,
{
    if ms.len() == 0 {
        true
    } else {
        members_numbers_ok(ms.drop_last()) && numbers_ok(ms.last().1)
    }
}

/// The members' numbers are readable exactly when each member's are.
pub proof fn lemma_members_numbers_ok(ms: Seq<(Seq<char>, JsonModel)>)
    ensures
        members_numbers_ok(ms) <==> forall|i: int| 0 <= i < ms.len() ==> numbers_ok(#[trigger] ms[i].1),
    decreases ms.len(),
{
    if ms.len() > 0 {
        lemma_members_numbers_ok(ms.drop_last());
        if forall|i: int| 0 <= i < ms.len() ==> numbers_ok(#[trigger] ms[i].1) {
            assert forall|i: int| 0 <= i < ms.drop_last().len() implies numbers_ok(#[trigger] ms.drop_last()[i].1) by {
                assert(ms.drop_last()[i] == ms[i]);
            }
        }
        if members_numbers_ok(ms) {
            assert forall|i: int| 0 <= i < ms.len() implies numbers_ok(#[trigger] ms[i].1) by {
                if i < ms.len() - 1 {
                    assert(ms.drop_last()[i] == ms[i]);
                }
            }
        }
    }
}

/// The text of an integer as `serde_json::Number` writes it
/// (`Number::from(i).to_string()`). Claimed: it is the decimal text of the
/// integer (serde_json formats integers with `itoa`), and `serde_json::Number`
/// reads it back (its `FromStr` accepts every JSON integer).
#[verifier::external_body]
fn integer_text(i: i64) -> (r: String)
    ensures
        r@ == crate::text::decimal(i as int),
        json_number_text(r@),
{
    serde_json::Number::from(i).to_string()
}

/// Renders a document with `serde_json::to_string_pretty` (two-space indent).
/// Claimed: rendering succeeds exactly when `serde_json::Number` reads every
/// number text of the document (the conversion's only failure;
/// `to_string_pretty` never fails on a `Value`, whose map keys are strings),
/// and the text it gives is `json_pretty` of the document; a failure is
/// described by `serde_json::Number`'s error for the first number text it
/// does not read.
#[verifier::external_body]
pub(crate) fn render_json(doc: JsonValue) -> (r: Result<String, String>)
    ensures
        r is Ok <==> numbers_ok(doc.model()),
        r matches Ok(t) ==> t@ == json_pretty(doc.model()),
        r matches Err(e) ==> e@ == json_render_error(doc.model()),
{
    let v = value_from_document(doc)?;
    serde_json::to_string_pretty(&v).map_err(|e| e.to_string())
}

} // verus!
