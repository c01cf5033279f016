//! JSON values and their meaning.
use crate::binary64::Binary64;
use crate::text::same;
use vstd::prelude::*;

verus! {

/// A JSON number as the readings that a consumer can take of it: as a signed
/// integer, as an unsigned integer, as a double, and as the text in which a number
/// that was read is written out again.
#[derive(Debug)]
pub struct JsonNumber {
    pub integer: Option<i64>,
    pub natural: Option<u64>,
    pub double: Option<Binary64>,
    pub text: Option<String>,
}

/// What a [`JsonNumber`] says.
pub ghost struct NumberModel {
    pub integer: Option<i64>,
    pub natural: Option<u64>,
    pub double: Option<Binary64>,
    pub text: Option<Seq<char>>,
}

impl View for JsonNumber {
    type V = NumberModel;

    open spec fn view(&self) -> NumberModel {
        NumberModel {
            integer: self.integer,
            natural: self.natural,
            double: self.double,
            text: text_view(self.text),
        }
    }
}

/// A JSON value. The entries of an object have distinct keys.
#[derive(Debug)]
pub enum Json {
    Null,
    Bool(bool),
    Number(JsonNumber),
    Text(String),
    Array(Vec<Json>),
    Object(Vec<(String, Json)>),
}

/// The mathematical value of a [`Json`].
pub ghost enum JsonTree {
    Null,
    Bool(bool),
    Number(NumberModel),
    Text(Seq<char>),
    Array(Seq<JsonTree>),
    Object(Seq<(Seq<char>, JsonTree)>),
}

impl Json {
    pub open spec fn tree(&self) -> JsonTree
        decreases self,
    {
        match self {
            Json::Null => JsonTree::Null,
            Json::Bool(b) => JsonTree::Bool(*b),
            Json::Number(n) => JsonTree::Number(n@),
            Json::Text(s) => JsonTree::Text(s@),
            Json::Array(items) => JsonTree::Array(
                Seq::new(
                    items@.len(),
                    |i: int|
                        if 0 <= i < items@.len() {
                            items@[i].tree()
                        } else {
                            JsonTree::Null
                        },
                ),
            ),
            Json::Object(entries) => JsonTree::Object(
                Seq::new(
                    entries@.len(),
                    |i: int|
                        if 0 <= i < entries@.len() {
                            (entries@[i].0@, entries@[i].1.tree())
                        } else {
                            (Seq::empty(), JsonTree::Null)
                        },
                ),
            ),
        }
    }
}

/// The value that an object's entries give to a key: that of the first entry
/// with the key.
pub open spec fn lookup(entries: Seq<(Seq<char>, JsonTree)>, key: Seq<char>) -> Option<JsonTree>
    decreases entries.len(),
{
    if entries.len() == 0 {
        None
    } else if entries.first().0 == key {
        Some(entries.first().1)
    } else {
        lookup(entries.drop_first(), key)
    }
}

impl JsonTree {
    /// The field `key` of an object; other values have no fields.
    pub open spec fn field(self, key: Seq<char>) -> Option<JsonTree> {
        match self {
            JsonTree::Object(entries) => lookup(entries, key),
            _ => None,
        }
    }

    pub open spec fn text(self) -> Option<Seq<char>> {
        match self {
            JsonTree::Text(s) => Some(s),
            _ => None,
        }
    }

    pub open spec fn boolean(self) -> Option<bool> {
        match self {
            JsonTree::Bool(b) => Some(b),
            _ => None,
        }
    }

    pub open spec fn integer(self) -> Option<i64> {
        match self {
            JsonTree::Number(n) => n.integer,
            _ => None,
        }
    }

    pub open spec fn natural(self) -> Option<u64> {
        match self {
            JsonTree::Number(n) => n.natural,
            _ => None,
        }
    }

    pub open spec fn double(self) -> Option<Binary64> {
        match self {
            JsonTree::Number(n) => n.double,
            _ => None,
        }
    }

    pub open spec fn elements(self) -> Option<Seq<JsonTree>> {
        match self {
            JsonTree::Array(items) => Some(items),
            _ => None,
        }
    }
}

/// The text that an optional string holds.
pub open spec fn text_view(s: Option<String>) -> Option<Seq<char>> {
    match s {
        Some(s) => Some(s@),
        None => None,
    }
}

/// The tree that an optional reference points to.
pub open spec fn tree_view(j: Option<&Json>) -> Option<JsonTree> {
    match j {
        Some(j) => Some(j.tree()),
        None => None,
    }
}

impl Json {
    /// The field `key` of an object.
    pub fn get(&self, key: &str) -> (r: Option<&Json>)
        ensures
            tree_view(r) == self.tree().field(key@),
            r.is_some() ==> decreases_to!(self => r.unwrap()),
    {
        match self {
            Json::Object(entries) => {
                let ghost all = self.tree()->Object_0;
                let mut i: usize = 0;
                proof {
                    assert(all.skip(0) == all);
                }
                while i < entries.len()
                    invariant
                        i <= entries@.len() == all.len(),
                        *self == Json::Object(*entries),
                        self.tree() == JsonTree::Object(all),
                        lookup(all, key@) == lookup(all.skip(i as int), key@),
                    decreases entries@.len() - i,
                {
                    proof {
                        assert(all.skip(i as int).first() == all[i as int]);
                        assert(all.skip(i as int).drop_first() == all.skip(i + 1));
                        assert(all[i as int] == (entries@[i as int].0@, entries@[i as int].1.tree()));
                    }
                    if same(entries[i].0.as_str(), key) {
                        return Some(&entries[i].1);
                    }
                    i = i + 1;
                }
                None
            },
            _ => None,
        }
    }

    pub fn as_str(&self) -> (r: Option<&str>)
        ensures
            match r {
                Some(s) => self.tree().text() == Some(s@),
                None => self.tree().text() is None,
            },
    {
        match self {
            Json::Text(s) => Some(s.as_str()),
            _ => None,
        }
    }

    pub fn as_bool(&self) -> (r: Option<bool>)
        ensures
            r == self.tree().boolean(),
    {
        match self {
            Json::Bool(b) => Some(*b),
            _ => None,
        }
    }

    pub fn as_i64(&self) -> (r: Option<i64>)
        ensures
            r == self.tree().integer(),
    {
        match self {
            Json::Number(n) => n.integer,
            _ => None,
        }
    }

    pub fn as_u64(&self) -> (r: Option<u64>)
        ensures
            r == self.tree().natural(),
    {
        match self {
            Json::Number(n) => n.natural,
            _ => None,
        }
    }

    /// The double nearest to a number.
    pub fn as_double(&self) -> (r: Option<Binary64>)
        ensures
            r == self.tree().double(),
    {
        match self {
            Json::Number(n) => n.double,
            _ => None,
        }
    }

    pub fn is_null(&self) -> (r: bool)
        ensures
            r == (self.tree() == JsonTree::Null),
    {
        matches!(self, Json::Null)
    }
}

/// The number that an integer is written as.
pub open spec fn integer_number(value: int) -> NumberModel {
    NumberModel {
        integer: if i64::MIN <= value <= i64::MAX { Some(value as i64) } else { None },
        natural: if 0 <= value <= u64::MAX { Some(value as u64) } else { None },
        double: Some(crate::binary64::of_integer(value)),
        text: None,
    }
}

/// The number that a double is written as.
pub open spec fn double_number(value: Binary64) -> NumberModel {
    NumberModel { integer: None, natural: None, double: Some(value), text: None }
}

impl JsonNumber {
    pub fn duplicate(&self) -> (r: JsonNumber)
        ensures
            r@ == self@,
    {
        JsonNumber {
            integer: self.integer,
            natural: self.natural,
            double: self.double,
            text: match &self.text {
                Some(text) => Some(text.clone()),
                None => None,
            },
        }
    }

    pub fn from_integer(value: i64) -> (r: JsonNumber)
        ensures
            r@ == integer_number(value as int),
    {
        JsonNumber {
            integer: Some(value),
            natural: if value >= 0 { Some(value as u64) } else { None },
            double: Some(Binary64::from_integer(value)),
            text: None,
        }
    }
}

/// What the entries of an object under construction say.
pub open spec fn entry_trees(entries: Seq<(String, Json)>) -> Seq<(Seq<char>, JsonTree)> {
    entries.map_values(|entry: (String, Json)| (entry.0@, entry.1.tree()))
}

/// What the elements of an array under construction say.
pub open spec fn item_trees(items: Seq<Json>) -> Seq<JsonTree> {
    items.map_values(|item: Json| item.tree())
}

/// An object under construction.
pub struct ObjectBuilder {
    pub entries: Vec<(String, Json)>,
}

impl ObjectBuilder {
    pub fn new() -> (r: ObjectBuilder)
        ensures
            entry_trees(r.entries@) == Seq::<(Seq<char>, JsonTree)>::empty(),
    {
        let r = ObjectBuilder { entries: Vec::new() };
        proof {
            assert(entry_trees(r.entries@) =~= Seq::<(Seq<char>, JsonTree)>::empty());
        }
        r
    }

    /// Adds an entry at the end.
    pub fn with(self, key: &str, value: Json) -> (r: ObjectBuilder)
        ensures
            entry_trees(r.entries@) == entry_trees(self.entries@).push((key@, value.tree())),
    {
        let mut entries = self.entries;
        let ghost before = entries@;
        entries.push((key.to_string(), value));
        proof {
            assert(entry_trees(entries@) =~= entry_trees(before).push((key@, value.tree())));
        }
        ObjectBuilder { entries }
    }

    pub fn build(self) -> (r: Json)
        ensures
            r.tree() == JsonTree::Object(entry_trees(self.entries@)),
    {
        let r = Json::Object(self.entries);
        proof {
            assert(r.tree()->Object_0 =~= entry_trees(self.entries@));
        }
        r
    }
}

impl Json {
    pub fn text(s: &str) -> (r: Json)
        ensures
            r.tree() == JsonTree::Text(s@),
    {
        Json::Text(s.to_string())
    }

    /// A text, or null where there is none.
    pub fn optional_text(s: &Option<String>) -> (r: Json)
        ensures
            r.tree() == match text_view(*s) {
                Some(text) => JsonTree::Text(text),
                None => JsonTree::Null,
            },
    {
        match s {
            Some(s) => Json::Text(s.clone()),
            None => Json::Null,
        }
    }

    pub fn boolean(b: bool) -> (r: Json)
        ensures
            r.tree() == JsonTree::Bool(b),
    {
        Json::Bool(b)
    }

    /// A number, or null where the double is none.
    pub fn double(value: Binary64) -> (r: Json)
        ensures
            r.tree() == (if value.finite() {
                JsonTree::Number(double_number(value))
            } else {
                JsonTree::Null
            }),
    {
        if value.is_finite() {
            Json::Number(JsonNumber { integer: None, natural: None, double: Some(value), text: None })
        } else {
            Json::Null
        }
    }

    pub fn integer(value: i64) -> (r: Json)
        ensures
            r.tree() == JsonTree::Number(integer_number(value as int)),
    {
        Json::Number(JsonNumber::from_integer(value))
    }
}

/// The texts of a list of names.
pub open spec fn name_texts(names: Seq<&str>) -> Seq<Seq<char>> {
    names.map_values(|s: &str| s@)
}

/// The fields of a record with the given field names, in their order.
///
/// An object may leave fields out but must not have others; an array must hold
/// exactly one element for each field. Nothing else is a record.
pub open spec fn record(tree: JsonTree, names: Seq<Seq<char>>) -> Option<Seq<Option<JsonTree>>> {
    match tree {
        JsonTree::Object(entries) => if only_keys(entries, names) {
            Some(names.map_values(|name: Seq<char>| lookup(entries, name)))
        } else {
            None
        },
        JsonTree::Array(items) => if items.len() == names.len() {
            Some(items.map_values(|item: JsonTree| Some(item)))
        } else {
            None
        },
        _ => None,
    }
}

/// The fields of a record that may have other fields too: those of an object by
/// name, those of an array of the right length by position.
pub open spec fn open_record(tree: JsonTree, names: Seq<Seq<char>>) -> Option<Seq<Option<JsonTree>>> {
    match tree {
        JsonTree::Object(entries) => Some(names.map_values(|name: Seq<char>| lookup(entries, name))),
        _ => record(tree, names),
    }
}

/// Every key is one of the names.
pub open spec fn only_keys(entries: Seq<(Seq<char>, JsonTree)>, names: Seq<Seq<char>>) -> bool {
    forall|i: int| 0 <= i < entries.len() ==> names.contains(#[trigger] entries[i].0)
}

/// The values behind optional references.
pub open spec fn tree_views(fields: Seq<Option<&Json>>) -> Seq<Option<JsonTree>> {
    fields.map_values(|f: Option<&Json>| tree_view(f))
}

fn has_name(names: &Vec<&str>, key: &str) -> (r: bool)
    ensures
        r == name_texts(names@).contains(key@),
{
    let mut i: usize = 0;
    while i < names.len()
        invariant
            i <= names@.len(),
            forall|j: int| 0 <= j < i ==> names@[j]@ != key@,
        decreases names@.len() - i,
    {
        if same(names[i], key) {
            assert(name_texts(names@)[i as int] == key@);
            return true;
        }
        i = i + 1;
    }
    proof {
        assert forall|j: int| 0 <= j < names@.len() implies name_texts(names@)[j] != key@ by {
            assert(names@[j]@ != key@);
        }
    }
    false
}

/// The fields of a record.
pub fn record_fields<'a>(json: &'a Json, names: &Vec<&str>) -> (r: Option<Vec<Option<&'a Json>>>)
    ensures
        match r {
            Some(fields) => fields@.len() == names@.len() && record(json.tree(), name_texts(names@)) == Some(
                tree_views(fields@),
            ),
            None => record(json.tree(), name_texts(names@)) is None,
        },
{
    match json {
        Json::Object(entries) => {
            let ghost all = json.tree()->Object_0;
            let mut i: usize = 0;
            while i < entries.len()
                invariant
                    i <= entries@.len() == all.len(),
                    *json == Json::Object(*entries),
                    json.tree() == JsonTree::Object(all),
                    forall|j: int| 0 <= j < i ==> name_texts(names@).contains(#[trigger] all[j].0),
                decreases entries@.len() - i,
            {
                assert(all[i as int].0 == entries@[i as int].0@);
                if !has_name(names, entries[i].0.as_str()) {
                    return None;
                }
                i = i + 1;
            }
            let mut fields: Vec<Option<&'a Json>> = Vec::new();
            let mut k: usize = 0;
            while k < names.len()
                invariant
                    k <= names@.len(),
                    json.tree() == JsonTree::Object(all),
                    fields@.len() == k,
                    forall|j: int| 0 <= j < k ==> tree_view(#[trigger] fields@[j]) == lookup(all, names@[j]@),
                decreases names@.len() - k,
            {
                fields.push(json.get(names[k]));
                k = k + 1;
            }
            proof {
                assert(tree_views(fields@) =~= name_texts(names@).map_values(
                    |name: Seq<char>| lookup(all, name),
                ));
            }
            Some(fields)
        },
        Json::Array(items) => {
            if items.len() != names.len() {
                return None;
            }
            let ghost all = json.tree()->Array_0;
            let mut fields: Vec<Option<&'a Json>> = Vec::new();
            let mut k: usize = 0;
            while k < items.len()
                invariant
                    k <= items@.len() == all.len(),
                    *json == Json::Array(*items),
                    json.tree() == JsonTree::Array(all),
                    fields@.len() == k,
                    forall|j: int| 0 <= j < k ==> tree_view(#[trigger] fields@[j]) == Some(all[j]),
                decreases items@.len() - k,
            {
                assert(all[k as int] == items@[k as int].tree());
                fields.push(Some(&items[k]));
                k = k + 1;
            }
            proof {
                assert(tree_views(fields@) =~= all.map_values(|item: JsonTree| Some(item)));
            }
            Some(fields)
        },
        _ => None,
    }
}

/// The fields of a record that may have other fields too.
pub fn open_record_fields<'a>(json: &'a Json, names: &Vec<&str>) -> (r: Option<Vec<Option<&'a Json>>>)
    ensures
        match r {
            Some(fields) => fields@.len() == names@.len() && open_record(json.tree(), name_texts(names@)) == Some(
                tree_views(fields@),
            ),
            None => open_record(json.tree(), name_texts(names@)) is None,
        },
{
    match json {
        Json::Object(_) => {
            let ghost all = json.tree()->Object_0;
            let mut fields: Vec<Option<&'a Json>> = Vec::new();
            let mut k: usize = 0;
            while k < names.len()
                invariant
                    k <= names@.len(),
                    json.tree() == JsonTree::Object(all),
                    fields@.len() == k,
                    forall|j: int| 0 <= j < k ==> tree_view(#[trigger] fields@[j]) == lookup(all, names@[j]@),
                decreases names@.len() - k,
            {
                fields.push(json.get(names[k]));
                k = k + 1;
            }
            proof {
                assert(tree_views(fields@) =~= name_texts(names@).map_values(
                    |name: Seq<char>| lookup(all, name),
                ));
            }
            Some(fields)
        },
        _ => record_fields(json, names),
    }
}

/// The field at a place of a record: by name in an object, by position in an array.
pub open spec fn member(tree: JsonTree, name: Seq<char>, place: int) -> Option<JsonTree> {
    match tree {
        JsonTree::Array(items) => if 0 <= place < items.len() {
            Some(items[place])
        } else {
            None
        },
        _ => tree.field(name),
    }
}

pub fn member_of<'a>(json: &'a Json, name: &str, place: usize) -> (r: Option<&'a Json>)
    ensures
        tree_view(r) == member(json.tree(), name@, place as int),
{
    match json {
        Json::Array(items) => {
            if place < items.len() {
                proof {
                    assert(json.tree()->Array_0[place as int] == items@[place as int].tree());
                }
                Some(&items[place])
            } else {
                None
            }
        },
        _ => json.get(name),
    }
}

/// A record of at most `n` members.
pub open spec fn is_record(tree: JsonTree, n: nat) -> bool {
    match tree {
        JsonTree::Object(_) => true,
        JsonTree::Array(items) => items.len() <= n,
        _ => false,
    }
}

pub fn check_record(json: &Json, n: usize) -> (r: bool)
    ensures
        r == is_record(json.tree(), n as nat),
{
    match json {
        Json::Object(_) => true,
        Json::Array(items) => items.len() <= n,
        _ => false,
    }
}

/// The elements of an array.
pub fn elements<'a>(json: &'a Json) -> (r: Option<&'a Vec<Json>>)
    ensures
        match r {
            Some(items) => json.tree() == JsonTree::Array(item_trees(items@)),
            None => !(json.tree() is Array),
        },
{
    match json {
        Json::Array(items) => {
            proof {
                assert(json.tree()->Array_0 =~= item_trees(items@));
            }
            Some(items)
        },
        _ => None,
    }
}

/// A field that must be a text.
pub open spec fn text_field(field: Option<JsonTree>) -> Option<Seq<char>> {
    match field {
        Some(tree) => tree.text(),
        None => None,
    }
}

/// A field that may be absent or null, and else must satisfy `reading`.
pub open spec fn optional_field<T>(field: Option<JsonTree>, reading: Option<T>) -> Option<Option<T>> {
    match field {
        None => Some(None),
        Some(JsonTree::Null) => Some(None),
        Some(_) => match reading {
            Some(value) => Some(Some(value)),
            None => None,
        },
    }
}

pub open spec fn double_field(field: Option<JsonTree>) -> Option<Binary64> {
    match field {
        Some(tree) => tree.double(),
        None => None,
    }
}

pub open spec fn integer_field(field: Option<JsonTree>) -> Option<i64> {
    match field {
        Some(tree) => tree.integer(),
        None => None,
    }
}

/// A field that must be a whole number of 32 bits.
pub open spec fn word_field(field: Option<JsonTree>) -> Option<u32> {
    match field {
        Some(tree) => match tree.natural() {
            Some(n) => if n <= u32::MAX {
                Some(n as u32)
            } else {
                None
            },
            None => None,
        },
        None => None,
    }
}

/// A field that must be a whole number of 64 bits.
pub open spec fn natural_field(field: Option<JsonTree>) -> Option<u64> {
    match field {
        Some(tree) => tree.natural(),
        None => None,
    }
}

pub fn read_natural(field: Option<&Json>) -> (r: Option<u64>)
    ensures
        r == natural_field(tree_view(field)),
{
    match field {
        Some(json) => json.as_u64(),
        None => None,
    }
}

pub open spec fn boolean_field(field: Option<JsonTree>) -> Option<bool> {
    match field {
        Some(tree) => tree.boolean(),
        None => None,
    }
}

pub fn read_optional_boolean(field: Option<&Json>) -> (r: Option<Option<bool>>)
    ensures
        r == optional_field(tree_view(field), boolean_field(tree_view(field))),
{
    match field {
        None => Some(None),
        Some(Json::Null) => Some(None),
        Some(Json::Bool(b)) => Some(Some(*b)),
        _ => None,
    }
}

pub fn read_text(field: Option<&Json>) -> (r: Option<String>)
    ensures
        text_view(r) == text_field(tree_view(field)),
{
    match field {
        Some(Json::Text(s)) => Some(s.clone()),
        _ => None,
    }
}

pub open spec fn optional_text_view(r: Option<Option<String>>) -> Option<Option<Seq<char>>> {
    match r {
        Some(o) => Some(text_view(o)),
        None => None,
    }
}

pub fn read_optional_text(field: Option<&Json>) -> (r: Option<Option<String>>)
    ensures
        optional_text_view(r) == optional_field(tree_view(field), text_field(tree_view(field))),
{
    match field {
        None => Some(None),
        Some(Json::Null) => Some(None),
        Some(Json::Text(s)) => Some(Some(s.clone())),
        _ => None,
    }
}

pub fn read_double(field: Option<&Json>) -> (r: Option<Binary64>)
    ensures
        r == double_field(tree_view(field)),
{
    match field {
        Some(json) => json.as_double(),
        None => None,
    }
}

pub fn read_optional_double(field: Option<&Json>) -> (r: Option<Option<Binary64>>)
    ensures
        r == optional_field(tree_view(field), double_field(tree_view(field))),
{
    match field {
        None => Some(None),
        Some(json) => {
            if json.is_null() {
                return Some(None);
            }
            match json.as_double() {
                Some(x) => Some(Some(x)),
                None => None,
            }
        },
    }
}

pub fn read_integer(field: Option<&Json>) -> (r: Option<i64>)
    ensures
        r == integer_field(tree_view(field)),
{
    match field {
        Some(json) => json.as_i64(),
        None => None,
    }
}

pub fn read_optional_integer(field: Option<&Json>) -> (r: Option<Option<i64>>)
    ensures
        r == optional_field(tree_view(field), integer_field(tree_view(field))),
{
    match field {
        None => Some(None),
        Some(json) => {
            if json.is_null() {
                return Some(None);
            }
            match json.as_i64() {
                Some(x) => Some(Some(x)),
                None => None,
            }
        },
    }
}

pub fn read_word(field: Option<&Json>) -> (r: Option<u32>)
    ensures
        r == word_field(tree_view(field)),
{
    match field {
        Some(json) => match json.as_u64() {
            Some(n) => if n <= 0xffff_ffff {
                Some(n as u32)
            } else {
                None
            },
            None => None,
        },
        None => None,
    }
}

#[verifier::external_type_specification]
#[verifier::external_body]
pub struct ExValue(serde_json::Value);

/// What a `serde_json::Value` holds.
pub uninterp spec fn value_tree(value: serde_json::Value) -> JsonTree;

/// What `serde_json::from_str` makes of a text: a value, or the text of its error.
pub uninterp spec fn json_of_text(text: Seq<char>) -> Result<JsonTree, Seq<char>>;

/// What `serde_json::from_slice` makes of bytes: a value, or the text of its error.
pub uninterp spec fn json_of_bytes(bytes: Seq<u8>) -> Result<JsonTree, Seq<char>>;

/// Takes a `serde_json::Value` apart. A number is read by `Number::as_i64`,
/// `Number::as_u64` and `Number::as_f64`, and written by its `Display`; the entries
/// of an object keep the order in which its map hands them out.
#[verifier::external_body]
fn json_from_value(value: serde_json::Value) -> (r: Json)
    ensures
        r.tree() == value_tree(value),
{
    match value {
        serde_json::Value::Null => Json::Null,
        serde_json::Value::Bool(b) => Json::Bool(b),
        serde_json::Value::Number(n) => Json::Number(JsonNumber {
            integer: n.as_i64(),
            natural: n.as_u64(),
            double: n.as_f64().map(|x| Binary64 { bits: x.to_bits() }),
            text: Some(n.to_string()),
        }),
        serde_json::Value::String(s) => Json::Text(s),
        serde_json::Value::Array(v) => Json::Array(v.into_iter().map(json_from_value).collect()),
        serde_json::Value::Object(m) => Json::Object(m.into_iter().map(|(k, v)| (k, json_from_value(v))).collect()),
    }
}

/// `serde_json::from_str` on a text. The result depends on the text alone.
#[verifier::external_body]
fn value_from_str(text: &str) -> (r: Result<serde_json::Value, String>)
    ensures
        match r {
            Ok(value) => json_of_text(text@) == Ok::<JsonTree, Seq<char>>(value_tree(value)),
            Err(error) => json_of_text(text@) == Err::<JsonTree, Seq<char>>(error@),
        },
{
    serde_json::from_str(text).map_err(|error| error.to_string())
}

/// `serde_json::from_slice` on bytes. The result depends on the bytes alone.
#[verifier::external_body]
fn value_from_slice(bytes: &[u8]) -> (r: Result<serde_json::Value, String>)
    ensures
        match r {
            Ok(value) => json_of_bytes(bytes@) == Ok::<JsonTree, Seq<char>>(value_tree(value)),
            Err(error) => json_of_bytes(bytes@) == Err::<JsonTree, Seq<char>>(error@),
        },
{
    serde_json::from_slice(bytes).map_err(|error| error.to_string())
}

/// Reads a JSON text.
pub fn parse_text(text: &str) -> (r: Result<Json, String>)
    ensures
        match r {
            Ok(json) => json_of_text(text@) == Ok::<JsonTree, Seq<char>>(json.tree()),
            Err(error) => json_of_text(text@) == Err::<JsonTree, Seq<char>>(error@),
        },
{
    match value_from_str(text) {
        Ok(value) => Ok(json_from_value(value)),
        Err(error) => Err(error),
    }
}

/// Reads JSON bytes.
pub fn parse_bytes(bytes: &[u8]) -> (r: Result<Json, String>)
    ensures
        match r {
            Ok(json) => json_of_bytes(bytes@) == Ok::<JsonTree, Seq<char>>(json.tree()),
            Err(error) => json_of_bytes(bytes@) == Err::<JsonTree, Seq<char>>(error@),
        },
{
    match value_from_slice(bytes) {
        Ok(value) => Ok(json_from_value(value)),
        Err(error) => Err(error),
    }
}

/// The field of an object with a key is the value that stands under that key, and there is
/// none where no entry has the key.
pub proof fn law_fields_are_found_by_their_keys(entries: Seq<(Seq<char>, JsonTree)>, key: Seq<char>, i: int)
    ensures
        0 <= i < entries.len() && entries[i].0 == key && (forall|j: int|
            0 <= j < entries.len() && j != i ==> (#[trigger] entries[j]).0 != key) ==> JsonTree::Object(entries).field(
            key,
        ) == Some(entries[i].1),
        (forall|j: int| 0 <= j < entries.len() ==> (#[trigger] entries[j]).0 != key) ==> JsonTree::Object(
            entries,
        ).field(key) is None,
    decreases entries.len(),
{
    if entries.len() > 0 {
        let rest = entries.drop_first();
        assert forall|j: int| 0 <= j < rest.len() implies #[trigger] rest[j] == entries[j + 1] by {}
        law_fields_are_found_by_their_keys(rest, key, i - 1);
        assert(entries.first() == entries[0]);
        if entries[0].0 != key {
            assert((forall|j: int| 0 <= j < entries.len() && j != i ==> (#[trigger] entries[j]).0 != key) ==> (forall|
                j: int,
            |
                0 <= j < rest.len() && j != i - 1 ==> (#[trigger] rest[j]).0 != key));
        }
    }
}

/// Each kind of value is read as what it is, and as nothing else.
pub proof fn law_values_are_read_as_they_are(s: Seq<char>, b: bool, n: NumberModel)
    ensures
        text_field(Some(JsonTree::Text(s))) == Some(s),
        text_field(Some(JsonTree::Bool(b))) is None && text_field(Some(JsonTree::Number(n))) is None,
        boolean_field(Some(JsonTree::Bool(b))) == Some(b),
        boolean_field(Some(JsonTree::Text(s))) is None && boolean_field(Some(JsonTree::Number(n))) is None,
        double_field(Some(JsonTree::Number(n))) == n.double,
        double_field(Some(JsonTree::Text(s))) is None && double_field(Some(JsonTree::Bool(b))) is None,
        integer_field(Some(JsonTree::Number(n))) == n.integer,
        integer_field(Some(JsonTree::Text(s))) is None && integer_field(Some(JsonTree::Bool(b))) is None,
        natural_field(Some(JsonTree::Number(n))) == n.natural,
        n.natural is Some && n.natural->0 <= u32::MAX ==> word_field(Some(JsonTree::Number(n))) == Some(
            n.natural->0 as u32,
        ),
        n.natural is None || n.natural->0 > u32::MAX ==> word_field(Some(JsonTree::Number(n))) is None,
        text_field(None) is None && boolean_field(None) is None && double_field(None) is None,
        integer_field(None) is None && natural_field(None) is None && word_field(None) is None,
        text_field(Some(JsonTree::Null)) is None && double_field(Some(JsonTree::Null)) is None,
{
}

/// A field that may be left out counts as nothing where it is absent or null, and else has to
/// be readable.
pub proof fn law_optional_fields_may_be_absent(tree: JsonTree, x: Binary64)
    ensures
        optional_field(None, Some(x)) == Some(None::<Binary64>),
        optional_field(Some(JsonTree::Null), Some(x)) == Some(None::<Binary64>),
        tree != JsonTree::Null ==> optional_field(Some(tree), Some(x)) == Some(Some(x)),
        tree != JsonTree::Null ==> optional_field(Some(tree), None::<Binary64>) is None,
{
}

/// The fields of a record in an object are those under its names, in the order of the names.
/// A closed record has no others.
pub proof fn law_records_hold_their_names(tree: JsonTree, names: Seq<Seq<char>>, i: int)
    requires
        tree is Object,
        0 <= i < names.len(),
    ensures
        open_record(tree, names) is Some,
        open_record(tree, names)->0.len() == names.len(),
        open_record(tree, names)->0[i] == tree.field(names[i]),
        record(tree, names) is Some ==> record(tree, names) == open_record(tree, names),
        record(tree, names) is Some <==> forall|k: int|
            0 <= k < tree->Object_0.len() ==> names.contains(#[trigger] tree->Object_0[k].0),
{
}

/// In a row the fields of a record stand at their places; a row of another length is no record.
pub proof fn law_rows_hold_their_places(items: Seq<JsonTree>, names: Seq<Seq<char>>, name: Seq<char>, i: int)
    ensures
        ({
            let row = JsonTree::Array(items);
            &&& 0 <= i < items.len() ==> member(row, name, i) == Some(items[i])
            &&& !(0 <= i < items.len()) ==> member(row, name, i) is None
            &&& items.len() == names.len() && 0 <= i < items.len() ==> {
                &&& record(row, names) is Some && record(row, names)->0.len() == items.len()
                &&& record(row, names)->0[i] == Some(items[i])
            }
            &&& items.len() != names.len() ==> record(row, names) is None
            &&& open_record(row, names) == record(row, names)
            &&& is_record(row, names.len()) <==> items.len() <= names.len()
        }),
        forall|tree: JsonTree|
            tree is Object ==> #[trigger] member(tree, name, i) == tree.field(name) && is_record(tree, names.len()),
{
}

/// A value holds the values of its parts, each at its own place and under its own key.
pub proof fn law_values_hold_their_parts(items: Vec<Json>, entries: Vec<(String, Json)>, i: int)
    ensures
        ({
            let array = Json::Array(items).tree();
            let object = Json::Object(entries).tree();
            &&& array is Array && array->Array_0.len() == items@.len()
            &&& 0 <= i < items@.len() ==> array->Array_0[i] == items@[i].tree()
            &&& object is Object && object->Object_0.len() == entries@.len()
            &&& 0 <= i < entries@.len() ==> object->Object_0[i] == (entries@[i].0@, entries@[i].1.tree())
        }),
{
}

/// A number that is written is read again: an integer as an integer, where it is not negative as
/// a natural number too, and as the nearest double; a double as a double alone.
pub proof fn law_written_numbers_are_read(value: i64, x: Binary64)
    ensures
        JsonTree::Number(integer_number(value as int)).integer() == Some(value),
        value >= 0 ==> JsonTree::Number(integer_number(value as int)).natural() == Some(value as u64),
        value < 0 ==> JsonTree::Number(integer_number(value as int)).natural() is None,
        JsonTree::Number(integer_number(value as int)).double() == Some(crate::binary64::of_integer(value as int)),
        JsonTree::Number(double_number(x)).double() == Some(x),
        JsonTree::Number(double_number(x)).integer() is None && JsonTree::Number(double_number(x)).natural() is None,
{
}

} // verus!
