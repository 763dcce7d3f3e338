//! A JSON document tree and its mathematical model.

use vstd::prelude::*;

verus! {

/// Mathematical model of a JSON document: text is a sequence of characters,
/// integers are mathematical integers, objects keep their members in order.
pub enum Json {
    Null,
    Bool(bool),
    Int(int),
    Number(Seq<char>),
    Str(Seq<char>),
    Array(Seq<Json>),
    Object(Seq<(Seq<char>, Json)>),
}

/// An executable JSON document. Integers that fit in `i64` are held as
/// such; every other number is held in its textual form.
pub enum JsonValue {
    Null,
    Bool(bool),
    Int(i64),
    Number(String),
    Str(String),
    Array(Vec<JsonValue>),
    Object(Vec<(String, JsonValue)>),
}

/// The model of a document.
pub open spec fn json_model(v: JsonValue) -> Json
    decreases v, 0int,
{
    match v {
        JsonValue::Null => Json::Null,
        JsonValue::Bool(b) => Json::Bool(b),
        JsonValue::Int(i) => Json::Int(i as int),
        JsonValue::Number(s) => Json::Number(s@),
        JsonValue::Str(s) => Json::Str(s@),
        JsonValue::Array(items) => Json::Array(json_models(items@)),
        JsonValue::Object(fields) => Json::Object(field_models(fields@)),
    }
}

/// The models of a sequence of documents, in order.
pub open spec fn json_models(s: Seq<JsonValue>) -> Seq<Json>
    decreases s, s.len(),
{
    if s.len() == 0 {
        Seq::empty()
    } else {
        json_models(s.drop_last()).push(json_model(s.last()))
    }
}

/// The models of the members of an object, in order.
pub open spec fn field_models(s: Seq<(String, JsonValue)>) -> Seq<(Seq<char>, Json)>
    decreases s, s.len(),
{
    if s.len() == 0 {
        Seq::empty()
    } else {
        field_models(s.drop_last()).push((s.last().0@, json_model(s.last().1)))
    }
}

impl View for JsonValue {
    type V = Json;

    open spec fn view(&self) -> Json {
        json_model(*self)
    }
}

/// The first member of `fields` named `key`, if any.
pub open spec fn lookup(fields: Seq<(Seq<char>, Json)>, key: Seq<char>) -> Option<Json>
    decreases fields.len(),
{
    if fields.len() == 0 {
        None
    } else if fields[0].0 == key {
        Some(fields[0].1)
    } else {
        lookup(fields.drop_first(), key)
    }
}

/// The member `key` of `v` when `v` is an object holding it.
pub open spec fn member(v: Json, key: Seq<char>) -> Option<Json> {
    match v {
        Json::Object(fields) => lookup(fields, key),
        _ => None,
    }
}

/// `member` lifted to an optional document.
pub open spec fn member_of(v: Option<Json>, key: Seq<char>) -> Option<Json> {
    match v {
        Some(v) => member(v, key),
        None => None,
    }
}

/// The text of a string document.
pub open spec fn text_of(v: Option<Json>) -> Option<Seq<char>> {
    match v {
        Some(Json::Str(s)) => Some(s),
        _ => None,
    }
}

/// The model of an optional borrowed document.
pub open spec fn opt_model(v: Option<&JsonValue>) -> Option<Json> {
    match v {
        Some(x) => Some(x@),
        None => None,
    }
}

/// Whether a document is an object.
pub open spec fn is_object(v: Json) -> bool {
    v is Object
}

/// `json_models` keeps the length and maps each position.
pub proof fn lemma_json_models(s: Seq<JsonValue>)
    ensures
        json_models(s).len() == s.len(),
        forall|i: int| 0 <= i < s.len() ==> #[trigger] json_models(s)[i] == json_model(s[i]),
    decreases s.len(),
{
    if s.len() > 0 {
        lemma_json_models(s.drop_last());
    }
}

/// `field_models` keeps the length and maps each position.
pub proof fn lemma_field_models(s: Seq<(String, JsonValue)>)
    ensures
        field_models(s).len() == s.len(),
        forall|i: int|
            0 <= i < s.len() ==> #[trigger] field_models(s)[i] == (s[i].0@, json_model(s[i].1)),
    decreases s.len(),
{
    if s.len() > 0 {
        lemma_field_models(s.drop_last());
    }
}

proof fn lemma_lookup_skip(fields: Seq<(Seq<char>, Json)>, key: Seq<char>, i: int)
    requires
        0 <= i < fields.len(),
        forall|j: int| 0 <= j < i ==> fields[j].0 != key,
    ensures
        lookup(fields, key) == lookup(fields.skip(i), key),
    decreases i,
{
    if i > 0 {
        lemma_lookup_skip(fields.drop_first(), key, i - 1);
        assert(fields.drop_first().skip(i - 1) =~= fields.skip(i));
    } else {
        assert(fields.skip(0) =~= fields);
    }
}

/// The member found under `key` is the one at the first position holding
/// `key`.
pub proof fn lemma_lookup_finds(fields: Seq<(Seq<char>, Json)>, key: Seq<char>, i: int)
    requires
        0 <= i < fields.len(),
        fields[i].0 == key,
        forall|j: int| 0 <= j < i ==> fields[j].0 != key,
    ensures
        lookup(fields, key) == Some(fields[i].1),
{
    lemma_lookup_skip(fields, key, i);
    assert(fields.skip(i)[0] == fields[i]);
}

proof fn lemma_lookup_absent(fields: Seq<(Seq<char>, Json)>, key: Seq<char>)
    requires
        forall|j: int| 0 <= j < fields.len() ==> fields[j].0 != key,
    ensures
        lookup(fields, key) is None,
    decreases fields.len(),
{
    if fields.len() > 0 {
        lemma_lookup_absent(fields.drop_first(), key);
    }
}

/// An object document holding `fields` in order.
pub open spec fn obj(fields: Seq<(Seq<char>, Json)>) -> Json {
    Json::Object(fields)
}

impl JsonValue {
    /// An object document holding `fields` in order.
    pub fn object(fields: Vec<(String, JsonValue)>) -> (r: JsonValue)
        ensures
            r@ == Json::Object(field_models(fields@)),
            forall|i: int|
                0 <= i < fields@.len() ==> #[trigger] field_models(fields@)[i] == (
                    fields@[i].0@,
                    fields@[i].1@,
                ),
            field_models(fields@).len() == fields@.len(),
    {
        proof {
            lemma_field_models(fields@);
        }
        JsonValue::Object(fields)
    }

    /// An array document holding `items` in order.
    pub fn array(items: Vec<JsonValue>) -> (r: JsonValue)
        ensures
            r@ == Json::Array(json_models(items@)),
            forall|i: int| 0 <= i < items@.len() ==> #[trigger] json_models(items@)[i] == items@[i]@,
            json_models(items@).len() == items@.len(),
    {
        proof {
            lemma_json_models(items@);
        }
        JsonValue::Array(items)
    }

    /// The member pair `(key, value)`.
    pub fn entry(key: &str, value: JsonValue) -> (r: (String, JsonValue))
        ensures
            r.0@ == key@,
            r.1 == value,
    {
        (String::from_str(key), value)
    }

    /// A string document holding `s`.
    pub fn text(s: &str) -> (r: JsonValue)
        ensures
            r@ == Json::Str(s@),
    {
        JsonValue::Str(String::from_str(s))
    }

    /// A copy of this document.
    pub fn duplicate(&self) -> (r: JsonValue)
        ensures
            r@ == self@,
        decreases self,
    {
        match self {
            JsonValue::Null => JsonValue::Null,
            JsonValue::Bool(b) => JsonValue::Bool(*b),
            JsonValue::Int(i) => JsonValue::Int(*i),
            JsonValue::Number(s) => JsonValue::Number(s.clone()),
            JsonValue::Str(s) => JsonValue::Str(s.clone()),
            JsonValue::Array(items) => {
                let mut out: Vec<JsonValue> = Vec::new();
                let mut i: usize = 0;
                while i < items.len()
                    invariant
                        i <= items.len(),
                        json_models(out@) == json_models(items@.take(i as int)),
                        *self == JsonValue::Array(*items),
                    decreases items.len() - i,
                {
                    proof {
                        assert(decreases_to!(*self => (*self)->Array_0));
                        assert(decreases_to!(*items => items[i as int]));
                    }
                    let c = items[i].duplicate();
                    let ghost before = out@;
                    out.push(c);
                    proof {
                        assert(out@.drop_last() =~= before);
                        assert(items@.take(i + 1).drop_last() =~= items@.take(i as int));
                    }
                    i = i + 1;
                }
                proof {
                    assert(items@.take(i as int) =~= items@);
                }
                JsonValue::Array(out)
            },
            JsonValue::Object(fields) => {
                let mut out: Vec<(String, JsonValue)> = Vec::new();
                let mut i: usize = 0;
                while i < fields.len()
                    invariant
                        i <= fields.len(),
                        field_models(out@) == field_models(fields@.take(i as int)),
                        *self == JsonValue::Object(*fields),
                    decreases fields.len() - i,
                {
                    proof {
                        assert(decreases_to!(*self => (*self)->Object_0));
                        assert(decreases_to!(*fields => fields[i as int]));
                        assert(decreases_to!(fields[i as int] => fields[i as int].1));
                    }
                    let c = fields[i].1.duplicate();
                    let k = fields[i].0.clone();
                    let ghost before = out@;
                    out.push((k, c));
                    proof {
                        assert(out@.drop_last() =~= before);
                        assert(fields@.take(i + 1).drop_last() =~= fields@.take(i as int));
                    }
                    i = i + 1;
                }
                proof {
                    assert(fields@.take(i as int) =~= fields@);
                }
                JsonValue::Object(out)
            },
        }
    }

    /// The member named `key` when this document is an object holding one.
    pub fn get(&self, key: &str) -> (r: Option<&JsonValue>)
        ensures
            opt_model(r) == member(self@, key@),
    {
        match self {
            JsonValue::Object(fields) => {
                let wanted = String::from_str(key);
                let ghost models = field_models(fields@);
                proof {
                    lemma_field_models(fields@);
                }
                let mut i: usize = 0;
                while i < fields.len()
                    invariant
                        i <= fields.len(),
                        models == field_models(fields@),
                        self@ == Json::Object(models),
                        models.len() == fields@.len(),
                        forall|j: int|
                            0 <= j < fields@.len() ==> #[trigger] models[j] == (
                                fields@[j].0@,
                                json_model(fields@[j].1),
                            ),
                        wanted@ == key@,
                        forall|j: int| 0 <= j < i ==> models[j].0 != key@,
                    decreases fields.len() - i,
                {
                    if fields[i].0 == wanted {
                        proof {
                            lemma_lookup_skip(models, key@, i as int);
                            assert(models.skip(i as int)[0] == models[i as int]);
                        }
                        return Some(&fields[i].1);
                    }
                    i = i + 1;
                }
                proof {
                    lemma_lookup_absent(models, key@);
                }
                None
            },
            _ => None,
        }
    }

    /// The text of this document when it is a string.
    pub fn as_text(&self) -> (r: Option<&String>)
        ensures
            match r {
                Some(s) => text_of(Some(self@)) == Some(s@),
                None => text_of(Some(self@)) is None,
            },
    {
        match self {
            JsonValue::Str(s) => Some(s),
            _ => None,
        }
    }

    pub fn is_object(&self) -> (r: bool)
        ensures
            r == is_object(self@),
    {
        match self {
            JsonValue::Object(_) => true,
            _ => false,
        }
    }
}

/// An object with one member.
pub fn obj1(k1: &str, v1: JsonValue) -> (r: JsonValue)
    ensures
        r@ == obj(seq![(k1@, v1@)]),
{
    let fields = vec![JsonValue::entry(k1, v1)];
    let r = JsonValue::object(fields);
    assert(field_models(fields@) =~= seq![(k1@, v1@)]);
    r
}

/// An object with two members, in order.
pub fn obj2(k1: &str, v1: JsonValue, k2: &str, v2: JsonValue) -> (r: JsonValue)
    ensures
        r@ == obj(seq![(k1@, v1@), (k2@, v2@)]),
{
    let fields = vec![JsonValue::entry(k1, v1), JsonValue::entry(k2, v2)];
    let r = JsonValue::object(fields);
    assert(field_models(fields@) =~= seq![(k1@, v1@), (k2@, v2@)]);
    r
}

/// An object with three members, in order.
pub fn obj3(k1: &str, v1: JsonValue, k2: &str, v2: JsonValue, k3: &str, v3: JsonValue) -> (r:
    JsonValue)
    ensures
        r@ == obj(seq![(k1@, v1@), (k2@, v2@), (k3@, v3@)]),
{
    let fields = vec![JsonValue::entry(k1, v1), JsonValue::entry(k2, v2), JsonValue::entry(k3, v3)];
    let r = JsonValue::object(fields);
    assert(field_models(fields@) =~= seq![(k1@, v1@), (k2@, v2@), (k3@, v3@)]);
    r
}

/// An object with four members, in order.
pub fn obj4(
    k1: &str,
    v1: JsonValue,
    k2: &str,
    v2: JsonValue,
    k3: &str,
    v3: JsonValue,
    k4: &str,
    v4: JsonValue,
) -> (r: JsonValue)
    ensures
        r@ == obj(seq![(k1@, v1@), (k2@, v2@), (k3@, v3@), (k4@, v4@)]),
{
    let fields = vec![
        JsonValue::entry(k1, v1),
        JsonValue::entry(k2, v2),
        JsonValue::entry(k3, v3),
        JsonValue::entry(k4, v4),
    ];
    let r = JsonValue::object(fields);
    assert(field_models(fields@) =~= seq![(k1@, v1@), (k2@, v2@), (k3@, v3@), (k4@, v4@)]);
    r
}

/// An object with five members, in order.
pub fn obj5(
    k1: &str,
    v1: JsonValue,
    k2: &str,
    v2: JsonValue,
    k3: &str,
    v3: JsonValue,
    k4: &str,
    v4: JsonValue,
    k5: &str,
    v5: JsonValue,
) -> (r: JsonValue)
    ensures
        r@ == obj(seq![(k1@, v1@), (k2@, v2@), (k3@, v3@), (k4@, v4@), (k5@, v5@)]),
{
    let fields = vec![
        JsonValue::entry(k1, v1),
        JsonValue::entry(k2, v2),
        JsonValue::entry(k3, v3),
        JsonValue::entry(k4, v4),
        JsonValue::entry(k5, v5),
    ];
    let r = JsonValue::object(fields);
    assert(field_models(fields@) =~= seq![
        (k1@, v1@),
        (k2@, v2@),
        (k3@, v3@),
        (k4@, v4@),
        (k5@, v5@),
    ]);
    r
}

/// An array of one document.
pub fn arr1(a: JsonValue) -> (r: JsonValue)
    ensures
        r@ == Json::Array(seq![a@]),
{
    let items = vec![a];
    let r = JsonValue::array(items);
    assert(json_models(items@) =~= seq![a@]);
    r
}

/// An array of two documents, in order.
pub fn arr2(a: JsonValue, b: JsonValue) -> (r: JsonValue)
    ensures
        r@ == Json::Array(seq![a@, b@]),
{
    let items = vec![a, b];
    let r = JsonValue::array(items);
    assert(json_models(items@) =~= seq![a@, b@]);
    r
}

/// Copies of every document of `items`, in order.
pub fn duplicate_all(items: &Vec<JsonValue>) -> (r: Vec<JsonValue>)
    ensures
        json_models(r@) == json_models(items@),
{
    let mut out: Vec<JsonValue> = Vec::new();
    let mut i: usize = 0;
    while i < items.len()
        invariant
            i <= items.len(),
            json_models(out@) == json_models(items@.take(i as int)),
        decreases items.len() - i,
    {
        let c = items[i].duplicate();
        let ghost before = out@;
        out.push(c);
        proof {
            assert(out@.drop_last() =~= before);
            assert(items@.take(i + 1).drop_last() =~= items@.take(i as int));
        }
        i = i + 1;
    }
    proof {
        assert(items@.take(i as int) =~= items@);
    }
    out
}

} // verus!
