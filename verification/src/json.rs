//! The JSON values that travel over the wire, together with their
//! mathematical model.
//!
//! A value is modelled by [`JsonModel`]: numbers are unbounded integers,
//! strings are character sequences, and an object is a map from key to value
//! in which a later duplicate key overrides an earlier one.

use vstd::prelude::*;

verus! {

broadcast use vstd::std_specs::vec::group_vec_axioms;

/// The mathematical value of a JSON document.
#[verifier::ext_equal]
pub enum JsonModel {
    Null,
    Bool(bool),
    Int(int),
    Str(Seq<char>),
    Arr(Seq<JsonModel>),
    Obj(Map<Seq<char>, JsonModel>),
}

/// A JSON value. Non-negative numbers are held as `Uint`, negative ones as
/// `Int`; both stand for the same mathematical integer in the model.
#[derive(Debug, PartialEq, Eq)]
pub enum Json {
    Null,
    Bool(bool),
    Int(i64),
    Uint(u64),
    Str(String),
    Arr(Vec<Json>),
    Obj(Vec<(String, Json)>),
}

/// The map a sequence of key/value pairs denotes: a later duplicate key
/// overrides an earlier one.
pub open spec fn kv_map(s: Seq<(Seq<char>, JsonModel)>) -> Map<Seq<char>, JsonModel>
    decreases s.len(),
{
    if s.len() == 0 {
        Map::empty()
    } else {
        kv_map(s.drop_last()).insert(s.last().0, s.last().1)
    }
}

/// The model of a value.
pub open spec fn json_model(j: Json) -> JsonModel
    decreases j,
{
    if j is Null {
        JsonModel::Null
    } else if j is Bool {
        JsonModel::Bool(j->Bool_0)
    } else if j is Int {
        JsonModel::Int(j->Int_0 as int)
    } else if j is Uint {
        JsonModel::Int(j->Uint_0 as int)
    } else if j is Str {
        JsonModel::Str(j->Str_0@)
    } else if j is Arr {
        JsonModel::Arr(arr_model(j->Arr_0@))
    } else {
        JsonModel::Obj(kv_map(pairs_model(j->Obj_0@)))
    }
}

/// The model of an array body: the models of its elements, in order.
pub open spec fn arr_model(a: Seq<Json>) -> Seq<JsonModel>
    decreases a,
{
    Seq::new(
        a.len(),
        |i: int|
            if 0 <= i < a.len() {
                json_model(a[i])
            } else {
                JsonModel::Null
            },
    )
}

/// The models of an object body's key/value pairs, in order.
pub open spec fn pairs_model(o: Seq<(String, Json)>) -> Seq<(Seq<char>, JsonModel)>
    decreases o,
{
    Seq::new(
        o.len(),
        |i: int|
            if 0 <= i < o.len() {
                (o[i].0@, json_model(o[i].1))
            } else {
                (Seq::<char>::empty(), JsonModel::Null)
            },
    )
}

/// The model of an object body.
pub open spec fn obj_model(o: Seq<(String, Json)>) -> Map<Seq<char>, JsonModel> {
    kv_map(pairs_model(o))
}

impl DeepView for Json {
    type V = JsonModel;

    open spec fn deep_view(&self) -> JsonModel {
        json_model(*self)
    }
}

impl View for Json {
    type V = JsonModel;

    open spec fn view(&self) -> JsonModel {
        json_model(*self)
    }
}

/// The integer a model holds, if it is a number.
pub open spec fn model_int(m: JsonModel) -> Option<int> {
    match m {
        JsonModel::Int(i) => Some(i),
        _ => None,
    }
}

/// The characters a model holds, if it is a string.
pub open spec fn model_str(m: JsonModel) -> Option<Seq<char>> {
    match m {
        JsonModel::Str(s) => Some(s),
        _ => None,
    }
}

pub proof fn lemma_kv_map_push(s: Seq<(Seq<char>, JsonModel)>, p: (Seq<char>, JsonModel))
    ensures
        kv_map(s.push(p)) == kv_map(s).insert(p.0, p.1),
{
    assert(s.push(p).drop_last() =~= s);
    assert(s.push(p).last() == p);
    assert(kv_map(s.push(p)) == kv_map(s.push(p).drop_last()).insert(
        s.push(p).last().0,
        s.push(p).last().1,
    ));
}

pub proof fn lemma_obj_model_push(o: Seq<(String, Json)>, p: (String, Json))
    ensures
        obj_model(o.push(p)) == obj_model(o).insert(p.0@, p.1.deep_view()),
{
    assert(pairs_model(o.push(p)) =~= pairs_model(o).push((p.0@, p.1.deep_view())));
    lemma_kv_map_push(pairs_model(o), (p.0@, p.1.deep_view()));
}

/// The value under a key is the one of its last occurrence.
pub proof fn lemma_kv_map_found(s: Seq<(Seq<char>, JsonModel)>, i: int)
    requires
        0 <= i < s.len(),
        forall|j: int| i < j < s.len() ==> (#[trigger] s[j]).0 != s[i].0,
    ensures
        kv_map(s).contains_key(s[i].0),
        kv_map(s)[s[i].0] == s[i].1,
    decreases s.len(),
{
    assert(kv_map(s) == kv_map(s.drop_last()).insert(s.last().0, s.last().1));
    if i < s.len() - 1 {
        assert(s.last() == s[s.len() - 1]);
        assert(s.last().0 != s[i].0);
        assert forall|j: int| i < j < s.drop_last().len() implies (#[trigger] s.drop_last()[j]).0
            != s.drop_last()[i].0 by {
            assert(s.drop_last()[j] == s[j]);
            assert(s.drop_last()[i] == s[i]);
        }
        lemma_kv_map_found(s.drop_last(), i);
        assert(s.drop_last()[i] == s[i]);
    } else {
        assert(s.last() == s[i]);
    }
}

/// A key that occurs nowhere is not in the map.
pub proof fn lemma_kv_map_absent(s: Seq<(Seq<char>, JsonModel)>, k: Seq<char>)
    requires
        forall|j: int| 0 <= j < s.len() ==> (#[trigger] s[j]).0 != k,
    ensures
        !kv_map(s).contains_key(k),
    decreases s.len(),
{
    if s.len() > 0 {
        assert(kv_map(s) == kv_map(s.drop_last()).insert(s.last().0, s.last().1));
        assert(s.last() == s[s.len() - 1]);
        assert forall|j: int| 0 <= j < s.drop_last().len() implies (#[trigger] s.drop_last()[j]).0
            != k by {
            assert(s.drop_last()[j] == s[j]);
        }
        lemma_kv_map_absent(s.drop_last(), k);
    }
}

impl Json {
    /// Whether the value is `null`.
    pub fn is_null(&self) -> (r: bool)
        ensures
            r == (self.deep_view() is Null),
    {
        match self {
            Json::Null => true,
            _ => false,
        }
    }

    /// The number held, as an unsigned 64-bit integer.
    pub fn as_u64(&self) -> (r: Option<u64>)
        ensures
            match r {
                Some(u) => model_int(self.deep_view()) == Some(u as int),
                None => match model_int(self.deep_view()) {
                    Some(i) => !(0 <= i <= u64::MAX),
                    None => true,
                },
            },
    {
        match self {
            Json::Uint(u) => Some(*u),
            Json::Int(i) => {
                if *i >= 0 {
                    Some(*i as u64)
                } else {
                    None
                }
            },
            _ => None,
        }
    }

    /// The number held, as a signed 64-bit integer.
    pub fn as_i64(&self) -> (r: Option<i64>)
        ensures
            match r {
                Some(v) => model_int(self.deep_view()) == Some(v as int),
                None => match model_int(self.deep_view()) {
                    Some(i) => !(i64::MIN <= i <= i64::MAX),
                    None => true,
                },
            },
    {
        match self {
            Json::Int(i) => Some(*i),
            Json::Uint(u) => {
                if *u <= i64::MAX as u64 {
                    Some(*u as i64)
                } else {
                    None
                }
            },
            _ => None,
        }
    }

    /// The string held, if the value is a string.
    pub fn as_str(&self) -> (r: Option<&String>)
        ensures
            match r {
                Some(s) => self.deep_view() == JsonModel::Str(s@),
                None => !(self.deep_view() is Str),
            },
    {
        match self {
            Json::Str(s) => Some(s),
            _ => None,
        }
    }

    /// The truth value held, if the value is a boolean.
    pub fn as_bool(&self) -> (r: Option<bool>)
        ensures
            match r {
                Some(b) => self.deep_view() == JsonModel::Bool(b),
                None => !(self.deep_view() is Bool),
            },
    {
        match self {
            Json::Bool(b) => Some(*b),
            _ => None,
        }
    }

    /// A structural copy with the same model.
    pub fn deep_clone(&self) -> (r: Json)
        ensures
            r.deep_view() == self.deep_view(),
        decreases self,
    {
        match self {
            Json::Null => Json::Null,
            Json::Bool(b) => Json::Bool(*b),
            Json::Int(i) => Json::Int(*i),
            Json::Uint(u) => Json::Uint(*u),
            Json::Str(s) => Json::Str(s.clone()),
            Json::Arr(a) => {
                let mut out: Vec<Json> = Vec::new();
                let n = a.len();
                let mut i: usize = 0;
                while i < n
                    invariant
                        *self == Json::Arr(*a),
                        n == a@.len(),
                        i <= n,
                        out@.len() == i,
                        forall|j: int|
                            0 <= j < i ==> #[trigger] out@[j].deep_view() == a@[j].deep_view(),
                    decreases n - i,
                {
                    proof {
                        assert(decreases_to!(*self => self->Arr_0));
                        assert(self->Arr_0 == *a);
                        assert(decreases_to!(*a => a@));
                        assert(decreases_to!(a@ => a@[i as int]));
                    }
                    out.push(a[i].deep_clone());
                    i += 1;
                }
                proof {
                    assert forall|j: int| 0 <= j < a@.len() implies arr_model(out@)[j] == arr_model(
                        a@,
                    )[j] by {
                        assert(arr_model(out@)[j] == json_model(out@[j]));
                        assert(arr_model(a@)[j] == json_model(a@[j]));
                        assert(out@[j].deep_view() == a@[j].deep_view());
                    }
                    assert(arr_model(out@) =~= arr_model(a@));
                }
                Json::Arr(out)
            },
            Json::Obj(o) => {
                let mut out: Vec<(String, Json)> = Vec::new();
                let n = o.len();
                let mut i: usize = 0;
                while i < n
                    invariant
                        *self == Json::Obj(*o),
                        n == o@.len(),
                        i <= n,
                        out@.len() == i,
                        forall|j: int|
                            0 <= j < i ==> #[trigger] out@[j].0@ == o@[j].0@ && out@[j].1.deep_view()
                                == o@[j].1.deep_view(),
                    decreases n - i,
                {
                    proof {
                        assert(decreases_to!(*self => self->Obj_0));
                        assert(self->Obj_0 == *o);
                        assert(decreases_to!(*o => o@));
                        assert(decreases_to!(o@ => o@[i as int]));
                        assert(decreases_to!(o@[i as int] => o@[i as int].1));
                    }
                    let k = o[i].0.clone();
                    let v = o[i].1.deep_clone();
                    out.push((k, v));
                    i += 1;
                }
                proof {
                    assert(pairs_model(out@) =~= pairs_model(o@));
                }
                Json::Obj(out)
            },
        }
    }
}

pub proof fn lemma_arr_model_push(a: Seq<Json>, j: Json)
    ensures
        arr_model(a.push(j)) == arr_model(a).push(json_model(j)),
{
    assert forall|i: int| 0 <= i < a.len() + 1 implies arr_model(a.push(j))[i] == arr_model(a).push(
        json_model(j),
    )[i] by {
        if i < a.len() {
            assert(a.push(j)[i] == a[i]);
        } else {
            assert(a.push(j)[i] == j);
        }
    }
    assert(arr_model(a.push(j)) =~= arr_model(a).push(json_model(j)));
}

/// The field a key holds, if the model is an object and the key is present.
pub open spec fn jfield(m: JsonModel, k: Seq<char>) -> Option<JsonModel> {
    if m is Obj && m->Obj_0.contains_key(k) {
        Some(m->Obj_0[k])
    } else {
        None
    }
}

/// The characters of a string field.
pub open spec fn jstr(m: JsonModel, k: Seq<char>) -> Option<Seq<char>> {
    match jfield(m, k) {
        Some(JsonModel::Str(s)) => Some(s),
        _ => None,
    }
}

/// The integer of a number field.
pub open spec fn jint(m: JsonModel, k: Seq<char>) -> Option<int> {
    match jfield(m, k) {
        Some(JsonModel::Int(i)) => Some(i),
        _ => None,
    }
}

/// Whether an optional string field is well-formed: absent, null, or a
/// string.
pub open spec fn jopt_str_valid(m: JsonModel, k: Seq<char>) -> bool {
    match jfield(m, k) {
        None => true,
        Some(JsonModel::Null) => true,
        Some(JsonModel::Str(_)) => true,
        _ => false,
    }
}

/// The characters of an optional string field, if it holds a string.
pub open spec fn jopt_str(m: JsonModel, k: Seq<char>) -> Option<Seq<char>> {
    match jfield(m, k) {
        Some(JsonModel::Str(s)) => Some(s),
        _ => None,
    }
}

/// The strings of an array-of-strings field, if it is one.
pub open spec fn jstr_list(m: JsonModel, k: Seq<char>) -> Option<Seq<Seq<char>>> {
    match jfield(m, k) {
        Some(JsonModel::Arr(a)) => {
            if forall|i: int| 0 <= i < a.len() ==> (#[trigger] a[i]) is Str {
                Some(Seq::new(a.len(), |i: int| a[i]->Str_0))
            } else {
                None
            }
        },
        _ => None,
    }
}

/// Reads a string field out of an object body.
pub fn field_str(fields: &Vec<(String, Json)>, key: &str) -> (r: Option<String>)
    ensures
        ({
            let m = JsonModel::Obj(obj_model(fields@));
            match r {
                Some(s) => jstr(m, key@) == Some(s@),
                None => jstr(m, key@) is None,
            }
        }),
{
    match obj_get(fields, key) {
        Some(j) => match j.as_str() {
            Some(s) => Some(s.clone()),
            None => None,
        },
        None => None,
    }
}

/// Reads a number field out of an object body, as an unsigned 64-bit value.
pub fn field_u64(fields: &Vec<(String, Json)>, key: &str) -> (r: Option<u64>)
    ensures
        ({
            let m = JsonModel::Obj(obj_model(fields@));
            match r {
                Some(u) => jint(m, key@) == Some(u as int),
                None => match jint(m, key@) {
                    Some(i) => !(0 <= i <= u64::MAX),
                    None => true,
                },
            }
        }),
{
    match obj_get(fields, key) {
        Some(j) => j.as_u64(),
        None => None,
    }
}

/// Reads a number field out of an object body, as a signed 64-bit value.
pub fn field_i64(fields: &Vec<(String, Json)>, key: &str) -> (r: Option<i64>)
    ensures
        ({
            let m = JsonModel::Obj(obj_model(fields@));
            match r {
                Some(v) => jint(m, key@) == Some(v as int),
                None => match jint(m, key@) {
                    Some(i) => !(i64::MIN <= i <= i64::MAX),
                    None => true,
                },
            }
        }),
{
    match obj_get(fields, key) {
        Some(j) => j.as_i64(),
        None => None,
    }
}

/// Reads an optional string field: absent or null is `Ok(None)`, a string is
/// `Ok(Some(..))`, anything else is `Err(())`.
pub fn field_opt_str(fields: &Vec<(String, Json)>, key: &str) -> (r: Result<Option<String>, ()>)
    ensures
        ({
            let m = JsonModel::Obj(obj_model(fields@));
            match r {
                Ok(o) => jopt_str_valid(m, key@) && match o {
                    Some(s) => jopt_str(m, key@) == Some(s@),
                    None => jopt_str(m, key@) is None,
                },
                Err(()) => !jopt_str_valid(m, key@),
            }
        }),
{
    match obj_get(fields, key) {
        None => Ok(None),
        Some(j) => match j {
            Json::Null => Ok(None),
            Json::Str(s) => Ok(Some(s.clone())),
            _ => Err(()),
        },
    }
}

/// Whether an optional number field is well-formed: absent, null, or a
/// number.
pub open spec fn jopt_int_valid(m: JsonModel, k: Seq<char>) -> bool {
    match jfield(m, k) {
        None => true,
        Some(JsonModel::Null) => true,
        Some(JsonModel::Int(_)) => true,
        _ => false,
    }
}

/// The integer of an optional number field, if it holds one.
pub open spec fn jopt_int(m: JsonModel, k: Seq<char>) -> Option<int> {
    match jfield(m, k) {
        Some(JsonModel::Int(i)) => Some(i),
        _ => None,
    }
}

/// Reads an optional number field: absent or null is `Ok(None)`, a number
/// that fits a signed 64-bit value is `Ok(Some(..))`, anything else is
/// `Err(())`.
pub fn field_opt_i64(fields: &Vec<(String, Json)>, key: &str) -> (r: Result<Option<i64>, ()>)
    ensures
        ({
            let m = JsonModel::Obj(obj_model(fields@));
            match r {
                Ok(o) => jopt_int_valid(m, key@) && match o {
                    Some(x) => jopt_int(m, key@) == Some(x as int),
                    None => jopt_int(m, key@) is None,
                },
                Err(()) => !jopt_int_valid(m, key@) || (jopt_int(m, key@) matches Some(i) && !(
                i64::MIN <= i <= i64::MAX)),
            }
        }),
{
    match obj_get(fields, key) {
        None => Ok(None),
        Some(j) => match j {
            Json::Null => Ok(None),
            Json::Int(i) => Ok(Some(*i)),
            Json::Uint(u) => {
                if *u <= i64::MAX as u64 {
                    Ok(Some(*u as i64))
                } else {
                    Err(())
                }
            },
            _ => Err(()),
        },
    }
}

/// The model of a list of strings.
pub open spec fn str_list_model(xs: Seq<String>) -> JsonModel {
    JsonModel::Arr(Seq::new(xs.len(), |i: int| JsonModel::Str(xs[i]@)))
}

/// Builds the JSON array of a list of strings.
pub fn str_list_json(xs: &Vec<String>) -> (r: Json)
    ensures
        r.deep_view() == str_list_model(xs@),
{
    let mut out: Vec<Json> = Vec::new();
    let n = xs.len();
    let mut i: usize = 0;
    while i < n
        invariant
            n == xs@.len(),
            i <= n,
            out@.len() == i,
            forall|j: int|
                0 <= j < i ==> #[trigger] arr_model(out@)[j] == JsonModel::Str(xs@[j]@),
        decreases n - i,
    {
        let ghost before = out@;
        out.push(Json::Str(xs[i].clone()));
        proof {
            lemma_arr_model_push(before, out@.last());
            assert(out@ =~= before.push(out@.last()));
        }
        i += 1;
    }
    proof {
        assert(arr_model(out@) =~= Seq::new(xs@.len(), |i: int| JsonModel::Str(xs@[i]@)));
    }
    Json::Arr(out)
}

/// Reads an array-of-strings field out of an object body.
pub fn field_str_list(fields: &Vec<(String, Json)>, key: &str) -> (r: Option<Vec<String>>)
    ensures
        ({
            let m = JsonModel::Obj(obj_model(fields@));
            match r {
                Some(v) => jstr_list(m, key@) matches Some(ss) && ss.len() == v@.len() && forall|
                    i: int,
                |
                    0 <= i < v@.len() ==> (#[trigger] v@[i])@ == ss[i],
                None => jstr_list(m, key@) is None,
            }
        }),
{
    let arr = match obj_get(fields, key) {
        Some(j) => match j {
            Json::Arr(a) => a,
            _ => {
                return None;
            },
        },
        None => {
            return None;
        },
    };
    let ghost am = arr_model(arr@);
    let mut out: Vec<String> = Vec::new();
    let n = arr.len();
    let mut i: usize = 0;
    while i < n
        invariant
            n == arr@.len(),
            i <= n,
            am == arr_model(arr@),
            jfield(JsonModel::Obj(obj_model(fields@)), key@) == Some(JsonModel::Arr(am)),
            out@.len() == i,
            forall|j: int| 0 <= j < i ==> (#[trigger] am[j]) is Str,
            forall|j: int| 0 <= j < i ==> (#[trigger] out@[j])@ == am[j]->Str_0,
        decreases n - i,
    {
        proof {
            assert(am[i as int] == json_model(arr@[i as int]));
        }
        match &arr[i] {
            Json::Str(s) => {
                out.push(s.clone());
            },
            _ => {
                proof {
                    assert(!(am[i as int] is Str));
                }
                return None;
            },
        }
        i += 1;
    }
    proof {
        assert forall|j: int| 0 <= j < am.len() implies (#[trigger] am[j]) is Str by {}
    }
    Some(out)
}

/// Whether a model nests containers at most `k` deep: scalars at any
/// bound, an array or object only within a positive bound whose children
/// fit the bound less one.
pub open spec fn model_depth_le(m: JsonModel, k: nat) -> bool
    decreases k,
{
    if m is Arr {
        if k == 0 {
            false
        } else {
            forall|i: int|
                0 <= i < m->Arr_0.len() ==> model_depth_le(#[trigger] m->Arr_0[i], (k - 1) as nat)
        }
    } else if m is Obj {
        if k == 0 {
            false
        } else {
            forall|key: Seq<char>|
                m->Obj_0.contains_key(key) ==> model_depth_le(
                    #[trigger] m->Obj_0[key],
                    (k - 1) as nat,
                )
        }
    } else {
        true
    }
}

proof fn lemma_depth_arr_unfold(a: Seq<JsonModel>, k: nat)
    requires
        k > 0,
    ensures
        model_depth_le(JsonModel::Arr(a), k) == (forall|i: int|
            0 <= i < a.len() ==> model_depth_le(#[trigger] a[i], (k - 1) as nat)),
{
    let m = JsonModel::Arr(a);
    assert(m is Arr);
    assert(m->Arr_0 == a);
    if model_depth_le(m, k) {
        assert forall|i: int| 0 <= i < a.len() implies model_depth_le(
            #[trigger] a[i],
            (k - 1) as nat,
        ) by {
            assert(model_depth_le(m->Arr_0[i], (k - 1) as nat));
        }
    } else {
        assert(!(forall|i: int|
            0 <= i < m->Arr_0.len() ==> model_depth_le(#[trigger] m->Arr_0[i], (k - 1) as nat)));
        let w = choose|i: int|
            !(0 <= i < m->Arr_0.len() ==> model_depth_le(#[trigger] m->Arr_0[i], (k - 1) as nat));
        assert(0 <= w < a.len() && !model_depth_le(a[w], (k - 1) as nat));
    }
}

proof fn lemma_depth_obj_unfold(mp: Map<Seq<char>, JsonModel>, k: nat)
    requires
        k > 0,
    ensures
        model_depth_le(JsonModel::Obj(mp), k) == (forall|key: Seq<char>|
            mp.contains_key(key) ==> model_depth_le(#[trigger] mp[key], (k - 1) as nat)),
{
    let m = JsonModel::Obj(mp);
    assert(m is Obj);
    assert(m->Obj_0 == mp);
    if model_depth_le(m, k) {
        assert forall|key: Seq<char>| mp.contains_key(key) implies model_depth_le(
            #[trigger] mp[key],
            (k - 1) as nat,
        ) by {
            assert(model_depth_le(m->Obj_0[key], (k - 1) as nat));
        }
    } else {
        assert(!(forall|key: Seq<char>|
            m->Obj_0.contains_key(key) ==> model_depth_le(
                #[trigger] m->Obj_0[key],
                (k - 1) as nat,
            )));
        let w = choose|key: Seq<char>|
            !(m->Obj_0.contains_key(key) ==> model_depth_le(
                #[trigger] m->Obj_0[key],
                (k - 1) as nat,
            ));
        assert(mp.contains_key(w) && !model_depth_le(mp[w], (k - 1) as nat));
    }
}

/// Every key in the map comes from its last occurrence in the pairs.
pub proof fn lemma_kv_map_value_witness(s: Seq<(Seq<char>, JsonModel)>, key: Seq<char>)
    requires
        kv_map(s).contains_key(key),
    ensures
        exists|i: int|
            0 <= i < s.len() && (#[trigger] s[i]).0 == key && (forall|j: int|
                i < j < s.len() ==> (#[trigger] s[j]).0 != key) && kv_map(s)[key] == s[i].1,
    decreases s.len(),
{
    assert(s.len() > 0);
    assert(kv_map(s) == kv_map(s.drop_last()).insert(s.last().0, s.last().1));
    if s.last().0 == key {
        let i = s.len() - 1;
        assert(s[i] == s.last());
        assert(0 <= i < s.len() && (#[trigger] s[i]).0 == key && (forall|j: int|
            i < j < s.len() ==> (#[trigger] s[j]).0 != key) && kv_map(s)[key] == s[i].1);
    } else {
        assert(kv_map(s.drop_last()).contains_key(key));
        lemma_kv_map_value_witness(s.drop_last(), key);
        let i = choose|i: int|
            0 <= i < s.drop_last().len() && (#[trigger] s.drop_last()[i]).0 == key && (forall|
                j: int,
            |
                i < j < s.drop_last().len() ==> (#[trigger] s.drop_last()[j]).0 != key) && kv_map(
                s.drop_last(),
            )[key] == s.drop_last()[i].1;
        assert(s.drop_last()[i] == s[i]);
        assert forall|j: int| i < j < s.len() implies (#[trigger] s[j]).0 != key by {
            if j < s.len() - 1 {
                assert(s.drop_last()[j] == s[j]);
            } else {
                assert(s[j] == s.last());
            }
        }
        assert(0 <= i < s.len() && (#[trigger] s[i]).0 == key && (forall|j: int|
            i < j < s.len() ==> (#[trigger] s[j]).0 != key) && kv_map(s)[key] == s[i].1);
    }
}

/// Whether the key at `i` occurs again later in the object body.
fn key_repeats_after(o: &Vec<(String, Json)>, i: usize) -> (r: bool)
    requires
        i < o@.len(),
    ensures
        r == exists|u: int| i < u < o@.len() && (#[trigger] o@[u]).0@ == o@[i as int].0@,
{
    let n = o.len();
    let mut u: usize = i + 1;
    while u < n
        invariant
            i < n,
            n == o@.len(),
            i + 1 <= u <= n,
            forall|t: int| i < t < u ==> (#[trigger] o@[t]).0@ != o@[i as int].0@,
        decreases n - u,
    {
        if crate::text::str_eq(o[u].0.as_str(), o[i].0.as_str()) {
            return true;
        }
        u += 1;
    }
    false
}

/// Whether a value nests containers at most `k` deep, judged on the model:
/// an object field a later duplicate key overrides does not count.
pub fn json_within_depth(j: &Json, k: u64) -> (r: bool)
    ensures
        r == model_depth_le(j.deep_view(), k as nat),
    decreases k,
{
    match j {
        Json::Arr(a) => {
            if k == 0 {
                return false;
            }
            let ghost am = arr_model(a@);
            let n = a.len();
            let mut i: usize = 0;
            while i < n
                invariant
                    1 <= k,
                    n == a@.len(),
                    i <= n,
                    am == arr_model(a@),
                    j.deep_view() == JsonModel::Arr(am),
                    forall|t: int| 0 <= t < i ==> model_depth_le(#[trigger] am[t], (k - 1) as nat),
                decreases n - i,
            {
                proof {
                    assert(am[i as int] == json_model(a@[i as int]));
                }
                if !json_within_depth(&a[i], k - 1) {
                    proof {
                        lemma_depth_arr_unfold(am, k as nat);
                        assert(!model_depth_le(am[i as int], ((k - 1) as u64) as nat));
                    }
                    return false;
                }
                i += 1;
            }
            proof {
                lemma_depth_arr_unfold(am, k as nat);
            }
            true
        },
        Json::Obj(o) => {
            if k == 0 {
                return false;
            }
            let ghost om = obj_model(o@);
            let n = o.len();
            let mut i: usize = 0;
            while i < n
                invariant
                    1 <= k,
                    n == o@.len(),
                    i <= n,
                    om == obj_model(o@),
                    j.deep_view() == JsonModel::Obj(om),
                    forall|t: int|
                        #![trigger o@[t]]
                        0 <= t < i ==> ((forall|u: int|
                            t < u < o@.len() ==> (#[trigger] o@[u]).0@ != o@[t].0@)
                            ==> model_depth_le(o@[t].1.deep_view(), (k - 1) as nat)),
                decreases n - i,
            {
                if !key_repeats_after(o, i) {
                    if !json_within_depth(&o[i].1, k - 1) {
                        proof {
                            assert forall|u: int|
                                (i as int) < u < pairs_model(o@).len() implies (
                            #[trigger] pairs_model(o@)[u]).0 != pairs_model(o@)[i as int].0 by {
                                assert(o@[u].0@ != o@[i as int].0@);
                            }
                            lemma_kv_map_found(pairs_model(o@), i as int);
                            assert(pairs_model(o@)[i as int].0 == o@[i as int].0@);
                            assert(pairs_model(o@)[i as int].1 == o@[i as int].1.deep_view());
                            assert(om.contains_key(o@[i as int].0@));
                            assert(om[o@[i as int].0@] == o@[i as int].1.deep_view());
                            lemma_depth_obj_unfold(om, k as nat);
                            assert(!model_depth_le(om[o@[i as int].0@], ((k as nat) - 1) as nat));
                        }
                        return false;
                    }
                }
                i += 1;
            }
            proof {
                assert forall|key: Seq<char>| om.contains_key(key) implies model_depth_le(
                    #[trigger] om[key],
                    (k - 1) as nat,
                ) by {
                    lemma_kv_map_value_witness(pairs_model(o@), key);
                    let t = choose|t: int|
                        0 <= t < pairs_model(o@).len() && (#[trigger] pairs_model(o@)[t]).0 == key
                            && (forall|j2: int|
                            t < j2 < pairs_model(o@).len() ==> (#[trigger] pairs_model(o@)[j2]).0
                                != key) && kv_map(pairs_model(o@))[key] == pairs_model(o@)[t].1;
                    assert(o@[t].0@ == key);
                    assert(om[key] == o@[t].1.deep_view());
                    assert forall|u: int| t < u < o@.len() implies (#[trigger] o@[u]).0@
                        != o@[t].0@ by {
                        assert(pairs_model(o@)[u].0 == o@[u].0@);
                    }
                    assert(model_depth_le(o@[t].1.deep_view(), (k - 1) as nat));
                }
                lemma_depth_obj_unfold(om, k as nat);
            }
            true
        },
        _ => true,
    }
}

/// A fresh, empty object body.
pub fn obj_new() -> (r: Vec<(String, Json)>)
    ensures
        r@.len() == 0,
        obj_model(r@) == Map::<Seq<char>, JsonModel>::empty(),
{
    let r: Vec<(String, Json)> = Vec::new();
    proof {
        assert(pairs_model(r@) =~= Seq::<(Seq<char>, JsonModel)>::empty());
        assert(obj_model(r@) =~= Map::<Seq<char>, JsonModel>::empty());
    }
    r
}

/// Appends one key/value pair to an object body.
pub fn obj_push(fields: &mut Vec<(String, Json)>, key: &str, v: Json)
    ensures
        obj_model(final(fields)@) == obj_model(old(fields)@).insert(key@, v.deep_view()),
        final(fields)@.len() == old(fields)@.len() + 1,
{
    fields.push((key.to_owned(), v));
    proof {
        let p = fields@.last();
        assert(fields@ =~= old(fields)@.push(p));
        lemma_obj_model_push(old(fields)@, p);
    }
}

/// Looks a key up in an object body: the value of its last occurrence.
pub fn obj_get<'a>(fields: &'a Vec<(String, Json)>, key: &str) -> (r: Option<&'a Json>)
    ensures
        match r {
            Some(j) => obj_model(fields@).contains_key(key@) && j.deep_view() == obj_model(
                fields@,
            )[key@],
            None => !obj_model(fields@).contains_key(key@),
        },
{
    let mut i: usize = fields.len();
    while i > 0
        invariant
            i <= fields@.len(),
            forall|j: int| i <= j < fields@.len() ==> (#[trigger] fields@[j]).0@ != key@,
        decreases i,
    {
        i -= 1;
        if crate::text::str_eq(fields[i].0.as_str(), key) {
            proof {
                assert forall|j: int|
                    (i as int) < j < pairs_model(fields@).len() implies (#[trigger] pairs_model(
                    fields@,
                )[j]).0 != pairs_model(fields@)[i as int].0 by {
                    assert(fields@[j].0@ != key@);
                }
                lemma_kv_map_found(pairs_model(fields@), i as int);
            }
            return Some(&fields[i].1);
        }
    }
    proof {
        assert forall|j: int| 0 <= j < pairs_model(fields@).len() implies (#[trigger] pairs_model(
            fields@,
        )[j]).0 != key@ by {
            assert(fields@[j].0@ != key@);
        }
        lemma_kv_map_absent(pairs_model(fields@), key@);
    }
    None
}

} // verus!
