//! The generic structured document that charts are encoded into and decoded from.
use vstd::prelude::*;

verus! {

/// Mathematical model of a JSON document.
pub enum Json {
    Null,
    Bool(bool),
    Number(int),
    Str(Seq<char>),
    Array(Seq<Json>),
    Object(Seq<(Seq<char>, Json)>),
}

/// A JSON document with integer numbers; objects keep their entries in order.
#[derive(Debug, PartialEq, Eq)]
pub enum JsonValue {
    Null,
    Bool(bool),
    Number(i64),
    Str(String),
    Array(Vec<JsonValue>),
    Object(Vec<(String, JsonValue)>),
}

impl View for JsonValue {
    type V = Json;

    open spec fn view(&self) -> Json
        decreases self,
    {
        match self {
            JsonValue::Null => Json::Null,
            JsonValue::Bool(b) => Json::Bool(*b),
            JsonValue::Number(n) => Json::Number(*n as int),
            JsonValue::Str(s) => Json::Str(s@),
            JsonValue::Array(a) => Json::Array(
                Seq::new(
                    a@.len(),
                    |i: int|
                        if 0 <= i < a.len() {
                            a[i].view()
                        } else {
                            Json::Null
                        },
                ),
            ),
            JsonValue::Object(es) => {
                let values = Seq::new(
                    es@.len(),
                    |i: int|
                        if 0 <= i < es.len() {
                            es[i].1.view()
                        } else {
                            Json::Null
                        },
                );
                Json::Object(Seq::new(es@.len(), |i: int| (es@[i].0@, values[i])))
            },
        }
    }
}

pub open spec fn opt_str_view(o: Option<String>) -> Option<Seq<char>> {
    match o {
        Some(s) => Some(s@),
        None => None,
    }
}

pub open spec fn opt_int_view(o: Option<i64>) -> Option<int> {
    match o {
        Some(n) => Some(n as int),
        None => None,
    }
}

pub open spec fn opt_json_view(o: Option<&JsonValue>) -> Option<Json> {
    match o {
        Some(j) => Some(j@),
        None => None,
    }
}

pub open spec fn items_view(a: Seq<JsonValue>) -> Seq<Json> {
    a.map_values(|v: JsonValue| v@)
}

pub open spec fn entries_view(es: Seq<(String, JsonValue)>) -> Seq<(Seq<char>, Json)> {
    es.map_values(|e: (String, JsonValue)| (e.0@, e.1@))
}

/// The value stored under `k`; a later entry with the same key hides an earlier one.
pub closed spec fn obj_get(es: Seq<(Seq<char>, Json)>, k: Seq<char>) -> Option<Json>
    decreases es.len(),
{
    if es.len() == 0 {
        None
    } else if es.last().0 == k {
        Some(es.last().1)
    } else {
        obj_get(es.drop_last(), k)
    }
}

pub broadcast proof fn lemma_obj_get_push(es: Seq<(Seq<char>, Json)>, e: (Seq<char>, Json), k: Seq<char>)
    ensures
        #[trigger] obj_get(es.push(e), k) == if e.0 == k {
            Some(e.1)
        } else {
            obj_get(es, k)
        },
{
    assert(es.push(e).drop_last() =~= es);
}

/// Appends the entry `(k, v)` when a value is present.
pub closed spec fn push_opt(es: Seq<(Seq<char>, Json)>, k: Seq<char>, v: Option<Json>) -> Seq<(Seq<char>, Json)> {
    match v {
        Some(j) => es.push((k, j)),
        None => es,
    }
}

/// Appends the entry `(k, v)` when the sequence `v` is not empty.
pub closed spec fn push_nonempty(es: Seq<(Seq<char>, Json)>, k: Seq<char>, v: Seq<Json>) -> Seq<(Seq<char>, Json)> {
    if v.len() == 0 {
        es
    } else {
        es.push((k, Json::Array(v)))
    }
}

pub proof fn lemma_push_opt(es: Seq<(Seq<char>, Json)>, k: Seq<char>, v: Option<Json>)
    ensures
        v is None ==> push_opt(es, k, v) == es,
        v matches Some(j) ==> push_opt(es, k, v) == es.push((k, j)),
{
}

pub proof fn lemma_push_nonempty(es: Seq<(Seq<char>, Json)>, k: Seq<char>, v: Seq<Json>)
    ensures
        v.len() == 0 ==> push_nonempty(es, k, v) == es,
        v.len() > 0 ==> push_nonempty(es, k, v) == es.push((k, Json::Array(v))),
{
}

/// Looking a key up after an optional entry was appended.
pub broadcast proof fn lemma_obj_get_push_opt(
    es: Seq<(Seq<char>, Json)>,
    k: Seq<char>,
    v: Option<Json>,
    key: Seq<char>,
)
    ensures
        #[trigger] obj_get(push_opt(es, k, v), key) == if k == key && v is Some {
            v
        } else {
            obj_get(es, key)
        },
{
    broadcast use lemma_obj_get_push;

}

/// Looking a key up after a list entry was appended.
pub broadcast proof fn lemma_obj_get_push_nonempty(
    es: Seq<(Seq<char>, Json)>,
    k: Seq<char>,
    v: Seq<Json>,
    key: Seq<char>,
)
    ensures
        #[trigger] obj_get(push_nonempty(es, k, v), key) == if k == key && v.len() > 0 {
            Some(Json::Array(v))
        } else {
            obj_get(es, key)
        },
{
    broadcast use lemma_obj_get_push;

}

pub proof fn lemma_obj_get_empty(key: Seq<char>)
    ensures
        obj_get(Seq::empty(), key) is None,
{
}

pub proof fn lemma_singleton_get(k: Seq<char>, j: Json, key: Seq<char>)
    ensures
        obj_get(seq![(k, j)], key) == if k == key {
            Some(j)
        } else {
            None
        },
{
    let es = seq![(k, j)];
    assert(es.drop_last() =~= Seq::<(Seq<char>, Json)>::empty());
    assert(es.last() == (k, j));
    assert(obj_get(es.drop_last(), key) is None);
}

pub proof fn lemma_scalar_round_trips(s: Option<Seq<char>>, b: Option<bool>, n: Option<int>)
    ensures
        dec_opt_str(opt_str_json(s)) == Some(s),
        dec_opt_bool(opt_bool_json(b)) == Some(b),
        dec_opt_int(opt_int_json(n)) == Some(n),
{
}

pub open spec fn opt_str_json(v: Option<Seq<char>>) -> Option<Json> {
    match v {
        Some(s) => Some(Json::Str(s)),
        None => None,
    }
}

pub open spec fn opt_bool_json(v: Option<bool>) -> Option<Json> {
    match v {
        Some(b) => Some(Json::Bool(b)),
        None => None,
    }
}

pub open spec fn opt_int_json(v: Option<int>) -> Option<Json> {
    match v {
        Some(n) => Some(Json::Number(n)),
        None => None,
    }
}

/// Reads an optional text field: absent or `null` give `None`.
pub open spec fn dec_opt_str(v: Option<Json>) -> Option<Option<Seq<char>>> {
    match v {
        None => Some(None),
        Some(Json::Null) => Some(None),
        Some(Json::Str(s)) => Some(Some(s)),
        _ => None,
    }
}

pub open spec fn dec_opt_bool(v: Option<Json>) -> Option<Option<bool>> {
    match v {
        None => Some(None),
        Some(Json::Null) => Some(None),
        Some(Json::Bool(b)) => Some(Some(b)),
        _ => None,
    }
}

pub open spec fn dec_opt_int(v: Option<Json>) -> Option<Option<int>> {
    match v {
        None => Some(None),
        Some(Json::Null) => Some(None),
        Some(Json::Number(n)) => Some(Some(n)),
        _ => None,
    }
}

impl JsonValue {
    pub fn object(es: Vec<(String, JsonValue)>) -> (r: JsonValue)
        ensures
            r@ == Json::Object(entries_view(es@)),
    {
        let r = JsonValue::Object(es);
        assert forall|i: int| 0 <= i < es.len() implies #[trigger] r@->Object_0[i] == entries_view(
            es@,
        )[i] by {
            assert(r@ is Object);
        }
        assert(r@->Object_0 =~= entries_view(es@));
        r
    }

    pub fn array(a: Vec<JsonValue>) -> (r: JsonValue)
        ensures
            r@ == Json::Array(items_view(a@)),
    {
        let r = JsonValue::Array(a);
        assert forall|i: int| 0 <= i < a.len() implies #[trigger] r@->Array_0[i] == items_view(
            a@,
        )[i] by {}
        assert(r@->Array_0 =~= items_view(a@));
        r
    }

    pub fn text(s: &str) -> (r: JsonValue)
        ensures
            r@ == Json::Str(s@),
    {
        JsonValue::Str(String::from_str(s))
    }

    /// The entries of an object, or `None` for any other value.
    pub fn entries(&self) -> (r: Option<&Vec<(String, JsonValue)>>)
        ensures
            self@ is Object <==> r is Some,
            r matches Some(es) ==> self@ == Json::Object(entries_view(es@)),
    {
        match self {
            JsonValue::Object(es) => {
                assert forall|i: int| 0 <= i < es.len() implies #[trigger] self@->Object_0[i]
                    == entries_view(es@)[i] by {}
                assert(self@->Object_0 =~= entries_view(es@));
                Some(es)
            },
            _ => None,
        }
    }

    /// The items of an array, or `None` for any other value.
    pub fn items(&self) -> (r: Option<&Vec<JsonValue>>)
        ensures
            self@ is Array <==> r is Some,
            r matches Some(a) ==> self@ == Json::Array(items_view(a@)),
    {
        match self {
            JsonValue::Array(a) => {
                assert forall|i: int| 0 <= i < a.len() implies #[trigger] self@->Array_0[i]
                    == items_view(a@)[i] by {}
                assert(self@->Array_0 =~= items_view(a@));
                Some(a)
            },
            _ => None,
        }
    }
}

/// Looks `key` up in the entries of an object, the last entry with that key winning.
pub fn lookup<'a>(es: &'a Vec<(String, JsonValue)>, key: &str) -> (r: Option<&'a JsonValue>)
    ensures
        r matches Some(v) ==> obj_get(entries_view(es@), key@) == Some(v@),
        r is None ==> obj_get(entries_view(es@), key@) is None,
{
    let k = String::from_str(key);
    let mut i: usize = es.len();
    assert(es@.subrange(0, i as int) =~= es@);
    while i > 0
        invariant
            i <= es.len(),
            k@ == key@,
            obj_get(entries_view(es@), key@) == obj_get(entries_view(es@.subrange(0, i as int)), key@),
        decreases i,
    {
        let ghost pre = entries_view(es@.subrange(0, i as int));
        assert(pre.drop_last() =~= entries_view(es@.subrange(0, i - 1)));
        if es[i - 1].0 == k {
            return Some(&es[i - 1].1);
        }
        i = i - 1;
    }
    assert(entries_view(es@.subrange(0, 0)).len() == 0);
    None
}

pub fn copy_opt_str(o: &Option<String>) -> (r: Option<String>)
    ensures
        r == *o,
{
    match o {
        Some(s) => Some(s.clone()),
        None => None,
    }
}

/// Whether `s` holds exactly the text `lit`.
pub fn text_is(s: &String, lit: &str) -> (r: bool)
    ensures
        r == (s@ == lit@),
{
    *s == String::from_str(lit)
}

pub fn push_entry(es: &mut Vec<(String, JsonValue)>, key: &str, v: JsonValue)
    ensures
        entries_view(final(es)@) == entries_view(old(es)@).push((key@, v@)),
{
    let ghost v0 = v@;
    es.push((String::from_str(key), v));
    assert(entries_view(final(es)@) =~= entries_view(old(es)@).push((key@, v0)));
}

pub fn push_opt_str(es: &mut Vec<(String, JsonValue)>, key: &str, v: &Option<String>)
    ensures
        entries_view(final(es)@) == push_opt(
            entries_view(old(es)@),
            key@,
            opt_str_json(opt_str_view(*v)),
        ),
{
    match v {
        Some(s) => push_entry(es, key, JsonValue::Str(s.clone())),
        None => {},
    }
}

pub fn push_opt_bool(es: &mut Vec<(String, JsonValue)>, key: &str, v: Option<bool>)
    ensures
        entries_view(final(es)@) == push_opt(entries_view(old(es)@), key@, opt_bool_json(v)),
{
    match v {
        Some(b) => push_entry(es, key, JsonValue::Bool(b)),
        None => {},
    }
}

pub fn push_opt_int(es: &mut Vec<(String, JsonValue)>, key: &str, v: Option<i64>)
    ensures
        entries_view(final(es)@) == push_opt(
            entries_view(old(es)@),
            key@,
            opt_int_json(opt_int_view(v)),
        ),
{
    match v {
        Some(n) => push_entry(es, key, JsonValue::Number(n)),
        None => {},
    }
}

pub fn dec_opt_str_exec(v: Option<&JsonValue>) -> (r: Option<Option<String>>)
    ensures
        r is Some <==> dec_opt_str(opt_json_view(v)) is Some,
        r matches Some(o) ==> dec_opt_str(opt_json_view(v)) == Some(
            opt_str_view(o),
        ),
{
    match v {
        None => Some(None),
        Some(JsonValue::Null) => Some(None),
        Some(JsonValue::Str(s)) => Some(Some(s.clone())),
        _ => None,
    }
}

pub fn dec_opt_bool_exec(v: Option<&JsonValue>) -> (r: Option<Option<bool>>)
    ensures
        r == dec_opt_bool(opt_json_view(v)),
{
    match v {
        None => Some(None),
        Some(JsonValue::Null) => Some(None),
        Some(JsonValue::Bool(b)) => Some(Some(*b)),
        _ => None,
    }
}

pub fn dec_opt_int_exec(v: Option<&JsonValue>) -> (r: Option<Option<i64>>)
    ensures
        r is Some <==> dec_opt_int(opt_json_view(v)) is Some,
        r matches Some(o) ==> dec_opt_int(opt_json_view(v)) == Some(
            opt_int_view(o),
        ),
{
    match v {
        None => Some(None),
        Some(JsonValue::Null) => Some(None),
        Some(JsonValue::Number(n)) => Some(Some(*n)),
        _ => None,
    }
}

} // verus!

verus! {

/// Why a document could not be decoded.
#[derive(Debug, Clone, PartialEq, Eq)]
pub enum DecodeError {
    /// A series record has no `type` text.
    MissingType,
    /// A series record names a type outside the supported set.
    UnknownVariant(String),
    /// A field of a record holds a value of the wrong shape.
    InvalidField { record: String, field: String },
    /// The value is not of the expected kind (object, array, number, ...).
    InvalidType,
    /// A number list holds a count of elements that no variant takes.
    InvalidLength(usize),
}

/// Model of [`DecodeError`].
pub enum DecodeFailure {
    MissingType,
    UnknownVariant(Seq<char>),
    InvalidField(Seq<char>, Seq<char>),
    InvalidType,
    InvalidLength(nat),
}

impl View for DecodeError {
    type V = DecodeFailure;

    open spec fn view(&self) -> DecodeFailure {
        match self {
            DecodeError::MissingType => DecodeFailure::MissingType,
            DecodeError::UnknownVariant(t) => DecodeFailure::UnknownVariant(t@),
            DecodeError::InvalidField { record, field } => DecodeFailure::InvalidField(
                record@,
                field@,
            ),
            DecodeError::InvalidType => DecodeFailure::InvalidType,
            DecodeError::InvalidLength(n) => DecodeFailure::InvalidLength(*n as nat),
        }
    }
}

/// The model of a decoding result.
pub open spec fn decoded<T: View>(r: Result<T, DecodeError>) -> Result<T::V, DecodeFailure> {
    match r {
        Ok(v) => Ok(v@),
        Err(e) => Err(e@),
    }
}

pub fn field_error(record: &str, field: &str) -> (e: DecodeError)
    ensures
        e@ == DecodeFailure::InvalidField(record@, field@),
{
    DecodeError::InvalidField { record: String::from_str(record), field: String::from_str(field) }
}

} // verus!

verus! {

/// A type with a fixed JSON form, stated over its model.
pub trait Codec: View + Sized {
    /// The JSON form of a value.
    spec fn encode_spec(v: Self::V) -> Json;

    /// What decoding a JSON value gives.
    spec fn decode_spec(j: Json) -> Result<Self::V, DecodeFailure>;

    /// Decoding the JSON form of a value gives the value back; that form is never `null`.
    proof fn lemma_round_trip(v: Self::V)
        ensures
            Self::decode_spec(Self::encode_spec(v)) == Ok::<Self::V, DecodeFailure>(v),
            !(Self::encode_spec(v) is Null),
    ;

    fn to_json(&self) -> (r: JsonValue)
        ensures
            r@ == Self::encode_spec(self@),
    ;

    fn from_json(j: &JsonValue) -> (r: Result<Self, DecodeError>)
        ensures
            decoded(r) == Self::decode_spec(j@),
    ;
}

pub open spec fn opt_view<T: View>(o: Option<T>) -> Option<T::V> {
    match o {
        Some(x) => Some(x@),
        None => None,
    }
}

pub open spec fn seq_view<T: View>(s: Seq<T>) -> Seq<T::V> {
    s.map_values(|x: T| x@)
}

pub broadcast proof fn lemma_seq_view_update<T: View>(s: Seq<T>, i: int, x: T)
    requires
        0 <= i < s.len(),
    ensures
        #[trigger] seq_view(s.update(i, x)) == seq_view(s).update(i, x@),
{
    assert(seq_view(s.update(i, x)) =~= seq_view(s).update(i, x@));
}

pub open spec fn opt_json<T: Codec>(v: Option<T::V>) -> Option<Json> {
    match v {
        Some(x) => Some(T::encode_spec(x)),
        None => None,
    }
}

pub open spec fn list_json<T: Codec>(v: Seq<T::V>) -> Seq<Json> {
    v.map_values(|x: T::V| T::encode_spec(x))
}

/// Reads an optional field: absent or `null` give `None`; `None` outside means failure.
pub open spec fn dec_opt<T: Codec>(v: Option<Json>) -> Option<Option<T::V>> {
    match v {
        None => Some(None),
        Some(Json::Null) => Some(None),
        Some(j) => match T::decode_spec(j) {
            Ok(x) => Some(Some(x)),
            Err(_) => None,
        },
    }
}

pub open spec fn all_decode<T: Codec>(a: Seq<Json>) -> bool {
    forall|i: int| 0 <= i < a.len() ==> #[trigger] T::decode_spec(a[i]) is Ok
}

/// Reads a list field: absent is the empty list; `None` means failure.
pub open spec fn dec_list<T: Codec>(v: Option<Json>) -> Option<Seq<T::V>> {
    match v {
        None => Some(Seq::empty()),
        Some(Json::Array(a)) => if all_decode::<T>(a) {
            Some(a.map_values(|j: Json| T::decode_spec(j)->Ok_0))
        } else {
            None
        },
        _ => None,
    }
}

pub proof fn lemma_opt_round_trip<T: Codec>(v: Option<T::V>)
    ensures
        dec_opt::<T>(opt_json::<T>(v)) == Some(v),
{
    if let Some(x) = v {
        T::lemma_round_trip(x);
    }
}

pub proof fn lemma_list_round_trip<T: Codec>(v: Seq<T::V>)
    ensures
        dec_list::<T>(Some(Json::Array(list_json::<T>(v)))) == Some(v),
{
    let a = list_json::<T>(v);
    assert forall|i: int| 0 <= i < a.len() implies #[trigger] T::decode_spec(a[i]) is Ok by {
        T::lemma_round_trip(v[i]);
    }
    assert forall|i: int| 0 <= i < a.len() implies #[trigger] T::decode_spec(a[i])->Ok_0 == v[i] by {
        T::lemma_round_trip(v[i]);
    }
    assert(a.map_values(|j: Json| T::decode_spec(j)->Ok_0) =~= v);
}

pub fn push_opt_codec<T: Codec>(es: &mut Vec<(String, JsonValue)>, key: &str, v: &Option<T>)
    ensures
        entries_view(final(es)@) == push_opt(
            entries_view(old(es)@),
            key@,
            opt_json::<T>(opt_view(*v)),
        ),
{
    match v {
        Some(x) => push_entry(es, key, x.to_json()),
        None => {},
    }
}

pub fn list_to_json<T: Codec>(v: &Vec<T>) -> (r: JsonValue)
    ensures
        r@ == Json::Array(list_json::<T>(seq_view(v@))),
{
    let ghost target = list_json::<T>(seq_view(v@));
    let mut a: Vec<JsonValue> = Vec::new();
    let mut i: usize = 0;
    while i < v.len()
        invariant
            i <= v.len(),
            target == list_json::<T>(seq_view(v@)),
            items_view(a@) == target.subrange(0, i as int),
        decreases v.len() - i,
    {
        let ghost a0 = a@;
        let j = v[i].to_json();
        a.push(j);
        assert(items_view(a@) =~= items_view(a0).push(T::encode_spec(v@[i as int]@)));
        assert(target.subrange(0, i + 1) =~= target.subrange(0, i as int).push(target[i as int]));
        i = i + 1;
    }
    assert(target.subrange(0, i as int) =~= target);
    JsonValue::array(a)
}

pub fn push_list<T: Codec>(es: &mut Vec<(String, JsonValue)>, key: &str, v: &Vec<T>)
    ensures
        entries_view(final(es)@) == push_nonempty(
            entries_view(old(es)@),
            key@,
            list_json::<T>(seq_view(v@)),
        ),
{
    if v.len() > 0 {
        let a = list_to_json(v);
        push_entry(es, key, a);
    }
}

pub fn dec_opt_exec<T: Codec>(v: Option<&JsonValue>) -> (r: Option<Option<T>>)
    ensures
        r is Some <==> dec_opt::<T>(opt_json_view(v)) is Some,
        r matches Some(o) ==> dec_opt::<T>(opt_json_view(v)) == Some(opt_view(o)),
{
    match v {
        None => Some(None),
        Some(JsonValue::Null) => Some(None),
        Some(j) => match T::from_json(j) {
            Ok(x) => Some(Some(x)),
            Err(_) => None,
        },
    }
}

pub fn list_from_json<T: Codec>(j: &JsonValue) -> (r: Option<Vec<T>>)
    ensures
        r is Some <==> dec_list::<T>(Some(j@)) is Some,
        r matches Some(o) ==> dec_list::<T>(Some(j@)) == Some(seq_view(o@)),
{
    match j.items() {
        None => None,
        Some(a) => {
            let ghost ja = items_view(a@);
            let mut out: Vec<T> = Vec::new();
            let mut i: usize = 0;
            while i < a.len()
                invariant
                    i <= a.len(),
                    ja == items_view(a@),
                    j@ == Json::Array(ja),
                    all_decode::<T>(ja.subrange(0, i as int)),
                    seq_view(out@) =~= ja.subrange(0, i as int).map_values(
                        |x: Json| T::decode_spec(x)->Ok_0,
                    ),
                decreases a.len() - i,
            {
                assert(ja[i as int] == a@[i as int]@);
                let ghost o0 = out@;
                match T::from_json(&a[i]) {
                    Ok(x) => {
                        out.push(x);
                        assert(ja.subrange(0, i + 1) =~= ja.subrange(0, i as int).push(ja[i as int]));
                        assert(seq_view(out@) =~= seq_view(o0).push(x@));
                    },
                    Err(_) => {
                        assert(!all_decode::<T>(ja));
                        return None;
                    },
                }
                i = i + 1;
            }
            assert(ja.subrange(0, i as int) =~= ja);
            Some(out)
        },
    }
}

pub fn dec_list_exec<T: Codec>(v: Option<&JsonValue>) -> (r: Option<Vec<T>>)
    ensures
        r is Some <==> dec_list::<T>(opt_json_view(v)) is Some,
        r matches Some(o) ==> dec_list::<T>(opt_json_view(v)) == Some(seq_view(o@)),
{
    match v {
        None => {
            let out: Vec<T> = Vec::new();
            assert(seq_view(out@) =~= Seq::<T::V>::empty());
            Some(out)
        },
        Some(j) => list_from_json(j),
    }
}

} // verus!

verus! {

impl Codec for String {
    open spec fn encode_spec(v: Seq<char>) -> Json {
        Json::Str(v)
    }

    open spec fn decode_spec(j: Json) -> Result<Seq<char>, DecodeFailure> {
        match j {
            Json::Str(s) => Ok(s),
            _ => Err(DecodeFailure::InvalidType),
        }
    }

    proof fn lemma_round_trip(v: Seq<char>) {
    }

    fn to_json(&self) -> (r: JsonValue) {
        JsonValue::Str(self.clone())
    }

    fn from_json(j: &JsonValue) -> (r: Result<String, DecodeError>) {
        match j {
            JsonValue::Str(s) => Ok(s.clone()),
            _ => Err(DecodeError::InvalidType),
        }
    }
}

/// A field that holds one or many values: absent when there are none, the bare
/// value when there is one, an array otherwise.
pub open spec fn one_or_many(items: Seq<Json>) -> Option<Json> {
    if items.len() == 0 {
        None
    } else if items.len() == 1 {
        Some(items[0])
    } else {
        Some(Json::Array(items))
    }
}

pub closed spec fn push_one_or_many(es: Seq<(Seq<char>, Json)>, k: Seq<char>, items: Seq<Json>) -> Seq<(Seq<char>, Json)> {
    match one_or_many(items) {
        Some(j) => es.push((k, j)),
        None => es,
    }
}

pub proof fn lemma_push_one_or_many(es: Seq<(Seq<char>, Json)>, k: Seq<char>, items: Seq<Json>)
    ensures
        push_one_or_many(es, k, items) == push_opt(es, k, one_or_many(items)),
{
}

/// Looking a key up after a one-or-many entry was appended.
pub broadcast proof fn lemma_obj_get_one_or_many(
    es: Seq<(Seq<char>, Json)>,
    k: Seq<char>,
    items: Seq<Json>,
    key: Seq<char>,
)
    ensures
        #[trigger] obj_get(push_one_or_many(es, k, items), key) == if k == key && items.len() > 0 {
            one_or_many(items)
        } else {
            obj_get(es, key)
        },
{
    broadcast use lemma_obj_get_push;

}

/// Reads a one-or-many field: an array is a list, any other value a single item.
pub open spec fn dec_one_or_many<T: Codec>(v: Option<Json>) -> Option<Seq<T::V>> {
    match v {
        None => Some(Seq::empty()),
        Some(Json::Array(a)) => dec_list::<T>(Some(Json::Array(a))),
        Some(j) => match T::decode_spec(j) {
            Ok(x) => Some(seq![x]),
            Err(_) => None,
        },
    }
}

pub proof fn lemma_one_or_many_round_trip<T: Codec>(v: Seq<T::V>)
    requires
        forall|x: T::V| !(#[trigger] T::encode_spec(x) is Array),
    ensures
        dec_one_or_many::<T>(one_or_many(list_json::<T>(v))) == Some(v),
{
    if v.len() == 1 {
        T::lemma_round_trip(v[0]);
        assert(seq![v[0]] =~= v);
    } else if v.len() > 1 {
        lemma_list_round_trip::<T>(v);
    } else {
        assert(v =~= Seq::<T::V>::empty());
    }
}

pub fn push_one_or_many_exec<T: Codec>(es: &mut Vec<(String, JsonValue)>, key: &str, v: &Vec<T>)
    ensures
        entries_view(final(es)@) == push_one_or_many(
            entries_view(old(es)@),
            key@,
            list_json::<T>(seq_view(v@)),
        ),
{
    if v.len() == 1 {
        let j = v[0].to_json();
        push_entry(es, key, j);
    } else if v.len() > 1 {
        let a = list_to_json(v);
        push_entry(es, key, a);
    }
}

pub fn dec_one_or_many_exec<T: Codec>(v: Option<&JsonValue>) -> (r: Option<Vec<T>>)
    ensures
        r is Some <==> dec_one_or_many::<T>(opt_json_view(v)) is Some,
        r matches Some(o) ==> dec_one_or_many::<T>(opt_json_view(v)) == Some(seq_view(o@)),
{
    match v {
        None => {
            let out: Vec<T> = Vec::new();
            assert(seq_view(out@) =~= Seq::<T::V>::empty());
            Some(out)
        },
        Some(j) => {
            if j.items().is_some() {
                list_from_json(j)
            } else {
                match T::from_json(j) {
                    Ok(x) => {
                        let ghost xv = x@;
                        let out = vec![x];
                        assert(seq_view(out@) =~= seq![xv]);
                        Some(out)
                    },
                    Err(_) => None,
                }
            }
        },
    }
}

} // verus!
