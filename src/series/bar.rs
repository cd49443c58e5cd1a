//! The bar series.
use vstd::prelude::*;
use crate::element::{DataPoint, DataPointView};
use crate::json::{
    dec_list, dec_list_exec, dec_opt_int, dec_opt_int_exec, dec_opt_str, dec_opt_str_exec, decoded,
    entries_view, field_error, lemma_list_round_trip, lemma_scalar_round_trips,
    lemma_singleton_get, list_json, lookup, obj_get, opt_int_json, opt_int_view, opt_str_json,
    opt_str_view, push_entry, push_list, push_nonempty, push_opt, push_opt_int, push_opt_str,
    seq_view, text_is, Codec, DecodeError, DecodeFailure, Json, JsonValue,
};

verus! {

/// A series drawn as one bar per data point.
#[derive(Debug, Clone, PartialEq)]
pub struct Bar {
    id: Option<String>,
    name: Option<String>,
    stack: Option<String>,
    bar_width: Option<i64>,
    x_axis_index: Option<i64>,
    y_axis_index: Option<i64>,
    data: Vec<DataPoint>,
}

/// Model of [`Bar`].
pub struct BarView {
    pub id: Option<Seq<char>>,
    pub name: Option<Seq<char>>,
    pub stack: Option<Seq<char>>,
    pub bar_width: Option<int>,
    pub x_axis_index: Option<int>,
    pub y_axis_index: Option<int>,
    pub data: Seq<DataPointView>,
}

impl View for Bar {
    type V = BarView;

    closed spec fn view(&self) -> BarView {
        BarView {
            id: opt_str_view(self.id),
            name: opt_str_view(self.name),
            stack: opt_str_view(self.stack),
            bar_width: opt_int_view(self.bar_width),
            x_axis_index: opt_int_view(self.x_axis_index),
            y_axis_index: opt_int_view(self.y_axis_index),
            data: seq_view(self.data@),
        }
    }
}

/// A bar with every field unset.
pub open spec fn empty_bar() -> BarView {
    BarView {
        id: None,
        name: None,
        stack: None,
        bar_width: None,
        x_axis_index: None,
        y_axis_index: None,
        data: Seq::empty(),
    }
}

/// The entries of the JSON object of a bar: its type tag first, then each field that is set, in declaration order.
pub open spec fn bar_entries(v: BarView) -> Seq<(Seq<char>, Json)> {
    let es = seq![("type"@, Json::Str("bar"@))];
    let es = push_opt(es, "id"@, opt_str_json(v.id));
    let es = push_opt(es, "name"@, opt_str_json(v.name));
    let es = push_opt(es, "stack"@, opt_str_json(v.stack));
    let es = push_opt(es, "barWidth"@, opt_int_json(v.bar_width));
    let es = push_opt(es, "xAxisIndex"@, opt_int_json(v.x_axis_index));
    let es = push_opt(es, "yAxisIndex"@, opt_int_json(v.y_axis_index));
    push_nonempty(es, "data"@, list_json::<DataPoint>(v.data))
}

pub open spec fn bar_json(v: BarView) -> Json {
    Json::Object(bar_entries(v))
}

pub open spec fn bad_bar(field: Seq<char>) -> Result<BarView, DecodeFailure> {
    Err(DecodeFailure::InvalidField("bar"@, field))
}

/// Decodes the fields of a bar into `base`,
/// failing on the first, in declaration order, of the wrong shape.
pub open spec fn bar_decode_fields(es: Seq<(Seq<char>, Json)>, base: BarView) -> Result<BarView, DecodeFailure> {
    let id = dec_opt_str(obj_get(es, "id"@));
    let name = dec_opt_str(obj_get(es, "name"@));
    let stack = dec_opt_str(obj_get(es, "stack"@));
    let bar_width = dec_opt_int(obj_get(es, "barWidth"@));
    let x_axis_index = dec_opt_int(obj_get(es, "xAxisIndex"@));
    let y_axis_index = dec_opt_int(obj_get(es, "yAxisIndex"@));
    let data = dec_list::<DataPoint>(obj_get(es, "data"@));
    if id is None {
        bad_bar("id"@)
    } else if name is None {
        bad_bar("name"@)
    } else if stack is None {
        bad_bar("stack"@)
    } else if bar_width is None {
        bad_bar("barWidth"@)
    } else if x_axis_index is None {
        bad_bar("xAxisIndex"@)
    } else if y_axis_index is None {
        bad_bar("yAxisIndex"@)
    } else if data is None {
        bad_bar("data"@)
    } else {
        Ok(
            BarView {
                id: id->Some_0,
                name: name->Some_0,
                stack: stack->Some_0,
                bar_width: bar_width->Some_0,
                x_axis_index: x_axis_index->Some_0,
                y_axis_index: y_axis_index->Some_0,
                data: data->Some_0,
                ..base
            },
        )
    }
}

/// Decodes the entries of a bar object: the type tag must read `bar`; the first field of the wrong shape is named.
pub open spec fn bar_decode_entries(es: Seq<(Seq<char>, Json)>) -> Result<BarView, DecodeFailure> {
    if obj_get(es, "type"@) != Some(Json::Str("bar"@)) {
        bad_bar("type"@)
    } else {
        bar_decode_fields(es, empty_bar())
    }
}

pub open spec fn bar_decode(j: Json) -> Result<BarView, DecodeFailure> {
    match j {
        Json::Object(es) => bar_decode_entries(es),
        _ => Err(DecodeFailure::InvalidType),
    }
}

/// Lengths and characters that tell the keys of a bar object apart.
proof fn bar_key_facts()
    ensures
        "type"@.len() == 4 && "type"@[0] == 't',
        "id"@.len() == 2,
        "name"@.len() == 4 && "name"@[0] == 'n',
        "stack"@.len() == 5,
        "barWidth"@.len() == 8,
        "xAxisIndex"@.len() == 10 && "xAxisIndex"@[0] == 'x',
        "yAxisIndex"@.len() == 10 && "yAxisIndex"@[0] == 'y',
        "data"@.len() == 4 && "data"@[0] == 'd',
{
    reveal_strlit("type");
    reveal_strlit("id");
    reveal_strlit("name");
    reveal_strlit("stack");
    reveal_strlit("barWidth");
    reveal_strlit("xAxisIndex");
    reveal_strlit("yAxisIndex");
    reveal_strlit("data");
}

/// Decoding the JSON form of a bar gives it back.
pub proof fn bar_round_trip(v: BarView)
    ensures
        bar_decode(bar_json(v)) == Ok::<BarView, DecodeFailure>(v),
{
    broadcast use crate::json::lemma_obj_get_push_opt, crate::json::lemma_obj_get_push_nonempty, crate::json::lemma_obj_get_one_or_many;

    bar_key_facts();
    let es = bar_entries(v);
    lemma_singleton_get("type"@, Json::Str("bar"@), "type"@);
    lemma_singleton_get("type"@, Json::Str("bar"@), "id"@);
    lemma_singleton_get("type"@, Json::Str("bar"@), "name"@);
    lemma_singleton_get("type"@, Json::Str("bar"@), "stack"@);
    lemma_singleton_get("type"@, Json::Str("bar"@), "barWidth"@);
    lemma_singleton_get("type"@, Json::Str("bar"@), "xAxisIndex"@);
    lemma_singleton_get("type"@, Json::Str("bar"@), "yAxisIndex"@);
    lemma_singleton_get("type"@, Json::Str("bar"@), "data"@);
    assert(obj_get(es, "type"@) == Some(Json::Str("bar"@)));
    assert(obj_get(es, "id"@) == opt_str_json(v.id));
    lemma_scalar_round_trips(v.id, None, None);
    assert(obj_get(es, "name"@) == opt_str_json(v.name));
    lemma_scalar_round_trips(v.name, None, None);
    assert(obj_get(es, "stack"@) == opt_str_json(v.stack));
    lemma_scalar_round_trips(v.stack, None, None);
    assert(obj_get(es, "barWidth"@) == opt_int_json(v.bar_width));
    lemma_scalar_round_trips(None, None, v.bar_width);
    assert(obj_get(es, "xAxisIndex"@) == opt_int_json(v.x_axis_index));
    lemma_scalar_round_trips(None, None, v.x_axis_index);
    assert(obj_get(es, "yAxisIndex"@) == opt_int_json(v.y_axis_index));
    lemma_scalar_round_trips(None, None, v.y_axis_index);
    if v.data.len() > 0 {
        assert(obj_get(es, "data"@) == Some(Json::Array(list_json::<DataPoint>(v.data))));
        lemma_list_round_trip::<DataPoint>(v.data);
    } else {
        assert(obj_get(es, "data"@) is None);
        assert(v.data =~= Seq::<DataPointView>::empty());
    }
}

impl Bar {
    fn decode_fields(es: &Vec<(String, JsonValue)>, base: Bar) -> (r: Result<Bar, DecodeError>)
        ensures
            decoded(r) == bar_decode_fields(entries_view(es@), base@),
    {
        let id = match dec_opt_str_exec(lookup(es, "id")) {
            Some(v) => v,
            None => return Err(field_error("bar", "id")),
        };
        let name = match dec_opt_str_exec(lookup(es, "name")) {
            Some(v) => v,
            None => return Err(field_error("bar", "name")),
        };
        let stack = match dec_opt_str_exec(lookup(es, "stack")) {
            Some(v) => v,
            None => return Err(field_error("bar", "stack")),
        };
        let bar_width = match dec_opt_int_exec(lookup(es, "barWidth")) {
            Some(v) => v,
            None => return Err(field_error("bar", "barWidth")),
        };
        let x_axis_index = match dec_opt_int_exec(lookup(es, "xAxisIndex")) {
            Some(v) => v,
            None => return Err(field_error("bar", "xAxisIndex")),
        };
        let y_axis_index = match dec_opt_int_exec(lookup(es, "yAxisIndex")) {
            Some(v) => v,
            None => return Err(field_error("bar", "yAxisIndex")),
        };
        let data = match dec_list_exec::<DataPoint>(lookup(es, "data")) {
            Some(v) => v,
            None => return Err(field_error("bar", "data")),
        };
        Ok(Bar { id, name, stack, bar_width, x_axis_index, y_axis_index, data, ..base })
    }
}

impl Codec for Bar {
    open spec fn encode_spec(v: BarView) -> Json {
        bar_json(v)
    }

    open spec fn decode_spec(j: Json) -> Result<BarView, DecodeFailure> {
        bar_decode(j)
    }

    proof fn lemma_round_trip(v: BarView) {
        bar_round_trip(v);
    }

    fn to_json(&self) -> (r: JsonValue) {
        let mut es: Vec<(String, JsonValue)> = Vec::new();
        push_entry(&mut es, "type", JsonValue::text("bar"));
        assert(entries_view(es@) =~= seq![("type"@, Json::Str("bar"@))]);
        push_opt_str(&mut es, "id", &self.id);
        push_opt_str(&mut es, "name", &self.name);
        push_opt_str(&mut es, "stack", &self.stack);
        push_opt_int(&mut es, "barWidth", self.bar_width);
        push_opt_int(&mut es, "xAxisIndex", self.x_axis_index);
        push_opt_int(&mut es, "yAxisIndex", self.y_axis_index);
        push_list(&mut es, "data", &self.data);
        JsonValue::object(es)
    }

    fn from_json(j: &JsonValue) -> (r: Result<Bar, DecodeError>) {
        let es = match j.entries() {
            Some(es) => es,
            None => return Err(DecodeError::InvalidType),
        };
        let tag_ok = match lookup(es, "type") {
            Some(JsonValue::Str(t)) => text_is(t, "bar"),
            _ => false,
        };
        if !tag_ok {
            return Err(field_error("bar", "type"));
        }
        let v = Bar::decode_fields(es, Bar::new())?;
        Ok(v)
    }
}

impl Bar {
    pub fn new() -> (r: Bar)
        ensures
            r@ == empty_bar(),
    {
        let data: Vec<DataPoint> = Vec::new();
        assert(seq_view(data@) =~= Seq::<DataPointView>::empty());
        Bar { id: None, name: None, stack: None, bar_width: None, x_axis_index: None, y_axis_index: None, data }
    }

    pub fn id(self, v: &str) -> (r: Bar)
        ensures
            r@ == (BarView { id: Some(v@), ..self@ }),
    {
        Bar { id: Some(String::from_str(v)), ..self }
    }

    pub fn name(self, v: &str) -> (r: Bar)
        ensures
            r@ == (BarView { name: Some(v@), ..self@ }),
    {
        Bar { name: Some(String::from_str(v)), ..self }
    }

    pub fn stack(self, v: &str) -> (r: Bar)
        ensures
            r@ == (BarView { stack: Some(v@), ..self@ }),
    {
        Bar { stack: Some(String::from_str(v)), ..self }
    }

    pub fn bar_width(self, v: i64) -> (r: Bar)
        ensures
            r@ == (BarView { bar_width: Some(v as int), ..self@ }),
    {
        Bar { bar_width: Some(v), ..self }
    }

    pub fn x_axis_index(self, v: i64) -> (r: Bar)
        ensures
            r@ == (BarView { x_axis_index: Some(v as int), ..self@ }),
    {
        Bar { x_axis_index: Some(v), ..self }
    }

    pub fn y_axis_index(self, v: i64) -> (r: Bar)
        ensures
            r@ == (BarView { y_axis_index: Some(v as int), ..self@ }),
    {
        Bar { y_axis_index: Some(v), ..self }
    }

    pub fn data(self, v: Vec<DataPoint>) -> (r: Bar)
        ensures
            r@ == (BarView { data: seq_view(v@), ..self@ }),
    {
        Bar { data: v, ..self }
    }
}

} // verus!
