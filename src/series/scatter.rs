//! The scatter series.
use vstd::prelude::*;
use crate::element::{CoordinateSystem, DataPoint, DataPointView, Symbol};
use crate::style::{Emphasis, EmphasisView, ItemStyle, ItemStyleView, Label, LabelView};
use crate::json::{
    dec_list, dec_list_exec, dec_opt, dec_opt_exec, dec_opt_int, dec_opt_int_exec, dec_opt_str,
    dec_opt_str_exec, decoded, entries_view, field_error, lemma_list_round_trip,
    lemma_opt_round_trip, lemma_scalar_round_trips, lemma_singleton_get, list_json, lookup,
    obj_get, opt_int_json, opt_int_view, opt_json, opt_str_json, opt_str_view, opt_view,
    push_entry, push_list, push_nonempty, push_opt, push_opt_codec, push_opt_int, push_opt_str,
    seq_view, text_is, Codec, DecodeError, DecodeFailure, Json, JsonValue,
};

verus! {

/// A series drawn as one mark per data point.
#[derive(Debug, Clone, PartialEq)]
pub struct Scatter {
    id: Option<String>,
    name: Option<String>,
    coordinate_system: Option<CoordinateSystem>,
    symbol: Option<Symbol>,
    symbol_size: Option<i64>,
    x_axis_index: Option<i64>,
    y_axis_index: Option<i64>,
    label: Option<Label>,
    item_style: Option<ItemStyle>,
    emphasis: Option<Emphasis>,
    data: Vec<DataPoint>,
}

/// Model of [`Scatter`].
pub struct ScatterView {
    pub id: Option<Seq<char>>,
    pub name: Option<Seq<char>>,
    pub coordinate_system: Option<CoordinateSystem>,
    pub symbol: Option<Symbol>,
    pub symbol_size: Option<int>,
    pub x_axis_index: Option<int>,
    pub y_axis_index: Option<int>,
    pub label: Option<LabelView>,
    pub item_style: Option<ItemStyleView>,
    pub emphasis: Option<EmphasisView>,
    pub data: Seq<DataPointView>,
}

impl View for Scatter {
    type V = ScatterView;

    closed spec fn view(&self) -> ScatterView {
        ScatterView {
            id: opt_str_view(self.id),
            name: opt_str_view(self.name),
            coordinate_system: opt_view(self.coordinate_system),
            symbol: opt_view(self.symbol),
            symbol_size: opt_int_view(self.symbol_size),
            x_axis_index: opt_int_view(self.x_axis_index),
            y_axis_index: opt_int_view(self.y_axis_index),
            label: opt_view(self.label),
            item_style: opt_view(self.item_style),
            emphasis: opt_view(self.emphasis),
            data: seq_view(self.data@),
        }
    }
}

/// A scatter with every field unset.
pub open spec fn empty_scatter() -> ScatterView {
    ScatterView {
        id: None,
        name: None,
        coordinate_system: None,
        symbol: None,
        symbol_size: None,
        x_axis_index: None,
        y_axis_index: None,
        label: None,
        item_style: None,
        emphasis: None,
        data: Seq::empty(),
    }
}

/// The entries of the JSON object of a scatter: its type tag first, then each field that is set, in declaration order.
pub open spec fn scatter_entries(v: ScatterView) -> Seq<(Seq<char>, Json)> {
    let es = seq![("type"@, Json::Str("scatter"@))];
    let es = push_opt(es, "id"@, opt_str_json(v.id));
    let es = push_opt(es, "name"@, opt_str_json(v.name));
    let es = push_opt(es, "coordinateSystem"@, opt_json::<CoordinateSystem>(v.coordinate_system));
    let es = push_opt(es, "symbol"@, opt_json::<Symbol>(v.symbol));
    let es = push_opt(es, "symbolSize"@, opt_int_json(v.symbol_size));
    let es = push_opt(es, "xAxisIndex"@, opt_int_json(v.x_axis_index));
    let es = push_opt(es, "yAxisIndex"@, opt_int_json(v.y_axis_index));
    let es = push_opt(es, "label"@, opt_json::<Label>(v.label));
    let es = push_opt(es, "itemStyle"@, opt_json::<ItemStyle>(v.item_style));
    let es = push_opt(es, "emphasis"@, opt_json::<Emphasis>(v.emphasis));
    push_nonempty(es, "data"@, list_json::<DataPoint>(v.data))
}

pub open spec fn scatter_json(v: ScatterView) -> Json {
    Json::Object(scatter_entries(v))
}

pub open spec fn bad_scatter(field: Seq<char>) -> Result<ScatterView, DecodeFailure> {
    Err(DecodeFailure::InvalidField("scatter"@, field))
}

/// Decodes the fields of a scatter into `base`,
/// failing on the first, in declaration order, of the wrong shape.
pub open spec fn scatter_decode_fields(es: Seq<(Seq<char>, Json)>, base: ScatterView) -> Result<ScatterView, DecodeFailure> {
    let id = dec_opt_str(obj_get(es, "id"@));
    let name = dec_opt_str(obj_get(es, "name"@));
    let coordinate_system = dec_opt::<CoordinateSystem>(obj_get(es, "coordinateSystem"@));
    let symbol = dec_opt::<Symbol>(obj_get(es, "symbol"@));
    let symbol_size = dec_opt_int(obj_get(es, "symbolSize"@));
    let x_axis_index = dec_opt_int(obj_get(es, "xAxisIndex"@));
    let y_axis_index = dec_opt_int(obj_get(es, "yAxisIndex"@));
    let label = dec_opt::<Label>(obj_get(es, "label"@));
    let item_style = dec_opt::<ItemStyle>(obj_get(es, "itemStyle"@));
    let emphasis = dec_opt::<Emphasis>(obj_get(es, "emphasis"@));
    let data = dec_list::<DataPoint>(obj_get(es, "data"@));
    if id is None {
        bad_scatter("id"@)
    } else if name is None {
        bad_scatter("name"@)
    } else if coordinate_system is None {
        bad_scatter("coordinateSystem"@)
    } else if symbol is None {
        bad_scatter("symbol"@)
    } else if symbol_size is None {
        bad_scatter("symbolSize"@)
    } else if x_axis_index is None {
        bad_scatter("xAxisIndex"@)
    } else if y_axis_index is None {
        bad_scatter("yAxisIndex"@)
    } else if label is None {
        bad_scatter("label"@)
    } else if item_style is None {
        bad_scatter("itemStyle"@)
    } else if emphasis is None {
        bad_scatter("emphasis"@)
    } else if data is None {
        bad_scatter("data"@)
    } else {
        Ok(
            ScatterView {
                id: id->Some_0,
                name: name->Some_0,
                coordinate_system: coordinate_system->Some_0,
                symbol: symbol->Some_0,
                symbol_size: symbol_size->Some_0,
                x_axis_index: x_axis_index->Some_0,
                y_axis_index: y_axis_index->Some_0,
                label: label->Some_0,
                item_style: item_style->Some_0,
                emphasis: emphasis->Some_0,
                data: data->Some_0,
                ..base
            },
        )
    }
}

/// Decodes the entries of a scatter object: the type tag must read `scatter`; the first field of the wrong shape is named.
pub open spec fn scatter_decode_entries(es: Seq<(Seq<char>, Json)>) -> Result<ScatterView, DecodeFailure> {
    if obj_get(es, "type"@) != Some(Json::Str("scatter"@)) {
        bad_scatter("type"@)
    } else {
        scatter_decode_fields(es, empty_scatter())
    }
}

pub open spec fn scatter_decode(j: Json) -> Result<ScatterView, DecodeFailure> {
    match j {
        Json::Object(es) => scatter_decode_entries(es),
        _ => Err(DecodeFailure::InvalidType),
    }
}

/// Lengths and characters that tell the keys of a scatter object apart.
proof fn scatter_key_facts()
    ensures
        "type"@.len() == 4 && "type"@[0] == 't',
        "id"@.len() == 2,
        "name"@.len() == 4 && "name"@[0] == 'n',
        "coordinateSystem"@.len() == 16,
        "symbol"@.len() == 6,
        "symbolSize"@.len() == 10 && "symbolSize"@[0] == 's',
        "xAxisIndex"@.len() == 10 && "xAxisIndex"@[0] == 'x',
        "yAxisIndex"@.len() == 10 && "yAxisIndex"@[0] == 'y',
        "label"@.len() == 5,
        "itemStyle"@.len() == 9,
        "emphasis"@.len() == 8,
        "data"@.len() == 4 && "data"@[0] == 'd',
{
    reveal_strlit("type");
    reveal_strlit("id");
    reveal_strlit("name");
    reveal_strlit("coordinateSystem");
    reveal_strlit("symbol");
    reveal_strlit("symbolSize");
    reveal_strlit("xAxisIndex");
    reveal_strlit("yAxisIndex");
    reveal_strlit("label");
    reveal_strlit("itemStyle");
    reveal_strlit("emphasis");
    reveal_strlit("data");
}

/// Decoding the JSON form of a scatter gives it back.
pub proof fn scatter_round_trip(v: ScatterView)
    ensures
        scatter_decode(scatter_json(v)) == Ok::<ScatterView, DecodeFailure>(v),
{
    broadcast use crate::json::lemma_obj_get_push_opt, crate::json::lemma_obj_get_push_nonempty, crate::json::lemma_obj_get_one_or_many;

    scatter_key_facts();
    let es = scatter_entries(v);
    lemma_singleton_get("type"@, Json::Str("scatter"@), "type"@);
    lemma_singleton_get("type"@, Json::Str("scatter"@), "id"@);
    lemma_singleton_get("type"@, Json::Str("scatter"@), "name"@);
    lemma_singleton_get("type"@, Json::Str("scatter"@), "coordinateSystem"@);
    lemma_singleton_get("type"@, Json::Str("scatter"@), "symbol"@);
    lemma_singleton_get("type"@, Json::Str("scatter"@), "symbolSize"@);
    lemma_singleton_get("type"@, Json::Str("scatter"@), "xAxisIndex"@);
    lemma_singleton_get("type"@, Json::Str("scatter"@), "yAxisIndex"@);
    lemma_singleton_get("type"@, Json::Str("scatter"@), "label"@);
    lemma_singleton_get("type"@, Json::Str("scatter"@), "itemStyle"@);
    lemma_singleton_get("type"@, Json::Str("scatter"@), "emphasis"@);
    lemma_singleton_get("type"@, Json::Str("scatter"@), "data"@);
    assert(obj_get(es, "type"@) == Some(Json::Str("scatter"@)));
    assert(obj_get(es, "id"@) == opt_str_json(v.id));
    lemma_scalar_round_trips(v.id, None, None);
    assert(obj_get(es, "name"@) == opt_str_json(v.name));
    lemma_scalar_round_trips(v.name, None, None);
    assert(obj_get(es, "coordinateSystem"@) == opt_json::<CoordinateSystem>(v.coordinate_system));
    lemma_opt_round_trip::<CoordinateSystem>(v.coordinate_system);
    assert(obj_get(es, "symbol"@) == opt_json::<Symbol>(v.symbol));
    lemma_opt_round_trip::<Symbol>(v.symbol);
    assert(obj_get(es, "symbolSize"@) == opt_int_json(v.symbol_size));
    lemma_scalar_round_trips(None, None, v.symbol_size);
    assert(obj_get(es, "xAxisIndex"@) == opt_int_json(v.x_axis_index));
    lemma_scalar_round_trips(None, None, v.x_axis_index);
    assert(obj_get(es, "yAxisIndex"@) == opt_int_json(v.y_axis_index));
    lemma_scalar_round_trips(None, None, v.y_axis_index);
    assert(obj_get(es, "label"@) == opt_json::<Label>(v.label));
    lemma_opt_round_trip::<Label>(v.label);
    assert(obj_get(es, "itemStyle"@) == opt_json::<ItemStyle>(v.item_style));
    lemma_opt_round_trip::<ItemStyle>(v.item_style);
    assert(obj_get(es, "emphasis"@) == opt_json::<Emphasis>(v.emphasis));
    lemma_opt_round_trip::<Emphasis>(v.emphasis);
    if v.data.len() > 0 {
        assert(obj_get(es, "data"@) == Some(Json::Array(list_json::<DataPoint>(v.data))));
        lemma_list_round_trip::<DataPoint>(v.data);
    } else {
        assert(obj_get(es, "data"@) is None);
        assert(v.data =~= Seq::<DataPointView>::empty());
    }
}

impl Scatter {
    fn decode_fields(es: &Vec<(String, JsonValue)>, base: Scatter) -> (r: Result<Scatter, DecodeError>)
        ensures
            decoded(r) == scatter_decode_fields(entries_view(es@), base@),
    {
        let id = match dec_opt_str_exec(lookup(es, "id")) {
            Some(v) => v,
            None => return Err(field_error("scatter", "id")),
        };
        let name = match dec_opt_str_exec(lookup(es, "name")) {
            Some(v) => v,
            None => return Err(field_error("scatter", "name")),
        };
        let coordinate_system = match dec_opt_exec::<CoordinateSystem>(lookup(es, "coordinateSystem")) {
            Some(v) => v,
            None => return Err(field_error("scatter", "coordinateSystem")),
        };
        let symbol = match dec_opt_exec::<Symbol>(lookup(es, "symbol")) {
            Some(v) => v,
            None => return Err(field_error("scatter", "symbol")),
        };
        let symbol_size = match dec_opt_int_exec(lookup(es, "symbolSize")) {
            Some(v) => v,
            None => return Err(field_error("scatter", "symbolSize")),
        };
        let x_axis_index = match dec_opt_int_exec(lookup(es, "xAxisIndex")) {
            Some(v) => v,
            None => return Err(field_error("scatter", "xAxisIndex")),
        };
        let y_axis_index = match dec_opt_int_exec(lookup(es, "yAxisIndex")) {
            Some(v) => v,
            None => return Err(field_error("scatter", "yAxisIndex")),
        };
        let label = match dec_opt_exec::<Label>(lookup(es, "label")) {
            Some(v) => v,
            None => return Err(field_error("scatter", "label")),
        };
        let item_style = match dec_opt_exec::<ItemStyle>(lookup(es, "itemStyle")) {
            Some(v) => v,
            None => return Err(field_error("scatter", "itemStyle")),
        };
        let emphasis = match dec_opt_exec::<Emphasis>(lookup(es, "emphasis")) {
            Some(v) => v,
            None => return Err(field_error("scatter", "emphasis")),
        };
        let data = match dec_list_exec::<DataPoint>(lookup(es, "data")) {
            Some(v) => v,
            None => return Err(field_error("scatter", "data")),
        };
        Ok(Scatter { id, name, coordinate_system, symbol, symbol_size, x_axis_index, y_axis_index, label, item_style, emphasis, data, ..base })
    }
}

impl Codec for Scatter {
    open spec fn encode_spec(v: ScatterView) -> Json {
        scatter_json(v)
    }

    open spec fn decode_spec(j: Json) -> Result<ScatterView, DecodeFailure> {
        scatter_decode(j)
    }

    proof fn lemma_round_trip(v: ScatterView) {
        scatter_round_trip(v);
    }

    fn to_json(&self) -> (r: JsonValue) {
        let mut es: Vec<(String, JsonValue)> = Vec::new();
        push_entry(&mut es, "type", JsonValue::text("scatter"));
        assert(entries_view(es@) =~= seq![("type"@, Json::Str("scatter"@))]);
        push_opt_str(&mut es, "id", &self.id);
        push_opt_str(&mut es, "name", &self.name);
        push_opt_codec(&mut es, "coordinateSystem", &self.coordinate_system);
        push_opt_codec(&mut es, "symbol", &self.symbol);
        push_opt_int(&mut es, "symbolSize", self.symbol_size);
        push_opt_int(&mut es, "xAxisIndex", self.x_axis_index);
        push_opt_int(&mut es, "yAxisIndex", self.y_axis_index);
        push_opt_codec(&mut es, "label", &self.label);
        push_opt_codec(&mut es, "itemStyle", &self.item_style);
        push_opt_codec(&mut es, "emphasis", &self.emphasis);
        push_list(&mut es, "data", &self.data);
        JsonValue::object(es)
    }

    fn from_json(j: &JsonValue) -> (r: Result<Scatter, DecodeError>) {
        let es = match j.entries() {
            Some(es) => es,
            None => return Err(DecodeError::InvalidType),
        };
        let tag_ok = match lookup(es, "type") {
            Some(JsonValue::Str(t)) => text_is(t, "scatter"),
            _ => false,
        };
        if !tag_ok {
            return Err(field_error("scatter", "type"));
        }
        let v = Scatter::decode_fields(es, Scatter::new())?;
        Ok(v)
    }
}

impl Scatter {
    pub fn new() -> (r: Scatter)
        ensures
            r@ == empty_scatter(),
    {
        let data: Vec<DataPoint> = Vec::new();
        assert(seq_view(data@) =~= Seq::<DataPointView>::empty());
        Scatter { id: None, name: None, coordinate_system: None, symbol: None, symbol_size: None, x_axis_index: None, y_axis_index: None, label: None, item_style: None, emphasis: None, data }
    }

    pub fn id(self, v: &str) -> (r: Scatter)
        ensures
            r@ == (ScatterView { id: Some(v@), ..self@ }),
    {
        Scatter { id: Some(String::from_str(v)), ..self }
    }

    pub fn name(self, v: &str) -> (r: Scatter)
        ensures
            r@ == (ScatterView { name: Some(v@), ..self@ }),
    {
        Scatter { name: Some(String::from_str(v)), ..self }
    }

    pub fn coordinate_system(self, v: CoordinateSystem) -> (r: Scatter)
        ensures
            r@ == (ScatterView { coordinate_system: Some(v@), ..self@ }),
    {
        Scatter { coordinate_system: Some(v), ..self }
    }

    pub fn symbol(self, v: Symbol) -> (r: Scatter)
        ensures
            r@ == (ScatterView { symbol: Some(v@), ..self@ }),
    {
        Scatter { symbol: Some(v), ..self }
    }

    pub fn symbol_size(self, v: i64) -> (r: Scatter)
        ensures
            r@ == (ScatterView { symbol_size: Some(v as int), ..self@ }),
    {
        Scatter { symbol_size: Some(v), ..self }
    }

    pub fn x_axis_index(self, v: i64) -> (r: Scatter)
        ensures
            r@ == (ScatterView { x_axis_index: Some(v as int), ..self@ }),
    {
        Scatter { x_axis_index: Some(v), ..self }
    }

    pub fn y_axis_index(self, v: i64) -> (r: Scatter)
        ensures
            r@ == (ScatterView { y_axis_index: Some(v as int), ..self@ }),
    {
        Scatter { y_axis_index: Some(v), ..self }
    }

    pub fn label(self, v: Label) -> (r: Scatter)
        ensures
            r@ == (ScatterView { label: Some(v@), ..self@ }),
    {
        Scatter { label: Some(v), ..self }
    }

    pub fn item_style(self, v: ItemStyle) -> (r: Scatter)
        ensures
            r@ == (ScatterView { item_style: Some(v@), ..self@ }),
    {
        Scatter { item_style: Some(v), ..self }
    }

    pub fn emphasis(self, v: Emphasis) -> (r: Scatter)
        ensures
            r@ == (ScatterView { emphasis: Some(v@), ..self@ }),
    {
        Scatter { emphasis: Some(v), ..self }
    }

    pub fn data(self, v: Vec<DataPoint>) -> (r: Scatter)
        ensures
            r@ == (ScatterView { data: seq_view(v@), ..self@ }),
    {
        Scatter { data: v, ..self }
    }
}

/// Scoped write access to a scatter series that is owned elsewhere.
pub struct ScatterController<'a> {
    scatter: &'a mut Scatter,
}

impl<'a> ScatterController<'a> {
    /// The scatter series this controller writes to.
    pub closed spec fn target(&self) -> &'a mut Scatter {
        self.scatter
    }

    pub fn new(scatter: &'a mut Scatter) -> (r: Self)
        ensures
            *r.target() == *old(scatter),
            *final(scatter) == *final(r.target()),
    {
        ScatterController { scatter }
    }

    /// Sets the size of the marks.
    pub fn with_marker_size(&mut self, size: i64)
        ensures
            (*final(self).target())@ == (ScatterView {
                symbol_size: Some(size as int),
                ..(*old(self).target())@
            }),
            *final(final(self).target()) == *final(old(self).target()),
    {
        self.scatter.symbol_size = Some(size);
    }

    pub fn with_name(&mut self, name: &str)
        ensures
            (*final(self).target())@ == (ScatterView { name: Some(name@), ..(*old(self).target())@ }),
            *final(final(self).target()) == *final(old(self).target()),
    {
        self.scatter.name = Some(String::from_str(name));
    }
}

} // verus!
