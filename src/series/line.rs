//! The line series.
use vstd::prelude::*;
use crate::component::{Tooltip, TooltipView};
use crate::style::{
    AreaStyle, AreaStyleView, Emphasis, EmphasisView, ItemStyle, ItemStyleView, Label, LabelView,
};
use crate::element::{
    CoordinateSystem, DataPoint, DataPointView, LineStyle, LineStyleView, Sampling, Smoothness, Step,
    Symbol,
};
use crate::json::{
    copy_opt_str, dec_list, dec_list_exec, dec_opt, dec_opt_bool, dec_opt_bool_exec, dec_opt_exec,
    dec_opt_int, dec_opt_int_exec, dec_opt_str, dec_opt_str_exec, decoded, entries_view,
    field_error, lemma_list_round_trip, lemma_opt_round_trip, lemma_scalar_round_trips,
    lemma_singleton_get, list_json, lookup, obj_get, opt_bool_json, opt_int_json, opt_int_view,
    opt_json, opt_str_json, opt_str_view, opt_view, push_entry, push_list, push_nonempty, push_opt,
    push_opt_bool, push_opt_codec, push_opt_int, push_opt_str, seq_view, text_is, Codec,
    DecodeError, DecodeFailure, Json, JsonValue,
};

verus! {

/// A series drawn as a polyline through its data points.
#[derive(Debug, Clone, PartialEq)]
pub struct Line {
    id: Option<String>,
    name: Option<String>,
    coordinate_system: Option<CoordinateSystem>,
    symbol: Option<Symbol>,
    symbol_size: Option<i64>,
    show_symbol: Option<bool>,
    stack: Option<String>,
    sampling: Option<Sampling>,
    label: Option<Label>,
    line_style: Option<LineStyle>,
    area_style: Option<AreaStyle>,
    item_style: Option<ItemStyle>,
    emphasis: Option<Emphasis>,
    smooth: Option<Smoothness>,
    step: Option<Step>,
    connect_nulls: Option<bool>,
    dataset_id: Option<String>,
    x_axis_index: Option<i64>,
    y_axis_index: Option<i64>,
    tooltip: Option<Tooltip>,
    silent: Option<bool>,
    z: Option<i64>,
    data: Vec<DataPoint>,
}

/// Model of [`Line`].
pub struct LineView {
    pub id: Option<Seq<char>>,
    pub name: Option<Seq<char>>,
    pub coordinate_system: Option<CoordinateSystem>,
    pub symbol: Option<Symbol>,
    pub symbol_size: Option<int>,
    pub show_symbol: Option<bool>,
    pub stack: Option<Seq<char>>,
    pub sampling: Option<Sampling>,
    pub label: Option<LabelView>,
    pub line_style: Option<LineStyleView>,
    pub area_style: Option<AreaStyleView>,
    pub item_style: Option<ItemStyleView>,
    pub emphasis: Option<EmphasisView>,
    pub smooth: Option<Smoothness>,
    pub step: Option<Step>,
    pub connect_nulls: Option<bool>,
    pub dataset_id: Option<Seq<char>>,
    pub x_axis_index: Option<int>,
    pub y_axis_index: Option<int>,
    pub tooltip: Option<TooltipView>,
    pub silent: Option<bool>,
    pub z: Option<int>,
    pub data: Seq<DataPointView>,
}

impl View for Line {
    type V = LineView;

    closed spec fn view(&self) -> LineView {
        LineView {
            id: opt_str_view(self.id),
            name: opt_str_view(self.name),
            coordinate_system: opt_view(self.coordinate_system),
            symbol: opt_view(self.symbol),
            symbol_size: opt_int_view(self.symbol_size),
            show_symbol: self.show_symbol,
            stack: opt_str_view(self.stack),
            sampling: opt_view(self.sampling),
            label: opt_view(self.label),
            line_style: opt_view(self.line_style),
            area_style: opt_view(self.area_style),
            item_style: opt_view(self.item_style),
            emphasis: opt_view(self.emphasis),
            smooth: opt_view(self.smooth),
            step: opt_view(self.step),
            connect_nulls: self.connect_nulls,
            dataset_id: opt_str_view(self.dataset_id),
            x_axis_index: opt_int_view(self.x_axis_index),
            y_axis_index: opt_int_view(self.y_axis_index),
            tooltip: opt_view(self.tooltip),
            silent: self.silent,
            z: opt_int_view(self.z),
            data: seq_view(self.data@),
        }
    }
}

/// A line with every field unset.
pub open spec fn empty_line() -> LineView {
    LineView {
        id: None,
        name: None,
        coordinate_system: None,
        symbol: None,
        symbol_size: None,
        show_symbol: None,
        stack: None,
        sampling: None,
        label: None,
        line_style: None,
        area_style: None,
        item_style: None,
        emphasis: None,
        smooth: None,
        step: None,
        connect_nulls: None,
        dataset_id: None,
        x_axis_index: None,
        y_axis_index: None,
        tooltip: None,
        silent: None,
        z: None,
        data: Seq::empty(),
    }
}

/// The entries of the JSON object of a line: its type tag first, then each field that is set, in declaration order.
pub open spec fn line_entries(v: LineView) -> Seq<(Seq<char>, Json)> {
    let es = seq![("type"@, Json::Str("line"@))];
    let es = push_opt(es, "id"@, opt_str_json(v.id));
    let es = push_opt(es, "name"@, opt_str_json(v.name));
    let es = push_opt(es, "coordinateSystem"@, opt_json::<CoordinateSystem>(v.coordinate_system));
    let es = push_opt(es, "symbol"@, opt_json::<Symbol>(v.symbol));
    let es = push_opt(es, "symbolSize"@, opt_int_json(v.symbol_size));
    let es = push_opt(es, "showSymbol"@, opt_bool_json(v.show_symbol));
    let es = push_opt(es, "stack"@, opt_str_json(v.stack));
    let es = push_opt(es, "sampling"@, opt_json::<Sampling>(v.sampling));
    let es = push_opt(es, "label"@, opt_json::<Label>(v.label));
    let es = push_opt(es, "lineStyle"@, opt_json::<LineStyle>(v.line_style));
    let es = push_opt(es, "areaStyle"@, opt_json::<AreaStyle>(v.area_style));
    let es = push_opt(es, "itemStyle"@, opt_json::<ItemStyle>(v.item_style));
    let es = push_opt(es, "emphasis"@, opt_json::<Emphasis>(v.emphasis));
    let es = push_opt(es, "smooth"@, opt_json::<Smoothness>(v.smooth));
    let es = push_opt(es, "step"@, opt_json::<Step>(v.step));
    let es = push_opt(es, "connectNulls"@, opt_bool_json(v.connect_nulls));
    let es = push_opt(es, "datasetId"@, opt_str_json(v.dataset_id));
    let es = push_opt(es, "xAxisIndex"@, opt_int_json(v.x_axis_index));
    let es = push_opt(es, "yAxisIndex"@, opt_int_json(v.y_axis_index));
    let es = push_opt(es, "tooltip"@, opt_json::<Tooltip>(v.tooltip));
    let es = push_opt(es, "silent"@, opt_bool_json(v.silent));
    let es = push_opt(es, "z"@, opt_int_json(v.z));
    push_nonempty(es, "data"@, list_json::<DataPoint>(v.data))
}

pub open spec fn line_json(v: LineView) -> Json {
    Json::Object(line_entries(v))
}

pub open spec fn bad_line(field: Seq<char>) -> Result<LineView, DecodeFailure> {
    Err(DecodeFailure::InvalidField("line"@, field))
}

/// Decodes the first fields of a line into `base`,
/// failing on the first, in declaration order, of the wrong shape.
pub open spec fn line_decode_head(es: Seq<(Seq<char>, Json)>, base: LineView) -> Result<LineView, DecodeFailure> {
    let id = dec_opt_str(obj_get(es, "id"@));
    let name = dec_opt_str(obj_get(es, "name"@));
    let coordinate_system = dec_opt::<CoordinateSystem>(obj_get(es, "coordinateSystem"@));
    let symbol = dec_opt::<Symbol>(obj_get(es, "symbol"@));
    let symbol_size = dec_opt_int(obj_get(es, "symbolSize"@));
    let show_symbol = dec_opt_bool(obj_get(es, "showSymbol"@));
    let stack = dec_opt_str(obj_get(es, "stack"@));
    let sampling = dec_opt::<Sampling>(obj_get(es, "sampling"@));
    if id is None {
        bad_line("id"@)
    } else if name is None {
        bad_line("name"@)
    } else if coordinate_system is None {
        bad_line("coordinateSystem"@)
    } else if symbol is None {
        bad_line("symbol"@)
    } else if symbol_size is None {
        bad_line("symbolSize"@)
    } else if show_symbol is None {
        bad_line("showSymbol"@)
    } else if stack is None {
        bad_line("stack"@)
    } else if sampling is None {
        bad_line("sampling"@)
    } else {
        Ok(
            LineView {
                id: id->Some_0,
                name: name->Some_0,
                coordinate_system: coordinate_system->Some_0,
                symbol: symbol->Some_0,
                symbol_size: symbol_size->Some_0,
                show_symbol: show_symbol->Some_0,
                stack: stack->Some_0,
                sampling: sampling->Some_0,
                ..base
            },
        )
    }
}

/// Decodes the middle fields of a line into `base`,
/// failing on the first, in declaration order, of the wrong shape.
pub open spec fn line_decode_body(es: Seq<(Seq<char>, Json)>, base: LineView) -> Result<LineView, DecodeFailure> {
    let label = dec_opt::<Label>(obj_get(es, "label"@));
    let line_style = dec_opt::<LineStyle>(obj_get(es, "lineStyle"@));
    let area_style = dec_opt::<AreaStyle>(obj_get(es, "areaStyle"@));
    let item_style = dec_opt::<ItemStyle>(obj_get(es, "itemStyle"@));
    let emphasis = dec_opt::<Emphasis>(obj_get(es, "emphasis"@));
    let smooth = dec_opt::<Smoothness>(obj_get(es, "smooth"@));
    let step = dec_opt::<Step>(obj_get(es, "step"@));
    let connect_nulls = dec_opt_bool(obj_get(es, "connectNulls"@));
    if label is None {
        bad_line("label"@)
    } else if line_style is None {
        bad_line("lineStyle"@)
    } else if area_style is None {
        bad_line("areaStyle"@)
    } else if item_style is None {
        bad_line("itemStyle"@)
    } else if emphasis is None {
        bad_line("emphasis"@)
    } else if smooth is None {
        bad_line("smooth"@)
    } else if step is None {
        bad_line("step"@)
    } else if connect_nulls is None {
        bad_line("connectNulls"@)
    } else {
        Ok(
            LineView {
                label: label->Some_0,
                line_style: line_style->Some_0,
                area_style: area_style->Some_0,
                item_style: item_style->Some_0,
                emphasis: emphasis->Some_0,
                smooth: smooth->Some_0,
                step: step->Some_0,
                connect_nulls: connect_nulls->Some_0,
                ..base
            },
        )
    }
}

/// Decodes the last fields of a line into `base`,
/// failing on the first, in declaration order, of the wrong shape.
pub open spec fn line_decode_tail(es: Seq<(Seq<char>, Json)>, base: LineView) -> Result<LineView, DecodeFailure> {
    let dataset_id = dec_opt_str(obj_get(es, "datasetId"@));
    let x_axis_index = dec_opt_int(obj_get(es, "xAxisIndex"@));
    let y_axis_index = dec_opt_int(obj_get(es, "yAxisIndex"@));
    let tooltip = dec_opt::<Tooltip>(obj_get(es, "tooltip"@));
    let silent = dec_opt_bool(obj_get(es, "silent"@));
    let z = dec_opt_int(obj_get(es, "z"@));
    let data = dec_list::<DataPoint>(obj_get(es, "data"@));
    if dataset_id is None {
        bad_line("datasetId"@)
    } else if x_axis_index is None {
        bad_line("xAxisIndex"@)
    } else if y_axis_index is None {
        bad_line("yAxisIndex"@)
    } else if tooltip is None {
        bad_line("tooltip"@)
    } else if silent is None {
        bad_line("silent"@)
    } else if z is None {
        bad_line("z"@)
    } else if data is None {
        bad_line("data"@)
    } else {
        Ok(
            LineView {
                dataset_id: dataset_id->Some_0,
                x_axis_index: x_axis_index->Some_0,
                y_axis_index: y_axis_index->Some_0,
                tooltip: tooltip->Some_0,
                silent: silent->Some_0,
                z: z->Some_0,
                data: data->Some_0,
                ..base
            },
        )
    }
}

/// Decodes the entries of a line object: the type tag must read `line`; the first field of the wrong shape is named.
pub open spec fn line_decode_entries(es: Seq<(Seq<char>, Json)>) -> Result<LineView, DecodeFailure> {
    if obj_get(es, "type"@) != Some(Json::Str("line"@)) {
        bad_line("type"@)
    } else {
        match match line_decode_head(es, empty_line()) {
        Ok(v) => line_decode_body(es, v),
        Err(e) => Err(e),
    } {
        Ok(v) => line_decode_tail(es, v),
        Err(e) => Err(e),
    }
    }
}

pub open spec fn line_decode(j: Json) -> Result<LineView, DecodeFailure> {
    match j {
        Json::Object(es) => line_decode_entries(es),
        _ => Err(DecodeFailure::InvalidType),
    }
}

/// Lengths and characters that tell the keys of a line object apart.
proof fn line_key_facts()
    ensures
        "type"@.len() == 4 && "type"@[0] == 't',
        "id"@.len() == 2,
        "name"@.len() == 4 && "name"@[0] == 'n',
        "coordinateSystem"@.len() == 16,
        "symbol"@.len() == 6 && "symbol"@[1] == 'y',
        "symbolSize"@.len() == 10 && "symbolSize"@[0] == 's' && "symbolSize"@[1] == 'y',
        "showSymbol"@.len() == 10 && "showSymbol"@[0] == 's' && "showSymbol"@[1] == 'h',
        "stack"@.len() == 5 && "stack"@[0] == 's',
        "sampling"@.len() == 8 && "sampling"@[0] == 's',
        "label"@.len() == 5 && "label"@[0] == 'l',
        "lineStyle"@.len() == 9 && "lineStyle"@[0] == 'l',
        "areaStyle"@.len() == 9 && "areaStyle"@[0] == 'a',
        "itemStyle"@.len() == 9 && "itemStyle"@[0] == 'i',
        "emphasis"@.len() == 8 && "emphasis"@[0] == 'e',
        "smooth"@.len() == 6 && "smooth"@[1] == 'm',
        "step"@.len() == 4 && "step"@[0] == 's',
        "connectNulls"@.len() == 12,
        "datasetId"@.len() == 9 && "datasetId"@[0] == 'd',
        "xAxisIndex"@.len() == 10 && "xAxisIndex"@[0] == 'x',
        "yAxisIndex"@.len() == 10 && "yAxisIndex"@[0] == 'y',
        "tooltip"@.len() == 7,
        "silent"@.len() == 6 && "silent"@[1] == 'i',
        "z"@.len() == 1,
        "data"@.len() == 4 && "data"@[0] == 'd',
{
    reveal_strlit("type");
    reveal_strlit("id");
    reveal_strlit("name");
    reveal_strlit("coordinateSystem");
    reveal_strlit("symbol");
    reveal_strlit("symbolSize");
    reveal_strlit("showSymbol");
    reveal_strlit("stack");
    reveal_strlit("sampling");
    reveal_strlit("label");
    reveal_strlit("lineStyle");
    reveal_strlit("areaStyle");
    reveal_strlit("itemStyle");
    reveal_strlit("emphasis");
    reveal_strlit("smooth");
    reveal_strlit("step");
    reveal_strlit("connectNulls");
    reveal_strlit("datasetId");
    reveal_strlit("xAxisIndex");
    reveal_strlit("yAxisIndex");
    reveal_strlit("tooltip");
    reveal_strlit("silent");
    reveal_strlit("z");
    reveal_strlit("data");
}

/// Decoding the JSON form of a line gives it back.
pub proof fn line_round_trip(v: LineView)
    ensures
        line_decode(line_json(v)) == Ok::<LineView, DecodeFailure>(v),
{
    broadcast use crate::json::lemma_obj_get_push_opt, crate::json::lemma_obj_get_push_nonempty, crate::json::lemma_obj_get_one_or_many;

    line_key_facts();
    let es = line_entries(v);
    lemma_singleton_get("type"@, Json::Str("line"@), "type"@);
    lemma_singleton_get("type"@, Json::Str("line"@), "id"@);
    lemma_singleton_get("type"@, Json::Str("line"@), "name"@);
    lemma_singleton_get("type"@, Json::Str("line"@), "coordinateSystem"@);
    lemma_singleton_get("type"@, Json::Str("line"@), "symbol"@);
    lemma_singleton_get("type"@, Json::Str("line"@), "symbolSize"@);
    lemma_singleton_get("type"@, Json::Str("line"@), "showSymbol"@);
    lemma_singleton_get("type"@, Json::Str("line"@), "stack"@);
    lemma_singleton_get("type"@, Json::Str("line"@), "sampling"@);
    lemma_singleton_get("type"@, Json::Str("line"@), "label"@);
    lemma_singleton_get("type"@, Json::Str("line"@), "lineStyle"@);
    lemma_singleton_get("type"@, Json::Str("line"@), "areaStyle"@);
    lemma_singleton_get("type"@, Json::Str("line"@), "itemStyle"@);
    lemma_singleton_get("type"@, Json::Str("line"@), "emphasis"@);
    lemma_singleton_get("type"@, Json::Str("line"@), "smooth"@);
    lemma_singleton_get("type"@, Json::Str("line"@), "step"@);
    lemma_singleton_get("type"@, Json::Str("line"@), "connectNulls"@);
    lemma_singleton_get("type"@, Json::Str("line"@), "datasetId"@);
    lemma_singleton_get("type"@, Json::Str("line"@), "xAxisIndex"@);
    lemma_singleton_get("type"@, Json::Str("line"@), "yAxisIndex"@);
    lemma_singleton_get("type"@, Json::Str("line"@), "tooltip"@);
    lemma_singleton_get("type"@, Json::Str("line"@), "silent"@);
    lemma_singleton_get("type"@, Json::Str("line"@), "z"@);
    lemma_singleton_get("type"@, Json::Str("line"@), "data"@);
    assert(obj_get(es, "type"@) == Some(Json::Str("line"@)));
    assert(obj_get(es, "id"@) == opt_str_json(v.id));
    lemma_scalar_round_trips(v.id, None, None);
    assert(obj_get(es, "name"@) == opt_str_json(v.name));
    lemma_scalar_round_trips(v.name, None, None);
    assert(obj_get(es, "coordinateSystem"@) == opt_json::<CoordinateSystem>(v.coordinate_system));
    lemma_opt_round_trip::<CoordinateSystem>(v.coordinate_system);
    assert(obj_get(es, "symbol"@) == opt_json::<Symbol>(v.symbol));
    lemma_opt_round_trip::<Symbol>(v.symbol);
    assert(obj_get(es, "symbolSize"@) == opt_int_json(v.symbol_size));
    lemma_scalar_round_trips(None, None, v.symbol_size);
    assert(obj_get(es, "showSymbol"@) == opt_bool_json(v.show_symbol));
    lemma_scalar_round_trips(None, v.show_symbol, None);
    assert(obj_get(es, "stack"@) == opt_str_json(v.stack));
    lemma_scalar_round_trips(v.stack, None, None);
    assert(obj_get(es, "sampling"@) == opt_json::<Sampling>(v.sampling));
    lemma_opt_round_trip::<Sampling>(v.sampling);
    assert(obj_get(es, "label"@) == opt_json::<Label>(v.label));
    lemma_opt_round_trip::<Label>(v.label);
    assert(obj_get(es, "lineStyle"@) == opt_json::<LineStyle>(v.line_style));
    lemma_opt_round_trip::<LineStyle>(v.line_style);
    assert(obj_get(es, "areaStyle"@) == opt_json::<AreaStyle>(v.area_style));
    lemma_opt_round_trip::<AreaStyle>(v.area_style);
    assert(obj_get(es, "itemStyle"@) == opt_json::<ItemStyle>(v.item_style));
    lemma_opt_round_trip::<ItemStyle>(v.item_style);
    assert(obj_get(es, "emphasis"@) == opt_json::<Emphasis>(v.emphasis));
    lemma_opt_round_trip::<Emphasis>(v.emphasis);
    assert(obj_get(es, "smooth"@) == opt_json::<Smoothness>(v.smooth));
    lemma_opt_round_trip::<Smoothness>(v.smooth);
    assert(obj_get(es, "step"@) == opt_json::<Step>(v.step));
    lemma_opt_round_trip::<Step>(v.step);
    assert(obj_get(es, "connectNulls"@) == opt_bool_json(v.connect_nulls));
    lemma_scalar_round_trips(None, v.connect_nulls, None);
    assert(obj_get(es, "datasetId"@) == opt_str_json(v.dataset_id));
    lemma_scalar_round_trips(v.dataset_id, None, None);
    assert(obj_get(es, "xAxisIndex"@) == opt_int_json(v.x_axis_index));
    lemma_scalar_round_trips(None, None, v.x_axis_index);
    assert(obj_get(es, "yAxisIndex"@) == opt_int_json(v.y_axis_index));
    lemma_scalar_round_trips(None, None, v.y_axis_index);
    assert(obj_get(es, "tooltip"@) == opt_json::<Tooltip>(v.tooltip));
    lemma_opt_round_trip::<Tooltip>(v.tooltip);
    assert(obj_get(es, "silent"@) == opt_bool_json(v.silent));
    lemma_scalar_round_trips(None, v.silent, None);
    assert(obj_get(es, "z"@) == opt_int_json(v.z));
    lemma_scalar_round_trips(None, None, v.z);
    if v.data.len() > 0 {
        assert(obj_get(es, "data"@) == Some(Json::Array(list_json::<DataPoint>(v.data))));
        lemma_list_round_trip::<DataPoint>(v.data);
    } else {
        assert(obj_get(es, "data"@) is None);
        assert(v.data =~= Seq::<DataPointView>::empty());
    }
}

impl Line {
    fn decode_head(es: &Vec<(String, JsonValue)>, base: Line) -> (r: Result<Line, DecodeError>)
        ensures
            decoded(r) == line_decode_head(entries_view(es@), base@),
    {
        let id = match dec_opt_str_exec(lookup(es, "id")) {
            Some(v) => v,
            None => return Err(field_error("line", "id")),
        };
        let name = match dec_opt_str_exec(lookup(es, "name")) {
            Some(v) => v,
            None => return Err(field_error("line", "name")),
        };
        let coordinate_system = match dec_opt_exec::<CoordinateSystem>(lookup(es, "coordinateSystem")) {
            Some(v) => v,
            None => return Err(field_error("line", "coordinateSystem")),
        };
        let symbol = match dec_opt_exec::<Symbol>(lookup(es, "symbol")) {
            Some(v) => v,
            None => return Err(field_error("line", "symbol")),
        };
        let symbol_size = match dec_opt_int_exec(lookup(es, "symbolSize")) {
            Some(v) => v,
            None => return Err(field_error("line", "symbolSize")),
        };
        let show_symbol = match dec_opt_bool_exec(lookup(es, "showSymbol")) {
            Some(v) => v,
            None => return Err(field_error("line", "showSymbol")),
        };
        let stack = match dec_opt_str_exec(lookup(es, "stack")) {
            Some(v) => v,
            None => return Err(field_error("line", "stack")),
        };
        let sampling = match dec_opt_exec::<Sampling>(lookup(es, "sampling")) {
            Some(v) => v,
            None => return Err(field_error("line", "sampling")),
        };
        Ok(Line { id, name, coordinate_system, symbol, symbol_size, show_symbol, stack, sampling, ..base })
    }

    fn decode_body(es: &Vec<(String, JsonValue)>, base: Line) -> (r: Result<Line, DecodeError>)
        ensures
            decoded(r) == line_decode_body(entries_view(es@), base@),
    {
        let label = match dec_opt_exec::<Label>(lookup(es, "label")) {
            Some(v) => v,
            None => return Err(field_error("line", "label")),
        };
        let line_style = match dec_opt_exec::<LineStyle>(lookup(es, "lineStyle")) {
            Some(v) => v,
            None => return Err(field_error("line", "lineStyle")),
        };
        let area_style = match dec_opt_exec::<AreaStyle>(lookup(es, "areaStyle")) {
            Some(v) => v,
            None => return Err(field_error("line", "areaStyle")),
        };
        let item_style = match dec_opt_exec::<ItemStyle>(lookup(es, "itemStyle")) {
            Some(v) => v,
            None => return Err(field_error("line", "itemStyle")),
        };
        let emphasis = match dec_opt_exec::<Emphasis>(lookup(es, "emphasis")) {
            Some(v) => v,
            None => return Err(field_error("line", "emphasis")),
        };
        let smooth = match dec_opt_exec::<Smoothness>(lookup(es, "smooth")) {
            Some(v) => v,
            None => return Err(field_error("line", "smooth")),
        };
        let step = match dec_opt_exec::<Step>(lookup(es, "step")) {
            Some(v) => v,
            None => return Err(field_error("line", "step")),
        };
        let connect_nulls = match dec_opt_bool_exec(lookup(es, "connectNulls")) {
            Some(v) => v,
            None => return Err(field_error("line", "connectNulls")),
        };
        Ok(Line { label, line_style, area_style, item_style, emphasis, smooth, step, connect_nulls, ..base })
    }

    fn decode_tail(es: &Vec<(String, JsonValue)>, base: Line) -> (r: Result<Line, DecodeError>)
        ensures
            decoded(r) == line_decode_tail(entries_view(es@), base@),
    {
        let dataset_id = match dec_opt_str_exec(lookup(es, "datasetId")) {
            Some(v) => v,
            None => return Err(field_error("line", "datasetId")),
        };
        let x_axis_index = match dec_opt_int_exec(lookup(es, "xAxisIndex")) {
            Some(v) => v,
            None => return Err(field_error("line", "xAxisIndex")),
        };
        let y_axis_index = match dec_opt_int_exec(lookup(es, "yAxisIndex")) {
            Some(v) => v,
            None => return Err(field_error("line", "yAxisIndex")),
        };
        let tooltip = match dec_opt_exec::<Tooltip>(lookup(es, "tooltip")) {
            Some(v) => v,
            None => return Err(field_error("line", "tooltip")),
        };
        let silent = match dec_opt_bool_exec(lookup(es, "silent")) {
            Some(v) => v,
            None => return Err(field_error("line", "silent")),
        };
        let z = match dec_opt_int_exec(lookup(es, "z")) {
            Some(v) => v,
            None => return Err(field_error("line", "z")),
        };
        let data = match dec_list_exec::<DataPoint>(lookup(es, "data")) {
            Some(v) => v,
            None => return Err(field_error("line", "data")),
        };
        Ok(Line { dataset_id, x_axis_index, y_axis_index, tooltip, silent, z, data, ..base })
    }
}

impl Codec for Line {
    open spec fn encode_spec(v: LineView) -> Json {
        line_json(v)
    }

    open spec fn decode_spec(j: Json) -> Result<LineView, DecodeFailure> {
        line_decode(j)
    }

    proof fn lemma_round_trip(v: LineView) {
        line_round_trip(v);
    }

    fn to_json(&self) -> (r: JsonValue) {
        let mut es: Vec<(String, JsonValue)> = Vec::new();
        push_entry(&mut es, "type", JsonValue::text("line"));
        assert(entries_view(es@) =~= seq![("type"@, Json::Str("line"@))]);
        push_opt_str(&mut es, "id", &self.id);
        push_opt_str(&mut es, "name", &self.name);
        push_opt_codec(&mut es, "coordinateSystem", &self.coordinate_system);
        push_opt_codec(&mut es, "symbol", &self.symbol);
        push_opt_int(&mut es, "symbolSize", self.symbol_size);
        push_opt_bool(&mut es, "showSymbol", self.show_symbol);
        push_opt_str(&mut es, "stack", &self.stack);
        push_opt_codec(&mut es, "sampling", &self.sampling);
        push_opt_codec(&mut es, "label", &self.label);
        push_opt_codec(&mut es, "lineStyle", &self.line_style);
        push_opt_codec(&mut es, "areaStyle", &self.area_style);
        push_opt_codec(&mut es, "itemStyle", &self.item_style);
        push_opt_codec(&mut es, "emphasis", &self.emphasis);
        push_opt_codec(&mut es, "smooth", &self.smooth);
        push_opt_codec(&mut es, "step", &self.step);
        push_opt_bool(&mut es, "connectNulls", self.connect_nulls);
        push_opt_str(&mut es, "datasetId", &self.dataset_id);
        push_opt_int(&mut es, "xAxisIndex", self.x_axis_index);
        push_opt_int(&mut es, "yAxisIndex", self.y_axis_index);
        push_opt_codec(&mut es, "tooltip", &self.tooltip);
        push_opt_bool(&mut es, "silent", self.silent);
        push_opt_int(&mut es, "z", self.z);
        push_list(&mut es, "data", &self.data);
        JsonValue::object(es)
    }

    fn from_json(j: &JsonValue) -> (r: Result<Line, DecodeError>) {
        let es = match j.entries() {
            Some(es) => es,
            None => return Err(DecodeError::InvalidType),
        };
        let tag_ok = match lookup(es, "type") {
            Some(JsonValue::Str(t)) => text_is(t, "line"),
            _ => false,
        };
        if !tag_ok {
            return Err(field_error("line", "type"));
        }
        let v = Line::decode_head(es, Line::new())?;
        let v = Line::decode_body(es, v)?;
        let v = Line::decode_tail(es, v)?;
        Ok(v)
    }
}

impl Line {
    pub fn new() -> (r: Line)
        ensures
            r@ == empty_line(),
    {
        let data: Vec<DataPoint> = Vec::new();
        assert(seq_view(data@) =~= Seq::<DataPointView>::empty());
        Line { id: None, name: None, coordinate_system: None, symbol: None, symbol_size: None, show_symbol: None, stack: None, sampling: None, label: None, line_style: None, area_style: None, item_style: None, emphasis: None, smooth: None, step: None, connect_nulls: None, dataset_id: None, x_axis_index: None, y_axis_index: None, tooltip: None, silent: None, z: None, data }
    }

    pub fn id(self, v: &str) -> (r: Line)
        ensures
            r@ == (LineView { id: Some(v@), ..self@ }),
    {
        Line { id: Some(String::from_str(v)), ..self }
    }

    pub fn name(self, v: &str) -> (r: Line)
        ensures
            r@ == (LineView { name: Some(v@), ..self@ }),
    {
        Line { name: Some(String::from_str(v)), ..self }
    }

    pub fn coordinate_system(self, v: CoordinateSystem) -> (r: Line)
        ensures
            r@ == (LineView { coordinate_system: Some(v@), ..self@ }),
    {
        Line { coordinate_system: Some(v), ..self }
    }

    pub fn symbol(self, v: Symbol) -> (r: Line)
        ensures
            r@ == (LineView { symbol: Some(v@), ..self@ }),
    {
        Line { symbol: Some(v), ..self }
    }

    pub fn symbol_size(self, v: i64) -> (r: Line)
        ensures
            r@ == (LineView { symbol_size: Some(v as int), ..self@ }),
    {
        Line { symbol_size: Some(v), ..self }
    }

    pub fn show_symbol(self, v: bool) -> (r: Line)
        ensures
            r@ == (LineView { show_symbol: Some(v), ..self@ }),
    {
        Line { show_symbol: Some(v), ..self }
    }

    pub fn stack(self, v: &str) -> (r: Line)
        ensures
            r@ == (LineView { stack: Some(v@), ..self@ }),
    {
        Line { stack: Some(String::from_str(v)), ..self }
    }

    pub fn sampling(self, v: Sampling) -> (r: Line)
        ensures
            r@ == (LineView { sampling: Some(v@), ..self@ }),
    {
        Line { sampling: Some(v), ..self }
    }

    pub fn label(self, v: Label) -> (r: Line)
        ensures
            r@ == (LineView { label: Some(v@), ..self@ }),
    {
        Line { label: Some(v), ..self }
    }

    pub fn line_style(self, v: LineStyle) -> (r: Line)
        ensures
            r@ == (LineView { line_style: Some(v@), ..self@ }),
    {
        Line { line_style: Some(v), ..self }
    }

    pub fn area_style(self, v: AreaStyle) -> (r: Line)
        ensures
            r@ == (LineView { area_style: Some(v@), ..self@ }),
    {
        Line { area_style: Some(v), ..self }
    }

    pub fn item_style(self, v: ItemStyle) -> (r: Line)
        ensures
            r@ == (LineView { item_style: Some(v@), ..self@ }),
    {
        Line { item_style: Some(v), ..self }
    }

    pub fn emphasis(self, v: Emphasis) -> (r: Line)
        ensures
            r@ == (LineView { emphasis: Some(v@), ..self@ }),
    {
        Line { emphasis: Some(v), ..self }
    }

    pub fn smooth(self, v: Smoothness) -> (r: Line)
        ensures
            r@ == (LineView { smooth: Some(v@), ..self@ }),
    {
        Line { smooth: Some(v), ..self }
    }

    pub fn step(self, v: Step) -> (r: Line)
        ensures
            r@ == (LineView { step: Some(v@), ..self@ }),
    {
        Line { step: Some(v), ..self }
    }

    pub fn connect_nulls(self, v: bool) -> (r: Line)
        ensures
            r@ == (LineView { connect_nulls: Some(v), ..self@ }),
    {
        Line { connect_nulls: Some(v), ..self }
    }

    pub fn dataset_id(self, v: &str) -> (r: Line)
        ensures
            r@ == (LineView { dataset_id: Some(v@), ..self@ }),
    {
        Line { dataset_id: Some(String::from_str(v)), ..self }
    }

    pub fn x_axis_index(self, v: i64) -> (r: Line)
        ensures
            r@ == (LineView { x_axis_index: Some(v as int), ..self@ }),
    {
        Line { x_axis_index: Some(v), ..self }
    }

    pub fn y_axis_index(self, v: i64) -> (r: Line)
        ensures
            r@ == (LineView { y_axis_index: Some(v as int), ..self@ }),
    {
        Line { y_axis_index: Some(v), ..self }
    }

    pub fn tooltip(self, v: Tooltip) -> (r: Line)
        ensures
            r@ == (LineView { tooltip: Some(v@), ..self@ }),
    {
        Line { tooltip: Some(v), ..self }
    }

    pub fn silent(self, v: bool) -> (r: Line)
        ensures
            r@ == (LineView { silent: Some(v), ..self@ }),
    {
        Line { silent: Some(v), ..self }
    }

    pub fn z(self, v: i64) -> (r: Line)
        ensures
            r@ == (LineView { z: Some(v as int), ..self@ }),
    {
        Line { z: Some(v), ..self }
    }

    pub fn data(self, v: Vec<DataPoint>) -> (r: Line)
        ensures
            r@ == (LineView { data: seq_view(v@), ..self@ }),
    {
        Line { data: v, ..self }
    }
}

impl Line {
    pub fn get_id(&self) -> (r: Option<String>)
        ensures
            opt_str_view(r) == self@.id,
    {
        copy_opt_str(&self.id)
    }

    pub fn get_name(&self) -> (r: Option<String>)
        ensures
            opt_str_view(r) == self@.name,
    {
        copy_opt_str(&self.name)
    }

    pub fn set_name(&mut self, name: &str)
        ensures
            final(self)@ == (LineView { name: Some(name@), ..old(self)@ }),
    {
        self.name = Some(String::from_str(name));
    }

    pub fn get_symbol(&self) -> (r: &Option<Symbol>)
        ensures
            *r == self@.symbol,
    {
        &self.symbol
    }

    pub fn set_symbol(&mut self, symbol: Symbol)
        ensures
            final(self)@ == (LineView { symbol: Some(symbol), ..old(self)@ }),
    {
        self.symbol = Some(symbol);
    }

    pub fn get_show_symbol(&self) -> (r: Option<bool>)
        ensures
            r == self@.show_symbol,
    {
        self.show_symbol
    }

    pub fn set_show_symbol(&mut self, show_symbol: bool)
        ensures
            final(self)@ == (LineView { show_symbol: Some(show_symbol), ..old(self)@ }),
    {
        self.show_symbol = Some(show_symbol);
    }

    pub fn set_smoothness(&mut self, smoothness: Smoothness)
        ensures
            final(self)@ == (LineView { smooth: Some(smoothness), ..old(self)@ }),
    {
        self.smooth = Some(smoothness);
    }

    pub fn get_smoothness(&self) -> (r: Option<Smoothness>)
        ensures
            r == self@.smooth,
    {
        self.smooth
    }

    pub fn get_linestyle(&self) -> (r: Option<LineStyle>)
        ensures
            opt_view(r) == self@.line_style,
    {
        match &self.line_style {
            Some(style) => Some(style.duplicate()),
            None => None,
        }
    }

    pub fn set_linestyle(&mut self, line_style: LineStyle)
        ensures
            final(self)@ == (LineView { line_style: Some(line_style@), ..old(self)@ }),
    {
        self.line_style = Some(line_style);
    }

    pub fn get_data(&self) -> (r: &Vec<DataPoint>)
        ensures
            seq_view(r@) == self@.data,
    {
        &self.data
    }

    pub fn set_data(&mut self, new_data: Vec<DataPoint>)
        ensures
            final(self)@ == (LineView { data: seq_view(new_data@), ..old(self)@ }),
    {
        self.data = new_data;
    }
}

/// Scoped write access to a line series that is owned elsewhere.
pub struct LineController<'a> {
    line: &'a mut Line,
}

impl<'a> LineController<'a> {
    /// The line this controller writes to.
    pub closed spec fn target(&self) -> &'a mut Line {
        self.line
    }

    pub fn new(line: &'a mut Line) -> (r: Self)
        ensures
            *r.target() == *old(line),
            *final(line) == *final(r.target()),
    {
        LineController { line }
    }

    pub fn with_name(&mut self, name: &str)
        ensures
            (*final(self).target())@ == (LineView { name: Some(name@), ..(*old(self).target())@ }),
            *final(final(self).target()) == *final(old(self).target()),
    {
        self.line.name = Some(String::from_str(name));
    }

    pub fn with_connect_nulls(&mut self, connect: bool)
        ensures
            (*final(self).target())@ == (LineView { connect_nulls: Some(connect), ..(*old(self).target())@ }),
            *final(final(self).target()) == *final(old(self).target()),
    {
        self.line.connect_nulls = Some(connect);
    }

    pub fn with_line_style(&mut self, style: LineStyle)
        ensures
            (*final(self).target())@ == (LineView { line_style: Some(style@), ..(*old(self).target())@ }),
            *final(final(self).target()) == *final(old(self).target()),
    {
        self.line.line_style = Some(style);
    }

    pub fn with_silent(&mut self, silent: bool)
        ensures
            (*final(self).target())@ == (LineView { silent: Some(silent), ..(*old(self).target())@ }),
            *final(final(self).target()) == *final(old(self).target()),
    {
        self.line.silent = Some(silent);
    }

    pub fn with_smooth(&mut self, smooth: Smoothness)
        ensures
            (*final(self).target())@ == (LineView { smooth: Some(smooth), ..(*old(self).target())@ }),
            *final(final(self).target()) == *final(old(self).target()),
    {
        self.line.smooth = Some(smooth);
    }

    pub fn with_stack(&mut self, stack: &str)
        ensures
            (*final(self).target())@ == (LineView { stack: Some(stack@), ..(*old(self).target())@ }),
            *final(final(self).target()) == *final(old(self).target()),
    {
        self.line.stack = Some(String::from_str(stack));
    }

    pub fn with_symbol_size(&mut self, size: i64)
        ensures
            (*final(self).target())@ == (LineView { symbol_size: Some(size as int), ..(*old(self).target())@ }),
            *final(final(self).target()) == *final(old(self).target()),
    {
        self.line.symbol_size = Some(size);
    }

    pub fn with_z(&mut self, z: i64)
        ensures
            (*final(self).target())@ == (LineView { z: Some(z as int), ..(*old(self).target())@ }),
            *final(final(self).target()) == *final(old(self).target()),
    {
        self.line.z = Some(z);
    }

    pub fn with_dataset_id(&mut self, id: &str)
        ensures
            (*final(self).target())@ == (LineView { dataset_id: Some(id@), ..(*old(self).target())@ }),
            *final(final(self).target()) == *final(old(self).target()),
    {
        self.line.dataset_id = Some(String::from_str(id));
    }

    pub fn with_x_axis_index(&mut self, index: i64)
        ensures
            (*final(self).target())@ == (LineView { x_axis_index: Some(index as int), ..(*old(self).target())@ }),
            *final(final(self).target()) == *final(old(self).target()),
    {
        self.line.x_axis_index = Some(index);
    }

    pub fn with_y_axis_index(&mut self, index: i64)
        ensures
            (*final(self).target())@ == (LineView { y_axis_index: Some(index as int), ..(*old(self).target())@ }),
            *final(final(self).target()) == *final(old(self).target()),
    {
        self.line.y_axis_index = Some(index);
    }

    pub fn with_data(&mut self, data: Vec<DataPoint>)
        ensures
            (*final(self).target())@ == (LineView { data: seq_view(data@), ..(*old(self).target())@ }),
            *final(final(self).target()) == *final(old(self).target()),
    {
        self.line.data = data;
    }

    pub fn with_coordinate_system(&mut self, system: CoordinateSystem)
        ensures
            (*final(self).target())@ == (LineView { coordinate_system: Some(system@), ..(*old(self).target())@ }),
            *final(final(self).target()) == *final(old(self).target()),
    {
        self.line.coordinate_system = Some(system);
    }

    pub fn with_sampling(&mut self, sampling: Sampling)
        ensures
            (*final(self).target())@ == (LineView { sampling: Some(sampling@), ..(*old(self).target())@ }),
            *final(final(self).target()) == *final(old(self).target()),
    {
        self.line.sampling = Some(sampling);
    }

    pub fn with_step(&mut self, step: Step)
        ensures
            (*final(self).target())@ == (LineView { step: Some(step@), ..(*old(self).target())@ }),
            *final(final(self).target()) == *final(old(self).target()),
    {
        self.line.step = Some(step);
    }

    pub fn with_tooltip(&mut self, tooltip: Tooltip)
        ensures
            (*final(self).target())@ == (LineView { tooltip: Some(tooltip@), ..(*old(self).target())@ }),
            *final(final(self).target()) == *final(old(self).target()),
    {
        self.line.tooltip = Some(tooltip);
    }

    pub fn with_label(&mut self, label: Label)
        ensures
            (*final(self).target())@ == (LineView { label: Some(label@), ..(*old(self).target())@ }),
            *final(final(self).target()) == *final(old(self).target()),
    {
        self.line.label = Some(label);
    }

    pub fn with_area_style(&mut self, style: AreaStyle)
        ensures
            (*final(self).target())@ == (LineView { area_style: Some(style@), ..(*old(self).target())@ }),
            *final(final(self).target()) == *final(old(self).target()),
    {
        self.line.area_style = Some(style);
    }

    pub fn with_item_style(&mut self, style: ItemStyle)
        ensures
            (*final(self).target())@ == (LineView { item_style: Some(style@), ..(*old(self).target())@ }),
            *final(final(self).target()) == *final(old(self).target()),
    {
        self.line.item_style = Some(style);
    }

    pub fn with_emphasis(&mut self, emphasis: Emphasis)
        ensures
            (*final(self).target())@ == (LineView { emphasis: Some(emphasis@), ..(*old(self).target())@ }),
            *final(final(self).target()) == *final(old(self).target()),
    {
        self.line.emphasis = Some(emphasis);
    }
}

} // verus!
