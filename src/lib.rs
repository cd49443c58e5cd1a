//! Declarative chart specifications with an exact, verified JSON form.
//!
//! A [`Chart`] is built with chained setters, holds its series as the tagged
//! union [`series::Series`], and is encoded into and decoded from the document
//! model [`json::JsonValue`]. Every encoder states the JSON it produces, every
//! decoder states what it accepts and which error it gives, and the laws that
//! relate them are proved.
use vstd::prelude::*;
use component::{
    axis_json, toolbox_image_type, Axis, Axis3D, Axis3DView, AxisView, Grid3D, Legend, LegendView,
    SaveAsImageType, Title, TitleView, Toolbox, ToolboxView, Tooltip, TooltipView,
};
use series::{line_part, Getters, Series, SeriesController, SeriesTarget, SeriesView};
use crate::json::{
    dec_list, dec_list_exec, dec_one_or_many, dec_one_or_many_exec, dec_opt, dec_opt_bool,
    dec_opt_bool_exec, dec_opt_exec, dec_opt_str, dec_opt_str_exec, decoded, entries_view,
    field_error, lemma_list_round_trip, lemma_obj_get_empty, lemma_one_or_many_round_trip,
    lemma_opt_round_trip, lemma_push_nonempty, lemma_push_one_or_many, lemma_push_opt,
    lemma_scalar_round_trips, list_json, lookup, obj_get, one_or_many, opt_bool_json, opt_json,
    opt_str_json, opt_str_view, opt_view, push_list, push_nonempty, push_one_or_many,
    push_one_or_many_exec, push_opt, push_opt_bool, push_opt_codec, push_opt_str, seq_view,
    text_is, Codec, DecodeError, DecodeFailure, Json, JsonValue,
};

pub mod component;
pub mod element;
pub mod json;
pub mod raw;
pub mod series;
pub mod style;

verus! {

/// A chart: its components and its series, in the order they were added.
#[derive(Debug, Clone, PartialEq)]
pub struct Chart {
    title: Vec<Title>,
    animation: Option<bool>,
    tooltip: Option<Tooltip>,
    legend: Option<Legend>,
    toolbox: Option<Toolbox>,
    grid3d: Vec<Grid3D>,
    x_axis: Vec<Axis>,
    y_axis: Vec<Axis>,
    x_axis3d: Vec<Axis3D>,
    y_axis3d: Vec<Axis3D>,
    z_axis3d: Vec<Axis3D>,
    color: Vec<String>,
    background_color: Option<String>,
    series: Vec<Series>,
}

/// One axis is written bare and several as an array; both read back as they were.
proof fn axes_round_trip(v: Seq<AxisView>)
    ensures
        dec_one_or_many::<Axis>(one_or_many(list_json::<Axis>(v))) == Some(v),
{
    assert forall|x: AxisView| !(#[trigger] Axis::encode_spec(x) is Array) by {}
    lemma_one_or_many_round_trip::<Axis>(v);
}

/// Model of [`Chart`].
pub struct ChartView {
    pub title: Seq<TitleView>,
    pub animation: Option<bool>,
    pub tooltip: Option<TooltipView>,
    pub legend: Option<LegendView>,
    pub toolbox: Option<ToolboxView>,
    pub grid3d: Seq<Grid3D>,
    pub x_axis: Seq<AxisView>,
    pub y_axis: Seq<AxisView>,
    pub x_axis3d: Seq<Axis3DView>,
    pub y_axis3d: Seq<Axis3DView>,
    pub z_axis3d: Seq<Axis3DView>,
    pub color: Seq<Seq<char>>,
    pub background_color: Option<Seq<char>>,
    pub series: Seq<SeriesView>,
}

impl View for Chart {
    type V = ChartView;

    closed spec fn view(&self) -> ChartView {
        ChartView {
            title: seq_view(self.title@),
            animation: self.animation,
            tooltip: opt_view(self.tooltip),
            legend: opt_view(self.legend),
            toolbox: opt_view(self.toolbox),
            grid3d: seq_view(self.grid3d@),
            x_axis: seq_view(self.x_axis@),
            y_axis: seq_view(self.y_axis@),
            x_axis3d: seq_view(self.x_axis3d@),
            y_axis3d: seq_view(self.y_axis3d@),
            z_axis3d: seq_view(self.z_axis3d@),
            color: seq_view(self.color@),
            background_color: opt_str_view(self.background_color),
            series: seq_view(self.series@),
        }
    }
}

/// A chart with every field unset.
pub open spec fn empty_chart() -> ChartView {
    ChartView {
        title: Seq::empty(),
        animation: None,
        tooltip: None,
        legend: None,
        toolbox: None,
        grid3d: Seq::empty(),
        x_axis: Seq::empty(),
        y_axis: Seq::empty(),
        x_axis3d: Seq::empty(),
        y_axis3d: Seq::empty(),
        z_axis3d: Seq::empty(),
        color: Seq::empty(),
        background_color: None,
        series: Seq::empty(),
    }
}

/// The entries of the JSON object of a chart: each field that is set, in declaration order.
pub open spec fn chart_entries(v: ChartView) -> Seq<(Seq<char>, Json)> {
    let es = Seq::empty();
    let es = push_nonempty(es, "title"@, list_json::<Title>(v.title));
    let es = push_opt(es, "animation"@, opt_bool_json(v.animation));
    let es = push_opt(es, "tooltip"@, opt_json::<Tooltip>(v.tooltip));
    let es = push_opt(es, "legend"@, opt_json::<Legend>(v.legend));
    let es = push_opt(es, "toolbox"@, opt_json::<Toolbox>(v.toolbox));
    let es = push_nonempty(es, "grid3D"@, list_json::<Grid3D>(v.grid3d));
    let es = push_one_or_many(es, "xAxis"@, list_json::<Axis>(v.x_axis));
    let es = push_one_or_many(es, "yAxis"@, list_json::<Axis>(v.y_axis));
    let es = push_nonempty(es, "xAxis3D"@, list_json::<Axis3D>(v.x_axis3d));
    let es = push_nonempty(es, "yAxis3D"@, list_json::<Axis3D>(v.y_axis3d));
    let es = push_nonempty(es, "zAxis3D"@, list_json::<Axis3D>(v.z_axis3d));
    let es = push_nonempty(es, "color"@, list_json::<String>(v.color));
    let es = push_opt(es, "backgroundColor"@, opt_str_json(v.background_color));
    push_nonempty(es, "series"@, list_json::<Series>(v.series))
}

pub open spec fn chart_json(v: ChartView) -> Json {
    Json::Object(chart_entries(v))
}

pub open spec fn bad_chart(field: Seq<char>) -> Result<ChartView, DecodeFailure> {
    Err(DecodeFailure::InvalidField("chart"@, field))
}

/// Decodes the first fields of a chart into `base`,
/// failing on the first, in declaration order, of the wrong shape.
pub open spec fn chart_decode_head(es: Seq<(Seq<char>, Json)>, base: ChartView) -> Result<ChartView, DecodeFailure> {
    let title = dec_list::<Title>(obj_get(es, "title"@));
    let animation = dec_opt_bool(obj_get(es, "animation"@));
    let tooltip = dec_opt::<Tooltip>(obj_get(es, "tooltip"@));
    let legend = dec_opt::<Legend>(obj_get(es, "legend"@));
    let toolbox = dec_opt::<Toolbox>(obj_get(es, "toolbox"@));
    if title is None {
        bad_chart("title"@)
    } else if animation is None {
        bad_chart("animation"@)
    } else if tooltip is None {
        bad_chart("tooltip"@)
    } else if legend is None {
        bad_chart("legend"@)
    } else if toolbox is None {
        bad_chart("toolbox"@)
    } else {
        Ok(
            ChartView {
                title: title->Some_0,
                animation: animation->Some_0,
                tooltip: tooltip->Some_0,
                legend: legend->Some_0,
                toolbox: toolbox->Some_0,
                ..base
            },
        )
    }
}

/// Decodes the middle fields of a chart into `base`,
/// failing on the first, in declaration order, of the wrong shape.
pub open spec fn chart_decode_body(es: Seq<(Seq<char>, Json)>, base: ChartView) -> Result<ChartView, DecodeFailure> {
    let grid3d = dec_list::<Grid3D>(obj_get(es, "grid3D"@));
    let x_axis = dec_one_or_many::<Axis>(obj_get(es, "xAxis"@));
    let y_axis = dec_one_or_many::<Axis>(obj_get(es, "yAxis"@));
    let x_axis3d = dec_list::<Axis3D>(obj_get(es, "xAxis3D"@));
    let y_axis3d = dec_list::<Axis3D>(obj_get(es, "yAxis3D"@));
    if grid3d is None {
        bad_chart("grid3D"@)
    } else if x_axis is None {
        bad_chart("xAxis"@)
    } else if y_axis is None {
        bad_chart("yAxis"@)
    } else if x_axis3d is None {
        bad_chart("xAxis3D"@)
    } else if y_axis3d is None {
        bad_chart("yAxis3D"@)
    } else {
        Ok(
            ChartView {
                grid3d: grid3d->Some_0,
                x_axis: x_axis->Some_0,
                y_axis: y_axis->Some_0,
                x_axis3d: x_axis3d->Some_0,
                y_axis3d: y_axis3d->Some_0,
                ..base
            },
        )
    }
}

/// Decodes the last fields of a chart into `base`,
/// failing on the first, in declaration order, of the wrong shape.
pub open spec fn chart_decode_tail(es: Seq<(Seq<char>, Json)>, base: ChartView) -> Result<ChartView, DecodeFailure> {
    let z_axis3d = dec_list::<Axis3D>(obj_get(es, "zAxis3D"@));
    let color = dec_list::<String>(obj_get(es, "color"@));
    let background_color = dec_opt_str(obj_get(es, "backgroundColor"@));
    let series = dec_list::<Series>(obj_get(es, "series"@));
    if z_axis3d is None {
        bad_chart("zAxis3D"@)
    } else if color is None {
        bad_chart("color"@)
    } else if background_color is None {
        bad_chart("backgroundColor"@)
    } else if series is None {
        bad_chart("series"@)
    } else {
        Ok(
            ChartView {
                z_axis3d: z_axis3d->Some_0,
                color: color->Some_0,
                background_color: background_color->Some_0,
                series: series->Some_0,
                ..base
            },
        )
    }
}

/// Decodes the entries of a chart object; the first field of the wrong shape is named.
pub open spec fn chart_decode_entries(es: Seq<(Seq<char>, Json)>) -> Result<ChartView, DecodeFailure> {
    match match chart_decode_head(es, empty_chart()) {
        Ok(v) => chart_decode_body(es, v),
        Err(e) => Err(e),
    } {
        Ok(v) => chart_decode_tail(es, v),
        Err(e) => Err(e),
    }
}

pub open spec fn chart_decode(j: Json) -> Result<ChartView, DecodeFailure> {
    match j {
        Json::Object(es) => chart_decode_entries(es),
        _ => Err(DecodeFailure::InvalidType),
    }
}

/// Lengths and characters that tell the keys of a chart object apart.
proof fn chart_key_facts()
    ensures
        "title"@.len() == 5 && "title"@[0] == 't',
        "animation"@.len() == 9,
        "tooltip"@.len() == 7 && "tooltip"@[0] == 't' && "tooltip"@[4] == 't',
        "legend"@.len() == 6 && "legend"@[0] == 'l',
        "toolbox"@.len() == 7 && "toolbox"@[0] == 't' && "toolbox"@[4] == 'b',
        "grid3D"@.len() == 6 && "grid3D"@[0] == 'g',
        "xAxis"@.len() == 5 && "xAxis"@[0] == 'x',
        "yAxis"@.len() == 5 && "yAxis"@[0] == 'y',
        "xAxis3D"@.len() == 7 && "xAxis3D"@[0] == 'x',
        "yAxis3D"@.len() == 7 && "yAxis3D"@[0] == 'y',
        "zAxis3D"@.len() == 7 && "zAxis3D"@[0] == 'z',
        "color"@.len() == 5 && "color"@[0] == 'c',
        "backgroundColor"@.len() == 15,
        "series"@.len() == 6 && "series"@[0] == 's',
{
    reveal_strlit("title");
    reveal_strlit("animation");
    reveal_strlit("tooltip");
    reveal_strlit("legend");
    reveal_strlit("toolbox");
    reveal_strlit("grid3D");
    reveal_strlit("xAxis");
    reveal_strlit("yAxis");
    reveal_strlit("xAxis3D");
    reveal_strlit("yAxis3D");
    reveal_strlit("zAxis3D");
    reveal_strlit("color");
    reveal_strlit("backgroundColor");
    reveal_strlit("series");
}

/// Decoding the JSON form of a chart gives it back.
pub proof fn chart_round_trip(v: ChartView)
    ensures
        chart_decode(chart_json(v)) == Ok::<ChartView, DecodeFailure>(v),
{
    broadcast use crate::json::lemma_obj_get_push_opt, crate::json::lemma_obj_get_push_nonempty, crate::json::lemma_obj_get_one_or_many;

    chart_key_facts();
    let es = chart_entries(v);
    lemma_obj_get_empty("title"@);
    lemma_obj_get_empty("animation"@);
    lemma_obj_get_empty("tooltip"@);
    lemma_obj_get_empty("legend"@);
    lemma_obj_get_empty("toolbox"@);
    lemma_obj_get_empty("grid3D"@);
    lemma_obj_get_empty("xAxis"@);
    lemma_obj_get_empty("yAxis"@);
    lemma_obj_get_empty("xAxis3D"@);
    lemma_obj_get_empty("yAxis3D"@);
    lemma_obj_get_empty("zAxis3D"@);
    lemma_obj_get_empty("color"@);
    lemma_obj_get_empty("backgroundColor"@);
    lemma_obj_get_empty("series"@);
    if v.title.len() > 0 {
        assert(obj_get(es, "title"@) == Some(Json::Array(list_json::<Title>(v.title))));
        lemma_list_round_trip::<Title>(v.title);
    } else {
        assert(obj_get(es, "title"@) is None);
        assert(v.title =~= Seq::<TitleView>::empty());
    }
    assert(obj_get(es, "animation"@) == opt_bool_json(v.animation));
    lemma_scalar_round_trips(None, v.animation, None);
    assert(obj_get(es, "tooltip"@) == opt_json::<Tooltip>(v.tooltip));
    lemma_opt_round_trip::<Tooltip>(v.tooltip);
    assert(obj_get(es, "legend"@) == opt_json::<Legend>(v.legend));
    lemma_opt_round_trip::<Legend>(v.legend);
    assert(obj_get(es, "toolbox"@) == opt_json::<Toolbox>(v.toolbox));
    lemma_opt_round_trip::<Toolbox>(v.toolbox);
    if v.grid3d.len() > 0 {
        assert(obj_get(es, "grid3D"@) == Some(Json::Array(list_json::<Grid3D>(v.grid3d))));
        lemma_list_round_trip::<Grid3D>(v.grid3d);
    } else {
        assert(obj_get(es, "grid3D"@) is None);
        assert(v.grid3d =~= Seq::<Grid3D>::empty());
    }
    assert(obj_get(es, "xAxis"@) == one_or_many(list_json::<Axis>(v.x_axis)));
    axes_round_trip(v.x_axis);
    assert(obj_get(es, "yAxis"@) == one_or_many(list_json::<Axis>(v.y_axis)));
    axes_round_trip(v.y_axis);
    if v.x_axis3d.len() > 0 {
        assert(obj_get(es, "xAxis3D"@) == Some(Json::Array(list_json::<Axis3D>(v.x_axis3d))));
        lemma_list_round_trip::<Axis3D>(v.x_axis3d);
    } else {
        assert(obj_get(es, "xAxis3D"@) is None);
        assert(v.x_axis3d =~= Seq::<Axis3DView>::empty());
    }
    if v.y_axis3d.len() > 0 {
        assert(obj_get(es, "yAxis3D"@) == Some(Json::Array(list_json::<Axis3D>(v.y_axis3d))));
        lemma_list_round_trip::<Axis3D>(v.y_axis3d);
    } else {
        assert(obj_get(es, "yAxis3D"@) is None);
        assert(v.y_axis3d =~= Seq::<Axis3DView>::empty());
    }
    if v.z_axis3d.len() > 0 {
        assert(obj_get(es, "zAxis3D"@) == Some(Json::Array(list_json::<Axis3D>(v.z_axis3d))));
        lemma_list_round_trip::<Axis3D>(v.z_axis3d);
    } else {
        assert(obj_get(es, "zAxis3D"@) is None);
        assert(v.z_axis3d =~= Seq::<Axis3DView>::empty());
    }
    if v.color.len() > 0 {
        assert(obj_get(es, "color"@) == Some(Json::Array(list_json::<String>(v.color))));
        lemma_list_round_trip::<String>(v.color);
    } else {
        assert(obj_get(es, "color"@) is None);
        assert(v.color =~= Seq::<Seq<char>>::empty());
    }
    assert(obj_get(es, "backgroundColor"@) == opt_str_json(v.background_color));
    lemma_scalar_round_trips(v.background_color, None, None);
    if v.series.len() > 0 {
        assert(obj_get(es, "series"@) == Some(Json::Array(list_json::<Series>(v.series))));
        lemma_list_round_trip::<Series>(v.series);
    } else {
        assert(obj_get(es, "series"@) is None);
        assert(v.series =~= Seq::<SeriesView>::empty());
    }
}

impl Chart {
    fn decode_head(es: &Vec<(String, JsonValue)>, base: Chart) -> (r: Result<Chart, DecodeError>)
        ensures
            decoded(r) == chart_decode_head(entries_view(es@), base@),
    {
        let title = match dec_list_exec::<Title>(lookup(es, "title")) {
            Some(v) => v,
            None => return Err(field_error("chart", "title")),
        };
        let animation = match dec_opt_bool_exec(lookup(es, "animation")) {
            Some(v) => v,
            None => return Err(field_error("chart", "animation")),
        };
        let tooltip = match dec_opt_exec::<Tooltip>(lookup(es, "tooltip")) {
            Some(v) => v,
            None => return Err(field_error("chart", "tooltip")),
        };
        let legend = match dec_opt_exec::<Legend>(lookup(es, "legend")) {
            Some(v) => v,
            None => return Err(field_error("chart", "legend")),
        };
        let toolbox = match dec_opt_exec::<Toolbox>(lookup(es, "toolbox")) {
            Some(v) => v,
            None => return Err(field_error("chart", "toolbox")),
        };
        Ok(Chart { title, animation, tooltip, legend, toolbox, ..base })
    }

    fn decode_body(es: &Vec<(String, JsonValue)>, base: Chart) -> (r: Result<Chart, DecodeError>)
        ensures
            decoded(r) == chart_decode_body(entries_view(es@), base@),
    {
        let grid3d = match dec_list_exec::<Grid3D>(lookup(es, "grid3D")) {
            Some(v) => v,
            None => return Err(field_error("chart", "grid3D")),
        };
        let x_axis = match dec_one_or_many_exec::<Axis>(lookup(es, "xAxis")) {
            Some(v) => v,
            None => return Err(field_error("chart", "xAxis")),
        };
        let y_axis = match dec_one_or_many_exec::<Axis>(lookup(es, "yAxis")) {
            Some(v) => v,
            None => return Err(field_error("chart", "yAxis")),
        };
        let x_axis3d = match dec_list_exec::<Axis3D>(lookup(es, "xAxis3D")) {
            Some(v) => v,
            None => return Err(field_error("chart", "xAxis3D")),
        };
        let y_axis3d = match dec_list_exec::<Axis3D>(lookup(es, "yAxis3D")) {
            Some(v) => v,
            None => return Err(field_error("chart", "yAxis3D")),
        };
        Ok(Chart { grid3d, x_axis, y_axis, x_axis3d, y_axis3d, ..base })
    }

    fn decode_tail(es: &Vec<(String, JsonValue)>, base: Chart) -> (r: Result<Chart, DecodeError>)
        ensures
            decoded(r) == chart_decode_tail(entries_view(es@), base@),
    {
        let z_axis3d = match dec_list_exec::<Axis3D>(lookup(es, "zAxis3D")) {
            Some(v) => v,
            None => return Err(field_error("chart", "zAxis3D")),
        };
        let color = match dec_list_exec::<String>(lookup(es, "color")) {
            Some(v) => v,
            None => return Err(field_error("chart", "color")),
        };
        let background_color = match dec_opt_str_exec(lookup(es, "backgroundColor")) {
            Some(v) => v,
            None => return Err(field_error("chart", "backgroundColor")),
        };
        let series = match dec_list_exec::<Series>(lookup(es, "series")) {
            Some(v) => v,
            None => return Err(field_error("chart", "series")),
        };
        Ok(Chart { z_axis3d, color, background_color, series, ..base })
    }
}

impl Codec for Chart {
    open spec fn encode_spec(v: ChartView) -> Json {
        chart_json(v)
    }

    open spec fn decode_spec(j: Json) -> Result<ChartView, DecodeFailure> {
        chart_decode(j)
    }

    proof fn lemma_round_trip(v: ChartView) {
        chart_round_trip(v);
    }

    fn to_json(&self) -> (r: JsonValue) {
        let mut es: Vec<(String, JsonValue)> = Vec::new();
        assert(entries_view(es@) =~= Seq::empty());
        push_list(&mut es, "title", &self.title);
        push_opt_bool(&mut es, "animation", self.animation);
        push_opt_codec(&mut es, "tooltip", &self.tooltip);
        push_opt_codec(&mut es, "legend", &self.legend);
        push_opt_codec(&mut es, "toolbox", &self.toolbox);
        push_list(&mut es, "grid3D", &self.grid3d);
        push_one_or_many_exec(&mut es, "xAxis", &self.x_axis);
        push_one_or_many_exec(&mut es, "yAxis", &self.y_axis);
        push_list(&mut es, "xAxis3D", &self.x_axis3d);
        push_list(&mut es, "yAxis3D", &self.y_axis3d);
        push_list(&mut es, "zAxis3D", &self.z_axis3d);
        push_list(&mut es, "color", &self.color);
        push_opt_str(&mut es, "backgroundColor", &self.background_color);
        push_list(&mut es, "series", &self.series);
        JsonValue::object(es)
    }

    fn from_json(j: &JsonValue) -> (r: Result<Chart, DecodeError>) {
        let es = match j.entries() {
            Some(es) => es,
            None => return Err(DecodeError::InvalidType),
        };
        let v = Chart::decode_head(es, Chart::new())?;
        let v = Chart::decode_body(es, v)?;
        let v = Chart::decode_tail(es, v)?;
        Ok(v)
    }
}

impl Chart {
    pub fn new() -> (r: Chart)
        ensures
            r@ == empty_chart(),
    {
        let title: Vec<Title> = Vec::new();
        assert(seq_view(title@) =~= Seq::<TitleView>::empty());
        let grid3d: Vec<Grid3D> = Vec::new();
        assert(seq_view(grid3d@) =~= Seq::<Grid3D>::empty());
        let x_axis: Vec<Axis> = Vec::new();
        assert(seq_view(x_axis@) =~= Seq::<AxisView>::empty());
        let y_axis: Vec<Axis> = Vec::new();
        assert(seq_view(y_axis@) =~= Seq::<AxisView>::empty());
        let x_axis3d: Vec<Axis3D> = Vec::new();
        assert(seq_view(x_axis3d@) =~= Seq::<Axis3DView>::empty());
        let y_axis3d: Vec<Axis3D> = Vec::new();
        assert(seq_view(y_axis3d@) =~= Seq::<Axis3DView>::empty());
        let z_axis3d: Vec<Axis3D> = Vec::new();
        assert(seq_view(z_axis3d@) =~= Seq::<Axis3DView>::empty());
        let color: Vec<String> = Vec::new();
        assert(seq_view(color@) =~= Seq::<Seq<char>>::empty());
        let series: Vec<Series> = Vec::new();
        assert(seq_view(series@) =~= Seq::<SeriesView>::empty());
        Chart { title, animation: None, tooltip: None, legend: None, toolbox: None, grid3d, x_axis, y_axis, x_axis3d, y_axis3d, z_axis3d, color, background_color: None, series }
    }

    /// Appends one title.
    pub fn title(self, v: Title) -> (r: Chart)
        ensures
            r@ == (ChartView { title: self@.title.push(v@), ..self@ }),
    {
        let mut s = self;
        let ghost old_items = s.title@;
        s.title.push(v);
        assert(seq_view(s.title@) =~= seq_view(old_items).push(v@));
        s
    }

    pub fn animation(self, v: bool) -> (r: Chart)
        ensures
            r@ == (ChartView { animation: Some(v), ..self@ }),
    {
        Chart { animation: Some(v), ..self }
    }

    pub fn tooltip(self, v: Tooltip) -> (r: Chart)
        ensures
            r@ == (ChartView { tooltip: Some(v@), ..self@ }),
    {
        Chart { tooltip: Some(v), ..self }
    }

    pub fn legend(self, v: Legend) -> (r: Chart)
        ensures
            r@ == (ChartView { legend: Some(v@), ..self@ }),
    {
        Chart { legend: Some(v), ..self }
    }

    pub fn toolbox(self, v: Toolbox) -> (r: Chart)
        ensures
            r@ == (ChartView { toolbox: Some(v@), ..self@ }),
    {
        Chart { toolbox: Some(v), ..self }
    }

    /// Appends one 3D grid.
    pub fn grid3d(self, v: Grid3D) -> (r: Chart)
        ensures
            r@ == (ChartView { grid3d: self@.grid3d.push(v@), ..self@ }),
    {
        let mut s = self;
        let ghost old_items = s.grid3d@;
        s.grid3d.push(v);
        assert(seq_view(s.grid3d@) =~= seq_view(old_items).push(v@));
        s
    }

    /// Appends one x axis.
    pub fn x_axis(self, v: Axis) -> (r: Chart)
        ensures
            r@ == (ChartView { x_axis: self@.x_axis.push(v@), ..self@ }),
    {
        let mut s = self;
        let ghost old_items = s.x_axis@;
        s.x_axis.push(v);
        assert(seq_view(s.x_axis@) =~= seq_view(old_items).push(v@));
        s
    }

    /// Appends one y axis.
    pub fn y_axis(self, v: Axis) -> (r: Chart)
        ensures
            r@ == (ChartView { y_axis: self@.y_axis.push(v@), ..self@ }),
    {
        let mut s = self;
        let ghost old_items = s.y_axis@;
        s.y_axis.push(v);
        assert(seq_view(s.y_axis@) =~= seq_view(old_items).push(v@));
        s
    }

    /// Appends one 3D x axis.
    pub fn x_axis3d(self, v: Axis3D) -> (r: Chart)
        ensures
            r@ == (ChartView { x_axis3d: self@.x_axis3d.push(v@), ..self@ }),
    {
        let mut s = self;
        let ghost old_items = s.x_axis3d@;
        s.x_axis3d.push(v);
        assert(seq_view(s.x_axis3d@) =~= seq_view(old_items).push(v@));
        s
    }

    /// Appends one 3D y axis.
    pub fn y_axis3d(self, v: Axis3D) -> (r: Chart)
        ensures
            r@ == (ChartView { y_axis3d: self@.y_axis3d.push(v@), ..self@ }),
    {
        let mut s = self;
        let ghost old_items = s.y_axis3d@;
        s.y_axis3d.push(v);
        assert(seq_view(s.y_axis3d@) =~= seq_view(old_items).push(v@));
        s
    }

    /// Appends one 3D z axis.
    pub fn z_axis3d(self, v: Axis3D) -> (r: Chart)
        ensures
            r@ == (ChartView { z_axis3d: self@.z_axis3d.push(v@), ..self@ }),
    {
        let mut s = self;
        let ghost old_items = s.z_axis3d@;
        s.z_axis3d.push(v);
        assert(seq_view(s.z_axis3d@) =~= seq_view(old_items).push(v@));
        s
    }

    /// Appends the colors of `v` to the palette.
    pub fn color(self, v: Vec<String>) -> (r: Chart)
        ensures
            r@ == (ChartView { color: self@.color + seq_view(v@), ..self@ }),
    {
        let mut s = self;
        let mut v = v;
        let ghost old_colors = s.color@;
        let ghost added = v@;
        s.color.append(&mut v);
        assert(seq_view(s.color@) =~= seq_view(old_colors) + seq_view(added));
        s
    }

    pub fn background_color(self, v: &str) -> (r: Chart)
        ensures
            r@ == (ChartView { background_color: Some(v@), ..self@ }),
    {
        Chart { background_color: Some(String::from_str(v)), ..self }
    }

    /// Appends one series.
    pub fn series(self, v: Series) -> (r: Chart)
        ensures
            r@ == (ChartView { series: self@.series.push(v@), ..self@ }),
    {
        let mut s = self;
        let ghost old_items = s.series@;
        s.series.push(v);
        assert(seq_view(s.series@) =~= seq_view(old_items).push(v@));
        s
    }
}

/// The id of a series, where its variant has one.
pub open spec fn series_id(v: SeriesView) -> Option<Seq<char>> {
    match line_part(v) {
        Some(l) => l.id,
        None => None,
    }
}

/// The index of the first series whose id is `id`.
fn position_of_id(series: &Vec<Series>, id: &String) -> (r: Option<usize>)
    ensures
        r is None ==> forall|i: int|
            0 <= i < series@.len() ==> #[trigger] series_id(series@[i]@) != Some(id@),
        r matches Some(i) ==> i < series@.len() && series_id(series@[i as int]@) == Some(id@) && forall|
            k: int,
        | 0 <= k < i ==> #[trigger] series_id(series@[k]@) != Some(id@),
{
    let mut i: usize = 0;
    while i < series.len()
        invariant
            i <= series.len(),
            forall|k: int| 0 <= k < i ==> #[trigger] series_id(series@[k]@) != Some(id@),
        decreases series.len() - i,
    {
        let sid = series[i].get_series_id();
        let found = match &sid {
            Some(sid) => text_is(sid, id.as_str()),
            None => false,
        };
        if found {
            return Some(i);
        }
        i = i + 1;
    }
    None
}

/// `i` is the index of the first series whose id is `id`.
pub open spec fn is_first_with_id(s: Seq<SeriesView>, id: Seq<char>, i: int) -> bool {
    &&& 0 <= i < s.len()
    &&& series_id(s[i]) == Some(id)
    &&& forall|k: int| 0 <= k < i ==> #[trigger] series_id(s[k]) != Some(id)
}

pub open spec fn first_with_id(s: Seq<SeriesView>, id: Seq<char>) -> int {
    choose|i: int| is_first_with_id(s, id, i)
}

impl Chart {
    /// The image format that the toolbox saves the chart in, where one is set.
    pub fn save_as_image_type(&self) -> (r: Option<SaveAsImageType>)
        ensures
            r == match self@.toolbox {
                Some(t) => toolbox_image_type(t),
                None => None,
            },
    {
        match &self.toolbox {
            Some(toolbox) => toolbox.save_as_image_type(),
            None => None,
        }
    }

    pub fn get_color_ref(&self) -> (r: &Vec<String>)
        ensures
            seq_view(r@) == self@.color,
    {
        &self.color
    }

    pub fn get_color_mut(&mut self) -> (r: &mut Vec<String>)
        ensures
            seq_view(r@) == old(self)@.color,
            final(self)@ == (ChartView { color: seq_view(final(r)@), ..old(self)@ }),
    {
        &mut self.color
    }

    /// The ids of all series, in order.
    pub fn get_all_ids(&self) -> (r: Vec<String>)
        requires
            forall|i: int| 0 <= i < self@.series.len() ==> #[trigger] series_id(self@.series[i]) is Some,
        ensures
            r@.len() == self@.series.len(),
            forall|i: int| 0 <= i < r@.len() ==> Some(#[trigger] r@[i]@) == series_id(self@.series[i]),
    {
        let mut ids: Vec<String> = Vec::new();
        let mut i: usize = 0;
        while i < self.series.len()
            invariant
                i <= self.series.len(),
                ids@.len() == i,
                forall|k: int| 0 <= k < self@.series.len() ==> #[trigger] series_id(self@.series[k]) is Some,
                forall|k: int| 0 <= k < i ==> Some(#[trigger] ids@[k]@) == series_id(self@.series[k]),
            decreases self.series.len() - i,
        {
            assert(self@.series[i as int] == self.series@[i as int]@);
            let id = self.series[i].get_series_id();
            match id {
                Some(id) => ids.push(id),
                None => {
                    assert(series_id(self@.series[i as int]) is Some);
                    assert(false);
                    return ids;
                },
            }
            i = i + 1;
        }
        ids
    }

    /// The first series whose id is `id`, for editing in place.
    pub fn get_series_mut(&mut self, id: &String) -> (r: Option<&mut Series>)
        ensures
            r is None ==> final(self)@ == old(self)@ && forall|i: int|
                0 <= i < old(self)@.series.len() ==> #[trigger] series_id(old(self)@.series[i]) != Some(
                    id@,
                ),
            r matches Some(s) ==> {
                let i = first_with_id(old(self)@.series, id@);
                &&& is_first_with_id(old(self)@.series, id@, i)
                &&& (*s)@ == old(self)@.series[i]
                &&& final(self)@ == (ChartView {
                    series: old(self)@.series.update(i, (*final(s))@),
                    ..old(self)@
                })
            },
    {
        broadcast use crate::json::lemma_seq_view_update;

        match position_of_id(&self.series, id) {
            Some(i) => {
                proof {
                    let v = self@.series;
                    assert(v[i as int] == self.series@[i as int]@);
                    assert forall|k: int| 0 <= k < i implies #[trigger] series_id(v[k]) != Some(id@) by {
                        assert(v[k] == self.series@[k]@);
                    }
                    assert(is_first_with_id(v, id@, i as int));
                    let j = first_with_id(v, id@);
                    assert(is_first_with_id(v, id@, j));
                    if j < i {
                        assert(series_id(v[j]) != Some(id@));
                    }
                    if i < j {
                        assert(series_id(v[i as int]) != Some(id@));
                    }
                }
                let s = &mut self.series[i];
                Some(s)
            },
            None => {
                proof {
                    assert forall|k: int| 0 <= k < self@.series.len() implies #[trigger] series_id(
                        self@.series[k],
                    ) != Some(id@) by {
                        assert(self@.series[k] == self.series@[k]@);
                    }
                }
                None
            },
        }
    }

    pub fn get_all_series_ref(&self) -> (r: &Vec<Series>)
        ensures
            seq_view(r@) == self@.series,
    {
        &self.series
    }

    pub fn get_all_series_mut(&mut self) -> (r: &mut Vec<Series>)
        ensures
            seq_view(r@) == old(self)@.series,
            final(self)@ == (ChartView { series: seq_view(final(r)@), ..old(self)@ }),
    {
        &mut self.series
    }

    pub fn reset_x_axis(&mut self)
        ensures
            final(self)@ == (ChartView { x_axis: Seq::empty(), ..old(self)@ }),
    {
        self.x_axis = Vec::new();
        assert(seq_view(self.x_axis@) =~= Seq::<AxisView>::empty());
    }

    pub fn reset_y_axis(&mut self)
        ensures
            final(self)@ == (ChartView { y_axis: Seq::empty(), ..old(self)@ }),
    {
        self.y_axis = Vec::new();
        assert(seq_view(self.y_axis@) =~= Seq::<AxisView>::empty());
    }

    /// Hands `f` a controller over this chart, for edits in place; the chart
    /// is left as `f` leaves it through the controller.
    pub fn with_mutable<F>(&mut self, f: F)
        where
            F: FnOnce(ChartController),
        requires
            forall|c: ChartController| #[trigger] f.requires((c,)),
        ensures
            exists|c: ChartController|
                #[trigger] f.ensures((c,), ()) && *c.target() == *old(self) && *final(c.target())
                    == *final(self),
    {
        let controller = ChartController { chart: self };
        f(controller);
    }
}

/// Scoped write access to a chart that is owned elsewhere.
pub struct ChartController<'a> {
    chart: &'a mut Chart,
}

impl<'a> ChartController<'a> {
    /// The chart this controller writes to.
    pub closed spec fn target(&self) -> &'a mut Chart {
        self.chart
    }

    pub fn reset_x_axis(&mut self)
        ensures
            (*final(self).target())@ == (ChartView { x_axis: Seq::empty(), ..(*old(self).target())@ }),
            *final(final(self).target()) == *final(old(self).target()),
    {
        self.chart.reset_x_axis();
    }

    pub fn with_x_axis(&mut self, axis: Axis)
        ensures
            (*final(self).target())@ == (ChartView {
                x_axis: (*old(self).target())@.x_axis.push(axis@),
                ..(*old(self).target())@
            }),
            *final(final(self).target()) == *final(old(self).target()),
    {
        let ghost old_items = self.chart.x_axis@;
        self.chart.x_axis.push(axis);
        assert(seq_view(self.chart.x_axis@) =~= seq_view(old_items).push(axis@));
    }

    pub fn reset_y_axis(&mut self)
        ensures
            (*final(self).target())@ == (ChartView { y_axis: Seq::empty(), ..(*old(self).target())@ }),
            *final(final(self).target()) == *final(old(self).target()),
    {
        self.chart.reset_y_axis();
    }

    pub fn with_y_axis(&mut self, axis: Axis)
        ensures
            (*final(self).target())@ == (ChartView {
                y_axis: (*old(self).target())@.y_axis.push(axis@),
                ..(*old(self).target())@
            }),
            *final(final(self).target()) == *final(old(self).target()),
    {
        let ghost old_items = self.chart.y_axis@;
        self.chart.y_axis.push(axis);
        assert(seq_view(self.chart.y_axis@) =~= seq_view(old_items).push(axis@));
    }

    pub fn reset_series(&mut self)
        ensures
            (*final(self).target())@ == (ChartView { series: Seq::empty(), ..(*old(self).target())@ }),
            *final(final(self).target()) == *final(old(self).target()),
    {
        self.chart.series = Vec::new();
        assert(seq_view(self.chart.series@) =~= Seq::<SeriesView>::empty());
    }

    pub fn with_series(&mut self, series: Series)
        ensures
            (*final(self).target())@ == (ChartView {
                series: (*old(self).target())@.series.push(series@),
                ..(*old(self).target())@
            }),
            *final(final(self).target()) == *final(old(self).target()),
    {
        let ghost old_items = self.chart.series@;
        self.chart.series.push(series);
        assert(seq_view(self.chart.series@) =~= seq_view(old_items).push(series@));
    }

    /// A controller over the series at `index`.
    pub fn series_mut_by_index(&mut self, index: usize) -> (r: SeriesController<'_>)
        requires
            index < (*old(self).target())@.series.len(),
        ensures
            r.current()@ == (*old(self).target())@.series[index as int],
            (*final(self).target())@ == (ChartView {
                series: (*old(self).target())@.series.update(
                    index as int,
                    (match r.target() {
                        SeriesTarget::Bar(b) => Series::Bar(*final(b)),
                        SeriesTarget::Line(l) => Series::Line(*final(l)),
                        SeriesTarget::Scatter(s) => Series::Scatter(*final(s)),
                    })@,
                ),
                ..(*old(self).target())@
            }),
            *final(final(self).target()) == *final(old(self).target()),
    {
        broadcast use crate::json::lemma_seq_view_update;

        let s = &mut self.chart.series[index];
        SeriesController::new(s)
    }
}

/// A chart with no components, no series and no option set is written as the
/// empty object.
pub proof fn empty_chart_writes_nothing()
    ensures
        chart_json(empty_chart()) == Json::Object(Seq::empty()),
{
    let v = empty_chart();
    let e = Seq::<(Seq<char>, Json)>::empty();
    assert(list_json::<Title>(v.title) =~= Seq::<Json>::empty());
    assert(list_json::<Grid3D>(v.grid3d) =~= Seq::<Json>::empty());
    assert(list_json::<Axis>(v.x_axis) =~= Seq::<Json>::empty());
    assert(list_json::<Axis>(v.y_axis) =~= Seq::<Json>::empty());
    assert(list_json::<String>(v.color) =~= Seq::<Json>::empty());
    assert(list_json::<Series>(v.series) =~= Seq::<Json>::empty());
    lemma_push_nonempty(e, "title"@, list_json::<Title>(v.title));
    lemma_push_opt(e, "animation"@, None);
    lemma_push_opt(e, "tooltip"@, None);
    lemma_push_opt(e, "legend"@, None);
    lemma_push_opt(e, "toolbox"@, None);
    lemma_push_nonempty(e, "grid3D"@, list_json::<Grid3D>(v.grid3d));
    lemma_push_one_or_many(e, "xAxis"@, list_json::<Axis>(v.x_axis));
    lemma_push_opt(e, "xAxis"@, None);
    lemma_push_one_or_many(e, "yAxis"@, list_json::<Axis>(v.y_axis));
    lemma_push_opt(e, "yAxis"@, None);
    assert(list_json::<Axis3D>(v.x_axis3d) =~= Seq::<Json>::empty());
    assert(list_json::<Axis3D>(v.y_axis3d) =~= Seq::<Json>::empty());
    assert(list_json::<Axis3D>(v.z_axis3d) =~= Seq::<Json>::empty());
    lemma_push_nonempty(e, "xAxis3D"@, list_json::<Axis3D>(v.x_axis3d));
    lemma_push_nonempty(e, "yAxis3D"@, list_json::<Axis3D>(v.y_axis3d));
    lemma_push_nonempty(e, "zAxis3D"@, list_json::<Axis3D>(v.z_axis3d));
    lemma_push_nonempty(e, "color"@, list_json::<String>(v.color));
    lemma_push_opt(e, "backgroundColor"@, None);
    lemma_push_nonempty(e, "series"@, list_json::<Series>(v.series));
}

/// A chart with exactly one x axis writes it as a bare object under `xAxis`,
/// with two it writes an array of both; either way decoding gives back as many axes.
pub proof fn x_axis_shapes(v: ChartView)
    ensures
        v.x_axis.len() == 1 ==> obj_get(chart_entries(v), "xAxis"@) == Some(axis_json(v.x_axis[0])),
        v.x_axis.len() == 2 ==> obj_get(chart_entries(v), "xAxis"@) == Some(
            Json::Array(seq![axis_json(v.x_axis[0]), axis_json(v.x_axis[1])]),
        ),
        chart_decode(chart_json(v)) matches Ok(w) && w.x_axis.len() == v.x_axis.len(),
{
    broadcast use crate::json::lemma_obj_get_push_opt, crate::json::lemma_obj_get_push_nonempty, crate::json::lemma_obj_get_one_or_many;

    chart_key_facts();
    chart_round_trip(v);
    if v.x_axis.len() == 2 {
        assert(list_json::<Axis>(v.x_axis) =~= seq![axis_json(v.x_axis[0]), axis_json(v.x_axis[1])]);
    }
}

/// Errors of the renderers that turn a chart into HTML, an image or a WebAssembly view.
#[derive(Debug)]
pub enum EchartsError {
    HtmlRenderingError(String),
    ImageRenderingError(String),
    JsRuntimeError(String),
    WasmError(String),
}

impl EchartsError {
    /// The error as one line of text.
    pub fn message(&self) -> (r: String)
        ensures
            r@ == match self {
                EchartsError::HtmlRenderingError(m) => "HTML rendering error: "@ + m@,
                EchartsError::ImageRenderingError(m) => "Image rendering error: "@ + m@,
                EchartsError::JsRuntimeError(m) => "JavaScript runtime error: "@ + m@,
                EchartsError::WasmError(m) => "WebAssembly runtime error: "@ + m@,
            },
    {
        let (prefix, m) = match self {
            EchartsError::HtmlRenderingError(m) => ("HTML rendering error: ", m),
            EchartsError::ImageRenderingError(m) => ("Image rendering error: ", m),
            EchartsError::JsRuntimeError(m) => ("JavaScript runtime error: ", m),
            EchartsError::WasmError(m) => ("WebAssembly runtime error: ", m),
        };
        let mut r = String::from_str(prefix);
        r.append(m.as_str());
        r
    }
}

} // verus!
