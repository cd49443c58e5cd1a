//! Chart components: titles, legends, tooltips, toolboxes, axes and grids.
use vstd::prelude::*;
use crate::element::Padding;
use crate::json::{
    dec_list, dec_list_exec, dec_opt, dec_opt_bool, dec_opt_bool_exec, dec_opt_exec, dec_opt_int,
    dec_opt_int_exec, dec_opt_str, dec_opt_str_exec, decoded, entries_view, field_error,
    lemma_list_round_trip, lemma_obj_get_empty, lemma_opt_round_trip, lemma_scalar_round_trips,
    list_json, lookup, obj_get, opt_bool_json, opt_int_json, opt_int_view, opt_json, opt_str_json,
    opt_str_view, opt_view, push_list, push_nonempty, push_opt, push_opt_bool, push_opt_codec,
    push_opt_int, push_opt_str, seq_view, text_is, Codec, DecodeError, DecodeFailure, Json,
    JsonValue,
};

verus! {

/// The title of a chart, with an optional subtitle.
#[derive(Debug, Clone, PartialEq)]
pub struct Title {
    text: Option<String>,
    subtext: Option<String>,
    left: Option<String>,
    top: Option<String>,
    padding: Option<Padding>,
}

/// Model of [`Title`].
pub struct TitleView {
    pub text: Option<Seq<char>>,
    pub subtext: Option<Seq<char>>,
    pub left: Option<Seq<char>>,
    pub top: Option<Seq<char>>,
    pub padding: Option<Padding>,
}

impl View for Title {
    type V = TitleView;

    closed spec fn view(&self) -> TitleView {
        TitleView {
            text: opt_str_view(self.text),
            subtext: opt_str_view(self.subtext),
            left: opt_str_view(self.left),
            top: opt_str_view(self.top),
            padding: opt_view(self.padding),
        }
    }
}

/// A title with every field unset.
pub open spec fn empty_title() -> TitleView {
    TitleView {
        text: None,
        subtext: None,
        left: None,
        top: None,
        padding: None,
    }
}

/// The entries of the JSON object of a title: each field that is set, in declaration order.
pub open spec fn title_entries(v: TitleView) -> Seq<(Seq<char>, Json)> {
    let es = Seq::empty();
    let es = push_opt(es, "text"@, opt_str_json(v.text));
    let es = push_opt(es, "subtext"@, opt_str_json(v.subtext));
    let es = push_opt(es, "left"@, opt_str_json(v.left));
    let es = push_opt(es, "top"@, opt_str_json(v.top));
    push_opt(es, "padding"@, opt_json::<Padding>(v.padding))
}

pub open spec fn title_json(v: TitleView) -> Json {
    Json::Object(title_entries(v))
}

pub open spec fn bad_title(field: Seq<char>) -> Result<TitleView, DecodeFailure> {
    Err(DecodeFailure::InvalidField("title"@, field))
}

/// Decodes the fields of a title into `base`,
/// failing on the first, in declaration order, of the wrong shape.
pub open spec fn title_decode_fields(es: Seq<(Seq<char>, Json)>, base: TitleView) -> Result<TitleView, DecodeFailure> {
    let text = dec_opt_str(obj_get(es, "text"@));
    let subtext = dec_opt_str(obj_get(es, "subtext"@));
    let left = dec_opt_str(obj_get(es, "left"@));
    let top = dec_opt_str(obj_get(es, "top"@));
    let padding = dec_opt::<Padding>(obj_get(es, "padding"@));
    if text is None {
        bad_title("text"@)
    } else if subtext is None {
        bad_title("subtext"@)
    } else if left is None {
        bad_title("left"@)
    } else if top is None {
        bad_title("top"@)
    } else if padding is None {
        bad_title("padding"@)
    } else {
        Ok(
            TitleView {
                text: text->Some_0,
                subtext: subtext->Some_0,
                left: left->Some_0,
                top: top->Some_0,
                padding: padding->Some_0,
                ..base
            },
        )
    }
}

/// Decodes the entries of a title object; the first field of the wrong shape is named.
pub open spec fn title_decode_entries(es: Seq<(Seq<char>, Json)>) -> Result<TitleView, DecodeFailure> {
    title_decode_fields(es, empty_title())
}

pub open spec fn title_decode(j: Json) -> Result<TitleView, DecodeFailure> {
    match j {
        Json::Object(es) => title_decode_entries(es),
        _ => Err(DecodeFailure::InvalidType),
    }
}

/// Lengths and characters that tell the keys of a title object apart.
proof fn title_key_facts()
    ensures
        "text"@.len() == 4 && "text"@[0] == 't',
        "subtext"@.len() == 7 && "subtext"@[0] == 's',
        "left"@.len() == 4 && "left"@[0] == 'l',
        "top"@.len() == 3,
        "padding"@.len() == 7 && "padding"@[0] == 'p',
{
    reveal_strlit("text");
    reveal_strlit("subtext");
    reveal_strlit("left");
    reveal_strlit("top");
    reveal_strlit("padding");
}

/// Decoding the JSON form of a title gives it back.
pub proof fn title_round_trip(v: TitleView)
    ensures
        title_decode(title_json(v)) == Ok::<TitleView, DecodeFailure>(v),
{
    broadcast use crate::json::lemma_obj_get_push_opt, crate::json::lemma_obj_get_push_nonempty, crate::json::lemma_obj_get_one_or_many;

    title_key_facts();
    let es = title_entries(v);
    lemma_obj_get_empty("text"@);
    lemma_obj_get_empty("subtext"@);
    lemma_obj_get_empty("left"@);
    lemma_obj_get_empty("top"@);
    lemma_obj_get_empty("padding"@);
    assert(obj_get(es, "text"@) == opt_str_json(v.text));
    lemma_scalar_round_trips(v.text, None, None);
    assert(obj_get(es, "subtext"@) == opt_str_json(v.subtext));
    lemma_scalar_round_trips(v.subtext, None, None);
    assert(obj_get(es, "left"@) == opt_str_json(v.left));
    lemma_scalar_round_trips(v.left, None, None);
    assert(obj_get(es, "top"@) == opt_str_json(v.top));
    lemma_scalar_round_trips(v.top, None, None);
    assert(obj_get(es, "padding"@) == opt_json::<Padding>(v.padding));
    lemma_opt_round_trip::<Padding>(v.padding);
}

impl Title {
    fn decode_fields(es: &Vec<(String, JsonValue)>, base: Title) -> (r: Result<Title, DecodeError>)
        ensures
            decoded(r) == title_decode_fields(entries_view(es@), base@),
    {
        let text = match dec_opt_str_exec(lookup(es, "text")) {
            Some(v) => v,
            None => return Err(field_error("title", "text")),
        };
        let subtext = match dec_opt_str_exec(lookup(es, "subtext")) {
            Some(v) => v,
            None => return Err(field_error("title", "subtext")),
        };
        let left = match dec_opt_str_exec(lookup(es, "left")) {
            Some(v) => v,
            None => return Err(field_error("title", "left")),
        };
        let top = match dec_opt_str_exec(lookup(es, "top")) {
            Some(v) => v,
            None => return Err(field_error("title", "top")),
        };
        let padding = match dec_opt_exec::<Padding>(lookup(es, "padding")) {
            Some(v) => v,
            None => return Err(field_error("title", "padding")),
        };
        Ok(Title { text, subtext, left, top, padding, ..base })
    }
}

impl Codec for Title {
    open spec fn encode_spec(v: TitleView) -> Json {
        title_json(v)
    }

    open spec fn decode_spec(j: Json) -> Result<TitleView, DecodeFailure> {
        title_decode(j)
    }

    proof fn lemma_round_trip(v: TitleView) {
        title_round_trip(v);
    }

    fn to_json(&self) -> (r: JsonValue) {
        let mut es: Vec<(String, JsonValue)> = Vec::new();
        assert(entries_view(es@) =~= Seq::empty());
        push_opt_str(&mut es, "text", &self.text);
        push_opt_str(&mut es, "subtext", &self.subtext);
        push_opt_str(&mut es, "left", &self.left);
        push_opt_str(&mut es, "top", &self.top);
        push_opt_codec(&mut es, "padding", &self.padding);
        JsonValue::object(es)
    }

    fn from_json(j: &JsonValue) -> (r: Result<Title, DecodeError>) {
        let es = match j.entries() {
            Some(es) => es,
            None => return Err(DecodeError::InvalidType),
        };
        let v = Title::decode_fields(es, Title::new())?;
        Ok(v)
    }
}

impl Title {
    pub fn new() -> (r: Title)
        ensures
            r@ == empty_title(),
    {
        Title { text: None, subtext: None, left: None, top: None, padding: None }
    }

    pub fn text(self, v: &str) -> (r: Title)
        ensures
            r@ == (TitleView { text: Some(v@), ..self@ }),
    {
        Title { text: Some(String::from_str(v)), ..self }
    }

    pub fn subtext(self, v: &str) -> (r: Title)
        ensures
            r@ == (TitleView { subtext: Some(v@), ..self@ }),
    {
        Title { subtext: Some(String::from_str(v)), ..self }
    }

    pub fn left(self, v: &str) -> (r: Title)
        ensures
            r@ == (TitleView { left: Some(v@), ..self@ }),
    {
        Title { left: Some(String::from_str(v)), ..self }
    }

    pub fn top(self, v: &str) -> (r: Title)
        ensures
            r@ == (TitleView { top: Some(v@), ..self@ }),
    {
        Title { top: Some(String::from_str(v)), ..self }
    }

    pub fn padding(self, v: Padding) -> (r: Title)
        ensures
            r@ == (TitleView { padding: Some(v@), ..self@ }),
    {
        Title { padding: Some(v), ..self }
    }
}

/// The legend of a chart: which names the series go by.
#[derive(Debug, Clone, PartialEq)]
pub struct Legend {
    show: Option<bool>,
    data: Vec<String>,
    left: Option<String>,
    top: Option<String>,
    padding: Option<Padding>,
}

/// Model of [`Legend`].
pub struct LegendView {
    pub show: Option<bool>,
    pub data: Seq<Seq<char>>,
    pub left: Option<Seq<char>>,
    pub top: Option<Seq<char>>,
    pub padding: Option<Padding>,
}

impl View for Legend {
    type V = LegendView;

    closed spec fn view(&self) -> LegendView {
        LegendView {
            show: self.show,
            data: seq_view(self.data@),
            left: opt_str_view(self.left),
            top: opt_str_view(self.top),
            padding: opt_view(self.padding),
        }
    }
}

/// A legend with every field unset.
pub open spec fn empty_legend() -> LegendView {
    LegendView {
        show: None,
        data: Seq::empty(),
        left: None,
        top: None,
        padding: None,
    }
}

/// The entries of the JSON object of a legend: each field that is set, in declaration order.
pub open spec fn legend_entries(v: LegendView) -> Seq<(Seq<char>, Json)> {
    let es = Seq::empty();
    let es = push_opt(es, "show"@, opt_bool_json(v.show));
    let es = push_nonempty(es, "data"@, list_json::<String>(v.data));
    let es = push_opt(es, "left"@, opt_str_json(v.left));
    let es = push_opt(es, "top"@, opt_str_json(v.top));
    push_opt(es, "padding"@, opt_json::<Padding>(v.padding))
}

pub open spec fn legend_json(v: LegendView) -> Json {
    Json::Object(legend_entries(v))
}

pub open spec fn bad_legend(field: Seq<char>) -> Result<LegendView, DecodeFailure> {
    Err(DecodeFailure::InvalidField("legend"@, field))
}

/// Decodes the fields of a legend into `base`,
/// failing on the first, in declaration order, of the wrong shape.
pub open spec fn legend_decode_fields(es: Seq<(Seq<char>, Json)>, base: LegendView) -> Result<LegendView, DecodeFailure> {
    let show = dec_opt_bool(obj_get(es, "show"@));
    let data = dec_list::<String>(obj_get(es, "data"@));
    let left = dec_opt_str(obj_get(es, "left"@));
    let top = dec_opt_str(obj_get(es, "top"@));
    let padding = dec_opt::<Padding>(obj_get(es, "padding"@));
    if show is None {
        bad_legend("show"@)
    } else if data is None {
        bad_legend("data"@)
    } else if left is None {
        bad_legend("left"@)
    } else if top is None {
        bad_legend("top"@)
    } else if padding is None {
        bad_legend("padding"@)
    } else {
        Ok(
            LegendView {
                show: show->Some_0,
                data: data->Some_0,
                left: left->Some_0,
                top: top->Some_0,
                padding: padding->Some_0,
                ..base
            },
        )
    }
}

/// Decodes the entries of a legend object; the first field of the wrong shape is named.
pub open spec fn legend_decode_entries(es: Seq<(Seq<char>, Json)>) -> Result<LegendView, DecodeFailure> {
    legend_decode_fields(es, empty_legend())
}

pub open spec fn legend_decode(j: Json) -> Result<LegendView, DecodeFailure> {
    match j {
        Json::Object(es) => legend_decode_entries(es),
        _ => Err(DecodeFailure::InvalidType),
    }
}

/// Lengths and characters that tell the keys of a legend object apart.
proof fn legend_key_facts()
    ensures
        "show"@.len() == 4 && "show"@[0] == 's',
        "data"@.len() == 4 && "data"@[0] == 'd',
        "left"@.len() == 4 && "left"@[0] == 'l',
        "top"@.len() == 3,
        "padding"@.len() == 7,
{
    reveal_strlit("show");
    reveal_strlit("data");
    reveal_strlit("left");
    reveal_strlit("top");
    reveal_strlit("padding");
}

/// Decoding the JSON form of a legend gives it back.
pub proof fn legend_round_trip(v: LegendView)
    ensures
        legend_decode(legend_json(v)) == Ok::<LegendView, DecodeFailure>(v),
{
    broadcast use crate::json::lemma_obj_get_push_opt, crate::json::lemma_obj_get_push_nonempty, crate::json::lemma_obj_get_one_or_many;

    legend_key_facts();
    let es = legend_entries(v);
    lemma_obj_get_empty("show"@);
    lemma_obj_get_empty("data"@);
    lemma_obj_get_empty("left"@);
    lemma_obj_get_empty("top"@);
    lemma_obj_get_empty("padding"@);
    assert(obj_get(es, "show"@) == opt_bool_json(v.show));
    lemma_scalar_round_trips(None, v.show, None);
    if v.data.len() > 0 {
        assert(obj_get(es, "data"@) == Some(Json::Array(list_json::<String>(v.data))));
        lemma_list_round_trip::<String>(v.data);
    } else {
        assert(obj_get(es, "data"@) is None);
        assert(v.data =~= Seq::<Seq<char>>::empty());
    }
    assert(obj_get(es, "left"@) == opt_str_json(v.left));
    lemma_scalar_round_trips(v.left, None, None);
    assert(obj_get(es, "top"@) == opt_str_json(v.top));
    lemma_scalar_round_trips(v.top, None, None);
    assert(obj_get(es, "padding"@) == opt_json::<Padding>(v.padding));
    lemma_opt_round_trip::<Padding>(v.padding);
}

impl Legend {
    fn decode_fields(es: &Vec<(String, JsonValue)>, base: Legend) -> (r: Result<Legend, DecodeError>)
        ensures
            decoded(r) == legend_decode_fields(entries_view(es@), base@),
    {
        let show = match dec_opt_bool_exec(lookup(es, "show")) {
            Some(v) => v,
            None => return Err(field_error("legend", "show")),
        };
        let data = match dec_list_exec::<String>(lookup(es, "data")) {
            Some(v) => v,
            None => return Err(field_error("legend", "data")),
        };
        let left = match dec_opt_str_exec(lookup(es, "left")) {
            Some(v) => v,
            None => return Err(field_error("legend", "left")),
        };
        let top = match dec_opt_str_exec(lookup(es, "top")) {
            Some(v) => v,
            None => return Err(field_error("legend", "top")),
        };
        let padding = match dec_opt_exec::<Padding>(lookup(es, "padding")) {
            Some(v) => v,
            None => return Err(field_error("legend", "padding")),
        };
        Ok(Legend { show, data, left, top, padding, ..base })
    }
}

impl Codec for Legend {
    open spec fn encode_spec(v: LegendView) -> Json {
        legend_json(v)
    }

    open spec fn decode_spec(j: Json) -> Result<LegendView, DecodeFailure> {
        legend_decode(j)
    }

    proof fn lemma_round_trip(v: LegendView) {
        legend_round_trip(v);
    }

    fn to_json(&self) -> (r: JsonValue) {
        let mut es: Vec<(String, JsonValue)> = Vec::new();
        assert(entries_view(es@) =~= Seq::empty());
        push_opt_bool(&mut es, "show", self.show);
        push_list(&mut es, "data", &self.data);
        push_opt_str(&mut es, "left", &self.left);
        push_opt_str(&mut es, "top", &self.top);
        push_opt_codec(&mut es, "padding", &self.padding);
        JsonValue::object(es)
    }

    fn from_json(j: &JsonValue) -> (r: Result<Legend, DecodeError>) {
        let es = match j.entries() {
            Some(es) => es,
            None => return Err(DecodeError::InvalidType),
        };
        let v = Legend::decode_fields(es, Legend::new())?;
        Ok(v)
    }
}

impl Legend {
    pub fn new() -> (r: Legend)
        ensures
            r@ == empty_legend(),
    {
        let data: Vec<String> = Vec::new();
        assert(seq_view(data@) =~= Seq::<Seq<char>>::empty());
        Legend { show: None, data, left: None, top: None, padding: None }
    }

    pub fn show(self, v: bool) -> (r: Legend)
        ensures
            r@ == (LegendView { show: Some(v), ..self@ }),
    {
        Legend { show: Some(v), ..self }
    }

    pub fn data(self, v: Vec<String>) -> (r: Legend)
        ensures
            r@ == (LegendView { data: seq_view(v@), ..self@ }),
    {
        Legend { data: v, ..self }
    }

    pub fn left(self, v: &str) -> (r: Legend)
        ensures
            r@ == (LegendView { left: Some(v@), ..self@ }),
    {
        Legend { left: Some(String::from_str(v)), ..self }
    }

    pub fn top(self, v: &str) -> (r: Legend)
        ensures
            r@ == (LegendView { top: Some(v@), ..self@ }),
    {
        Legend { top: Some(String::from_str(v)), ..self }
    }

    pub fn padding(self, v: Padding) -> (r: Legend)
        ensures
            r@ == (LegendView { padding: Some(v@), ..self@ }),
    {
        Legend { padding: Some(v), ..self }
    }
}

/// An axis of a cartesian coordinate system.
#[derive(Debug, Clone, PartialEq)]
pub struct Axis {
    name: Option<String>,
    data: Vec<String>,
}

/// Model of [`Axis`].
pub struct AxisView {
    pub name: Option<Seq<char>>,
    pub data: Seq<Seq<char>>,
}

impl View for Axis {
    type V = AxisView;

    closed spec fn view(&self) -> AxisView {
        AxisView {
            name: opt_str_view(self.name),
            data: seq_view(self.data@),
        }
    }
}

/// A axis with every field unset.
pub open spec fn empty_axis() -> AxisView {
    AxisView {
        name: None,
        data: Seq::empty(),
    }
}

/// The entries of the JSON object of a axis: each field that is set, in declaration order.
pub open spec fn axis_entries(v: AxisView) -> Seq<(Seq<char>, Json)> {
    let es = Seq::empty();
    let es = push_opt(es, "name"@, opt_str_json(v.name));
    push_nonempty(es, "data"@, list_json::<String>(v.data))
}

pub open spec fn axis_json(v: AxisView) -> Json {
    Json::Object(axis_entries(v))
}

pub open spec fn bad_axis(field: Seq<char>) -> Result<AxisView, DecodeFailure> {
    Err(DecodeFailure::InvalidField("axis"@, field))
}

/// Decodes the fields of a axis into `base`,
/// failing on the first, in declaration order, of the wrong shape.
pub open spec fn axis_decode_fields(es: Seq<(Seq<char>, Json)>, base: AxisView) -> Result<AxisView, DecodeFailure> {
    let name = dec_opt_str(obj_get(es, "name"@));
    let data = dec_list::<String>(obj_get(es, "data"@));
    if name is None {
        bad_axis("name"@)
    } else if data is None {
        bad_axis("data"@)
    } else {
        Ok(
            AxisView {
                name: name->Some_0,
                data: data->Some_0,
                ..base
            },
        )
    }
}

/// Decodes the entries of a axis object; the first field of the wrong shape is named.
pub open spec fn axis_decode_entries(es: Seq<(Seq<char>, Json)>) -> Result<AxisView, DecodeFailure> {
    axis_decode_fields(es, empty_axis())
}

pub open spec fn axis_decode(j: Json) -> Result<AxisView, DecodeFailure> {
    match j {
        Json::Object(es) => axis_decode_entries(es),
        _ => Err(DecodeFailure::InvalidType),
    }
}

/// Lengths and characters that tell the keys of a axis object apart.
proof fn axis_key_facts()
    ensures
        "name"@.len() == 4 && "name"@[0] == 'n',
        "data"@.len() == 4 && "data"@[0] == 'd',
{
    reveal_strlit("name");
    reveal_strlit("data");
}

/// Decoding the JSON form of a axis gives it back.
pub proof fn axis_round_trip(v: AxisView)
    ensures
        axis_decode(axis_json(v)) == Ok::<AxisView, DecodeFailure>(v),
{
    broadcast use crate::json::lemma_obj_get_push_opt, crate::json::lemma_obj_get_push_nonempty, crate::json::lemma_obj_get_one_or_many;

    axis_key_facts();
    let es = axis_entries(v);
    lemma_obj_get_empty("name"@);
    lemma_obj_get_empty("data"@);
    assert(obj_get(es, "name"@) == opt_str_json(v.name));
    lemma_scalar_round_trips(v.name, None, None);
    if v.data.len() > 0 {
        assert(obj_get(es, "data"@) == Some(Json::Array(list_json::<String>(v.data))));
        lemma_list_round_trip::<String>(v.data);
    } else {
        assert(obj_get(es, "data"@) is None);
        assert(v.data =~= Seq::<Seq<char>>::empty());
    }
}

impl Axis {
    fn decode_fields(es: &Vec<(String, JsonValue)>, base: Axis) -> (r: Result<Axis, DecodeError>)
        ensures
            decoded(r) == axis_decode_fields(entries_view(es@), base@),
    {
        let name = match dec_opt_str_exec(lookup(es, "name")) {
            Some(v) => v,
            None => return Err(field_error("axis", "name")),
        };
        let data = match dec_list_exec::<String>(lookup(es, "data")) {
            Some(v) => v,
            None => return Err(field_error("axis", "data")),
        };
        Ok(Axis { name, data, ..base })
    }
}

impl Codec for Axis {
    open spec fn encode_spec(v: AxisView) -> Json {
        axis_json(v)
    }

    open spec fn decode_spec(j: Json) -> Result<AxisView, DecodeFailure> {
        axis_decode(j)
    }

    proof fn lemma_round_trip(v: AxisView) {
        axis_round_trip(v);
    }

    fn to_json(&self) -> (r: JsonValue) {
        let mut es: Vec<(String, JsonValue)> = Vec::new();
        assert(entries_view(es@) =~= Seq::empty());
        push_opt_str(&mut es, "name", &self.name);
        push_list(&mut es, "data", &self.data);
        JsonValue::object(es)
    }

    fn from_json(j: &JsonValue) -> (r: Result<Axis, DecodeError>) {
        let es = match j.entries() {
            Some(es) => es,
            None => return Err(DecodeError::InvalidType),
        };
        let v = Axis::decode_fields(es, Axis::new())?;
        Ok(v)
    }
}

impl Axis {
    pub fn new() -> (r: Axis)
        ensures
            r@ == empty_axis(),
    {
        let data: Vec<String> = Vec::new();
        assert(seq_view(data@) =~= Seq::<Seq<char>>::empty());
        Axis { name: None, data }
    }

    pub fn name(self, v: &str) -> (r: Axis)
        ensures
            r@ == (AxisView { name: Some(v@), ..self@ }),
    {
        Axis { name: Some(String::from_str(v)), ..self }
    }

    pub fn data(self, v: Vec<String>) -> (r: Axis)
        ensures
            r@ == (AxisView { data: seq_view(v@), ..self@ }),
    {
        Axis { data: v, ..self }
    }
}

/// The grid of a 3D coordinate system; it has no options of its own.
#[derive(Debug, Clone, Copy, PartialEq, Eq, Structural)]
pub struct Grid3D {}

impl View for Grid3D {
    type V = Grid3D;

    open spec fn view(&self) -> Grid3D {
        *self
    }
}

impl Codec for Grid3D {
    /// Written as the empty object.
    open spec fn encode_spec(v: Grid3D) -> Json {
        Json::Object(Seq::empty())
    }

    /// Any object reads as a grid; its entries are ignored.
    open spec fn decode_spec(j: Json) -> Result<Grid3D, DecodeFailure> {
        match j {
            Json::Object(_) => Ok(Grid3D {}),
            _ => Err(DecodeFailure::InvalidType),
        }
    }

    proof fn lemma_round_trip(v: Grid3D) {
    }

    fn to_json(&self) -> (r: JsonValue) {
        let es: Vec<(String, JsonValue)> = Vec::new();
        assert(entries_view(es@) =~= Seq::empty());
        JsonValue::object(es)
    }

    fn from_json(j: &JsonValue) -> (r: Result<Grid3D, DecodeError>) {
        match j.entries() {
            Some(_) => Ok(Grid3D {}),
            None => Err(DecodeError::InvalidType),
        }
    }
}

impl Grid3D {
    pub fn new() -> (r: Grid3D)
        ensures
            r == (Grid3D {}),
    {
        Grid3D {}
    }
}

/// An axis of a 3D coordinate system.
#[derive(Debug, Clone, PartialEq)]
pub struct Axis3D {
    name: Option<String>,
    grid3d_index: Option<i64>,
}

/// Model of [`Axis3D`].
pub struct Axis3DView {
    pub name: Option<Seq<char>>,
    pub grid3d_index: Option<int>,
}

impl View for Axis3D {
    type V = Axis3DView;

    closed spec fn view(&self) -> Axis3DView {
        Axis3DView {
            name: opt_str_view(self.name),
            grid3d_index: opt_int_view(self.grid3d_index),
        }
    }
}

/// A axis3D with every field unset.
pub open spec fn empty_axis3d() -> Axis3DView {
    Axis3DView {
        name: None,
        grid3d_index: None,
    }
}

/// The entries of the JSON object of a axis3D: each field that is set, in declaration order.
pub open spec fn axis3d_entries(v: Axis3DView) -> Seq<(Seq<char>, Json)> {
    let es = Seq::empty();
    let es = push_opt(es, "name"@, opt_str_json(v.name));
    push_opt(es, "grid3DIndex"@, opt_int_json(v.grid3d_index))
}

pub open spec fn axis3d_json(v: Axis3DView) -> Json {
    Json::Object(axis3d_entries(v))
}

pub open spec fn bad_axis3d(field: Seq<char>) -> Result<Axis3DView, DecodeFailure> {
    Err(DecodeFailure::InvalidField("axis3D"@, field))
}

/// Decodes the fields of a axis3D into `base`,
/// failing on the first, in declaration order, of the wrong shape.
pub open spec fn axis3d_decode_fields(es: Seq<(Seq<char>, Json)>, base: Axis3DView) -> Result<Axis3DView, DecodeFailure> {
    let name = dec_opt_str(obj_get(es, "name"@));
    let grid3d_index = dec_opt_int(obj_get(es, "grid3DIndex"@));
    if name is None {
        bad_axis3d("name"@)
    } else if grid3d_index is None {
        bad_axis3d("grid3DIndex"@)
    } else {
        Ok(
            Axis3DView {
                name: name->Some_0,
                grid3d_index: grid3d_index->Some_0,
                ..base
            },
        )
    }
}

/// Decodes the entries of a axis3D object; the first field of the wrong shape is named.
pub open spec fn axis3d_decode_entries(es: Seq<(Seq<char>, Json)>) -> Result<Axis3DView, DecodeFailure> {
    axis3d_decode_fields(es, empty_axis3d())
}

pub open spec fn axis3d_decode(j: Json) -> Result<Axis3DView, DecodeFailure> {
    match j {
        Json::Object(es) => axis3d_decode_entries(es),
        _ => Err(DecodeFailure::InvalidType),
    }
}

/// Lengths and characters that tell the keys of a axis3D object apart.
proof fn axis3d_key_facts()
    ensures
        "name"@.len() == 4,
        "grid3DIndex"@.len() == 11,
{
    reveal_strlit("name");
    reveal_strlit("grid3DIndex");
}

/// Decoding the JSON form of a axis3D gives it back.
pub proof fn axis3d_round_trip(v: Axis3DView)
    ensures
        axis3d_decode(axis3d_json(v)) == Ok::<Axis3DView, DecodeFailure>(v),
{
    broadcast use crate::json::lemma_obj_get_push_opt, crate::json::lemma_obj_get_push_nonempty, crate::json::lemma_obj_get_one_or_many;

    axis3d_key_facts();
    let es = axis3d_entries(v);
    lemma_obj_get_empty("name"@);
    lemma_obj_get_empty("grid3DIndex"@);
    assert(obj_get(es, "name"@) == opt_str_json(v.name));
    lemma_scalar_round_trips(v.name, None, None);
    assert(obj_get(es, "grid3DIndex"@) == opt_int_json(v.grid3d_index));
    lemma_scalar_round_trips(None, None, v.grid3d_index);
}

impl Axis3D {
    fn decode_fields(es: &Vec<(String, JsonValue)>, base: Axis3D) -> (r: Result<Axis3D, DecodeError>)
        ensures
            decoded(r) == axis3d_decode_fields(entries_view(es@), base@),
    {
        let name = match dec_opt_str_exec(lookup(es, "name")) {
            Some(v) => v,
            None => return Err(field_error("axis3D", "name")),
        };
        let grid3d_index = match dec_opt_int_exec(lookup(es, "grid3DIndex")) {
            Some(v) => v,
            None => return Err(field_error("axis3D", "grid3DIndex")),
        };
        Ok(Axis3D { name, grid3d_index, ..base })
    }
}

impl Codec for Axis3D {
    open spec fn encode_spec(v: Axis3DView) -> Json {
        axis3d_json(v)
    }

    open spec fn decode_spec(j: Json) -> Result<Axis3DView, DecodeFailure> {
        axis3d_decode(j)
    }

    proof fn lemma_round_trip(v: Axis3DView) {
        axis3d_round_trip(v);
    }

    fn to_json(&self) -> (r: JsonValue) {
        let mut es: Vec<(String, JsonValue)> = Vec::new();
        assert(entries_view(es@) =~= Seq::empty());
        push_opt_str(&mut es, "name", &self.name);
        push_opt_int(&mut es, "grid3DIndex", self.grid3d_index);
        JsonValue::object(es)
    }

    fn from_json(j: &JsonValue) -> (r: Result<Axis3D, DecodeError>) {
        let es = match j.entries() {
            Some(es) => es,
            None => return Err(DecodeError::InvalidType),
        };
        let v = Axis3D::decode_fields(es, Axis3D::new())?;
        Ok(v)
    }
}

impl Axis3D {
    pub fn new() -> (r: Axis3D)
        ensures
            r@ == empty_axis3d(),
    {
        Axis3D { name: None, grid3d_index: None }
    }

    pub fn name(self, v: &str) -> (r: Axis3D)
        ensures
            r@ == (Axis3DView { name: Some(v@), ..self@ }),
    {
        Axis3D { name: Some(String::from_str(v)), ..self }
    }

    pub fn grid3d_index(self, v: i64) -> (r: Axis3D)
        ensures
            r@ == (Axis3DView { grid3d_index: Some(v as int), ..self@ }),
    {
        Axis3D { grid3d_index: Some(v), ..self }
    }
}

/// The box that shows details of the data under the pointer.
#[derive(Debug, Clone, PartialEq)]
pub struct Tooltip {
    show: Option<bool>,
    formatter: Option<String>,
}

/// Model of [`Tooltip`].
pub struct TooltipView {
    pub show: Option<bool>,
    pub formatter: Option<Seq<char>>,
}

impl View for Tooltip {
    type V = TooltipView;

    closed spec fn view(&self) -> TooltipView {
        TooltipView {
            show: self.show,
            formatter: opt_str_view(self.formatter),
        }
    }
}

/// A tooltip with every field unset.
pub open spec fn empty_tooltip() -> TooltipView {
    TooltipView {
        show: None,
        formatter: None,
    }
}

/// The entries of the JSON object of a tooltip: each field that is set, in declaration order.
pub open spec fn tooltip_entries(v: TooltipView) -> Seq<(Seq<char>, Json)> {
    let es = Seq::empty();
    let es = push_opt(es, "show"@, opt_bool_json(v.show));
    push_opt(es, "formatter"@, opt_str_json(v.formatter))
}

pub open spec fn tooltip_json(v: TooltipView) -> Json {
    Json::Object(tooltip_entries(v))
}

pub open spec fn bad_tooltip(field: Seq<char>) -> Result<TooltipView, DecodeFailure> {
    Err(DecodeFailure::InvalidField("tooltip"@, field))
}

/// Decodes the fields of a tooltip into `base`,
/// failing on the first, in declaration order, of the wrong shape.
pub open spec fn tooltip_decode_fields(es: Seq<(Seq<char>, Json)>, base: TooltipView) -> Result<TooltipView, DecodeFailure> {
    let show = dec_opt_bool(obj_get(es, "show"@));
    let formatter = dec_opt_str(obj_get(es, "formatter"@));
    if show is None {
        bad_tooltip("show"@)
    } else if formatter is None {
        bad_tooltip("formatter"@)
    } else {
        Ok(
            TooltipView {
                show: show->Some_0,
                formatter: formatter->Some_0,
                ..base
            },
        )
    }
}

/// Decodes the entries of a tooltip object; the first field of the wrong shape is named.
pub open spec fn tooltip_decode_entries(es: Seq<(Seq<char>, Json)>) -> Result<TooltipView, DecodeFailure> {
    tooltip_decode_fields(es, empty_tooltip())
}

pub open spec fn tooltip_decode(j: Json) -> Result<TooltipView, DecodeFailure> {
    match j {
        Json::Object(es) => tooltip_decode_entries(es),
        _ => Err(DecodeFailure::InvalidType),
    }
}

/// Lengths and characters that tell the keys of a tooltip object apart.
proof fn tooltip_key_facts()
    ensures
        "show"@.len() == 4,
        "formatter"@.len() == 9,
{
    reveal_strlit("show");
    reveal_strlit("formatter");
}

/// Decoding the JSON form of a tooltip gives it back.
pub proof fn tooltip_round_trip(v: TooltipView)
    ensures
        tooltip_decode(tooltip_json(v)) == Ok::<TooltipView, DecodeFailure>(v),
{
    broadcast use crate::json::lemma_obj_get_push_opt, crate::json::lemma_obj_get_push_nonempty, crate::json::lemma_obj_get_one_or_many;

    tooltip_key_facts();
    let es = tooltip_entries(v);
    lemma_obj_get_empty("show"@);
    lemma_obj_get_empty("formatter"@);
    assert(obj_get(es, "show"@) == opt_bool_json(v.show));
    lemma_scalar_round_trips(None, v.show, None);
    assert(obj_get(es, "formatter"@) == opt_str_json(v.formatter));
    lemma_scalar_round_trips(v.formatter, None, None);
}

impl Tooltip {
    fn decode_fields(es: &Vec<(String, JsonValue)>, base: Tooltip) -> (r: Result<Tooltip, DecodeError>)
        ensures
            decoded(r) == tooltip_decode_fields(entries_view(es@), base@),
    {
        let show = match dec_opt_bool_exec(lookup(es, "show")) {
            Some(v) => v,
            None => return Err(field_error("tooltip", "show")),
        };
        let formatter = match dec_opt_str_exec(lookup(es, "formatter")) {
            Some(v) => v,
            None => return Err(field_error("tooltip", "formatter")),
        };
        Ok(Tooltip { show, formatter, ..base })
    }
}

impl Codec for Tooltip {
    open spec fn encode_spec(v: TooltipView) -> Json {
        tooltip_json(v)
    }

    open spec fn decode_spec(j: Json) -> Result<TooltipView, DecodeFailure> {
        tooltip_decode(j)
    }

    proof fn lemma_round_trip(v: TooltipView) {
        tooltip_round_trip(v);
    }

    fn to_json(&self) -> (r: JsonValue) {
        let mut es: Vec<(String, JsonValue)> = Vec::new();
        assert(entries_view(es@) =~= Seq::empty());
        push_opt_bool(&mut es, "show", self.show);
        push_opt_str(&mut es, "formatter", &self.formatter);
        JsonValue::object(es)
    }

    fn from_json(j: &JsonValue) -> (r: Result<Tooltip, DecodeError>) {
        let es = match j.entries() {
            Some(es) => es,
            None => return Err(DecodeError::InvalidType),
        };
        let v = Tooltip::decode_fields(es, Tooltip::new())?;
        Ok(v)
    }
}

impl Tooltip {
    pub fn new() -> (r: Tooltip)
        ensures
            r@ == empty_tooltip(),
    {
        Tooltip { show: None, formatter: None }
    }

    pub fn show(self, v: bool) -> (r: Tooltip)
        ensures
            r@ == (TooltipView { show: Some(v), ..self@ }),
    {
        Tooltip { show: Some(v), ..self }
    }

    pub fn formatter(self, v: &str) -> (r: Tooltip)
        ensures
            r@ == (TooltipView { formatter: Some(v@), ..self@ }),
    {
        Tooltip { formatter: Some(String::from_str(v)), ..self }
    }
}

/// The image format that the toolbox saves a chart in.
#[derive(Debug, Clone, Copy, PartialEq, Eq, Structural)]
pub enum SaveAsImageType {
    Png,
    Jpg,
    Svg,
}

impl View for SaveAsImageType {
    type V = SaveAsImageType;

    open spec fn view(&self) -> SaveAsImageType {
        *self
    }
}

pub open spec fn save_as_image_type_name(v: SaveAsImageType) -> Seq<char> {
    match v {
        SaveAsImageType::Png => "png"@,
        SaveAsImageType::Jpg => "jpg"@,
        SaveAsImageType::Svg => "svg"@,
    }
}

pub open spec fn save_as_image_type_from_name(s: Seq<char>) -> Option<SaveAsImageType> {
    if s == "png"@ {
        Some(SaveAsImageType::Png)
    } else if s == "jpg"@ {
        Some(SaveAsImageType::Jpg)
    } else if s == "svg"@ {
        Some(SaveAsImageType::Svg)
    } else {
        None
    }
}

pub open spec fn save_as_image_type_decode(j: Json) -> Result<SaveAsImageType, DecodeFailure> {
    match j {
        Json::Str(s) => match save_as_image_type_from_name(s) {
            Some(x) => Ok(x),
            None => Err(DecodeFailure::InvalidType),
        },
        _ => Err(DecodeFailure::InvalidType),
    }
}

/// Lengths and characters that tell the names of save_as_image_type values apart.
proof fn save_as_image_type_name_facts()
    ensures
        "png"@.len() == 3 && "png"@[0] == 'p',
        "jpg"@.len() == 3 && "jpg"@[0] == 'j',
        "svg"@.len() == 3 && "svg"@[0] == 's',
{
    reveal_strlit("png");
    reveal_strlit("jpg");
    reveal_strlit("svg");
}

impl Codec for SaveAsImageType {
    open spec fn encode_spec(v: SaveAsImageType) -> Json {
        Json::Str(save_as_image_type_name(v))
    }

    open spec fn decode_spec(j: Json) -> Result<SaveAsImageType, DecodeFailure> {
        save_as_image_type_decode(j)
    }

    proof fn lemma_round_trip(v: SaveAsImageType) {
        save_as_image_type_name_facts();
    }

    fn to_json(&self) -> (r: JsonValue) {
        JsonValue::text(self.name())
    }

    fn from_json(j: &JsonValue) -> (r: Result<SaveAsImageType, DecodeError>) {
        match j {
            JsonValue::Str(s) => match SaveAsImageType::from_name(s) {
                Some(x) => Ok(x),
                None => Err(DecodeError::InvalidType),
            },
            _ => Err(DecodeError::InvalidType),
        }
    }
}

impl SaveAsImageType {
    /// The name of this value on the wire.
    pub fn name(&self) -> (r: &'static str)
        ensures
            r@ == save_as_image_type_name(*self),
    {
        match self {
            SaveAsImageType::Png => "png",
            SaveAsImageType::Jpg => "jpg",
            SaveAsImageType::Svg => "svg",
        }
    }

    pub fn from_name(s: &String) -> (r: Option<SaveAsImageType>)
        ensures
            r == save_as_image_type_from_name(s@),
    {
        if text_is(s, "png") {
            Some(SaveAsImageType::Png)
        } else if text_is(s, "jpg") {
            Some(SaveAsImageType::Jpg)
        } else if text_is(s, "svg") {
            Some(SaveAsImageType::Svg)
        } else {
            None
        }
    }
}

/// The toolbox button that saves the chart as an image.
#[derive(Debug, Clone, PartialEq)]
pub struct SaveAsImage {
    show: Option<bool>,
    type_: Option<SaveAsImageType>,
    name: Option<String>,
}

/// Model of [`SaveAsImage`].
pub struct SaveAsImageView {
    pub show: Option<bool>,
    pub type_: Option<SaveAsImageType>,
    pub name: Option<Seq<char>>,
}

impl View for SaveAsImage {
    type V = SaveAsImageView;

    closed spec fn view(&self) -> SaveAsImageView {
        SaveAsImageView {
            show: self.show,
            type_: opt_view(self.type_),
            name: opt_str_view(self.name),
        }
    }
}

/// A saveAsImage with every field unset.
pub open spec fn empty_save_as_image() -> SaveAsImageView {
    SaveAsImageView {
        show: None,
        type_: None,
        name: None,
    }
}

/// The entries of the JSON object of a saveAsImage: each field that is set, in declaration order.
pub open spec fn save_as_image_entries(v: SaveAsImageView) -> Seq<(Seq<char>, Json)> {
    let es = Seq::empty();
    let es = push_opt(es, "show"@, opt_bool_json(v.show));
    let es = push_opt(es, "type"@, opt_json::<SaveAsImageType>(v.type_));
    push_opt(es, "name"@, opt_str_json(v.name))
}

pub open spec fn save_as_image_json(v: SaveAsImageView) -> Json {
    Json::Object(save_as_image_entries(v))
}

pub open spec fn bad_save_as_image(field: Seq<char>) -> Result<SaveAsImageView, DecodeFailure> {
    Err(DecodeFailure::InvalidField("saveAsImage"@, field))
}

/// Decodes the fields of a saveAsImage into `base`,
/// failing on the first, in declaration order, of the wrong shape.
pub open spec fn save_as_image_decode_fields(es: Seq<(Seq<char>, Json)>, base: SaveAsImageView) -> Result<SaveAsImageView, DecodeFailure> {
    let show = dec_opt_bool(obj_get(es, "show"@));
    let type_ = dec_opt::<SaveAsImageType>(obj_get(es, "type"@));
    let name = dec_opt_str(obj_get(es, "name"@));
    if show is None {
        bad_save_as_image("show"@)
    } else if type_ is None {
        bad_save_as_image("type"@)
    } else if name is None {
        bad_save_as_image("name"@)
    } else {
        Ok(
            SaveAsImageView {
                show: show->Some_0,
                type_: type_->Some_0,
                name: name->Some_0,
                ..base
            },
        )
    }
}

/// Decodes the entries of a saveAsImage object; the first field of the wrong shape is named.
pub open spec fn save_as_image_decode_entries(es: Seq<(Seq<char>, Json)>) -> Result<SaveAsImageView, DecodeFailure> {
    save_as_image_decode_fields(es, empty_save_as_image())
}

pub open spec fn save_as_image_decode(j: Json) -> Result<SaveAsImageView, DecodeFailure> {
    match j {
        Json::Object(es) => save_as_image_decode_entries(es),
        _ => Err(DecodeFailure::InvalidType),
    }
}

/// Lengths and characters that tell the keys of a saveAsImage object apart.
proof fn save_as_image_key_facts()
    ensures
        "show"@.len() == 4 && "show"@[0] == 's',
        "type"@.len() == 4 && "type"@[0] == 't',
        "name"@.len() == 4 && "name"@[0] == 'n',
{
    reveal_strlit("show");
    reveal_strlit("type");
    reveal_strlit("name");
}

/// Decoding the JSON form of a saveAsImage gives it back.
pub proof fn save_as_image_round_trip(v: SaveAsImageView)
    ensures
        save_as_image_decode(save_as_image_json(v)) == Ok::<SaveAsImageView, DecodeFailure>(v),
{
    broadcast use crate::json::lemma_obj_get_push_opt, crate::json::lemma_obj_get_push_nonempty, crate::json::lemma_obj_get_one_or_many;

    save_as_image_key_facts();
    let es = save_as_image_entries(v);
    lemma_obj_get_empty("show"@);
    lemma_obj_get_empty("type"@);
    lemma_obj_get_empty("name"@);
    assert(obj_get(es, "show"@) == opt_bool_json(v.show));
    lemma_scalar_round_trips(None, v.show, None);
    assert(obj_get(es, "type"@) == opt_json::<SaveAsImageType>(v.type_));
    lemma_opt_round_trip::<SaveAsImageType>(v.type_);
    assert(obj_get(es, "name"@) == opt_str_json(v.name));
    lemma_scalar_round_trips(v.name, None, None);
}

impl SaveAsImage {
    fn decode_fields(es: &Vec<(String, JsonValue)>, base: SaveAsImage) -> (r: Result<SaveAsImage, DecodeError>)
        ensures
            decoded(r) == save_as_image_decode_fields(entries_view(es@), base@),
    {
        let show = match dec_opt_bool_exec(lookup(es, "show")) {
            Some(v) => v,
            None => return Err(field_error("saveAsImage", "show")),
        };
        let type_ = match dec_opt_exec::<SaveAsImageType>(lookup(es, "type")) {
            Some(v) => v,
            None => return Err(field_error("saveAsImage", "type")),
        };
        let name = match dec_opt_str_exec(lookup(es, "name")) {
            Some(v) => v,
            None => return Err(field_error("saveAsImage", "name")),
        };
        Ok(SaveAsImage { show, type_, name, ..base })
    }
}

impl Codec for SaveAsImage {
    open spec fn encode_spec(v: SaveAsImageView) -> Json {
        save_as_image_json(v)
    }

    open spec fn decode_spec(j: Json) -> Result<SaveAsImageView, DecodeFailure> {
        save_as_image_decode(j)
    }

    proof fn lemma_round_trip(v: SaveAsImageView) {
        save_as_image_round_trip(v);
    }

    fn to_json(&self) -> (r: JsonValue) {
        let mut es: Vec<(String, JsonValue)> = Vec::new();
        assert(entries_view(es@) =~= Seq::empty());
        push_opt_bool(&mut es, "show", self.show);
        push_opt_codec(&mut es, "type", &self.type_);
        push_opt_str(&mut es, "name", &self.name);
        JsonValue::object(es)
    }

    fn from_json(j: &JsonValue) -> (r: Result<SaveAsImage, DecodeError>) {
        let es = match j.entries() {
            Some(es) => es,
            None => return Err(DecodeError::InvalidType),
        };
        let v = SaveAsImage::decode_fields(es, SaveAsImage::new())?;
        Ok(v)
    }
}

impl SaveAsImage {
    pub fn new() -> (r: SaveAsImage)
        ensures
            r@ == empty_save_as_image(),
    {
        SaveAsImage { show: None, type_: None, name: None }
    }

    pub fn show(self, v: bool) -> (r: SaveAsImage)
        ensures
            r@ == (SaveAsImageView { show: Some(v), ..self@ }),
    {
        SaveAsImage { show: Some(v), ..self }
    }

    pub fn type_(self, v: SaveAsImageType) -> (r: SaveAsImage)
        ensures
            r@ == (SaveAsImageView { type_: Some(v@), ..self@ }),
    {
        SaveAsImage { type_: Some(v), ..self }
    }

    pub fn name(self, v: &str) -> (r: SaveAsImage)
        ensures
            r@ == (SaveAsImageView { name: Some(v@), ..self@ }),
    {
        SaveAsImage { name: Some(String::from_str(v)), ..self }
    }
}

/// The buttons of a toolbox.
#[derive(Debug, Clone, PartialEq)]
pub struct Feature {
    save_as_image: Option<SaveAsImage>,
}

/// Model of [`Feature`].
pub struct FeatureView {
    pub save_as_image: Option<SaveAsImageView>,
}

impl View for Feature {
    type V = FeatureView;

    closed spec fn view(&self) -> FeatureView {
        FeatureView {
            save_as_image: opt_view(self.save_as_image),
        }
    }
}

/// A feature with every field unset.
pub open spec fn empty_feature() -> FeatureView {
    FeatureView {
        save_as_image: None,
    }
}

/// The entries of the JSON object of a feature: each field that is set, in declaration order.
pub open spec fn feature_entries(v: FeatureView) -> Seq<(Seq<char>, Json)> {
    let es = Seq::empty();
    push_opt(es, "saveAsImage"@, opt_json::<SaveAsImage>(v.save_as_image))
}

pub open spec fn feature_json(v: FeatureView) -> Json {
    Json::Object(feature_entries(v))
}

pub open spec fn bad_feature(field: Seq<char>) -> Result<FeatureView, DecodeFailure> {
    Err(DecodeFailure::InvalidField("feature"@, field))
}

/// Decodes the fields of a feature into `base`,
/// failing on the first, in declaration order, of the wrong shape.
pub open spec fn feature_decode_fields(es: Seq<(Seq<char>, Json)>, base: FeatureView) -> Result<FeatureView, DecodeFailure> {
    let save_as_image = dec_opt::<SaveAsImage>(obj_get(es, "saveAsImage"@));
    if save_as_image is None {
        bad_feature("saveAsImage"@)
    } else {
        Ok(
            FeatureView {
                save_as_image: save_as_image->Some_0,
                ..base
            },
        )
    }
}

/// Decodes the entries of a feature object; the first field of the wrong shape is named.
pub open spec fn feature_decode_entries(es: Seq<(Seq<char>, Json)>) -> Result<FeatureView, DecodeFailure> {
    feature_decode_fields(es, empty_feature())
}

pub open spec fn feature_decode(j: Json) -> Result<FeatureView, DecodeFailure> {
    match j {
        Json::Object(es) => feature_decode_entries(es),
        _ => Err(DecodeFailure::InvalidType),
    }
}

/// Lengths and characters that tell the keys of a feature object apart.
proof fn feature_key_facts()
    ensures
        "saveAsImage"@.len() == 11,
{
    reveal_strlit("saveAsImage");
}

/// Decoding the JSON form of a feature gives it back.
pub proof fn feature_round_trip(v: FeatureView)
    ensures
        feature_decode(feature_json(v)) == Ok::<FeatureView, DecodeFailure>(v),
{
    broadcast use crate::json::lemma_obj_get_push_opt, crate::json::lemma_obj_get_push_nonempty, crate::json::lemma_obj_get_one_or_many;

    feature_key_facts();
    let es = feature_entries(v);
    lemma_obj_get_empty("saveAsImage"@);
    assert(obj_get(es, "saveAsImage"@) == opt_json::<SaveAsImage>(v.save_as_image));
    lemma_opt_round_trip::<SaveAsImage>(v.save_as_image);
}

impl Feature {
    fn decode_fields(es: &Vec<(String, JsonValue)>, base: Feature) -> (r: Result<Feature, DecodeError>)
        ensures
            decoded(r) == feature_decode_fields(entries_view(es@), base@),
    {
        let save_as_image = match dec_opt_exec::<SaveAsImage>(lookup(es, "saveAsImage")) {
            Some(v) => v,
            None => return Err(field_error("feature", "saveAsImage")),
        };
        Ok(Feature { save_as_image, ..base })
    }
}

impl Codec for Feature {
    open spec fn encode_spec(v: FeatureView) -> Json {
        feature_json(v)
    }

    open spec fn decode_spec(j: Json) -> Result<FeatureView, DecodeFailure> {
        feature_decode(j)
    }

    proof fn lemma_round_trip(v: FeatureView) {
        feature_round_trip(v);
    }

    fn to_json(&self) -> (r: JsonValue) {
        let mut es: Vec<(String, JsonValue)> = Vec::new();
        assert(entries_view(es@) =~= Seq::empty());
        push_opt_codec(&mut es, "saveAsImage", &self.save_as_image);
        JsonValue::object(es)
    }

    fn from_json(j: &JsonValue) -> (r: Result<Feature, DecodeError>) {
        let es = match j.entries() {
            Some(es) => es,
            None => return Err(DecodeError::InvalidType),
        };
        let v = Feature::decode_fields(es, Feature::new())?;
        Ok(v)
    }
}

impl Feature {
    pub fn new() -> (r: Feature)
        ensures
            r@ == empty_feature(),
    {
        Feature { save_as_image: None }
    }

    pub fn save_as_image(self, v: SaveAsImage) -> (r: Feature)
        ensures
            r@ == (FeatureView { save_as_image: Some(v@), ..self@ }),
    {
        Feature { save_as_image: Some(v), ..self }
    }
}

/// The toolbox of a chart.
#[derive(Debug, Clone, PartialEq)]
pub struct Toolbox {
    show: Option<bool>,
    feature: Option<Feature>,
}

/// Model of [`Toolbox`].
pub struct ToolboxView {
    pub show: Option<bool>,
    pub feature: Option<FeatureView>,
}

impl View for Toolbox {
    type V = ToolboxView;

    closed spec fn view(&self) -> ToolboxView {
        ToolboxView {
            show: self.show,
            feature: opt_view(self.feature),
        }
    }
}

/// A toolbox with every field unset.
pub open spec fn empty_toolbox() -> ToolboxView {
    ToolboxView {
        show: None,
        feature: None,
    }
}

/// The entries of the JSON object of a toolbox: each field that is set, in declaration order.
pub open spec fn toolbox_entries(v: ToolboxView) -> Seq<(Seq<char>, Json)> {
    let es = Seq::empty();
    let es = push_opt(es, "show"@, opt_bool_json(v.show));
    push_opt(es, "feature"@, opt_json::<Feature>(v.feature))
}

pub open spec fn toolbox_json(v: ToolboxView) -> Json {
    Json::Object(toolbox_entries(v))
}

pub open spec fn bad_toolbox(field: Seq<char>) -> Result<ToolboxView, DecodeFailure> {
    Err(DecodeFailure::InvalidField("toolbox"@, field))
}

/// Decodes the fields of a toolbox into `base`,
/// failing on the first, in declaration order, of the wrong shape.
pub open spec fn toolbox_decode_fields(es: Seq<(Seq<char>, Json)>, base: ToolboxView) -> Result<ToolboxView, DecodeFailure> {
    let show = dec_opt_bool(obj_get(es, "show"@));
    let feature = dec_opt::<Feature>(obj_get(es, "feature"@));
    if show is None {
        bad_toolbox("show"@)
    } else if feature is None {
        bad_toolbox("feature"@)
    } else {
        Ok(
            ToolboxView {
                show: show->Some_0,
                feature: feature->Some_0,
                ..base
            },
        )
    }
}

/// Decodes the entries of a toolbox object; the first field of the wrong shape is named.
pub open spec fn toolbox_decode_entries(es: Seq<(Seq<char>, Json)>) -> Result<ToolboxView, DecodeFailure> {
    toolbox_decode_fields(es, empty_toolbox())
}

pub open spec fn toolbox_decode(j: Json) -> Result<ToolboxView, DecodeFailure> {
    match j {
        Json::Object(es) => toolbox_decode_entries(es),
        _ => Err(DecodeFailure::InvalidType),
    }
}

/// Lengths and characters that tell the keys of a toolbox object apart.
proof fn toolbox_key_facts()
    ensures
        "show"@.len() == 4,
        "feature"@.len() == 7,
{
    reveal_strlit("show");
    reveal_strlit("feature");
}

/// Decoding the JSON form of a toolbox gives it back.
pub proof fn toolbox_round_trip(v: ToolboxView)
    ensures
        toolbox_decode(toolbox_json(v)) == Ok::<ToolboxView, DecodeFailure>(v),
{
    broadcast use crate::json::lemma_obj_get_push_opt, crate::json::lemma_obj_get_push_nonempty, crate::json::lemma_obj_get_one_or_many;

    toolbox_key_facts();
    let es = toolbox_entries(v);
    lemma_obj_get_empty("show"@);
    lemma_obj_get_empty("feature"@);
    assert(obj_get(es, "show"@) == opt_bool_json(v.show));
    lemma_scalar_round_trips(None, v.show, None);
    assert(obj_get(es, "feature"@) == opt_json::<Feature>(v.feature));
    lemma_opt_round_trip::<Feature>(v.feature);
}

impl Toolbox {
    fn decode_fields(es: &Vec<(String, JsonValue)>, base: Toolbox) -> (r: Result<Toolbox, DecodeError>)
        ensures
            decoded(r) == toolbox_decode_fields(entries_view(es@), base@),
    {
        let show = match dec_opt_bool_exec(lookup(es, "show")) {
            Some(v) => v,
            None => return Err(field_error("toolbox", "show")),
        };
        let feature = match dec_opt_exec::<Feature>(lookup(es, "feature")) {
            Some(v) => v,
            None => return Err(field_error("toolbox", "feature")),
        };
        Ok(Toolbox { show, feature, ..base })
    }
}

impl Codec for Toolbox {
    open spec fn encode_spec(v: ToolboxView) -> Json {
        toolbox_json(v)
    }

    open spec fn decode_spec(j: Json) -> Result<ToolboxView, DecodeFailure> {
        toolbox_decode(j)
    }

    proof fn lemma_round_trip(v: ToolboxView) {
        toolbox_round_trip(v);
    }

    fn to_json(&self) -> (r: JsonValue) {
        let mut es: Vec<(String, JsonValue)> = Vec::new();
        assert(entries_view(es@) =~= Seq::empty());
        push_opt_bool(&mut es, "show", self.show);
        push_opt_codec(&mut es, "feature", &self.feature);
        JsonValue::object(es)
    }

    fn from_json(j: &JsonValue) -> (r: Result<Toolbox, DecodeError>) {
        let es = match j.entries() {
            Some(es) => es,
            None => return Err(DecodeError::InvalidType),
        };
        let v = Toolbox::decode_fields(es, Toolbox::new())?;
        Ok(v)
    }
}

impl Toolbox {
    pub fn new() -> (r: Toolbox)
        ensures
            r@ == empty_toolbox(),
    {
        Toolbox { show: None, feature: None }
    }

    pub fn show(self, v: bool) -> (r: Toolbox)
        ensures
            r@ == (ToolboxView { show: Some(v), ..self@ }),
    {
        Toolbox { show: Some(v), ..self }
    }

    pub fn feature(self, v: Feature) -> (r: Toolbox)
        ensures
            r@ == (ToolboxView { feature: Some(v@), ..self@ }),
    {
        Toolbox { feature: Some(v), ..self }
    }
}

/// The image format of the save-as-image button of a toolbox, where one is set.
pub open spec fn toolbox_image_type(t: ToolboxView) -> Option<SaveAsImageType> {
    match t.feature {
        Some(f) => match f.save_as_image {
            Some(s) => s.type_,
            None => None,
        },
        None => None,
    }
}

impl Toolbox {
    pub fn save_as_image_type(&self) -> (r: Option<SaveAsImageType>)
        ensures
            r == toolbox_image_type(self@),
    {
        match &self.feature {
            Some(f) => match &f.save_as_image {
                Some(s) => s.type_,
                None => None,
            },
            None => None,
        }
    }
}

} // verus!
