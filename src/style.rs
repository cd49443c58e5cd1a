//! Styles of data items: fills, marks, labels and their emphasis.
use vstd::prelude::*;
use crate::json::{
    dec_opt, dec_opt_bool, dec_opt_bool_exec, dec_opt_exec, dec_opt_int, dec_opt_int_exec,
    dec_opt_str, dec_opt_str_exec, decoded, entries_view, field_error, lemma_obj_get_empty,
    lemma_opt_round_trip, lemma_scalar_round_trips, lookup, obj_get, opt_bool_json, opt_int_json,
    opt_int_view, opt_json, opt_str_json, opt_str_view, opt_view, push_opt, push_opt_bool,
    push_opt_codec, push_opt_int, push_opt_str, Codec, DecodeError, DecodeFailure, Json, JsonValue,
};

verus! {

/// Fill style of the area under a line.
#[derive(Debug, Clone, PartialEq)]
pub struct AreaStyle {
    color: Option<String>,
    origin: Option<String>,
}

/// Model of [`AreaStyle`].
pub struct AreaStyleView {
    pub color: Option<Seq<char>>,
    pub origin: Option<Seq<char>>,
}

impl View for AreaStyle {
    type V = AreaStyleView;

    closed spec fn view(&self) -> AreaStyleView {
        AreaStyleView {
            color: opt_str_view(self.color),
            origin: opt_str_view(self.origin),
        }
    }
}

/// A areaStyle with every field unset.
pub open spec fn empty_area_style() -> AreaStyleView {
    AreaStyleView {
        color: None,
        origin: None,
    }
}

/// The entries of the JSON object of a areaStyle: each field that is set, in declaration order.
pub open spec fn area_style_entries(v: AreaStyleView) -> Seq<(Seq<char>, Json)> {
    let es = Seq::empty();
    let es = push_opt(es, "color"@, opt_str_json(v.color));
    push_opt(es, "origin"@, opt_str_json(v.origin))
}

pub open spec fn area_style_json(v: AreaStyleView) -> Json {
    Json::Object(area_style_entries(v))
}

pub open spec fn bad_area_style(field: Seq<char>) -> Result<AreaStyleView, DecodeFailure> {
    Err(DecodeFailure::InvalidField("areaStyle"@, field))
}

/// Decodes the fields of a areaStyle into `base`,
/// failing on the first, in declaration order, of the wrong shape.
pub open spec fn area_style_decode_fields(es: Seq<(Seq<char>, Json)>, base: AreaStyleView) -> Result<AreaStyleView, DecodeFailure> {
    let color = dec_opt_str(obj_get(es, "color"@));
    let origin = dec_opt_str(obj_get(es, "origin"@));
    if color is None {
        bad_area_style("color"@)
    } else if origin is None {
        bad_area_style("origin"@)
    } else {
        Ok(
            AreaStyleView {
                color: color->Some_0,
                origin: origin->Some_0,
                ..base
            },
        )
    }
}

/// Decodes the entries of a areaStyle object; the first field of the wrong shape is named.
pub open spec fn area_style_decode_entries(es: Seq<(Seq<char>, Json)>) -> Result<AreaStyleView, DecodeFailure> {
    area_style_decode_fields(es, empty_area_style())
}

pub open spec fn area_style_decode(j: Json) -> Result<AreaStyleView, DecodeFailure> {
    match j {
        Json::Object(es) => area_style_decode_entries(es),
        _ => Err(DecodeFailure::InvalidType),
    }
}

/// Lengths and characters that tell the keys of a areaStyle object apart.
proof fn area_style_key_facts()
    ensures
        "color"@.len() == 5,
        "origin"@.len() == 6,
{
    reveal_strlit("color");
    reveal_strlit("origin");
}

/// Decoding the JSON form of a areaStyle gives it back.
pub proof fn area_style_round_trip(v: AreaStyleView)
    ensures
        area_style_decode(area_style_json(v)) == Ok::<AreaStyleView, DecodeFailure>(v),
{
    broadcast use crate::json::lemma_obj_get_push_opt, crate::json::lemma_obj_get_push_nonempty, crate::json::lemma_obj_get_one_or_many;

    area_style_key_facts();
    let es = area_style_entries(v);
    lemma_obj_get_empty("color"@);
    lemma_obj_get_empty("origin"@);
    assert(obj_get(es, "color"@) == opt_str_json(v.color));
    lemma_scalar_round_trips(v.color, None, None);
    assert(obj_get(es, "origin"@) == opt_str_json(v.origin));
    lemma_scalar_round_trips(v.origin, None, None);
}

impl AreaStyle {
    fn decode_fields(es: &Vec<(String, JsonValue)>, base: AreaStyle) -> (r: Result<AreaStyle, DecodeError>)
        ensures
            decoded(r) == area_style_decode_fields(entries_view(es@), base@),
    {
        let color = match dec_opt_str_exec(lookup(es, "color")) {
            Some(v) => v,
            None => return Err(field_error("areaStyle", "color")),
        };
        let origin = match dec_opt_str_exec(lookup(es, "origin")) {
            Some(v) => v,
            None => return Err(field_error("areaStyle", "origin")),
        };
        Ok(AreaStyle { color, origin, ..base })
    }
}

impl Codec for AreaStyle {
    open spec fn encode_spec(v: AreaStyleView) -> Json {
        area_style_json(v)
    }

    open spec fn decode_spec(j: Json) -> Result<AreaStyleView, DecodeFailure> {
        area_style_decode(j)
    }

    proof fn lemma_round_trip(v: AreaStyleView) {
        area_style_round_trip(v);
    }

    fn to_json(&self) -> (r: JsonValue) {
        let mut es: Vec<(String, JsonValue)> = Vec::new();
        assert(entries_view(es@) =~= Seq::empty());
        push_opt_str(&mut es, "color", &self.color);
        push_opt_str(&mut es, "origin", &self.origin);
        JsonValue::object(es)
    }

    fn from_json(j: &JsonValue) -> (r: Result<AreaStyle, DecodeError>) {
        let es = match j.entries() {
            Some(es) => es,
            None => return Err(DecodeError::InvalidType),
        };
        let v = AreaStyle::decode_fields(es, AreaStyle::new())?;
        Ok(v)
    }
}

impl AreaStyle {
    pub fn new() -> (r: AreaStyle)
        ensures
            r@ == empty_area_style(),
    {
        AreaStyle { color: None, origin: None }
    }

    pub fn color(self, v: &str) -> (r: AreaStyle)
        ensures
            r@ == (AreaStyleView { color: Some(v@), ..self@ }),
    {
        AreaStyle { color: Some(String::from_str(v)), ..self }
    }

    pub fn origin(self, v: &str) -> (r: AreaStyle)
        ensures
            r@ == (AreaStyleView { origin: Some(v@), ..self@ }),
    {
        AreaStyle { origin: Some(String::from_str(v)), ..self }
    }
}

/// Style of the marks of data items.
#[derive(Debug, Clone, PartialEq)]
pub struct ItemStyle {
    color: Option<String>,
    border_color: Option<String>,
    border_width: Option<i64>,
    border_radius: Option<i64>,
}

/// Model of [`ItemStyle`].
pub struct ItemStyleView {
    pub color: Option<Seq<char>>,
    pub border_color: Option<Seq<char>>,
    pub border_width: Option<int>,
    pub border_radius: Option<int>,
}

impl View for ItemStyle {
    type V = ItemStyleView;

    closed spec fn view(&self) -> ItemStyleView {
        ItemStyleView {
            color: opt_str_view(self.color),
            border_color: opt_str_view(self.border_color),
            border_width: opt_int_view(self.border_width),
            border_radius: opt_int_view(self.border_radius),
        }
    }
}

/// A itemStyle with every field unset.
pub open spec fn empty_item_style() -> ItemStyleView {
    ItemStyleView {
        color: None,
        border_color: None,
        border_width: None,
        border_radius: None,
    }
}

/// The entries of the JSON object of a itemStyle: each field that is set, in declaration order.
pub open spec fn item_style_entries(v: ItemStyleView) -> Seq<(Seq<char>, Json)> {
    let es = Seq::empty();
    let es = push_opt(es, "color"@, opt_str_json(v.color));
    let es = push_opt(es, "borderColor"@, opt_str_json(v.border_color));
    let es = push_opt(es, "borderWidth"@, opt_int_json(v.border_width));
    push_opt(es, "borderRadius"@, opt_int_json(v.border_radius))
}

pub open spec fn item_style_json(v: ItemStyleView) -> Json {
    Json::Object(item_style_entries(v))
}

pub open spec fn bad_item_style(field: Seq<char>) -> Result<ItemStyleView, DecodeFailure> {
    Err(DecodeFailure::InvalidField("itemStyle"@, field))
}

/// Decodes the fields of a itemStyle into `base`,
/// failing on the first, in declaration order, of the wrong shape.
pub open spec fn item_style_decode_fields(es: Seq<(Seq<char>, Json)>, base: ItemStyleView) -> Result<ItemStyleView, DecodeFailure> {
    let color = dec_opt_str(obj_get(es, "color"@));
    let border_color = dec_opt_str(obj_get(es, "borderColor"@));
    let border_width = dec_opt_int(obj_get(es, "borderWidth"@));
    let border_radius = dec_opt_int(obj_get(es, "borderRadius"@));
    if color is None {
        bad_item_style("color"@)
    } else if border_color is None {
        bad_item_style("borderColor"@)
    } else if border_width is None {
        bad_item_style("borderWidth"@)
    } else if border_radius is None {
        bad_item_style("borderRadius"@)
    } else {
        Ok(
            ItemStyleView {
                color: color->Some_0,
                border_color: border_color->Some_0,
                border_width: border_width->Some_0,
                border_radius: border_radius->Some_0,
                ..base
            },
        )
    }
}

/// Decodes the entries of a itemStyle object; the first field of the wrong shape is named.
pub open spec fn item_style_decode_entries(es: Seq<(Seq<char>, Json)>) -> Result<ItemStyleView, DecodeFailure> {
    item_style_decode_fields(es, empty_item_style())
}

pub open spec fn item_style_decode(j: Json) -> Result<ItemStyleView, DecodeFailure> {
    match j {
        Json::Object(es) => item_style_decode_entries(es),
        _ => Err(DecodeFailure::InvalidType),
    }
}

/// Lengths and characters that tell the keys of a itemStyle object apart.
proof fn item_style_key_facts()
    ensures
        "color"@.len() == 5,
        "borderColor"@.len() == 11 && "borderColor"@[6] == 'C',
        "borderWidth"@.len() == 11 && "borderWidth"@[6] == 'W',
        "borderRadius"@.len() == 12,
{
    reveal_strlit("color");
    reveal_strlit("borderColor");
    reveal_strlit("borderWidth");
    reveal_strlit("borderRadius");
}

/// Decoding the JSON form of a itemStyle gives it back.
pub proof fn item_style_round_trip(v: ItemStyleView)
    ensures
        item_style_decode(item_style_json(v)) == Ok::<ItemStyleView, DecodeFailure>(v),
{
    broadcast use crate::json::lemma_obj_get_push_opt, crate::json::lemma_obj_get_push_nonempty, crate::json::lemma_obj_get_one_or_many;

    item_style_key_facts();
    let es = item_style_entries(v);
    lemma_obj_get_empty("color"@);
    lemma_obj_get_empty("borderColor"@);
    lemma_obj_get_empty("borderWidth"@);
    lemma_obj_get_empty("borderRadius"@);
    assert(obj_get(es, "color"@) == opt_str_json(v.color));
    lemma_scalar_round_trips(v.color, None, None);
    assert(obj_get(es, "borderColor"@) == opt_str_json(v.border_color));
    lemma_scalar_round_trips(v.border_color, None, None);
    assert(obj_get(es, "borderWidth"@) == opt_int_json(v.border_width));
    lemma_scalar_round_trips(None, None, v.border_width);
    assert(obj_get(es, "borderRadius"@) == opt_int_json(v.border_radius));
    lemma_scalar_round_trips(None, None, v.border_radius);
}

impl ItemStyle {
    fn decode_fields(es: &Vec<(String, JsonValue)>, base: ItemStyle) -> (r: Result<ItemStyle, DecodeError>)
        ensures
            decoded(r) == item_style_decode_fields(entries_view(es@), base@),
    {
        let color = match dec_opt_str_exec(lookup(es, "color")) {
            Some(v) => v,
            None => return Err(field_error("itemStyle", "color")),
        };
        let border_color = match dec_opt_str_exec(lookup(es, "borderColor")) {
            Some(v) => v,
            None => return Err(field_error("itemStyle", "borderColor")),
        };
        let border_width = match dec_opt_int_exec(lookup(es, "borderWidth")) {
            Some(v) => v,
            None => return Err(field_error("itemStyle", "borderWidth")),
        };
        let border_radius = match dec_opt_int_exec(lookup(es, "borderRadius")) {
            Some(v) => v,
            None => return Err(field_error("itemStyle", "borderRadius")),
        };
        Ok(ItemStyle { color, border_color, border_width, border_radius, ..base })
    }
}

impl Codec for ItemStyle {
    open spec fn encode_spec(v: ItemStyleView) -> Json {
        item_style_json(v)
    }

    open spec fn decode_spec(j: Json) -> Result<ItemStyleView, DecodeFailure> {
        item_style_decode(j)
    }

    proof fn lemma_round_trip(v: ItemStyleView) {
        item_style_round_trip(v);
    }

    fn to_json(&self) -> (r: JsonValue) {
        let mut es: Vec<(String, JsonValue)> = Vec::new();
        assert(entries_view(es@) =~= Seq::empty());
        push_opt_str(&mut es, "color", &self.color);
        push_opt_str(&mut es, "borderColor", &self.border_color);
        push_opt_int(&mut es, "borderWidth", self.border_width);
        push_opt_int(&mut es, "borderRadius", self.border_radius);
        JsonValue::object(es)
    }

    fn from_json(j: &JsonValue) -> (r: Result<ItemStyle, DecodeError>) {
        let es = match j.entries() {
            Some(es) => es,
            None => return Err(DecodeError::InvalidType),
        };
        let v = ItemStyle::decode_fields(es, ItemStyle::new())?;
        Ok(v)
    }
}

impl ItemStyle {
    pub fn new() -> (r: ItemStyle)
        ensures
            r@ == empty_item_style(),
    {
        ItemStyle { color: None, border_color: None, border_width: None, border_radius: None }
    }

    pub fn color(self, v: &str) -> (r: ItemStyle)
        ensures
            r@ == (ItemStyleView { color: Some(v@), ..self@ }),
    {
        ItemStyle { color: Some(String::from_str(v)), ..self }
    }

    pub fn border_color(self, v: &str) -> (r: ItemStyle)
        ensures
            r@ == (ItemStyleView { border_color: Some(v@), ..self@ }),
    {
        ItemStyle { border_color: Some(String::from_str(v)), ..self }
    }

    pub fn border_width(self, v: i64) -> (r: ItemStyle)
        ensures
            r@ == (ItemStyleView { border_width: Some(v as int), ..self@ }),
    {
        ItemStyle { border_width: Some(v), ..self }
    }

    pub fn border_radius(self, v: i64) -> (r: ItemStyle)
        ensures
            r@ == (ItemStyleView { border_radius: Some(v as int), ..self@ }),
    {
        ItemStyle { border_radius: Some(v), ..self }
    }
}

/// Text shown beside data items.
#[derive(Debug, Clone, PartialEq)]
pub struct Label {
    show: Option<bool>,
    position: Option<String>,
    formatter: Option<String>,
}

/// Model of [`Label`].
pub struct LabelView {
    pub show: Option<bool>,
    pub position: Option<Seq<char>>,
    pub formatter: Option<Seq<char>>,
}

impl View for Label {
    type V = LabelView;

    closed spec fn view(&self) -> LabelView {
        LabelView {
            show: self.show,
            position: opt_str_view(self.position),
            formatter: opt_str_view(self.formatter),
        }
    }
}

/// A label with every field unset.
pub open spec fn empty_label() -> LabelView {
    LabelView {
        show: None,
        position: None,
        formatter: None,
    }
}

/// The entries of the JSON object of a label: each field that is set, in declaration order.
pub open spec fn label_entries(v: LabelView) -> Seq<(Seq<char>, Json)> {
    let es = Seq::empty();
    let es = push_opt(es, "show"@, opt_bool_json(v.show));
    let es = push_opt(es, "position"@, opt_str_json(v.position));
    push_opt(es, "formatter"@, opt_str_json(v.formatter))
}

pub open spec fn label_json(v: LabelView) -> Json {
    Json::Object(label_entries(v))
}

pub open spec fn bad_label(field: Seq<char>) -> Result<LabelView, DecodeFailure> {
    Err(DecodeFailure::InvalidField("label"@, field))
}

/// Decodes the fields of a label into `base`,
/// failing on the first, in declaration order, of the wrong shape.
pub open spec fn label_decode_fields(es: Seq<(Seq<char>, Json)>, base: LabelView) -> Result<LabelView, DecodeFailure> {
    let show = dec_opt_bool(obj_get(es, "show"@));
    let position = dec_opt_str(obj_get(es, "position"@));
    let formatter = dec_opt_str(obj_get(es, "formatter"@));
    if show is None {
        bad_label("show"@)
    } else if position is None {
        bad_label("position"@)
    } else if formatter is None {
        bad_label("formatter"@)
    } else {
        Ok(
            LabelView {
                show: show->Some_0,
                position: position->Some_0,
                formatter: formatter->Some_0,
                ..base
            },
        )
    }
}

/// Decodes the entries of a label object; the first field of the wrong shape is named.
pub open spec fn label_decode_entries(es: Seq<(Seq<char>, Json)>) -> Result<LabelView, DecodeFailure> {
    label_decode_fields(es, empty_label())
}

pub open spec fn label_decode(j: Json) -> Result<LabelView, DecodeFailure> {
    match j {
        Json::Object(es) => label_decode_entries(es),
        _ => Err(DecodeFailure::InvalidType),
    }
}

/// Lengths and characters that tell the keys of a label object apart.
proof fn label_key_facts()
    ensures
        "show"@.len() == 4,
        "position"@.len() == 8,
        "formatter"@.len() == 9,
{
    reveal_strlit("show");
    reveal_strlit("position");
    reveal_strlit("formatter");
}

/// Decoding the JSON form of a label gives it back.
pub proof fn label_round_trip(v: LabelView)
    ensures
        label_decode(label_json(v)) == Ok::<LabelView, DecodeFailure>(v),
{
    broadcast use crate::json::lemma_obj_get_push_opt, crate::json::lemma_obj_get_push_nonempty, crate::json::lemma_obj_get_one_or_many;

    label_key_facts();
    let es = label_entries(v);
    lemma_obj_get_empty("show"@);
    lemma_obj_get_empty("position"@);
    lemma_obj_get_empty("formatter"@);
    assert(obj_get(es, "show"@) == opt_bool_json(v.show));
    lemma_scalar_round_trips(None, v.show, None);
    assert(obj_get(es, "position"@) == opt_str_json(v.position));
    lemma_scalar_round_trips(v.position, None, None);
    assert(obj_get(es, "formatter"@) == opt_str_json(v.formatter));
    lemma_scalar_round_trips(v.formatter, None, None);
}

impl Label {
    fn decode_fields(es: &Vec<(String, JsonValue)>, base: Label) -> (r: Result<Label, DecodeError>)
        ensures
            decoded(r) == label_decode_fields(entries_view(es@), base@),
    {
        let show = match dec_opt_bool_exec(lookup(es, "show")) {
            Some(v) => v,
            None => return Err(field_error("label", "show")),
        };
        let position = match dec_opt_str_exec(lookup(es, "position")) {
            Some(v) => v,
            None => return Err(field_error("label", "position")),
        };
        let formatter = match dec_opt_str_exec(lookup(es, "formatter")) {
            Some(v) => v,
            None => return Err(field_error("label", "formatter")),
        };
        Ok(Label { show, position, formatter, ..base })
    }
}

impl Codec for Label {
    open spec fn encode_spec(v: LabelView) -> Json {
        label_json(v)
    }

    open spec fn decode_spec(j: Json) -> Result<LabelView, DecodeFailure> {
        label_decode(j)
    }

    proof fn lemma_round_trip(v: LabelView) {
        label_round_trip(v);
    }

    fn to_json(&self) -> (r: JsonValue) {
        let mut es: Vec<(String, JsonValue)> = Vec::new();
        assert(entries_view(es@) =~= Seq::empty());
        push_opt_bool(&mut es, "show", self.show);
        push_opt_str(&mut es, "position", &self.position);
        push_opt_str(&mut es, "formatter", &self.formatter);
        JsonValue::object(es)
    }

    fn from_json(j: &JsonValue) -> (r: Result<Label, DecodeError>) {
        let es = match j.entries() {
            Some(es) => es,
            None => return Err(DecodeError::InvalidType),
        };
        let v = Label::decode_fields(es, Label::new())?;
        Ok(v)
    }
}

impl Label {
    pub fn new() -> (r: Label)
        ensures
            r@ == empty_label(),
    {
        Label { show: None, position: None, formatter: None }
    }

    pub fn show(self, v: bool) -> (r: Label)
        ensures
            r@ == (LabelView { show: Some(v), ..self@ }),
    {
        Label { show: Some(v), ..self }
    }

    pub fn position(self, v: &str) -> (r: Label)
        ensures
            r@ == (LabelView { position: Some(v@), ..self@ }),
    {
        Label { position: Some(String::from_str(v)), ..self }
    }

    pub fn formatter(self, v: &str) -> (r: Label)
        ensures
            r@ == (LabelView { formatter: Some(v@), ..self@ }),
    {
        Label { formatter: Some(String::from_str(v)), ..self }
    }
}

/// Style of data items under the pointer.
#[derive(Debug, Clone, PartialEq)]
pub struct Emphasis {
    focus: Option<String>,
    item_style: Option<ItemStyle>,
    label: Option<Label>,
}

/// Model of [`Emphasis`].
pub struct EmphasisView {
    pub focus: Option<Seq<char>>,
    pub item_style: Option<ItemStyleView>,
    pub label: Option<LabelView>,
}

impl View for Emphasis {
    type V = EmphasisView;

    closed spec fn view(&self) -> EmphasisView {
        EmphasisView {
            focus: opt_str_view(self.focus),
            item_style: opt_view(self.item_style),
            label: opt_view(self.label),
        }
    }
}

/// A emphasis with every field unset.
pub open spec fn empty_emphasis() -> EmphasisView {
    EmphasisView {
        focus: None,
        item_style: None,
        label: None,
    }
}

/// The entries of the JSON object of a emphasis: each field that is set, in declaration order.
pub open spec fn emphasis_entries(v: EmphasisView) -> Seq<(Seq<char>, Json)> {
    let es = Seq::empty();
    let es = push_opt(es, "focus"@, opt_str_json(v.focus));
    let es = push_opt(es, "itemStyle"@, opt_json::<ItemStyle>(v.item_style));
    push_opt(es, "label"@, opt_json::<Label>(v.label))
}

pub open spec fn emphasis_json(v: EmphasisView) -> Json {
    Json::Object(emphasis_entries(v))
}

pub open spec fn bad_emphasis(field: Seq<char>) -> Result<EmphasisView, DecodeFailure> {
    Err(DecodeFailure::InvalidField("emphasis"@, field))
}

/// Decodes the fields of a emphasis into `base`,
/// failing on the first, in declaration order, of the wrong shape.
pub open spec fn emphasis_decode_fields(es: Seq<(Seq<char>, Json)>, base: EmphasisView) -> Result<EmphasisView, DecodeFailure> {
    let focus = dec_opt_str(obj_get(es, "focus"@));
    let item_style = dec_opt::<ItemStyle>(obj_get(es, "itemStyle"@));
    let label = dec_opt::<Label>(obj_get(es, "label"@));
    if focus is None {
        bad_emphasis("focus"@)
    } else if item_style is None {
        bad_emphasis("itemStyle"@)
    } else if label is None {
        bad_emphasis("label"@)
    } else {
        Ok(
            EmphasisView {
                focus: focus->Some_0,
                item_style: item_style->Some_0,
                label: label->Some_0,
                ..base
            },
        )
    }
}

/// Decodes the entries of a emphasis object; the first field of the wrong shape is named.
pub open spec fn emphasis_decode_entries(es: Seq<(Seq<char>, Json)>) -> Result<EmphasisView, DecodeFailure> {
    emphasis_decode_fields(es, empty_emphasis())
}

pub open spec fn emphasis_decode(j: Json) -> Result<EmphasisView, DecodeFailure> {
    match j {
        Json::Object(es) => emphasis_decode_entries(es),
        _ => Err(DecodeFailure::InvalidType),
    }
}

/// Lengths and characters that tell the keys of a emphasis object apart.
proof fn emphasis_key_facts()
    ensures
        "focus"@.len() == 5 && "focus"@[0] == 'f',
        "itemStyle"@.len() == 9,
        "label"@.len() == 5 && "label"@[0] == 'l',
{
    reveal_strlit("focus");
    reveal_strlit("itemStyle");
    reveal_strlit("label");
}

/// Decoding the JSON form of a emphasis gives it back.
pub proof fn emphasis_round_trip(v: EmphasisView)
    ensures
        emphasis_decode(emphasis_json(v)) == Ok::<EmphasisView, DecodeFailure>(v),
{
    broadcast use crate::json::lemma_obj_get_push_opt, crate::json::lemma_obj_get_push_nonempty, crate::json::lemma_obj_get_one_or_many;

    emphasis_key_facts();
    let es = emphasis_entries(v);
    lemma_obj_get_empty("focus"@);
    lemma_obj_get_empty("itemStyle"@);
    lemma_obj_get_empty("label"@);
    assert(obj_get(es, "focus"@) == opt_str_json(v.focus));
    lemma_scalar_round_trips(v.focus, None, None);
    assert(obj_get(es, "itemStyle"@) == opt_json::<ItemStyle>(v.item_style));
    lemma_opt_round_trip::<ItemStyle>(v.item_style);
    assert(obj_get(es, "label"@) == opt_json::<Label>(v.label));
    lemma_opt_round_trip::<Label>(v.label);
}

impl Emphasis {
    fn decode_fields(es: &Vec<(String, JsonValue)>, base: Emphasis) -> (r: Result<Emphasis, DecodeError>)
        ensures
            decoded(r) == emphasis_decode_fields(entries_view(es@), base@),
    {
        let focus = match dec_opt_str_exec(lookup(es, "focus")) {
            Some(v) => v,
            None => return Err(field_error("emphasis", "focus")),
        };
        let item_style = match dec_opt_exec::<ItemStyle>(lookup(es, "itemStyle")) {
            Some(v) => v,
            None => return Err(field_error("emphasis", "itemStyle")),
        };
        let label = match dec_opt_exec::<Label>(lookup(es, "label")) {
            Some(v) => v,
            None => return Err(field_error("emphasis", "label")),
        };
        Ok(Emphasis { focus, item_style, label, ..base })
    }
}

impl Codec for Emphasis {
    open spec fn encode_spec(v: EmphasisView) -> Json {
        emphasis_json(v)
    }

    open spec fn decode_spec(j: Json) -> Result<EmphasisView, DecodeFailure> {
        emphasis_decode(j)
    }

    proof fn lemma_round_trip(v: EmphasisView) {
        emphasis_round_trip(v);
    }

    fn to_json(&self) -> (r: JsonValue) {
        let mut es: Vec<(String, JsonValue)> = Vec::new();
        assert(entries_view(es@) =~= Seq::empty());
        push_opt_str(&mut es, "focus", &self.focus);
        push_opt_codec(&mut es, "itemStyle", &self.item_style);
        push_opt_codec(&mut es, "label", &self.label);
        JsonValue::object(es)
    }

    fn from_json(j: &JsonValue) -> (r: Result<Emphasis, DecodeError>) {
        let es = match j.entries() {
            Some(es) => es,
            None => return Err(DecodeError::InvalidType),
        };
        let v = Emphasis::decode_fields(es, Emphasis::new())?;
        Ok(v)
    }
}

impl Emphasis {
    pub fn new() -> (r: Emphasis)
        ensures
            r@ == empty_emphasis(),
    {
        Emphasis { focus: None, item_style: None, label: None }
    }

    pub fn focus(self, v: &str) -> (r: Emphasis)
        ensures
            r@ == (EmphasisView { focus: Some(v@), ..self@ }),
    {
        Emphasis { focus: Some(String::from_str(v)), ..self }
    }

    pub fn item_style(self, v: ItemStyle) -> (r: Emphasis)
        ensures
            r@ == (EmphasisView { item_style: Some(v@), ..self@ }),
    {
        Emphasis { item_style: Some(v), ..self }
    }

    pub fn label(self, v: Label) -> (r: Emphasis)
        ensures
            r@ == (EmphasisView { label: Some(v@), ..self@ }),
    {
        Emphasis { label: Some(v), ..self }
    }
}

} // verus!
