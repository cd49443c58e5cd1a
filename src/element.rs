//! Value types that chart components share.
use vstd::prelude::*;
use crate::json::{
    dec_opt_int, dec_opt_int_exec, dec_opt_str, dec_opt_str_exec, decoded, entries_view, field_error,
    items_view, lookup, obj_get, opt_int_json, opt_int_view, opt_str_json, opt_str_view, push_entry,
    push_opt, push_opt_int, push_opt_str, text_is, Codec, DecodeError, DecodeFailure, Json, JsonValue,
};

verus! {

/// Padding space around content.
#[derive(Debug, Clone, Copy, PartialEq, Eq, Structural)]
pub enum Padding {
    /// Set padding of all sides.
    Single(i64),
    /// Set top and bottom padding to the first value, and left and right
    /// padding to the second value.
    Double(i64, i64),
    /// Set top, right, bottom and left padding separately.
    Quadruple(i64, i64, i64, i64),
}

impl View for Padding {
    type V = Padding;

    open spec fn view(&self) -> Padding {
        *self
    }
}

/// Wire form of a padding: a bare number, or an array of two or four numbers.
pub open spec fn padding_json(p: Padding) -> Json {
    match p {
        Padding::Single(x) => Json::Number(x as int),
        Padding::Double(a, b) => Json::Array(seq![Json::Number(a as int), Json::Number(b as int)]),
        Padding::Quadruple(t, r, b, l) => Json::Array(
            seq![
                Json::Number(t as int),
                Json::Number(r as int),
                Json::Number(b as int),
                Json::Number(l as int),
            ],
        ),
    }
}

pub open spec fn all_numbers(a: Seq<Json>) -> bool {
    forall|i: int| 0 <= i < a.len() ==> #[trigger] a[i] is Number
}

pub open spec fn num_at(a: Seq<Json>, i: int) -> i64 {
    (a[i]->Number_0) as i64
}

/// Reads a padding by its shape: the element count of an array picks the variant.
pub open spec fn padding_decode(j: Json) -> Result<Padding, DecodeFailure> {
    match j {
        Json::Number(x) => Ok(Padding::Single(x as i64)),
        Json::Array(a) => if a.len() != 1 && a.len() != 2 && a.len() != 4 {
            Err(DecodeFailure::InvalidLength(a.len()))
        } else if !all_numbers(a) {
            Err(DecodeFailure::InvalidType)
        } else if a.len() == 1 {
            Ok(Padding::Single(num_at(a, 0)))
        } else if a.len() == 2 {
            Ok(Padding::Double(num_at(a, 0), num_at(a, 1)))
        } else {
            Ok(Padding::Quadruple(num_at(a, 0), num_at(a, 1), num_at(a, 2), num_at(a, 3)))
        },
        _ => Err(DecodeFailure::InvalidType),
    }
}

fn number_at(a: &Vec<JsonValue>, i: usize) -> (r: Option<i64>)
    requires
        i < a.len(),
    ensures
        r is Some <==> a@[i as int]@ is Number,
        r matches Some(n) ==> a@[i as int]@ == Json::Number(n as int),
{
    match &a[i] {
        JsonValue::Number(n) => Some(*n),
        _ => None,
    }
}

impl Codec for Padding {
    open spec fn encode_spec(v: Padding) -> Json {
        padding_json(v)
    }

    open spec fn decode_spec(j: Json) -> Result<Padding, DecodeFailure> {
        padding_decode(j)
    }

    proof fn lemma_round_trip(v: Padding) {
        padding_round_trip(v);
    }

    fn to_json(&self) -> (r: JsonValue) {
        match *self {
            Padding::Single(x) => JsonValue::Number(x),
            Padding::Double(a, b) => {
                let r = JsonValue::array(vec![JsonValue::Number(a), JsonValue::Number(b)]);
                assert(r@->Array_0 =~= seq![Json::Number(a as int), Json::Number(b as int)]);
                r
            },
            Padding::Quadruple(t, r, b, l) => {
                let v = JsonValue::array(
                    vec![
                        JsonValue::Number(t),
                        JsonValue::Number(r),
                        JsonValue::Number(b),
                        JsonValue::Number(l),
                    ],
                );
                assert(v@->Array_0 =~= seq![
                    Json::Number(t as int),
                    Json::Number(r as int),
                    Json::Number(b as int),
                    Json::Number(l as int),
                ]);
                v
            },
        }
    }

    fn from_json(j: &JsonValue) -> (r: Result<Padding, DecodeError>) {
        match j {
            JsonValue::Number(x) => Ok(Padding::Single(*x)),
            JsonValue::Array(_) => {
                let a = j.items().unwrap();
                let ghost ja = items_view(a@);
                let n = a.len();
                if n != 1 && n != 2 && n != 4 {
                    return Err(DecodeError::InvalidLength(n));
                }
                let mut xs: Vec<i64> = Vec::new();
                let mut i: usize = 0;
                while i < n
                    invariant
                        n == a.len(),
                        i <= n,
                        ja == items_view(a@),
                        j@ == Json::Array(ja),
                        n != 1 && n != 2 && n != 4 ==> false,
                        xs@.len() == i,
                        forall|k: int| 0 <= k < i ==> #[trigger] ja[k] is Number && xs@[k] == num_at(ja, k),
                    decreases n - i,
                {
                    assert(ja[i as int] == a@[i as int]@);
                    match number_at(a, i) {
                        Some(x) => xs.push(x),
                        None => {
                            assert(!all_numbers(ja));
                            return Err(DecodeError::InvalidType);
                        },
                    }
                    i = i + 1;
                }
                assert(all_numbers(ja));
                if n == 1 {
                    Ok(Padding::Single(xs[0]))
                } else if n == 2 {
                    Ok(Padding::Double(xs[0], xs[1]))
                } else {
                    Ok(Padding::Quadruple(xs[0], xs[1], xs[2], xs[3]))
                }
            },
            _ => Err(DecodeError::InvalidType),
        }
    }
}

impl vstd::std_specs::convert::FromSpecImpl<i64> for Padding {
    open spec fn obeys_from_spec() -> bool {
        true
    }

    open spec fn from_spec(v: i64) -> Padding {
        Padding::Single(v)
    }
}

impl From<i64> for Padding {
    fn from(v: i64) -> (r: Padding)
        ensures
            r == Padding::Single(v),
    {
        Padding::Single(v)
    }
}

impl vstd::std_specs::convert::FromSpecImpl<(i64, i64)> for Padding {
    open spec fn obeys_from_spec() -> bool {
        true
    }

    open spec fn from_spec(v: (i64, i64)) -> Padding {
        Padding::Double(v.0, v.1)
    }
}

impl From<(i64, i64)> for Padding {
    fn from(v: (i64, i64)) -> (r: Padding)
        ensures
            r == Padding::Double(v.0, v.1),
    {
        Padding::Double(v.0, v.1)
    }
}

impl vstd::std_specs::convert::FromSpecImpl<(i64, i64, i64, i64)> for Padding {
    open spec fn obeys_from_spec() -> bool {
        true
    }

    open spec fn from_spec(v: (i64, i64, i64, i64)) -> Padding {
        Padding::Quadruple(v.0, v.1, v.2, v.3)
    }
}

impl From<(i64, i64, i64, i64)> for Padding {
    fn from(v: (i64, i64, i64, i64)) -> (r: Padding)
        ensures
            r == Padding::Quadruple(v.0, v.1, v.2, v.3),
    {
        Padding::Quadruple(v.0, v.1, v.2, v.3)
    }
}

/// Decoding the encoding of any padding gives the padding back.
pub proof fn padding_round_trip(p: Padding)
    ensures
        padding_decode(padding_json(p)) == Ok::<Padding, DecodeFailure>(p),
{
}

/// A padding is written as a bare number, a pair or a quadruple in top, right,
/// bottom, left order, and an array of three numbers is refused for its length.
pub proof fn padding_shapes(x: i64, a: i64, b: i64, c: i64, d: i64)
    ensures
        padding_json(Padding::Single(x)) == Json::Number(x as int),
        padding_json(Padding::Double(a, b)) == Json::Array(
            seq![Json::Number(a as int), Json::Number(b as int)],
        ),
        padding_json(Padding::Quadruple(a, b, c, d)) == Json::Array(
            seq![
                Json::Number(a as int),
                Json::Number(b as int),
                Json::Number(c as int),
                Json::Number(d as int),
            ],
        ),
        padding_decode(
            Json::Array(seq![Json::Number(a as int), Json::Number(b as int), Json::Number(c as int)]),
        ) == Err::<Padding, DecodeFailure>(DecodeFailure::InvalidLength(3)),
{
}

} // verus!

verus! {

/// The mark drawn at each data point.
#[derive(Debug, Clone, Copy, PartialEq, Eq, Structural)]
pub enum Symbol {
    EmptyCircle,
    Circle,
    Rect,
    RoundRect,
    Triangle,
    Diamond,
    Pin,
    Arrow,
    /// No mark at all.
    Hidden,
}

impl View for Symbol {
    type V = Symbol;

    open spec fn view(&self) -> Symbol {
        *self
    }
}

pub open spec fn symbol_name(s: Symbol) -> Seq<char> {
    match s {
        Symbol::EmptyCircle => "emptyCircle"@,
        Symbol::Circle => "circle"@,
        Symbol::Rect => "rect"@,
        Symbol::RoundRect => "roundRect"@,
        Symbol::Triangle => "triangle"@,
        Symbol::Diamond => "diamond"@,
        Symbol::Pin => "pin"@,
        Symbol::Arrow => "arrow"@,
        Symbol::Hidden => "none"@,
    }
}

pub open spec fn symbol_from_name(s: Seq<char>) -> Option<Symbol> {
    if s == "emptyCircle"@ {
        Some(Symbol::EmptyCircle)
    } else if s == "circle"@ {
        Some(Symbol::Circle)
    } else if s == "rect"@ {
        Some(Symbol::Rect)
    } else if s == "roundRect"@ {
        Some(Symbol::RoundRect)
    } else if s == "triangle"@ {
        Some(Symbol::Triangle)
    } else if s == "diamond"@ {
        Some(Symbol::Diamond)
    } else if s == "pin"@ {
        Some(Symbol::Pin)
    } else if s == "arrow"@ {
        Some(Symbol::Arrow)
    } else if s == "none"@ {
        Some(Symbol::Hidden)
    } else {
        None
    }
}

pub open spec fn symbol_decode(j: Json) -> Result<Symbol, DecodeFailure> {
    match j {
        Json::Str(s) => match symbol_from_name(s) {
            Some(x) => Ok(x),
            None => Err(DecodeFailure::InvalidType),
        },
        _ => Err(DecodeFailure::InvalidType),
    }
}

pub proof fn symbol_round_trip(s: Symbol)
    ensures
        symbol_decode(Json::Str(symbol_name(s))) == Ok::<Symbol, DecodeFailure>(s),
{
    reveal_strlit("emptyCircle");
    assert("emptyCircle"@.len() == 11 && "emptyCircle"@[0] == 'e');
    reveal_strlit("circle");
    assert("circle"@.len() == 6 && "circle"@[0] == 'c');
    reveal_strlit("rect");
    assert("rect"@.len() == 4 && "rect"@[0] == 'r');
    reveal_strlit("roundRect");
    assert("roundRect"@.len() == 9 && "roundRect"@[0] == 'r');
    reveal_strlit("triangle");
    assert("triangle"@.len() == 8 && "triangle"@[0] == 't');
    reveal_strlit("diamond");
    assert("diamond"@.len() == 7 && "diamond"@[0] == 'd');
    reveal_strlit("pin");
    assert("pin"@.len() == 3 && "pin"@[0] == 'p');
    reveal_strlit("arrow");
    assert("arrow"@.len() == 5 && "arrow"@[0] == 'a');
    reveal_strlit("none");
    assert("none"@.len() == 4 && "none"@[0] == 'n');
}

impl Symbol {
    pub fn name(&self) -> (r: &'static str)
        ensures
            r@ == symbol_name(*self),
    {
        match self {
            Symbol::EmptyCircle => "emptyCircle",
            Symbol::Circle => "circle",
            Symbol::Rect => "rect",
            Symbol::RoundRect => "roundRect",
            Symbol::Triangle => "triangle",
            Symbol::Diamond => "diamond",
            Symbol::Pin => "pin",
            Symbol::Arrow => "arrow",
            Symbol::Hidden => "none",
        }
    }

    pub fn from_name(s: &String) -> (r: Option<Symbol>)
        ensures
            r == symbol_from_name(s@),
    {
        if text_is(s, "emptyCircle") {
            Some(Symbol::EmptyCircle)
        } else if text_is(s, "circle") {
            Some(Symbol::Circle)
        } else if text_is(s, "rect") {
            Some(Symbol::Rect)
        } else if text_is(s, "roundRect") {
            Some(Symbol::RoundRect)
        } else if text_is(s, "triangle") {
            Some(Symbol::Triangle)
        } else if text_is(s, "diamond") {
            Some(Symbol::Diamond)
        } else if text_is(s, "pin") {
            Some(Symbol::Pin)
        } else if text_is(s, "arrow") {
            Some(Symbol::Arrow)
        } else if text_is(s, "none") {
            Some(Symbol::Hidden)
        } else {
            None
        }
    }

}

impl Codec for Symbol {
    open spec fn encode_spec(v: Symbol) -> Json {
        Json::Str(symbol_name(v))
    }

    open spec fn decode_spec(j: Json) -> Result<Symbol, DecodeFailure> {
        symbol_decode(j)
    }

    proof fn lemma_round_trip(v: Symbol) {
        symbol_round_trip(v);
    }

    fn to_json(&self) -> (r: JsonValue) {
        JsonValue::text(self.name())
    }

    fn from_json(j: &JsonValue) -> (r: Result<Symbol, DecodeError>) {
        match j {
            JsonValue::Str(s) => match Symbol::from_name(s) {
                Some(x) => Ok(x),
                None => Err(DecodeError::InvalidType),
            },
            _ => Err(DecodeError::InvalidType),
        }
    }
}

/// How strongly a line is smoothed: a flag, or a strength.
#[derive(Debug, Clone, Copy, PartialEq, Eq, Structural)]
pub enum Smoothness {
    Value(i64),
    Boolean(bool),
}

impl View for Smoothness {
    type V = Smoothness;

    open spec fn view(&self) -> Smoothness {
        *self
    }
}

pub open spec fn smoothness_json(s: Smoothness) -> Json {
    match s {
        Smoothness::Value(x) => Json::Number(x as int),
        Smoothness::Boolean(b) => Json::Bool(b),
    }
}

pub open spec fn smoothness_decode(j: Json) -> Result<Smoothness, DecodeFailure> {
    match j {
        Json::Number(x) => Ok(Smoothness::Value(x as i64)),
        Json::Bool(b) => Ok(Smoothness::Boolean(b)),
        _ => Err(DecodeFailure::InvalidType),
    }
}

impl Codec for Smoothness {
    open spec fn encode_spec(v: Smoothness) -> Json {
        smoothness_json(v)
    }

    open spec fn decode_spec(j: Json) -> Result<Smoothness, DecodeFailure> {
        smoothness_decode(j)
    }

    proof fn lemma_round_trip(v: Smoothness) {
        
    }

    fn to_json(&self) -> (r: JsonValue) {
        match *self {
            Smoothness::Value(x) => JsonValue::Number(x),
            Smoothness::Boolean(b) => JsonValue::Bool(b),
        }
    }

    fn from_json(j: &JsonValue) -> (r: Result<Smoothness, DecodeError>) {
        match j {
            JsonValue::Number(x) => Ok(Smoothness::Value(*x)),
            JsonValue::Bool(b) => Ok(Smoothness::Boolean(*b)),
            _ => Err(DecodeError::InvalidType),
        }
    }
}

impl vstd::std_specs::convert::FromSpecImpl<bool> for Smoothness {
    open spec fn obeys_from_spec() -> bool {
        true
    }

    open spec fn from_spec(v: bool) -> Smoothness {
        Smoothness::Boolean(v)
    }
}

impl From<bool> for Smoothness {
    fn from(v: bool) -> (r: Smoothness)
        ensures
            r == Smoothness::Boolean(v),
    {
        Smoothness::Boolean(v)
    }
}

impl vstd::std_specs::convert::FromSpecImpl<i64> for Smoothness {
    open spec fn obeys_from_spec() -> bool {
        true
    }

    open spec fn from_spec(v: i64) -> Smoothness {
        Smoothness::Value(v)
    }
}

impl From<i64> for Smoothness {
    fn from(v: i64) -> (r: Smoothness)
        ensures
            r == Smoothness::Value(v),
    {
        Smoothness::Value(v)
    }
}

} // verus!

verus! {

/// Stroke style of a line.
#[derive(Debug, Clone, PartialEq, Eq)]
pub struct LineStyle {
    color: Option<String>,
    width: Option<i64>,
}

/// Model of [`LineStyle`].
pub struct LineStyleView {
    pub color: Option<Seq<char>>,
    pub width: Option<int>,
}

impl View for LineStyle {
    type V = LineStyleView;

    closed spec fn view(&self) -> LineStyleView {
        LineStyleView { color: opt_str_view(self.color), width: opt_int_view(self.width) }
    }
}

pub open spec fn line_style_json(v: LineStyleView) -> Json {
    Json::Object(
        push_opt(push_opt(seq![], "color"@, opt_str_json(v.color)), "width"@, opt_int_json(v.width)),
    )
}

pub open spec fn line_style_decode(j: Json) -> Result<LineStyleView, DecodeFailure> {
    match j {
        Json::Object(es) => {
            let color = dec_opt_str(obj_get(es, "color"@));
            let width = dec_opt_int(obj_get(es, "width"@));
            if color is None {
                Err(DecodeFailure::InvalidField("lineStyle"@, "color"@))
            } else if width is None {
                Err(DecodeFailure::InvalidField("lineStyle"@, "width"@))
            } else {
                Ok(LineStyleView { color: color->Some_0, width: width->Some_0 })
            }
        },
        _ => Err(DecodeFailure::InvalidType),
    }
}

pub proof fn line_style_round_trip(v: LineStyleView)
    ensures
        line_style_decode(line_style_json(v)) == Ok::<LineStyleView, DecodeFailure>(v),
{
    broadcast use crate::json::lemma_obj_get_push_opt;

    reveal_strlit("color");
    reveal_strlit("width");
    assert("color"@[0] != "width"@[0]);
    crate::json::lemma_scalar_round_trips(v.color, None, v.width);
    crate::json::lemma_obj_get_empty("color"@);
    crate::json::lemma_obj_get_empty("width"@);
}

impl LineStyle {
    pub fn new() -> (r: LineStyle)
        ensures
            r@.color is None,
            r@.width is None,
    {
        LineStyle { color: None, width: None }
    }

    /// A copy of this style.
    pub fn duplicate(&self) -> (r: LineStyle)
        ensures
            r@ == self@,
    {
        LineStyle { color: crate::json::copy_opt_str(&self.color), width: self.width }
    }

    pub fn color(self, color: &str) -> (r: LineStyle)
        ensures
            r@ == (LineStyleView { color: Some(color@), ..self@ }),
    {
        LineStyle { color: Some(String::from_str(color)), ..self }
    }

    pub fn width(self, width: i64) -> (r: LineStyle)
        ensures
            r@ == (LineStyleView { width: Some(width as int), ..self@ }),
    {
        LineStyle { width: Some(width), ..self }
    }

}

impl Codec for LineStyle {
    open spec fn encode_spec(v: LineStyleView) -> Json {
        line_style_json(v)
    }

    open spec fn decode_spec(j: Json) -> Result<LineStyleView, DecodeFailure> {
        line_style_decode(j)
    }

    proof fn lemma_round_trip(v: LineStyleView) {
        line_style_round_trip(v);
    }

    fn to_json(&self) -> (r: JsonValue) {
        let mut es: Vec<(String, JsonValue)> = Vec::new();
        assert(entries_view(es@) =~= seq![]);
        push_opt_str(&mut es, "color", &self.color);
        push_opt_int(&mut es, "width", self.width);
        JsonValue::object(es)
    }

    fn from_json(j: &JsonValue) -> (r: Result<LineStyle, DecodeError>) {
        let es = match j.entries() {
            Some(es) => es,
            None => return Err(DecodeError::InvalidType),
        };
        let color = match dec_opt_str_exec(lookup(es, "color")) {
            Some(v) => v,
            None => return Err(field_error("lineStyle", "color")),
        };
        let width = match dec_opt_int_exec(lookup(es, "width")) {
            Some(v) => v,
            None => return Err(field_error("lineStyle", "width")),
        };
        Ok(LineStyle { color, width })
    }
}

/// One plotted value.
#[derive(Debug, Clone, PartialEq, Eq)]
pub enum DataPoint {
    Number(i64),
    Text(String),
    /// Several numbers, such as the coordinates of a point.
    Tuple(Vec<i64>),
    /// A number with a label.
    Named { value: i64, name: String },
}

/// Model of [`DataPoint`].
pub enum DataPointView {
    Number(int),
    Text(Seq<char>),
    Tuple(Seq<int>),
    Named(int, Seq<char>),
}

pub open spec fn ints_view(xs: Seq<i64>) -> Seq<int> {
    xs.map_values(|x: i64| x as int)
}

impl View for DataPoint {
    type V = DataPointView;

    open spec fn view(&self) -> DataPointView {
        match self {
            DataPoint::Number(n) => DataPointView::Number(*n as int),
            DataPoint::Text(s) => DataPointView::Text(s@),
            DataPoint::Tuple(xs) => DataPointView::Tuple(ints_view(xs@)),
            DataPoint::Named { value, name } => DataPointView::Named(*value as int, name@),
        }
    }
}

pub open spec fn numbers_json(xs: Seq<int>) -> Seq<Json> {
    xs.map_values(|x: int| Json::Number(x))
}

pub open spec fn data_point_json(d: DataPointView) -> Json {
    match d {
        DataPointView::Number(n) => Json::Number(n),
        DataPointView::Text(s) => Json::Str(s),
        DataPointView::Tuple(xs) => Json::Array(numbers_json(xs)),
        DataPointView::Named(v, n) => Json::Object(
            seq![("value"@, Json::Number(v)), ("name"@, Json::Str(n))],
        ),
    }
}

pub open spec fn data_point_decode(j: Json) -> Result<DataPointView, DecodeFailure> {
    match j {
        Json::Number(n) => Ok(DataPointView::Number(n)),
        Json::Str(s) => Ok(DataPointView::Text(s)),
        Json::Array(a) => if all_numbers(a) {
            Ok(DataPointView::Tuple(a.map_values(|x: Json| x->Number_0)))
        } else {
            Err(DecodeFailure::InvalidType)
        },
        Json::Object(es) => match (obj_get(es, "value"@), obj_get(es, "name"@)) {
            (Some(Json::Number(v)), Some(Json::Str(n))) => Ok(DataPointView::Named(v, n)),
            _ => Err(DecodeFailure::InvalidType),
        },
        _ => Err(DecodeFailure::InvalidType),
    }
}

pub proof fn data_point_round_trip(d: DataPointView)
    ensures
        data_point_decode(data_point_json(d)) == Ok::<DataPointView, DecodeFailure>(d),
{
    broadcast use crate::json::lemma_obj_get_push;

    reveal_strlit("value");
    reveal_strlit("name");
    assert("value"@.len() != "name"@.len());
    let es = seq![("value"@, Json::Number(0)), ("name"@, Json::Str(seq![]))];
    assert(es == seq![("value"@, Json::Number(0))].push(("name"@, Json::Str(seq![]))));
    match d {
        DataPointView::Tuple(xs) => {
            assert forall|i: int| 0 <= i < numbers_json(xs).len() implies #[trigger] numbers_json(
                xs,
            )[i] is Number by {}
            assert(numbers_json(xs).map_values(|x: Json| x->Number_0) =~= xs);
        },
        DataPointView::Named(v, n) => {
            let es = seq![("value"@, Json::Number(v)), ("name"@, Json::Str(n))];
            assert(es == seq![("value"@, Json::Number(v))].push(("name"@, Json::Str(n))));
            assert(seq![("value"@, Json::Number(v))] == Seq::<(Seq<char>, Json)>::empty().push(
                ("value"@, Json::Number(v)),
            ));
        },
        _ => {},
    }
}

impl Codec for DataPoint {
    open spec fn encode_spec(v: DataPointView) -> Json {
        data_point_json(v)
    }

    open spec fn decode_spec(j: Json) -> Result<DataPointView, DecodeFailure> {
        data_point_decode(j)
    }

    proof fn lemma_round_trip(v: DataPointView) {
        data_point_round_trip(v);
    }

    fn to_json(&self) -> (r: JsonValue) {
        match self {
            DataPoint::Number(n) => JsonValue::Number(*n),
            DataPoint::Text(s) => JsonValue::Str(s.clone()),
            DataPoint::Tuple(xs) => {
                let mut a: Vec<JsonValue> = Vec::new();
                let mut i: usize = 0;
                while i < xs.len()
                    invariant
                        i <= xs.len(),
                        items_view(a@) =~= numbers_json(ints_view(xs@)).subrange(0, i as int),
                    decreases xs.len() - i,
                {
                    let ghost a0 = a@;
                    a.push(JsonValue::Number(xs[i]));
                    assert(items_view(a@) =~= items_view(a0).push(Json::Number(xs@[i as int] as int)));
                    i = i + 1;
                }
                assert(numbers_json(ints_view(xs@)).subrange(0, i as int) =~= numbers_json(
                    ints_view(xs@),
                ));
                JsonValue::array(a)
            },
            DataPoint::Named { value, name } => {
                let mut es: Vec<(String, JsonValue)> = Vec::new();
                assert(entries_view(es@) =~= seq![]);
                push_entry(&mut es, "value", JsonValue::Number(*value));
                push_entry(&mut es, "name", JsonValue::Str(name.clone()));
                let r = JsonValue::object(es);
                assert(r@->Object_0 =~= seq![
                    ("value"@, Json::Number(*value as int)),
                    ("name"@, Json::Str(name@)),
                ]);
                r
            },
        }
    }

    fn from_json(j: &JsonValue) -> (r: Result<DataPoint, DecodeError>) {
        match j {
            JsonValue::Number(n) => Ok(DataPoint::Number(*n)),
            JsonValue::Str(s) => Ok(DataPoint::Text(s.clone())),
            JsonValue::Array(_) => {
                let a = j.items().unwrap();
                let ghost ja = items_view(a@);
                let mut xs: Vec<i64> = Vec::new();
                let mut i: usize = 0;
                while i < a.len()
                    invariant
                        i <= a.len(),
                        ja == items_view(a@),
                        j@ == Json::Array(ja),
                        all_numbers(ja.subrange(0, i as int)),
                        ints_view(xs@) =~= ja.subrange(0, i as int).map_values(|x: Json| x->Number_0),
                    decreases a.len() - i,
                {
                    assert(ja[i as int] == a@[i as int]@);
                    let ghost x0 = xs@;
                    match number_at(a, i) {
                        Some(x) => {
                            xs.push(x);
                            assert(ja.subrange(0, i + 1) =~= ja.subrange(0, i as int).push(ja[i as int]));
                            assert(ints_view(xs@) =~= ints_view(x0).push(x as int));
                        },
                        None => {
                            assert(!all_numbers(ja));
                            return Err(DecodeError::InvalidType);
                        },
                    }
                    i = i + 1;
                }
                assert(ja.subrange(0, i as int) =~= ja);
                Ok(DataPoint::Tuple(xs))
            },
            JsonValue::Object(_) => {
                let es = j.entries().unwrap();
                match (lookup(es, "value"), lookup(es, "name")) {
                    (Some(JsonValue::Number(v)), Some(JsonValue::Str(n))) => Ok(
                        DataPoint::Named { value: *v, name: n.clone() },
                    ),
                    _ => Err(DecodeError::InvalidType),
                }
            },
            _ => Err(DecodeError::InvalidType),
        }
    }
}

impl vstd::std_specs::convert::FromSpecImpl<i64> for DataPoint {
    open spec fn obeys_from_spec() -> bool {
        true
    }

    open spec fn from_spec(v: i64) -> DataPoint {
        DataPoint::Number(v)
    }
}

impl From<i64> for DataPoint {
    fn from(v: i64) -> (r: DataPoint)
        ensures
            r == DataPoint::Number(v),
    {
        DataPoint::Number(v)
    }
}

impl vstd::std_specs::convert::FromSpecImpl<Vec<i64>> for DataPoint {
    open spec fn obeys_from_spec() -> bool {
        true
    }

    open spec fn from_spec(v: Vec<i64>) -> DataPoint {
        DataPoint::Tuple(v)
    }
}

impl From<Vec<i64>> for DataPoint {
    fn from(v: Vec<i64>) -> (r: DataPoint)
        ensures
            r == DataPoint::Tuple(v),
    {
        DataPoint::Tuple(v)
    }
}

} // verus!

verus! {

/// How a series thins out its data points when they outnumber the pixels.
#[derive(Debug, Clone, Copy, PartialEq, Eq, Structural)]
pub enum Sampling {
    /// Largest-triangle-three-buckets.
    Lttb,
    Average,
    Min,
    Max,
    MinMax,
    Sum,
}

impl View for Sampling {
    type V = Sampling;

    open spec fn view(&self) -> Sampling {
        *self
    }
}

pub open spec fn sampling_name(v: Sampling) -> Seq<char> {
    match v {
        Sampling::Lttb => "lttb"@,
        Sampling::Average => "average"@,
        Sampling::Min => "min"@,
        Sampling::Max => "max"@,
        Sampling::MinMax => "minmax"@,
        Sampling::Sum => "sum"@,
    }
}

pub open spec fn sampling_from_name(s: Seq<char>) -> Option<Sampling> {
    if s == "lttb"@ {
        Some(Sampling::Lttb)
    } else if s == "average"@ {
        Some(Sampling::Average)
    } else if s == "min"@ {
        Some(Sampling::Min)
    } else if s == "max"@ {
        Some(Sampling::Max)
    } else if s == "minmax"@ {
        Some(Sampling::MinMax)
    } else if s == "sum"@ {
        Some(Sampling::Sum)
    } else {
        None
    }
}

pub open spec fn sampling_decode(j: Json) -> Result<Sampling, DecodeFailure> {
    match j {
        Json::Str(s) => match sampling_from_name(s) {
            Some(x) => Ok(x),
            None => Err(DecodeFailure::InvalidType),
        },
        _ => Err(DecodeFailure::InvalidType),
    }
}

/// Lengths and characters that tell the names of sampling values apart.
proof fn sampling_name_facts()
    ensures
        "lttb"@.len() == 4,
        "average"@.len() == 7,
        "min"@.len() == 3 && "min"@[0] == 'm' && "min"@[1] == 'i',
        "max"@.len() == 3 && "max"@[0] == 'm' && "max"@[1] == 'a',
        "minmax"@.len() == 6,
        "sum"@.len() == 3 && "sum"@[0] == 's',
{
    reveal_strlit("lttb");
    reveal_strlit("average");
    reveal_strlit("min");
    reveal_strlit("max");
    reveal_strlit("minmax");
    reveal_strlit("sum");
}

impl Codec for Sampling {
    open spec fn encode_spec(v: Sampling) -> Json {
        Json::Str(sampling_name(v))
    }

    open spec fn decode_spec(j: Json) -> Result<Sampling, DecodeFailure> {
        sampling_decode(j)
    }

    proof fn lemma_round_trip(v: Sampling) {
        sampling_name_facts();
    }

    fn to_json(&self) -> (r: JsonValue) {
        JsonValue::text(self.name())
    }

    fn from_json(j: &JsonValue) -> (r: Result<Sampling, DecodeError>) {
        match j {
            JsonValue::Str(s) => match Sampling::from_name(s) {
                Some(x) => Ok(x),
                None => Err(DecodeError::InvalidType),
            },
            _ => Err(DecodeError::InvalidType),
        }
    }
}

impl Sampling {
    /// The name of this value on the wire.
    pub fn name(&self) -> (r: &'static str)
        ensures
            r@ == sampling_name(*self),
    {
        match self {
            Sampling::Lttb => "lttb",
            Sampling::Average => "average",
            Sampling::Min => "min",
            Sampling::Max => "max",
            Sampling::MinMax => "minmax",
            Sampling::Sum => "sum",
        }
    }

    pub fn from_name(s: &String) -> (r: Option<Sampling>)
        ensures
            r == sampling_from_name(s@),
    {
        if text_is(s, "lttb") {
            Some(Sampling::Lttb)
        } else if text_is(s, "average") {
            Some(Sampling::Average)
        } else if text_is(s, "min") {
            Some(Sampling::Min)
        } else if text_is(s, "max") {
            Some(Sampling::Max)
        } else if text_is(s, "minmax") {
            Some(Sampling::MinMax)
        } else if text_is(s, "sum") {
            Some(Sampling::Sum)
        } else {
            None
        }
    }
}

/// Where a stepped line turns.
#[derive(Debug, Clone, Copy, PartialEq, Eq, Structural)]
pub enum Step {
    Start,
    Middle,
    End,
}

impl View for Step {
    type V = Step;

    open spec fn view(&self) -> Step {
        *self
    }
}

pub open spec fn step_name(v: Step) -> Seq<char> {
    match v {
        Step::Start => "start"@,
        Step::Middle => "middle"@,
        Step::End => "end"@,
    }
}

pub open spec fn step_from_name(s: Seq<char>) -> Option<Step> {
    if s == "start"@ {
        Some(Step::Start)
    } else if s == "middle"@ {
        Some(Step::Middle)
    } else if s == "end"@ {
        Some(Step::End)
    } else {
        None
    }
}

pub open spec fn step_decode(j: Json) -> Result<Step, DecodeFailure> {
    match j {
        Json::Str(s) => match step_from_name(s) {
            Some(x) => Ok(x),
            None => Err(DecodeFailure::InvalidType),
        },
        _ => Err(DecodeFailure::InvalidType),
    }
}

/// Lengths and characters that tell the names of step values apart.
proof fn step_name_facts()
    ensures
        "start"@.len() == 5,
        "middle"@.len() == 6,
        "end"@.len() == 3,
{
    reveal_strlit("start");
    reveal_strlit("middle");
    reveal_strlit("end");
}

impl Codec for Step {
    open spec fn encode_spec(v: Step) -> Json {
        Json::Str(step_name(v))
    }

    open spec fn decode_spec(j: Json) -> Result<Step, DecodeFailure> {
        step_decode(j)
    }

    proof fn lemma_round_trip(v: Step) {
        step_name_facts();
    }

    fn to_json(&self) -> (r: JsonValue) {
        JsonValue::text(self.name())
    }

    fn from_json(j: &JsonValue) -> (r: Result<Step, DecodeError>) {
        match j {
            JsonValue::Str(s) => match Step::from_name(s) {
                Some(x) => Ok(x),
                None => Err(DecodeError::InvalidType),
            },
            _ => Err(DecodeError::InvalidType),
        }
    }
}

impl Step {
    /// The name of this value on the wire.
    pub fn name(&self) -> (r: &'static str)
        ensures
            r@ == step_name(*self),
    {
        match self {
            Step::Start => "start",
            Step::Middle => "middle",
            Step::End => "end",
        }
    }

    pub fn from_name(s: &String) -> (r: Option<Step>)
        ensures
            r == step_from_name(s@),
    {
        if text_is(s, "start") {
            Some(Step::Start)
        } else if text_is(s, "middle") {
            Some(Step::Middle)
        } else if text_is(s, "end") {
            Some(Step::End)
        } else {
            None
        }
    }
}

/// The coordinate system that a series is drawn in.
#[derive(Debug, Clone, Copy, PartialEq, Eq, Structural)]
pub enum CoordinateSystem {
    Cartesian2d,
    Polar,
    Geo,
    Calendar,
    Parallel,
}

impl View for CoordinateSystem {
    type V = CoordinateSystem;

    open spec fn view(&self) -> CoordinateSystem {
        *self
    }
}

pub open spec fn coordinate_system_name(v: CoordinateSystem) -> Seq<char> {
    match v {
        CoordinateSystem::Cartesian2d => "cartesian2d"@,
        CoordinateSystem::Polar => "polar"@,
        CoordinateSystem::Geo => "geo"@,
        CoordinateSystem::Calendar => "calendar"@,
        CoordinateSystem::Parallel => "parallel"@,
    }
}

pub open spec fn coordinate_system_from_name(s: Seq<char>) -> Option<CoordinateSystem> {
    if s == "cartesian2d"@ {
        Some(CoordinateSystem::Cartesian2d)
    } else if s == "polar"@ {
        Some(CoordinateSystem::Polar)
    } else if s == "geo"@ {
        Some(CoordinateSystem::Geo)
    } else if s == "calendar"@ {
        Some(CoordinateSystem::Calendar)
    } else if s == "parallel"@ {
        Some(CoordinateSystem::Parallel)
    } else {
        None
    }
}

pub open spec fn coordinate_system_decode(j: Json) -> Result<CoordinateSystem, DecodeFailure> {
    match j {
        Json::Str(s) => match coordinate_system_from_name(s) {
            Some(x) => Ok(x),
            None => Err(DecodeFailure::InvalidType),
        },
        _ => Err(DecodeFailure::InvalidType),
    }
}

/// Lengths and characters that tell the names of coordinate_system values apart.
proof fn coordinate_system_name_facts()
    ensures
        "cartesian2d"@.len() == 11,
        "polar"@.len() == 5,
        "geo"@.len() == 3,
        "calendar"@.len() == 8 && "calendar"@[0] == 'c',
        "parallel"@.len() == 8 && "parallel"@[0] == 'p',
{
    reveal_strlit("cartesian2d");
    reveal_strlit("polar");
    reveal_strlit("geo");
    reveal_strlit("calendar");
    reveal_strlit("parallel");
}

impl Codec for CoordinateSystem {
    open spec fn encode_spec(v: CoordinateSystem) -> Json {
        Json::Str(coordinate_system_name(v))
    }

    open spec fn decode_spec(j: Json) -> Result<CoordinateSystem, DecodeFailure> {
        coordinate_system_decode(j)
    }

    proof fn lemma_round_trip(v: CoordinateSystem) {
        coordinate_system_name_facts();
    }

    fn to_json(&self) -> (r: JsonValue) {
        JsonValue::text(self.name())
    }

    fn from_json(j: &JsonValue) -> (r: Result<CoordinateSystem, DecodeError>) {
        match j {
            JsonValue::Str(s) => match CoordinateSystem::from_name(s) {
                Some(x) => Ok(x),
                None => Err(DecodeError::InvalidType),
            },
            _ => Err(DecodeError::InvalidType),
        }
    }
}

impl CoordinateSystem {
    /// The name of this value on the wire.
    pub fn name(&self) -> (r: &'static str)
        ensures
            r@ == coordinate_system_name(*self),
    {
        match self {
            CoordinateSystem::Cartesian2d => "cartesian2d",
            CoordinateSystem::Polar => "polar",
            CoordinateSystem::Geo => "geo",
            CoordinateSystem::Calendar => "calendar",
            CoordinateSystem::Parallel => "parallel",
        }
    }

    pub fn from_name(s: &String) -> (r: Option<CoordinateSystem>)
        ensures
            r == coordinate_system_from_name(s@),
    {
        if text_is(s, "cartesian2d") {
            Some(CoordinateSystem::Cartesian2d)
        } else if text_is(s, "polar") {
            Some(CoordinateSystem::Polar)
        } else if text_is(s, "geo") {
            Some(CoordinateSystem::Geo)
        } else if text_is(s, "calendar") {
            Some(CoordinateSystem::Calendar)
        } else if text_is(s, "parallel") {
            Some(CoordinateSystem::Parallel)
        } else {
            None
        }
    }
}

} // verus!
