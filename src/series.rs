//! Chart series: one record type per chart type, joined in a tagged union.
use vstd::prelude::*;
use crate::element::{DataPoint, LineStyle, Smoothness, Symbol};
use crate::json::{
    lookup, obj_get, opt_str_view, opt_view, seq_view, text_is, Codec, DecodeError, DecodeFailure,
    Json, JsonValue,
};
use bar::{bar_decode, bar_json, bar_round_trip, Bar, BarView};
use line::{line_decode, line_json, line_round_trip, Line, LineController, LineView};
use scatter::{
    scatter_decode, scatter_json, scatter_round_trip, Scatter, ScatterController, ScatterView,
};

pub mod bar;
pub mod line;
pub mod scatter;

verus! {

/// One series of a chart; the variant is its chart type.
#[derive(Debug, Clone, PartialEq)]
pub enum Series {
    Bar(Bar),
    Line(Line),
    Scatter(Scatter),
}

/// Model of [`Series`].
pub enum SeriesView {
    Bar(BarView),
    Line(LineView),
    Scatter(ScatterView),
}

impl View for Series {
    type V = SeriesView;

    open spec fn view(&self) -> SeriesView {
        match self {
            Series::Bar(b) => SeriesView::Bar(b@),
            Series::Line(l) => SeriesView::Line(l@),
            Series::Scatter(s) => SeriesView::Scatter(s@),
        }
    }
}

/// The JSON form of a series is the object of its variant, which carries the type tag.
pub open spec fn series_json(v: SeriesView) -> Json {
    match v {
        SeriesView::Bar(b) => bar_json(b),
        SeriesView::Line(l) => line_json(l),
        SeriesView::Scatter(s) => scatter_json(s),
    }
}

/// The type tags this library decodes.
pub open spec fn known_series_types() -> Seq<Seq<char>> {
    seq!["bar"@, "line"@, "scatter"@]
}

/// Reads the type tag first, then decodes the whole object as the variant it names.
/// A value without a text tag, an object or not, has no discriminant.
pub open spec fn series_decode(j: Json) -> Result<SeriesView, DecodeFailure> {
    match j {
        Json::Object(es) => match obj_get(es, "type"@) {
            Some(Json::Str(t)) => if t == "bar"@ {
                match bar_decode(j) {
                    Ok(b) => Ok(SeriesView::Bar(b)),
                    Err(e) => Err(e),
                }
            } else if t == "line"@ {
                match line_decode(j) {
                    Ok(l) => Ok(SeriesView::Line(l)),
                    Err(e) => Err(e),
                }
            } else if t == "scatter"@ {
                match scatter_decode(j) {
                    Ok(s) => Ok(SeriesView::Scatter(s)),
                    Err(e) => Err(e),
                }
            } else {
                Err(DecodeFailure::UnknownVariant(t))
            },
            _ => Err(DecodeFailure::MissingType),
        },
        _ => Err(DecodeFailure::MissingType),
    }
}

/// Decoding the JSON form of any series gives the series back.
pub proof fn series_round_trip(v: SeriesView)
    ensures
        series_decode(series_json(v)) == Ok::<SeriesView, DecodeFailure>(v),
{
    broadcast use crate::json::lemma_obj_get_push_opt, crate::json::lemma_obj_get_push_nonempty;

    reveal_strlit("bar");
    reveal_strlit("line");
    reveal_strlit("scatter");
    match v {
        SeriesView::Bar(b) => {
            bar_round_trip(b);
        },
        SeriesView::Line(l) => {
            line_round_trip(l);
        },
        SeriesView::Scatter(s) => {
            scatter_round_trip(s);
            assert("scatter"@.len() != "line"@.len());
            assert("scatter"@.len() != "bar"@.len());
        },
    }
}

/// An object whose type tag names no supported series is refused with an
/// error that names the tag.
pub proof fn series_unknown_tag(es: Seq<(Seq<char>, Json)>, t: Seq<char>)
    requires
        obj_get(es, "type"@) == Some(Json::Str(t)),
        !known_series_types().contains(t),
    ensures
        series_decode(Json::Object(es)) == Err::<SeriesView, DecodeFailure>(
            DecodeFailure::UnknownVariant(t),
        ),
{
    assert(known_series_types()[0] == "bar"@);
    assert(known_series_types()[1] == "line"@);
    assert(known_series_types()[2] == "scatter"@);
}

/// A value that is not an object, or an object without a text `type`, is
/// refused for its missing discriminant.
pub proof fn series_missing_tag(j: Json)
    requires
        !(j is Object) || !(obj_get(j->Object_0, "type"@) matches Some(Json::Str(_))),
    ensures
        series_decode(j) == Err::<SeriesView, DecodeFailure>(DecodeFailure::MissingType),
{
}

impl Codec for Series {
    open spec fn encode_spec(v: SeriesView) -> Json {
        series_json(v)
    }

    open spec fn decode_spec(j: Json) -> Result<SeriesView, DecodeFailure> {
        series_decode(j)
    }

    proof fn lemma_round_trip(v: SeriesView) {
        series_round_trip(v);
    }

    fn to_json(&self) -> (r: JsonValue) {
        match self {
            Series::Bar(b) => b.to_json(),
            Series::Line(l) => l.to_json(),
            Series::Scatter(s) => s.to_json(),
        }
    }

    fn from_json(j: &JsonValue) -> (r: Result<Series, DecodeError>) {
        let es = match j.entries() {
            Some(es) => es,
            None => return Err(DecodeError::MissingType),
        };
        let t = match lookup(es, "type") {
            Some(JsonValue::Str(t)) => t,
            _ => return Err(DecodeError::MissingType),
        };
        if text_is(t, "bar") {
            match Bar::from_json(j) {
                Ok(b) => Ok(Series::Bar(b)),
                Err(e) => Err(e),
            }
        } else if text_is(t, "line") {
            match Line::from_json(j) {
                Ok(l) => Ok(Series::Line(l)),
                Err(e) => Err(e),
            }
        } else if text_is(t, "scatter") {
            match Scatter::from_json(j) {
                Ok(s) => Ok(Series::Scatter(s)),
                Err(e) => Err(e),
            }
        } else {
            Err(DecodeError::UnknownVariant(t.clone()))
        }
    }
}

impl vstd::std_specs::convert::FromSpecImpl<Bar> for Series {
    open spec fn obeys_from_spec() -> bool {
        true
    }

    open spec fn from_spec(v: Bar) -> Series {
        Series::Bar(v)
    }
}

impl From<Bar> for Series {
    fn from(v: Bar) -> (r: Series)
        ensures
            r == Series::Bar(v),
    {
        Series::Bar(v)
    }
}

impl vstd::std_specs::convert::FromSpecImpl<Line> for Series {
    open spec fn obeys_from_spec() -> bool {
        true
    }

    open spec fn from_spec(v: Line) -> Series {
        Series::Line(v)
    }
}

impl From<Line> for Series {
    fn from(v: Line) -> (r: Series)
        ensures
            r == Series::Line(v),
    {
        Series::Line(v)
    }
}

impl vstd::std_specs::convert::FromSpecImpl<Scatter> for Series {
    open spec fn obeys_from_spec() -> bool {
        true
    }

    open spec fn from_spec(v: Scatter) -> Series {
        Series::Scatter(v)
    }
}

impl From<Scatter> for Series {
    fn from(v: Scatter) -> (r: Series)
        ensures
            r == Series::Scatter(v),
    {
        Series::Scatter(v)
    }
}

impl Series {
    /// The type tags this library decodes.
    pub fn known_types() -> (r: Vec<&'static str>)
        ensures
            r@.len() == known_series_types().len(),
            forall|i: int| 0 <= i < r@.len() ==> #[trigger] r@[i]@ == known_series_types()[i],
    {
        let r = vec!["bar", "line", "scatter"];
        assert(r@[0]@ == known_series_types()[0]);
        assert(r@[1]@ == known_series_types()[1]);
        assert(r@[2]@ == known_series_types()[2]);
        r
    }

    /// Hands `f` a controller over this series, for edits in place. The
    /// variant stays what it was; its fields are left as `f` leaves them
    /// through the controller.
    pub fn with_mutable<F>(&mut self, f: F)
        where
            F: FnOnce(SeriesController),
        requires
            forall|c: SeriesController| #[trigger] f.requires((c,)),
        ensures
            same_variant(*old(self), *final(self)),
            exists|c: SeriesController|
                #[trigger] f.ensures((c,), ()) && c.current() == *old(self) && *final(self)
                    == match c.target() {
                    SeriesTarget::Bar(b) => Series::Bar(*final(b)),
                    SeriesTarget::Line(l) => Series::Line(*final(l)),
                    SeriesTarget::Scatter(s) => Series::Scatter(*final(s)),
                },
    {
        let controller = SeriesController::new(self);
        f(controller);
    }
}

/// Whether two series are of the same variant.
pub open spec fn same_variant(a: Series, b: Series) -> bool {
    &&& (a is Bar <==> b is Bar)
    &&& (a is Line <==> b is Line)
    &&& (a is Scatter <==> b is Scatter)
}

/// The record inside a series that a controller writes to; its variant is
/// fixed when the controller is made.
pub enum SeriesTarget<'a> {
    Bar(&'a mut Bar),
    Line(&'a mut Line),
    Scatter(&'a mut Scatter),
}

/// Scoped write access to a series, typed by variant on request.
pub struct SeriesController<'a> {
    target: SeriesTarget<'a>,
}

impl<'a> SeriesController<'a> {
    /// The record this controller writes to.
    pub closed spec fn target(&self) -> SeriesTarget<'a> {
        self.target
    }

    /// The series as the controller sees it now.
    pub open spec fn current(&self) -> Series {
        match self.target() {
            SeriesTarget::Bar(b) => Series::Bar(*b),
            SeriesTarget::Line(l) => Series::Line(*l),
            SeriesTarget::Scatter(s) => Series::Scatter(*s),
        }
    }

    pub fn new(series: &'a mut Series) -> (r: Self)
        ensures
            r.current() == *old(series),
            *final(series) == match r.target() {
                SeriesTarget::Bar(b) => Series::Bar(*final(b)),
                SeriesTarget::Line(l) => Series::Line(*final(l)),
                SeriesTarget::Scatter(s) => Series::Scatter(*final(s)),
            },
    {
        let target = match series {
            Series::Bar(b) => SeriesTarget::Bar(b),
            Series::Line(l) => SeriesTarget::Line(l),
            Series::Scatter(s) => SeriesTarget::Scatter(s),
        };
        SeriesController { target }
    }

    /// Write access to the line, or `ExpectedLine` when the series is another variant.
    pub fn as_line_mut(&mut self) -> (r: Result<LineController<'_>, SeriesTypeError>)
        ensures
            (old(self).current() is Line) <==> r is Ok,
            r matches Ok(c) ==> {
                &&& old(self).target() is Line
                &&& final(self).target() is Line
                &&& *c.target() == *old(self).target()->Line_0
                &&& *final(self).target()->Line_0 == *final(c.target())
                &&& *final(final(self).target()->Line_0) == *final(old(self).target()->Line_0)
            },
            r matches Err(e) ==> e == SeriesTypeError::ExpectedLine && final(self).target()
                == old(self).target(),
    {
        match &mut self.target {
            SeriesTarget::Line(line) => Ok(LineController::new(line)),
            _ => Err(SeriesTypeError::ExpectedLine),
        }
    }

    /// Write access to the scatter series, or `ExpectedScatter` when the series is another variant.
    pub fn as_scatter_mut(&mut self) -> (r: Result<ScatterController<'_>, SeriesTypeError>)
        ensures
            (old(self).current() is Scatter) <==> r is Ok,
            r matches Ok(c) ==> {
                &&& old(self).target() is Scatter
                &&& final(self).target() is Scatter
                &&& *c.target() == *old(self).target()->Scatter_0
                &&& *final(self).target()->Scatter_0 == *final(c.target())
                &&& *final(final(self).target()->Scatter_0) == *final(old(self).target()->Scatter_0)
            },
            r matches Err(e) ==> e == SeriesTypeError::ExpectedScatter && final(self).target()
                == old(self).target(),
    {
        match &mut self.target {
            SeriesTarget::Scatter(scatter) => Ok(ScatterController::new(scatter)),
            _ => Err(SeriesTypeError::ExpectedScatter),
        }
    }
}

/// A controller was asked for a variant that the series is not.
#[derive(Debug, Clone, Copy, PartialEq, Eq, Structural)]
pub enum SeriesTypeError {
    ExpectedLine,
    ExpectedScatter,
}

impl SeriesTypeError {
    pub fn message(&self) -> (r: &'static str)
        ensures
            *self == SeriesTypeError::ExpectedLine ==> r@ == "Expected Line series variant"@,
            *self == SeriesTypeError::ExpectedScatter ==> r@ == "Expected Scatter series variant"@,
    {
        match self {
            SeriesTypeError::ExpectedLine => "Expected Line series variant",
            SeriesTypeError::ExpectedScatter => "Expected Scatter series variant",
        }
    }
}

/// The line inside a series, if it is one.
pub open spec fn line_part(v: SeriesView) -> Option<LineView> {
    match v {
        SeriesView::Line(l) => Some(l),
        _ => None,
    }
}

/// Read access to the fields that series share; a variant without the field gives `None`.
pub trait Getters: View<V = SeriesView> {
    fn get_series_id(&self) -> (r: Option<String>)
        ensures
            opt_str_view(r) == match line_part(self@) {
                Some(l) => l.id,
                None => None,
            },
    ;

    fn get_series_name(&self) -> (r: Option<String>)
        ensures
            opt_str_view(r) == match line_part(self@) {
                Some(l) => l.name,
                None => None,
            },
    ;

    fn get_show_symbol(&self) -> (r: Option<bool>)
        ensures
            r == match line_part(self@) {
                Some(l) => l.show_symbol,
                None => None,
            },
    ;

    fn get_series_smoothness(&self) -> (r: Option<Smoothness>)
        ensures
            r == match line_part(self@) {
                Some(l) => l.smooth,
                None => None,
            },
    ;

    fn get_series_symbol(&self) -> (r: &Option<Symbol>)
        ensures
            *r == match line_part(self@) {
                Some(l) => l.symbol,
                None => None,
            },
    ;

    fn get_series_linestyle(&self) -> (r: Option<LineStyle>)
        ensures
            opt_view(r) == match line_part(self@) {
                Some(l) => l.line_style,
                None => None,
            },
    ;

    fn get_series_data(&self) -> (r: Option<&Vec<DataPoint>>)
        ensures
            r is Some <==> line_part(self@) is Some,
            r matches Some(d) ==> seq_view(d@) == line_part(self@)->Some_0.data,
    ;
}

/// Write access to the fields that series share; on a variant without the field
/// the series is left as it was.
pub trait Setters: View<V = SeriesView> {
    fn set_show_symbol(&mut self, show_symbol: bool)
        ensures
            final(self)@ == match old(self)@ {
                SeriesView::Line(l) => SeriesView::Line(LineView { show_symbol: Some(show_symbol), ..l }),
                other => other,
            },
    ;

    fn set_smoothness(&mut self, smoothness: Smoothness)
        ensures
            final(self)@ == match old(self)@ {
                SeriesView::Line(l) => SeriesView::Line(LineView { smooth: Some(smoothness), ..l }),
                other => other,
            },
    ;

    fn set_symbol(&mut self, symbol: Symbol)
        ensures
            final(self)@ == match old(self)@ {
                SeriesView::Line(l) => SeriesView::Line(LineView { symbol: Some(symbol), ..l }),
                other => other,
            },
    ;

    fn set_linestyle(&mut self, line_style: LineStyle)
        ensures
            final(self)@ == match old(self)@ {
                SeriesView::Line(l) => SeriesView::Line(
                    LineView { line_style: Some(line_style@), ..l },
                ),
                other => other,
            },
    ;

    fn set_series_data(&mut self, new_data: Vec<DataPoint>)
        ensures
            final(self)@ == match old(self)@ {
                SeriesView::Line(l) => SeriesView::Line(LineView { data: seq_view(new_data@), ..l }),
                other => other,
            },
    ;
}

impl Getters for Series {
    fn get_series_id(&self) -> (r: Option<String>) {
        match self {
            Series::Line(line) => line.get_id(),
            _ => None,
        }
    }

    fn get_series_name(&self) -> (r: Option<String>) {
        match self {
            Series::Line(line) => line.get_name(),
            _ => None,
        }
    }

    fn get_show_symbol(&self) -> (r: Option<bool>) {
        match self {
            Series::Line(line) => line.get_show_symbol(),
            _ => None,
        }
    }

    fn get_series_smoothness(&self) -> (r: Option<Smoothness>) {
        match self {
            Series::Line(line) => line.get_smoothness(),
            _ => None,
        }
    }

    fn get_series_symbol(&self) -> (r: &Option<Symbol>) {
        match self {
            Series::Line(line) => line.get_symbol(),
            _ => &None,
        }
    }

    fn get_series_linestyle(&self) -> (r: Option<LineStyle>) {
        match self {
            Series::Line(line) => line.get_linestyle(),
            _ => None,
        }
    }

    fn get_series_data(&self) -> (r: Option<&Vec<DataPoint>>) {
        match self {
            Series::Line(line) => Some(line.get_data()),
            _ => None,
        }
    }
}

impl Setters for Series {
    fn set_show_symbol(&mut self, show_symbol: bool) {
        match self {
            Series::Line(line) => line.set_show_symbol(show_symbol),
            _ => {},
        }
    }

    fn set_smoothness(&mut self, smoothness: Smoothness) {
        match self {
            Series::Line(line) => line.set_smoothness(smoothness),
            _ => {},
        }
    }

    fn set_symbol(&mut self, symbol: Symbol) {
        match self {
            Series::Line(line) => line.set_symbol(symbol),
            _ => {},
        }
    }

    fn set_linestyle(&mut self, line_style: LineStyle) {
        match self {
            Series::Line(line) => line.set_linestyle(line_style),
            _ => {},
        }
    }

    fn set_series_data(&mut self, new_data: Vec<DataPoint>) {
        match self {
            Series::Line(line) => line.set_data(new_data),
            _ => {},
        }
    }
}

} // verus!
