use charming::component::{Axis, Tooltip};
use charming::element::{CoordinateSystem, DataPoint, LineStyle, Sampling, Smoothness, Step, Symbol};
use charming::series::line::{Line, LineController};
use charming::series::scatter::Scatter;
use charming::series::{Getters, Series, SeriesController, SeriesTypeError, Setters};
use charming::style::{AreaStyle, Emphasis, ItemStyle, Label};
use charming::{Chart, EchartsError};

#[test]
fn scatter_access_on_a_line_fails() {
    let mut series = Series::Line(Line::new());
    let mut controller = SeriesController::new(&mut series);
    assert!(matches!(controller.as_scatter_mut(), Err(SeriesTypeError::ExpectedScatter)));
    assert_eq!(series, Series::Line(Line::new()));
}

#[test]
fn line_access_on_a_scatter_fails() {
    let mut series = Series::Scatter(Scatter::new());
    let mut controller = SeriesController::new(&mut series);
    assert!(matches!(controller.as_line_mut(), Err(SeriesTypeError::ExpectedLine)));
    assert_eq!(SeriesTypeError::ExpectedLine.message(), "Expected Line series variant");
    assert_eq!(SeriesTypeError::ExpectedScatter.message(), "Expected Scatter series variant");
}

#[test]
fn line_controller_edits_in_place() {
    let mut series = Series::Line(Line::new());
    {
        let mut controller = SeriesController::new(&mut series);
        let mut line = controller.as_line_mut().unwrap();
        line.with_name("edited");
        line.with_smooth(Smoothness::Boolean(true));
        line.with_z(2);
    }
    assert_eq!(
        series,
        Series::Line(Line::new().name("edited").smooth(Smoothness::Boolean(true)).z(2))
    );
}

#[test]
fn scatter_controller_edits_in_place() {
    let mut series = Series::Scatter(Scatter::new());
    {
        let mut controller = SeriesController::new(&mut series);
        let mut scatter = controller.as_scatter_mut().unwrap();
        scatter.with_marker_size(8);
        scatter.with_name("dots");
    }
    assert_eq!(series, Series::Scatter(Scatter::new().symbol_size(8).name("dots")));
}

#[test]
fn with_mutable_runs_the_edit() {
    let mut series = Series::Line(Line::new());
    series.with_mutable(|mut c| {
        if let Ok(mut line) = c.as_line_mut() {
            line.with_stack("total");
        }
    });
    assert_eq!(series.get_series_name(), None);
    assert_eq!(series, Series::Line(Line::new().stack("total")));
}

#[test]
fn chart_controller_resets_and_appends() {
    let mut chart = Chart::new().x_axis(Axis::new()).series(Line::new().into());
    chart.with_mutable(|mut c| {
        c.reset_x_axis();
        c.with_x_axis(Axis::new().name("x"));
        c.with_y_axis(Axis::new().name("y"));
        c.reset_series();
        c.with_series(Series::from(Scatter::new()));
        let mut s = c.series_mut_by_index(0);
        assert!(s.as_line_mut().is_err());
        s.as_scatter_mut().unwrap().with_name("only");
    });
    let expected = Chart::new()
        .x_axis(Axis::new().name("x"))
        .y_axis(Axis::new().name("y"))
        .series(Series::from(Scatter::new().name("only")));
    assert_eq!(chart, expected);
}

#[test]
fn series_found_by_id() {
    let mut chart = Chart::new()
        .series(Series::from(Line::new().id("a")))
        .series(Series::from(Line::new().id("b")));
    assert_eq!(chart.get_all_ids(), vec!["a".to_string(), "b".to_string()]);
    let s = chart.get_series_mut(&"b".to_string()).unwrap();
    s.set_show_symbol(false);
    assert_eq!(chart.get_all_series_ref()[1].get_show_symbol(), Some(false));
    assert!(chart.get_series_mut(&"c".to_string()).is_none());
}

#[test]
fn getters_and_setters_reach_lines_only() {
    let mut line = Series::from(Line::new().id("l").name("n"));
    line.set_symbol(Symbol::Pin);
    line.set_smoothness(Smoothness::Value(1));
    line.set_linestyle(LineStyle::new().width(3));
    line.set_series_data(vec![DataPoint::Number(4)]);
    assert_eq!(line.get_series_id(), Some("l".to_string()));
    assert_eq!(line.get_series_name(), Some("n".to_string()));
    assert_eq!(line.get_series_symbol(), &Some(Symbol::Pin));
    assert_eq!(line.get_series_smoothness(), Some(Smoothness::Value(1)));
    assert_eq!(line.get_series_linestyle(), Some(LineStyle::new().width(3)));
    assert_eq!(line.get_series_data(), Some(&vec![DataPoint::Number(4)]));

    let mut scatter = Series::from(Scatter::new().id("s"));
    scatter.set_show_symbol(true);
    assert_eq!(scatter, Series::from(Scatter::new().id("s")));
    assert_eq!(scatter.get_series_id(), None);
    assert_eq!(scatter.get_series_data(), None);
}

#[test]
fn chart_color_and_axes_accessors() {
    let mut chart = Chart::new().color(vec!["red".to_string()]).x_axis(Axis::new()).y_axis(Axis::new());
    chart.get_color_mut().push("blue".to_string());
    assert_eq!(chart.get_color_ref(), &vec!["red".to_string(), "blue".to_string()]);
    chart.reset_x_axis();
    chart.reset_y_axis();
    assert_eq!(chart, Chart::new().color(vec!["red".to_string(), "blue".to_string()]));
    chart.get_all_series_mut().push(Series::from(Line::new()));
    assert_eq!(chart.get_all_series_ref().len(), 1);
}

#[test]
fn line_accessors_and_controller() {
    let mut line = Line::new();
    line.set_name("n");
    {
        let mut c = LineController::new(&mut line);
        c.with_connect_nulls(true);
        c.with_silent(true);
        c.with_dataset_id("ds");
        c.with_x_axis_index(1);
        c.with_y_axis_index(2);
        c.with_symbol_size(3);
        c.with_line_style(LineStyle::new().color("blue"));
        c.with_data(vec![DataPoint::Number(1)]);
        c.with_coordinate_system(CoordinateSystem::Cartesian2d);
        c.with_sampling(Sampling::Max);
        c.with_step(Step::Start);
        c.with_tooltip(Tooltip::new().formatter("{b}"));
        c.with_label(Label::new().show(true));
        c.with_area_style(AreaStyle::new().origin("start"));
        c.with_item_style(ItemStyle::new().border_width(2));
        c.with_emphasis(Emphasis::new().focus("series"));
    }
    assert_eq!(line.get_name(), Some("n".to_string()));
    assert_eq!(line.get_id(), None);
    let expected = Line::new()
        .name("n")
        .connect_nulls(true)
        .silent(true)
        .dataset_id("ds")
        .x_axis_index(1)
        .y_axis_index(2)
        .symbol_size(3)
        .line_style(LineStyle::new().color("blue"))
        .data(vec![DataPoint::Number(1)])
        .coordinate_system(CoordinateSystem::Cartesian2d)
        .sampling(Sampling::Max)
        .step(Step::Start)
        .tooltip(Tooltip::new().formatter("{b}"))
        .label(Label::new().show(true))
        .area_style(AreaStyle::new().origin("start"))
        .item_style(ItemStyle::new().border_width(2))
        .emphasis(Emphasis::new().focus("series"));
    assert_eq!(line, expected);
}

#[test]
fn renderer_errors_read_as_text() {
    assert_eq!(
        EchartsError::HtmlRenderingError("bad".to_string()).message(),
        "HTML rendering error: bad"
    );
    assert_eq!(EchartsError::WasmError("x".to_string()).message(), "WebAssembly runtime error: x");
}
