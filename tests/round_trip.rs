use charming::component::{Axis, Legend, Title};
use charming::element::{DataPoint, LineStyle, Padding, Smoothness, Symbol};
use charming::series::bar::Bar;
use charming::series::scatter::Scatter;
use charming::json::{Codec, JsonValue};
use charming::series::line::Line;
use charming::series::Series;
use charming::Chart;

fn to_serde(j: &JsonValue) -> serde_json::Value {
    match j {
        JsonValue::Null => serde_json::Value::Null,
        JsonValue::Bool(b) => serde_json::Value::Bool(*b),
        JsonValue::Number(n) => serde_json::Value::from(*n),
        JsonValue::Str(s) => serde_json::Value::String(s.clone()),
        JsonValue::Array(a) => serde_json::Value::Array(a.iter().map(to_serde).collect()),
        JsonValue::Object(es) => {
            let mut m = serde_json::Map::new();
            for (k, v) in es {
                m.insert(k.clone(), to_serde(v));
            }
            serde_json::Value::Object(m)
        }
    }
}

fn from_serde(v: &serde_json::Value) -> JsonValue {
    match v {
        serde_json::Value::Null => JsonValue::Null,
        serde_json::Value::Bool(b) => JsonValue::Bool(*b),
        serde_json::Value::Number(n) => JsonValue::Number(n.as_i64().expect("integer")),
        serde_json::Value::String(s) => JsonValue::Str(s.clone()),
        serde_json::Value::Array(a) => JsonValue::Array(a.iter().map(from_serde).collect()),
        serde_json::Value::Object(m) => {
            JsonValue::Object(m.iter().map(|(k, v)| (k.clone(), from_serde(v))).collect())
        }
    }
}

fn to_text(j: &JsonValue) -> String {
    serde_json::to_string(&to_serde(j)).unwrap()
}

fn from_text(s: &str) -> JsonValue {
    from_serde(&serde_json::from_str::<serde_json::Value>(s).unwrap())
}

fn points(rows: Vec<Vec<i64>>) -> Vec<DataPoint> {
    rows.into_iter().map(DataPoint::from).collect()
}

#[test]
fn test_chart_round_trip() {
    let chart = Chart::new()
        .legend(Legend::new().show(true))
        .series(Series::Line(Line::new().data(points(vec![vec![0, 1], vec![2, 3]]))));
    let chart_json = to_text(&chart.to_json());
    println!("{}", chart_json);
    let chart_de = Chart::from_json(&from_text(&chart_json)).unwrap();
    assert_eq!(chart, chart_de);
}

#[test]
fn round_trip_series_line() {
    let data = vec![vec![0, 1], vec![2, 3]];
    let line = Line::new()
        .name("test_line")
        .show_symbol(false)
        .connect_nulls(true)
        .data(points(data));
    let line_json = to_text(&line.to_json());
    println!("{}", line_json);
    let line_de = Line::from_json(&from_text(&line_json)).unwrap();
    assert_eq!(line, line_de);
}

#[test]
fn line_scenario_keeps_its_data() {
    let chart = Chart::new().series(Series::from(Line::new().data(points(vec![vec![0, 1], vec![2, 3]]))));
    let text = to_text(&chart.to_json());
    assert_eq!(text, r#"{"series":[{"type":"line","data":[[0,1],[2,3]]}]}"#);
    let back = Chart::from_json(&from_text(&text)).unwrap();
    let series = back.get_all_series_ref();
    assert_eq!(series.len(), 1);
    match &series[0] {
        Series::Line(line) => {
            assert_eq!(line.get_data(), &points(vec![vec![0, 1], vec![2, 3]]));
        }
        other => panic!("expected a line, got {:?}", other),
    }
}

#[test]
fn every_series_variant_round_trips() {
    let line = Line::new()
        .id("a")
        .name("n")
        .symbol(Symbol::Diamond)
        .symbol_size(4)
        .stack("total")
        .line_style(LineStyle::new().color("red").width(2))
        .smooth(Smoothness::Boolean(true))
        .silent(false)
        .z(-3)
        .dataset_id("d")
        .x_axis_index(1)
        .y_axis_index(0)
        .data(vec![
            DataPoint::Number(1),
            DataPoint::Text("x".to_string()),
            DataPoint::Named { value: 9, name: "nine".to_string() },
        ]);
    let scatter = Scatter::new().name("s").symbol(Symbol::Hidden).symbol_size(12).data(points(vec![vec![1, 2]]));
    let bar = Bar::new().stack("s").bar_width(20).data(points(vec![vec![3]]));
    for s in [Series::Line(line), Series::Scatter(scatter), Series::Bar(bar)] {
        let text = to_text(&s.to_json());
        assert_eq!(Series::from_json(&from_text(&text)), Ok(s));
    }
}

#[test]
fn full_chart_round_trips_through_text() {
    let chart = Chart::new()
        .title(Title::new().text("Sales Report").padding(Padding::Double(5, 10)))
        .x_axis(Axis::new().data(vec!["Jan".to_string(), "Feb".to_string()]))
        .y_axis(Axis::new())
        .y_axis(Axis::new().name("right"))
        .color(vec!["#fff".to_string()])
        .background_color("black")
        .animation(false);
    let text = to_text(&chart.to_json());
    assert_eq!(Chart::from_json(&from_text(&text)).unwrap(), chart);
}

#[test]
fn extreme_numbers_survive_text() {
    for p in [Padding::Single(i64::MAX), Padding::Quadruple(i64::MIN, 0, -1, i64::MAX)] {
        let text = to_text(&p.to_json());
        assert_eq!(Padding::from_json(&from_text(&text)), Ok(p));
    }
}
