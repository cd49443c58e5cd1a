use charming::component::{Axis, Axis3D, Feature, Grid3D, SaveAsImage, SaveAsImageType, Toolbox, Tooltip};
use charming::element::{CoordinateSystem, DataPoint, Padding, Sampling, Smoothness, Step, Symbol};
use charming::json::{Codec, DecodeError, JsonValue};
use charming::raw::{process_raw_strings, raw_string};
use charming::style::{Emphasis, ItemStyle, Label};
use charming::series::line::Line;
use charming::series::Series;
use charming::Chart;

fn obj(entries: Vec<(&str, JsonValue)>) -> JsonValue {
    JsonValue::Object(entries.into_iter().map(|(k, v)| (k.to_string(), v)).collect())
}

fn nums(xs: &[i64]) -> JsonValue {
    JsonValue::Array(xs.iter().map(|x| JsonValue::Number(*x)).collect())
}

fn get<'a>(j: &'a JsonValue, key: &str) -> Option<&'a JsonValue> {
    match j {
        JsonValue::Object(es) => es.iter().rev().find(|(k, _)| k == key).map(|(_, v)| v),
        _ => None,
    }
}

#[test]
fn padding_single_is_a_bare_number() {
    assert_eq!(Padding::Single(5).to_json(), JsonValue::Number(5));
    assert_eq!(Padding::from_json(&JsonValue::Number(5)), Ok(Padding::Single(5)));
}

#[test]
fn padding_double_and_quadruple_are_arrays_in_order() {
    assert_eq!(Padding::Double(1, 2).to_json(), nums(&[1, 2]));
    assert_eq!(Padding::Quadruple(1, 2, 3, 4).to_json(), nums(&[1, 2, 3, 4]));
    assert_eq!(Padding::from_json(&nums(&[1, 2])), Ok(Padding::Double(1, 2)));
    assert_eq!(Padding::from_json(&nums(&[1, 2, 3, 4])), Ok(Padding::Quadruple(1, 2, 3, 4)));
    assert_eq!(Padding::from_json(&nums(&[7])), Ok(Padding::Single(7)));
}

#[test]
fn padding_rejects_other_lengths() {
    assert_eq!(Padding::from_json(&nums(&[1, 2, 3])), Err(DecodeError::InvalidLength(3)));
    assert_eq!(Padding::from_json(&nums(&[])), Err(DecodeError::InvalidLength(0)));
    assert_eq!(Padding::from_json(&nums(&[1, 2, 3, 4, 5])), Err(DecodeError::InvalidLength(5)));
    let mixed = JsonValue::Array(vec![JsonValue::Number(1), JsonValue::Str("2".to_string())]);
    assert_eq!(Padding::from_json(&mixed), Err(DecodeError::InvalidType));
    assert_eq!(Padding::from_json(&JsonValue::Null), Err(DecodeError::InvalidType));
}

#[test]
fn empty_chart_is_the_empty_object() {
    assert_eq!(Chart::new().to_json(), JsonValue::Object(vec![]));
    assert_eq!(Chart::from_json(&JsonValue::Object(vec![])), Ok(Chart::new()));
}

#[test]
fn unknown_series_tag_is_named() {
    let j = obj(vec![("type", JsonValue::Str("not_a_real_type".to_string()))]);
    assert_eq!(
        Series::from_json(&j),
        Err(DecodeError::UnknownVariant("not_a_real_type".to_string()))
    );
}

#[test]
fn missing_series_tag_is_reported() {
    assert_eq!(Series::from_json(&obj(vec![])), Err(DecodeError::MissingType));
    let j = obj(vec![("type", JsonValue::Number(3))]);
    assert_eq!(Series::from_json(&j), Err(DecodeError::MissingType));
    assert_eq!(Series::from_json(&JsonValue::Null), Err(DecodeError::MissingType));
    assert_eq!(Series::from_json(&JsonValue::Number(1)), Err(DecodeError::MissingType));
    assert_eq!(Series::from_json(&JsonValue::Array(vec![])), Err(DecodeError::MissingType));
}

#[test]
fn field_errors_name_record_and_field() {
    let j = obj(vec![
        ("type", JsonValue::Str("line".to_string())),
        ("name", JsonValue::Number(5)),
    ]);
    assert_eq!(
        Series::from_json(&j),
        Err(DecodeError::InvalidField { record: "line".to_string(), field: "name".to_string() })
    );
    let j = obj(vec![
        ("type", JsonValue::Str("scatter".to_string())),
        ("data", JsonValue::Bool(true)),
    ]);
    assert_eq!(
        Series::from_json(&j),
        Err(DecodeError::InvalidField { record: "scatter".to_string(), field: "data".to_string() })
    );
    let wrong_tag = obj(vec![("type", JsonValue::Str("scatter".to_string()))]);
    assert_eq!(
        Line::from_json(&wrong_tag),
        Err(DecodeError::InvalidField { record: "line".to_string(), field: "type".to_string() })
    );
}

#[test]
fn null_fields_read_as_unset() {
    let j = obj(vec![
        ("type", JsonValue::Str("line".to_string())),
        ("name", JsonValue::Null),
    ]);
    assert_eq!(Line::from_json(&j), Ok(Line::new()));
}

#[test]
fn one_x_axis_is_written_bare() {
    let chart = Chart::new().x_axis(Axis::new().name("only"));
    let j = chart.to_json();
    assert_eq!(get(&j, "xAxis"), Some(&obj(vec![("name", JsonValue::Str("only".to_string()))])));
    let back = Chart::from_json(&j).unwrap();
    assert_eq!(back, chart);
}

#[test]
fn two_x_axes_are_written_as_an_array() {
    let chart = Chart::new().x_axis(Axis::new().name("a")).x_axis(Axis::new().name("b"));
    let j = chart.to_json();
    match get(&j, "xAxis") {
        Some(JsonValue::Array(a)) => assert_eq!(a.len(), 2),
        other => panic!("expected an array, got {:?}", other),
    }
    assert_eq!(Chart::from_json(&j).unwrap(), chart);
}

#[test]
fn a_single_axis_in_an_array_reads_as_one() {
    let j = obj(vec![("yAxis", JsonValue::Array(vec![obj(vec![])]))]);
    assert_eq!(Chart::from_json(&j), Ok(Chart::new().y_axis(Axis::new())));
}

#[test]
fn grid3d_uses_its_wire_name() {
    let j = Chart::new().grid3d(Grid3D::new()).to_json();
    assert_eq!(j, obj(vec![("grid3D", JsonValue::Array(vec![obj(vec![])]))]));
}

#[test]
fn symbols_use_their_wire_names() {
    assert_eq!(Symbol::EmptyCircle.to_json(), JsonValue::Str("emptyCircle".to_string()));
    assert_eq!(Symbol::Hidden.to_json(), JsonValue::Str("none".to_string()));
    assert_eq!(Symbol::from_json(&JsonValue::Str("roundRect".to_string())), Ok(Symbol::RoundRect));
    assert_eq!(Symbol::from_json(&JsonValue::Str("star".to_string())), Err(DecodeError::InvalidType));
}

#[test]
fn smoothness_is_a_flag_or_a_number() {
    assert_eq!(Smoothness::from(true).to_json(), JsonValue::Bool(true));
    assert_eq!(Smoothness::from(3).to_json(), JsonValue::Number(3));
    assert_eq!(Smoothness::from_json(&JsonValue::Bool(false)), Ok(Smoothness::Boolean(false)));
}

#[test]
fn data_points_take_their_shape() {
    assert_eq!(DataPoint::from(vec![0, 1]).to_json(), nums(&[0, 1]));
    let named = DataPoint::Named { value: 4, name: "four".to_string() };
    let j = named.to_json();
    assert_eq!(
        j,
        obj(vec![("value", JsonValue::Number(4)), ("name", JsonValue::Str("four".to_string()))])
    );
    assert_eq!(DataPoint::from_json(&j), Ok(named));
    assert_eq!(DataPoint::from_json(&JsonValue::Bool(true)), Err(DecodeError::InvalidType));
}

#[test]
fn line_fields_use_camel_case_keys() {
    let j = Line::new().show_symbol(false).connect_nulls(true).to_json();
    assert_eq!(
        j,
        obj(vec![
            ("type", JsonValue::Str("line".to_string())),
            ("showSymbol", JsonValue::Bool(false)),
            ("connectNulls", JsonValue::Bool(true)),
        ])
    );
}

#[test]
fn raw_fragments_are_unquoted() {
    let code = raw_string("function (p) { return p.name; }");
    assert_eq!(code, "__raw__function (p) { return p.name; }__raw__");
    let text = r#"{"formatter":"__raw__function (p) { return \"x\" + p; }__raw__","name":"a"}"#;
    assert_eq!(
        process_raw_strings(text),
        r#"{"formatter":function (p) { return "x" + p; },"name":"a"}"#
    );
    assert_eq!(process_raw_strings(r#"{"a":"b"}"#), r#"{"a":"b"}"#);
    let escaped = r#"["__raw__a\r\nb\tc\b\f\\d\/\u0001é€\ud800__raw__"]"#;
    assert_eq!(
        process_raw_strings(escaped),
        "[a\r\nb\tc\u{8}\u{c}\\d/\u{1}\u{e9}\u{20ac}\\ud800]"
    );
}

#[test]
fn padding_converts_from_plain_numbers() {
    assert_eq!(Padding::from(3), Padding::Single(3));
    assert_eq!(Padding::from((1, 2)), Padding::Double(1, 2));
    assert_eq!(Padding::from((1, 2, 3, 4)), Padding::Quadruple(1, 2, 3, 4));
}

#[test]
fn supported_series_types_are_listed() {
    assert_eq!(Series::known_types(), vec!["bar", "line", "scatter"]);
    let j = obj(vec![("type", JsonValue::Str("Line".to_string()))]);
    assert_eq!(Series::from_json(&j), Err(DecodeError::UnknownVariant("Line".to_string())));
    let bar = obj(vec![("type", JsonValue::Str("bar".to_string())), ("barWidth", JsonValue::Number(8))]);
    assert_eq!(Series::from_json(&bar), Ok(Series::from(charming::series::bar::Bar::new().bar_width(8))));
}

#[test]
fn named_options_use_their_wire_names() {
    assert_eq!(Sampling::Lttb.to_json(), JsonValue::Str("lttb".to_string()));
    assert_eq!(Sampling::from_json(&JsonValue::Str("minmax".to_string())), Ok(Sampling::MinMax));
    assert_eq!(Step::Middle.to_json(), JsonValue::Str("middle".to_string()));
    assert_eq!(
        CoordinateSystem::from_json(&JsonValue::Str("cartesian2d".to_string())),
        Ok(CoordinateSystem::Cartesian2d)
    );
    assert_eq!(CoordinateSystem::from_json(&JsonValue::Str("polar3d".to_string())), Err(DecodeError::InvalidType));
    let line = Line::new()
        .coordinate_system(CoordinateSystem::Polar)
        .sampling(Sampling::Average)
        .step(Step::End);
    let j = line.to_json();
    assert_eq!(get(&j, "coordinateSystem"), Some(&JsonValue::Str("polar".to_string())));
    assert_eq!(get(&j, "sampling"), Some(&JsonValue::Str("average".to_string())));
    assert_eq!(get(&j, "step"), Some(&JsonValue::Str("end".to_string())));
    assert_eq!(Line::from_json(&j), Ok(line));
}

#[test]
fn chart_field_errors_name_the_chart() {
    let j = obj(vec![("legend", JsonValue::Number(5))]);
    assert_eq!(
        Chart::from_json(&j),
        Err(DecodeError::InvalidField { record: "chart".to_string(), field: "legend".to_string() })
    );
    let j = obj(vec![("series", JsonValue::Array(vec![obj(vec![])]))]);
    assert_eq!(
        Chart::from_json(&j),
        Err(DecodeError::InvalidField { record: "chart".to_string(), field: "series".to_string() })
    );
    assert_eq!(Chart::from_json(&JsonValue::Array(vec![])), Err(DecodeError::InvalidType));
}

#[test]
fn toolbox_reports_its_image_type() {
    assert_eq!(Chart::new().save_as_image_type(), None);
    let toolbox = Toolbox::new()
        .feature(Feature::new().save_as_image(SaveAsImage::new().type_(SaveAsImageType::Svg)));
    let chart = Chart::new().toolbox(toolbox).tooltip(Tooltip::new().show(true));
    assert_eq!(chart.save_as_image_type(), Some(SaveAsImageType::Svg));
    let j = chart.to_json();
    let expected_toolbox = obj(vec![(
        "feature",
        obj(vec![("saveAsImage", obj(vec![("type", JsonValue::Str("svg".to_string()))]))]),
    )]);
    assert_eq!(get(&j, "toolbox"), Some(&expected_toolbox));
    assert_eq!(get(&j, "tooltip"), Some(&obj(vec![("show", JsonValue::Bool(true))])));
    assert_eq!(Chart::from_json(&j), Ok(chart));
}

#[test]
fn nested_styles_round_trip() {
    let emphasis = Emphasis::new()
        .focus("self")
        .item_style(ItemStyle::new().color("red").border_color("black").border_radius(4))
        .label(Label::new().position("top").formatter("{c}"));
    let j = emphasis.to_json();
    let expected = obj(vec![
        ("focus", JsonValue::Str("self".to_string())),
        (
            "itemStyle",
            obj(vec![
                ("color", JsonValue::Str("red".to_string())),
                ("borderColor", JsonValue::Str("black".to_string())),
                ("borderRadius", JsonValue::Number(4)),
            ]),
        ),
        (
            "label",
            obj(vec![
                ("position", JsonValue::Str("top".to_string())),
                ("formatter", JsonValue::Str("{c}".to_string())),
            ]),
        ),
    ]);
    assert_eq!(j, expected);
    assert_eq!(Emphasis::from_json(&j), Ok(emphasis));
    let bad = obj(vec![("itemStyle", JsonValue::Str("red".to_string()))]);
    assert_eq!(
        Emphasis::from_json(&bad),
        Err(DecodeError::InvalidField { record: "emphasis".to_string(), field: "itemStyle".to_string() })
    );
}

#[test]
fn axes_3d_use_their_wire_names() {
    let chart = Chart::new()
        .x_axis3d(Axis3D::new().name("x"))
        .y_axis3d(Axis3D::new())
        .z_axis3d(Axis3D::new().grid3d_index(0));
    let j = chart.to_json();
    assert_eq!(get(&j, "xAxis3D"), Some(&JsonValue::Array(vec![obj(vec![("name", JsonValue::Str("x".to_string()))])])));
    assert_eq!(get(&j, "yAxis3D"), Some(&JsonValue::Array(vec![obj(vec![])])));
    assert_eq!(get(&j, "zAxis3D"), Some(&JsonValue::Array(vec![obj(vec![("grid3DIndex", JsonValue::Number(0))])])));
    assert_eq!(Chart::from_json(&j), Ok(chart));
}

#[test]
fn raw_fragments_survive_serde_escaping() {
    let code = "line1\r\nline2\t\"q\" \\ \u{1} \u{8}\u{c} \u{e9}";
    let text = serde_json::to_string(&vec![raw_string(code)]).unwrap();
    assert_eq!(process_raw_strings(&text), format!("[{}]", code));
}

#[test]
fn colors_are_appended() {
    let chart = Chart::new().color(vec!["red".to_string()]).color(vec!["blue".to_string()]);
    assert_eq!(chart.get_color_ref(), &vec!["red".to_string(), "blue".to_string()]);
}

#[test]
fn scatter_styles_round_trip() {
    let scatter = charming::series::scatter::Scatter::new()
        .label(Label::new().show(true))
        .item_style(ItemStyle::new().color("red"))
        .emphasis(Emphasis::new().focus("series"));
    let j = scatter.to_json();
    assert_eq!(get(&j, "label"), Some(&obj(vec![("show", JsonValue::Bool(true))])));
    assert_eq!(charming::series::scatter::Scatter::from_json(&j), Ok(scatter));
}
