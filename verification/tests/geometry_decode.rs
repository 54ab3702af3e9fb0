use osrm_interface::geometry::{
    describe, is_whitespace, read_line_string, sniff, trim_start, GeometryError, GeometryForm,
    JsonCategory, Member,
};
use osrm_interface::numeral::{chars_of, parse_millionths};
use osrm_interface::osrm_response_types::Geometry;
use osrm_interface::str_ops::{get_index_of_line_col, locate, width_of};

#[test]
fn polyline_payload() {
    match Geometry::decode("\"abc123\"") {
        Ok(Geometry::Polyline(p)) => assert_eq!(p, "abc123"),
        other => panic!("Geometry should be polyline, not {:?}", other),
    }
}

#[test]
fn polyline_payload_with_escapes_and_leading_space() {
    match Geometry::decode(" \n\t\"a\\\\b\\\"c\\u0041\"") {
        Ok(Geometry::Polyline(p)) => assert_eq!(p, "a\\b\"cA"),
        other => panic!("Geometry should be polyline, not {:?}", other),
    }
}

#[test]
fn a_quoted_payload_that_begins_with_a_brace_is_a_polyline() {
    match Geometry::decode("\"{lu_IypwpAVrAvAdI\"") {
        Ok(Geometry::Polyline(p)) => assert_eq!(p, "{lu_IypwpAVrAvAdI"),
        other => panic!("Geometry should be polyline, not {:?}", other),
    }
}

#[test]
fn geojson_payload() {
    match Geometry::decode("{\"type\":\"LineString\",\"coordinates\":[[1.0,2.0],[3.0,4.0]]}") {
        Ok(Geometry::GeoJson(line)) => {
            assert_eq!(line.kind, "LineString");
            assert_eq!(line.coordinates.len(), 2);
            assert_eq!(
                line.coordinates,
                [[1_000_000, 2_000_000], [3_000_000, 4_000_000]]
            );
        }
        other => panic!("Geometry should be GeoJson, not {:?}", other),
    }
}

#[test]
fn geojson_payload_in_any_order_with_other_members() {
    let raw = "  {\n \"coordinates\" : [ [13.388799, 52.517033] , [-0.5,1e-6], [1.5E1, -7] ],\n  \"bbox\": {\"a\": [1, 2]}, \"type\" : \"LineString\" }";
    match Geometry::decode(raw) {
        Ok(Geometry::GeoJson(line)) => {
            assert_eq!(line.kind, "LineString");
            assert_eq!(
                line.coordinates,
                [
                    [13_388_799, 52_517_033],
                    [-500_000, 1],
                    [15_000_000, -7_000_000]
                ]
            );
        }
        other => panic!("Geometry should be GeoJson, not {:?}", other),
    }
}

#[test]
fn geojson_without_coordinates_is_empty_or_refused() {
    match Geometry::decode("{\"type\":\"LineString\",\"coordinates\":[]}") {
        Ok(Geometry::GeoJson(line)) => assert!(line.coordinates.is_empty()),
        other => panic!("Geometry should be GeoJson, not {:?}", other),
    }
    assert_eq!(
        Geometry::decode("{\"type\":\"LineString\"}").err(),
        Some(GeometryError::MissingMember(Member::Coordinates))
    );
    assert_eq!(
        Geometry::decode("{\"coordinates\":[]}").err(),
        Some(GeometryError::MissingMember(Member::Type))
    );
    assert_eq!(
        Geometry::decode("{}").err(),
        Some(GeometryError::MissingMember(Member::Type))
    );
}

#[test]
fn geojson_with_a_bad_position_names_it() {
    assert_eq!(
        Geometry::decode("{\"type\":\"LineString\",\"coordinates\":[[1,2],[3],[4,5]]}").err(),
        Some(GeometryError::BadPosition(1))
    );
    assert_eq!(
        Geometry::decode("{\"type\":\"LineString\",\"coordinates\":[[1,2,3]]}").err(),
        Some(GeometryError::BadPosition(0))
    );
    assert_eq!(
        Geometry::decode("{\"type\":\"LineString\",\"coordinates\":[[1,2],[3,4],[\"5\",6]]}")
            .err(),
        Some(GeometryError::BadPosition(2))
    );
    assert_eq!(
        Geometry::decode("{\"type\":\"LineString\",\"coordinates\":[[1,2],7]}").err(),
        Some(GeometryError::BadPosition(1))
    );
    assert_eq!(
        Geometry::decode("{\"type\":\"LineString\",\"coordinates\":[[1e300,2]]}").err(),
        Some(GeometryError::BadPosition(0))
    );
}

#[test]
fn neither_form_is_refused() {
    assert_eq!(
        Geometry::decode("42").err(),
        Some(GeometryError::NotGeometry)
    );
    assert_eq!(Geometry::decode("").err(), Some(GeometryError::NotGeometry));
    assert_eq!(
        Geometry::decode("   ").err(),
        Some(GeometryError::NotGeometry)
    );
    assert_eq!(
        Geometry::decode("[1,2]").err(),
        Some(GeometryError::NotGeometry)
    );
    assert_eq!(
        Geometry::decode("null").err(),
        Some(GeometryError::NotGeometry)
    );
    assert_eq!(
        GeometryError::NotGeometry.message(),
        "Failed to parse geometry as Polyline or GeoJson"
    );
}

#[test]
fn geojson_of_another_shape_is_refused_as_data() {
    assert_eq!(
        Geometry::decode("{\"type\":5,\"coordinates\":[]}").err(),
        Some(GeometryError::Json(JsonCategory::Data))
    );
    assert_eq!(
        Geometry::decode("{\"type\":\"LineString\",\"coordinates\":{}}").err(),
        Some(GeometryError::Json(JsonCategory::Data))
    );
}

#[test]
fn broken_json_is_shown_where_it_breaks() {
    let raw = "{\"type\":\"LineString\",\n\"coordinates\":[[1.0,2.0],[3.0;4.0]]}";
    match Geometry::decode(raw) {
        Err(GeometryError::Syntax {
            line,
            column,
            offset,
            excerpt,
        }) => {
            assert_eq!(line, 2);
            assert_eq!(column, 30);
            assert_eq!(offset, 51);
            assert_eq!(&raw[offset..offset + 1], ";");
            assert_eq!(excerpt, "tes\":[[1.0,2.0],[3.0;4.0]]}");
        }
        other => panic!("a syntax error was expected, not {:?}", other),
    }
    let error = Geometry::decode(raw).unwrap_err();
    assert_eq!(
        error.message(),
        "Syntax error when attempting to parse geojson at line 2, col 30. \
         Error occurred in this substring tes\":[[1.0,2.0],[3.0;4.0]]}"
    );
}

#[test]
fn json_that_ends_early_is_shown_by_its_ends() {
    match Geometry::decode("{\"type\":\"LineString\",\"coordinates\":[[1.0,2.0]") {
        Err(GeometryError::Eof { start, end }) => {
            assert_eq!(start, "{\"type\":\"L");
            assert_eq!(end, "[[1.0,2.0]");
        }
        other => panic!("an early end was expected, not {:?}", other),
    }
    match Geometry::decode("\"abc") {
        Err(GeometryError::Eof { start, end }) => {
            assert_eq!(start, "\"abc");
            assert_eq!(end, "\"abc");
        }
        other => panic!("an early end was expected, not {:?}", other),
    }
}

#[test]
fn the_error_for_each_reason() {
    let text = "0123456789012345678901234567890123456789\nabc";
    assert_eq!(
        describe(text, JsonCategory::Syntax, 1, 31),
        GeometryError::Syntax {
            line: 1,
            column: 31,
            offset: 30,
            excerpt: "012345678901234567890123456789\nabc".to_string(),
        }
    );
    assert_eq!(
        describe(text, JsonCategory::Syntax, 1, 3),
        GeometryError::Syntax {
            line: 1,
            column: 3,
            offset: 2,
            excerpt: "0123456789012345678901".to_string(),
        }
    );
    // a place that is not in the text is taken for its end
    assert_eq!(
        describe(text, JsonCategory::Syntax, 9, 9),
        GeometryError::Syntax {
            line: 9,
            column: 9,
            offset: 44,
            excerpt: "4567890123456789\nabc".to_string(),
        }
    );
    assert_eq!(
        describe(text, JsonCategory::Eof, 1, 1),
        GeometryError::Eof {
            start: "0123456789".to_string(),
            end: "456789\nabc".to_string(),
        }
    );
    assert_eq!(
        describe(text, JsonCategory::Data, 1, 1),
        GeometryError::Json(JsonCategory::Data)
    );
    assert_eq!(
        describe(text, JsonCategory::Io, 1, 1),
        GeometryError::Json(JsonCategory::Io)
    );
    assert_eq!(GeometryError::Json(JsonCategory::Data).message(), "Data");
    assert_eq!(
        GeometryError::MissingMember(Member::Coordinates).message(),
        "GeoJson lacks the member coordinates"
    );
    assert_eq!(
        GeometryError::BadPosition(12).message(),
        "GeoJson coordinates hold no position at index 12"
    );
    assert_eq!(
        GeometryError::Eof {
            start: "{\"a".to_string(),
            end: "b\"".to_string()
        }
        .message(),
        "Reached end of file while parsing GeoJson. Start: {\"a, End: b\""
    );
}

#[test]
fn sniffing() {
    assert_eq!(sniff("{"), GeometryForm::GeoJson);
    assert_eq!(sniff(" \t\r\n{\"a\":1}"), GeometryForm::GeoJson);
    assert_eq!(sniff("\""), GeometryForm::Polyline);
    assert_eq!(sniff("\u{a0}\u{3000}\"x\""), GeometryForm::Polyline);
    assert_eq!(sniff("x{"), GeometryForm::Neither);
    assert_eq!(sniff(""), GeometryForm::Neither);
    assert_eq!(trim_start("  a b "), "a b ");
    assert_eq!(trim_start("\u{2003}\u{85}é "), "é ");
    assert_eq!(trim_start("   "), "");
    assert_eq!(trim_start(""), "");
    for c in ['\t', '\n', '\u{b}', '\u{c}', '\r', ' ', '\u{85}', '\u{a0}', '\u{1680}',
        '\u{2000}', '\u{200a}', '\u{2028}', '\u{2029}', '\u{202f}', '\u{205f}', '\u{3000}']
    {
        assert!(is_whitespace(c));
        assert!(c.is_whitespace());
    }
    for c in ['a', '{', '"', '\u{8}', '\u{e}', '\u{200b}', '\u{feff}', '0'] {
        assert!(!is_whitespace(c));
        assert!(!c.is_whitespace());
    }
}

#[test]
fn numerals_in_millionths() {
    assert_eq!(parse_millionths("0"), Some(0));
    assert_eq!(parse_millionths("-0"), Some(0));
    assert_eq!(parse_millionths("1"), Some(1_000_000));
    assert_eq!(parse_millionths("1.0"), Some(1_000_000));
    assert_eq!(parse_millionths("13.388799"), Some(13_388_799));
    assert_eq!(parse_millionths("-52.517033"), Some(-52_517_033));
    assert_eq!(parse_millionths("0.000001"), Some(1));
    assert_eq!(parse_millionths("0.0000019"), Some(1));
    assert_eq!(parse_millionths("0.0000009"), Some(0));
    assert_eq!(parse_millionths("120.1"), Some(120_100_000));
    assert_eq!(parse_millionths("1e-6"), Some(1));
    assert_eq!(parse_millionths("1E+2"), Some(100_000_000));
    assert_eq!(parse_millionths("1.5e1"), Some(15_000_000));
    assert_eq!(parse_millionths("12345.678e-3"), Some(12_345_678));
    assert_eq!(parse_millionths("-2.5e-7"), Some(0));
    assert_eq!(parse_millionths("0e999999999999999999999999999999999999"), Some(0));
    assert_eq!(parse_millionths("7e-999999999999999999999999999999999999"), Some(0));
    assert_eq!(parse_millionths("7e999999999999999999999999999999999999"), None);
    assert_eq!(
        parse_millionths("9223372036854.775807"),
        Some(i64::MAX)
    );
    assert_eq!(
        parse_millionths("-9223372036854.775807"),
        Some(-i64::MAX)
    );
    assert_eq!(parse_millionths("9223372036854.775808"), None);
    assert_eq!(parse_millionths("1e13"), None);
    assert_eq!(parse_millionths("1e12"), Some(1_000_000_000_000_000_000));
    assert_eq!(parse_millionths("007"), Some(7_000_000));
    for text in [
        "", "-", ".", "1.", ".5", "1e", "1e+", "+1", "1 ", " 1", "1,5", "abc", "1.5.2", "1e5e2",
        "--1", "\"1\"", "null", "١",
    ] {
        assert_eq!(parse_millionths(text), None, "{:?} is no numeral", text);
    }
    assert_eq!(chars_of("aé€"), ['a', 'é', '€']);
}

#[test]
fn lines_and_columns() {
    let text = "ab\ncde\n\nf";
    assert_eq!(get_index_of_line_col(text, 1, 1), Some(0));
    assert_eq!(get_index_of_line_col(text, 1, 2), Some(1));
    assert_eq!(get_index_of_line_col(text, 1, 3), Some(2));
    assert_eq!(get_index_of_line_col(text, 1, 4), None);
    assert_eq!(get_index_of_line_col(text, 2, 1), Some(3));
    assert_eq!(get_index_of_line_col(text, 2, 3), Some(5));
    assert_eq!(get_index_of_line_col(text, 3, 1), Some(7));
    assert_eq!(get_index_of_line_col(text, 4, 1), Some(8));
    assert_eq!(get_index_of_line_col(text, 4, 2), None);
    assert_eq!(get_index_of_line_col(text, 5, 1), None);
    assert_eq!(get_index_of_line_col(text, 0, 0), None);
    assert_eq!(get_index_of_line_col("", 1, 1), None);
    // a carriage return is a character of its line
    assert_eq!(get_index_of_line_col("a\r\nb", 1, 2), Some(1));
    assert_eq!(get_index_of_line_col("a\r\nb", 2, 1), Some(3));
    // offsets count bytes, positions count characters
    let wide = "é€𝄞x\ny";
    assert_eq!(locate(wide, 1, 4), Some((3, 9)));
    assert_eq!(locate(wide, 2, 1), Some((5, 11)));
    assert_eq!(get_index_of_line_col(wide, 1, 2), Some(2));
    assert_eq!(&wide[9..10], "x");
    assert_eq!(width_of('a'), 1);
    assert_eq!(width_of('é'), 2);
    assert_eq!(width_of('€'), 3);
    assert_eq!(width_of('𝄞'), 4);
    for c in ['a', 'é', '€', '𝄞', '\u{7f}', '\u{80}', '\u{7ff}', '\u{800}', '\u{ffff}', '\u{10000}'] {
        assert_eq!(width_of(c), c.len_utf8());
    }
}

#[test]
fn a_line_string_read_from_an_object() {
    let line = read_line_string("{\"type\":\"LineString\",\"coordinates\":[[120.0,10.0]]}")
        .expect("a line string");
    assert_eq!(line.kind, "LineString");
    assert_eq!(line.coordinates, [[120_000_000, 10_000_000]]);
}
