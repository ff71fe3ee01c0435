use s3_client::decode::{read_codomain, read_field, read_source, read_unit};
use s3_client::json::JsonValue;
use s3_client::schema::{Codomain, EtlField, EtlObject, EtlUnit, Source};
use s3_client::validate::Violation;
use s3_client::Kind;

fn from_serde(v: &serde_json::Value) -> JsonValue {
    match v {
        serde_json::Value::Null => JsonValue::Null,
        serde_json::Value::Bool(b) => JsonValue::Bool(*b),
        serde_json::Value::Number(n) => JsonValue::Number(n.to_string()),
        serde_json::Value::String(s) => JsonValue::Str(s.clone()),
        serde_json::Value::Array(a) => JsonValue::Array(a.iter().map(from_serde).collect()),
        serde_json::Value::Object(m) => {
            JsonValue::Object(m.iter().map(|(k, v)| (k.clone(), from_serde(v))).collect())
        }
    }
}

fn to_serde(v: &JsonValue) -> serde_json::Value {
    match v {
        JsonValue::Null => serde_json::Value::Null,
        JsonValue::Bool(b) => serde_json::Value::Bool(*b),
        JsonValue::Number(t) => serde_json::from_str(t).unwrap(),
        JsonValue::Str(s) => serde_json::Value::String(s.clone()),
        JsonValue::Array(a) => serde_json::Value::Array(a.iter().map(to_serde).collect()),
        JsonValue::Object(e) => {
            let mut m = serde_json::Map::new();
            for (k, v) in e {
                m.insert(k.clone(), to_serde(v));
            }
            serde_json::Value::Object(m)
        }
    }
}

fn parse(text: &str) -> JsonValue {
    from_serde(&serde_json::from_str::<serde_json::Value>(text).unwrap())
}

fn decode(text: &str) -> Result<EtlObject, s3_client::Error> {
    EtlObject::from_json(&parse(text))
}

const SAMPLE: &str = r#"
    {
      "etlFields": {
        "in network": {
          "map-weights": {
            "arrows": {}
          },
          "idx": 1,
          "name": "in network",
          "purpose": "quality",
          "map-symbols": {
            "arrows": {}
          },
          "etl-unit": "in network",
          "format": null,
          "null-value-expansion": "0",
          "map-files": null,
          "sources": [
            {
              "enabled": true,
              "source-type": "RAW",
              "header-idx": 7,
              "default-name": "in network",
              "field-alias": "in network",
              "purpose": "quality",
              "null-value": null,
              "format": null,
              "map-symbols": {
                "arrows": {}
              },
              "nlevels": 2,
              "nrows": 52418,
              "filename": "/shared/datafiles/.../target_list.csv",
              "null-value-count": 0,
              "codomain-reducer": "FIRST",
              "map-weights": {
                "arrows": {}
              }
            }
          ],
          "codomain-reducer": "FIRST"
        }
      },
      "etlUnits": {
        "NPI Number": {
          "type": "subject",
          "subject": "NPI Number",
          "codomain": "NPI Number",
          "codomain-reducer": null
        },
        "in network": {
          "type": "quality",
          "subject": "npi",
          "codomain": "in network",
          "codomain-reducer": "FIRST"
        }
      }
    }
"#;

#[test]
fn test_etl_object_deserialization() {
    let etl_object = decode(SAMPLE).unwrap();
    assert!(etl_object.etl_fields.iter().any(|(k, _)| k == "in network"));
}

fn raw_source(purpose: &str, filename: &str, header_idx: u32) -> String {
    format!(
        r#"{{"source-type": "RAW", "enabled": true, "header-idx": {header_idx}, "header-name": "h",
            "field-alias": "a", "purpose": "{purpose}", "null-value": "NA", "format": null,
            "map-symbols": {{"arrows": {{"x": "y"}}}}, "nlevels": 3, "nrows": 10,
            "filename": "{filename}", "null-value-count": 1, "codomain-reducer": "SUM",
            "map-weights": {{"arrows": {{"x": 1.5}}}}}}"#
    )
}

fn implied_source(purpose: &str) -> String {
    format!(
        r#"{{"source-type": "IMPLIED", "enabled": false, "field-alias": "b", "purpose": "{purpose}",
            "nlevels": 2, "filename": "f.csv", "map-implied": {{"domain": "d", "codomain": 4}},
            "slicing-reducer": "MAX"}}"#
    )
}

fn wide_source(purpose: &str) -> String {
    format!(
        r#"{{"source-type": "WIDE", "enabled": true, "header-idx": 2, "default-name": "w",
            "field-alias": "c", "purpose": "{purpose}", "map-symbols": {{"arrows": {{}}}},
            "nlevels": 5, "nrows": 6, "filename": "wide.csv", "null-value-count": 0}}"#
    )
}

const TIME: &str = r#"{"interval": {"unit": "month", "count": 1},
    "reference": {"idx": 0, "value": "2020-01", "isoFormat": "YYYY-MM"}}"#;

fn full_object(first_idx: u32, second_file: &str, quality_codomain: &str) -> String {
    format!(
        r#"{{
        "etlFields": {{
            "npi": {{"purpose": "subject", "idx": 0, "name": "npi", "sources": [{s0}]}},
            "in network": {{"purpose": "quality", "idx": 1, "name": "in network",
                "etl-unit": ["in network"], "map-weights": {{"arrows": {{"yes": 1, "no": 0}}}},
                "map-files": {{"a.csv": "b"}}, "null-value-expansion": "0",
                "sources": [{s1}, {s2}]}},
            "year": {{"purpose": "mcomp", "idx": 2, "name": "year", "etl-unit": ["spend"],
                "map-weights": {{"arrows": {{}}}}, "sources": [{s3}]}},
            "month": {{"purpose": "mspan", "idx": 3, "name": "month", "etl-unit": ["spend"],
                "time": {TIME}, "levels-mspan": [{{"rangeStart": 0, "rangeLength": 12, "reduced": false}}],
                "sources": [{s4}]}},
            "spend": {{"purpose": "mvalue", "idx": 4, "name": "spend", "etl-unit": ["spend"],
                "map-symbols": {{"k": {{"a": "b"}}}}, "map-weights": {{"k": {{"a": -2}}}},
                "codomain-reducer": "AVG", "slicing-reducer": "LAST", "sources": [{s5}]}}
        }},
        "etlUnits": {{
            "npi": {{"type": "subject", "subject": "npi", "codomain": "npi"}},
            "in network": {{"type": "quality", "subject": "npi", "codomain": "{quality_codomain}",
                "codomain-reducer": "FIRST"}},
            "spend": {{"type": "mvalue", "subject": "npi", "codomain": "spend",
                "codomain-reducer": "SUM", "mcomps": ["year"], "mspan": "month",
                "slicing-reducer": "MIN"}}
        }}
    }}"#,
        s0 = raw_source("subject", "a.csv", 0),
        s1 = raw_source("quality", "a.csv", first_idx),
        s2 = raw_source("quality", second_file, 7),
        s3 = implied_source("mcomp"),
        s4 = wide_source("mspan"),
        s5 = raw_source("mvalue", "a.csv", 9),
    )
}

#[test]
fn round_trip_gives_back_the_object() {
    let o = decode(&full_object(5, "a.csv", "in network")).unwrap();
    let encoded = o.to_json();
    let again = EtlObject::from_json(&encoded).unwrap();
    assert_eq!(to_serde(&encoded), to_serde(&again.to_json()));
    assert_eq!(o.summary(), again.summary());
    assert_eq!(format!("{:?}", o), format!("{:?}", again));
}

#[test]
fn round_trip_of_the_sample() {
    let o = decode(SAMPLE).unwrap();
    let again = EtlObject::from_json(&o.to_json()).unwrap();
    assert_eq!(format!("{:?}", o), format!("{:?}", again));
}

#[test]
fn each_field_discriminant_decodes_to_its_variant() {
    let o = decode(&full_object(5, "a.csv", "in network")).unwrap();
    let kind = |name: &str| {
        let f = &o.etl_fields.iter().find(|(k, _)| k == name).unwrap().1;
        match f {
            EtlField::Subject(_) => "subject",
            EtlField::Quality(_) => "quality",
            EtlField::MComp(_) => "mcomp",
            EtlField::MSpan(_) => "mspan",
            EtlField::MValue(_) => "mvalue",
        }
    };
    assert_eq!(kind("npi"), "subject");
    assert_eq!(kind("in network"), "quality");
    assert_eq!(kind("year"), "mcomp");
    assert_eq!(kind("month"), "mspan");
    assert_eq!(kind("spend"), "mvalue");
}

#[test]
fn each_unit_discriminant_decodes_to_its_variant() {
    let o = decode(&full_object(5, "a.csv", "in network")).unwrap();
    let unit = |name: &str| &o.etl_units.iter().find(|(k, _)| k == name).unwrap().1;
    assert!(matches!(unit("npi"), EtlUnit::Subject(_)));
    assert!(matches!(unit("in network"), EtlUnit::Quality(_)));
    match unit("spend") {
        EtlUnit::Measurement(m) => {
            assert_eq!(m.mcomps, vec!["year".to_string()]);
            assert_eq!(m.mspan, "month");
        }
        _ => panic!("expected a measurement"),
    }
}

#[test]
fn each_source_discriminant_decodes_to_its_variant() {
    assert!(matches!(read_source(&parse(&raw_source("quality", "a.csv", 1)), "s"), Ok(Source::Raw(_))));
    assert!(matches!(read_source(&parse(&implied_source("mcomp")), "s"), Ok(Source::Implied(_))));
    assert!(matches!(read_source(&parse(&wide_source("mspan")), "s"), Ok(Source::Wide(_))));
}

#[test]
fn unknown_discriminants_are_malformed() {
    let src = raw_source("quality", "a.csv", 1).replace("\"RAW\"", "\"TALL\"");
    assert_eq!(read_source(&parse(&src), "s").unwrap_err().kind, Kind::MalformedData);
    let field = r#"{"purpose": "color", "idx": 0, "name": "x", "sources": []}"#;
    assert_eq!(read_field(&parse(field), "x").unwrap_err().kind, Kind::MalformedData);
    let unit = r#"{"type": "measurement", "subject": "a", "codomain": "b"}"#;
    assert_eq!(read_unit(&parse(unit), "u").unwrap_err().kind, Kind::MalformedData);
}

#[test]
fn a_missing_required_key_is_a_missing_parameter() {
    let field = r#"{"purpose": "subject", "name": "x", "sources": []}"#;
    let e = read_field(&parse(field), "x").unwrap_err();
    assert_eq!(e.kind, Kind::MissingParameter);
    assert!(e.is_missing_parameter());
    assert_eq!(e.key.as_deref(), Some("x/idx"));
}

#[test]
fn a_wrong_shape_is_malformed_data() {
    let field = r#"{"purpose": "subject", "idx": -1, "name": "x", "sources": []}"#;
    assert_eq!(read_field(&parse(field), "x").unwrap_err().kind, Kind::MalformedData);
    let field = r#"{"purpose": "subject", "idx": 4294967296, "name": "x", "sources": []}"#;
    assert_eq!(read_field(&parse(field), "x").unwrap_err().kind, Kind::MalformedData);
    let field = r#"{"purpose": "subject", "idx": 1, "name": 3, "sources": []}"#;
    assert_eq!(read_field(&parse(field), "x").unwrap_err().kind, Kind::MalformedData);
    assert_eq!(decode("[]").unwrap_err().kind, Kind::MalformedData);
    assert_eq!(decode(r#"{"etlFields": {}}"#).unwrap_err().kind, Kind::MissingParameter);
}

#[test]
fn the_largest_index_decodes() {
    let field = r#"{"purpose": "subject", "idx": 4294967295, "name": "x", "sources": []}"#;
    match read_field(&parse(field), "x").unwrap() {
        EtlField::Subject(s) => assert_eq!(s.idx, 4294967295),
        _ => panic!("expected a subject field"),
    }
}

#[test]
fn codomain_resolution_follows_the_wire_shape() {
    assert!(matches!(read_codomain(&parse("7"), "c"), Ok(Codomain::Number(7))));
    match read_codomain(&parse("\"npi\""), "c") {
        Ok(Codomain::Text(t)) => assert_eq!(t, "npi"),
        _ => panic!("expected text"),
    }
    match read_codomain(&parse("\"7\""), "c") {
        Ok(Codomain::Text(t)) => assert_eq!(t, "7"),
        _ => panic!("expected text"),
    }
    for bad in ["null", "true", "3.5", "[]", "{}"] {
        assert_eq!(read_codomain(&parse(bad), "c").unwrap_err().kind, Kind::MalformedData);
    }
}

#[test]
fn a_self_consistent_object_has_no_violations() {
    let o = decode(&full_object(5, "a.csv", "in network")).unwrap();
    assert!(o.validate().is_empty(), "{:?}", o.validate());
}

#[test]
fn a_unit_with_a_missing_codomain_is_reported() {
    let o = decode(&full_object(5, "a.csv", "out of network")).unwrap();
    let v = o.validate();
    assert_eq!(v.len(), 1);
    match &v[0] {
        Violation::UnknownCodomain { unit, codomain } => {
            assert_eq!(unit, "in network");
            assert_eq!(codomain, "out of network");
        }
        other => panic!("unexpected {:?}", other),
    }
}

#[test]
fn two_sources_on_one_column_collide() {
    let o = decode(&full_object(7, "a.csv", "in network")).unwrap();
    let v = o.validate();
    assert_eq!(v.len(), 1);
    match &v[0] {
        Violation::ColumnCollision { filename, header_idx, first, second } => {
            assert_eq!(filename, "a.csv");
            assert_eq!(*header_idx, 7);
            assert_eq!(first, "in network");
            assert_eq!(second, "in network");
        }
        other => panic!("unexpected {:?}", other),
    }
    assert!(decode(&full_object(6, "a.csv", "in network")).unwrap().validate().is_empty());
    assert!(decode(&full_object(7, "b.csv", "in network")).unwrap().validate().is_empty());
}

#[test]
fn every_kind_of_broken_reference_is_reported() {
    let text = full_object(5, "a.csv", "in network")
        .replace(r#""etl-unit": ["in network"]"#, r#""etl-unit": ["nowhere"]"#)
        .replace(r#""mcomps": ["year"]"#, r#""mcomps": ["ghost", "npi"]"#)
        .replace(r#""mspan": "month""#, r#""mspan": "year""#)
        .replace(r#""purpose": "mvalue", "null-value""#, r#""purpose": "quality", "null-value""#);
    let v = decode(&text).unwrap().validate();
    let has = |p: &dyn Fn(&Violation) -> bool| v.iter().any(|x| p(x));
    assert!(has(&|x| matches!(x, Violation::UnknownUnit { field, unit } if field == "in network" && unit == "nowhere")));
    assert!(has(&|x| matches!(x, Violation::UnknownComponent { component, .. } if component == "ghost")));
    assert!(has(&|x| matches!(x, Violation::NotAComponent { component, .. } if component == "npi")));
    assert!(has(&|x| matches!(x, Violation::NotASpan { span, .. } if span == "year")));
    assert!(has(&|x| matches!(x, Violation::PurposeMismatch { field, source: 0 } if field == "spend")));
    assert_eq!(v.len(), 5, "{:?}", v);
}

#[test]
fn a_missing_span_is_reported() {
    let text = full_object(5, "a.csv", "in network").replace(r#""mspan": "month""#, r#""mspan": "week""#);
    let v = decode(&text).unwrap().validate();
    assert!(v.iter().any(|x| matches!(x, Violation::UnknownSpan { span, .. } if span == "week")));
}

#[test]
fn the_summary_does_not_grow_with_the_tables() {
    let small = decode(&full_object(5, "a.csv", "in network")).unwrap();
    let mut big = decode(&full_object(5, "a.csv", "in network")).unwrap();
    for (_, f) in big.etl_fields.iter_mut() {
        if let EtlField::Quality(q) = f {
            for i in 0..10_000 {
                q.map_weights.arrows.push((format!("k{i}"), format!("{i}")));
            }
            for s in q.sources.iter_mut() {
                if let Source::Raw(r) = s {
                    for i in 0..10_000 {
                        r.map_symbols.arrows.push((format!("k{i}"), format!("v{i}")));
                    }
                }
            }
        }
    }
    assert_eq!(small.summary(), big.summary());
}

#[test]
fn the_summary_shows_one_line_per_entity() {
    let o = decode(SAMPLE).unwrap();
    let s = o.summary();
    assert_eq!(
        s,
        "EtlObject: 1 fields, 2 units\n\
         in network: EtlField::Quality { name: in network, etl_unit: in network, source count: 1 }\n  \
         Source::Raw { nlevels: 2, nrows: 52418, filename: /shared/datafiles/.../target_list.csv, header-idx: 7 }\n\
         NPI Number: EtlUnit::Subject { codomain: NPI Number }\n\
         in network: EtlUnit::Quality { codomain: in network }\n"
    );
}

#[test]
fn weights_keep_their_written_form() {
    let o = decode(&full_object(5, "a.csv", "in network")).unwrap();
    let json = to_serde(&o.to_json());
    let w = &json["etlFields"]["in network"]["sources"][0]["map-weights"]["arrows"]["x"];
    assert_eq!(w.to_string(), "1.5");
    assert_eq!(json["etlFields"]["in network"]["idx"].to_string(), "1");
}

#[test]
fn a_name_used_twice_is_malformed() {
    let unit = |codomain: &str| {
        JsonValue::Object(vec![
            ("type".to_string(), JsonValue::Str("subject".to_string())),
            ("subject".to_string(), JsonValue::Str("npi".to_string())),
            ("codomain".to_string(), JsonValue::Str(codomain.to_string())),
        ])
    };
    let doc = |second: &str| {
        JsonValue::Object(vec![
            ("etlFields".to_string(), JsonValue::Object(vec![])),
            (
                "etlUnits".to_string(),
                JsonValue::Object(vec![("npi".to_string(), unit("a")), (second.to_string(), unit("b"))]),
            ),
        ])
    };
    assert_eq!(EtlObject::from_json(&doc("npi")).unwrap_err().kind, Kind::MalformedData);
    assert_eq!(EtlObject::from_json(&doc("zip")).unwrap().etl_units.len(), 2);
}

fn one_field(field: &str) -> String {
    format!(r#"{{"etlFields": {{"x": {field}}}, "etlUnits": {{}}}}"#)
}

#[test]
fn a_missing_key_error_names_the_record_and_the_key() {
    let e = decode(&one_field(r#"{"purpose": "subject", "name": "x", "idx": 0}"#)).unwrap_err();
    assert!(e.is_missing_parameter());
    assert_eq!(e.describe(), "missing parameter at etlFields/x/sources: a required key is absent");
}

#[test]
fn a_malformed_value_error_names_the_record_the_field_and_the_shape() {
    let e = decode(&one_field(r#"{"purpose": "subject", "name": "x", "idx": -1, "sources": []}"#))
        .unwrap_err();
    assert_eq!(e.describe(), "malformed data at etlFields/x/idx: an integer from 0 to 4294967295");
    let e = decode(&one_field(r#"{"purpose": "subject", "name": ["x"], "idx": 1, "sources": []}"#))
        .unwrap_err();
    assert_eq!(e.describe(), "malformed data at etlFields/x/name: a string");
}

#[test]
fn an_unknown_tag_error_names_the_tag() {
    let e = decode(&one_field(r#"{"purpose": "bogus", "name": "x", "idx": 1, "sources": []}"#))
        .unwrap_err();
    assert_eq!(
        e.describe(),
        "malformed data at etlFields/x/purpose: one of subject, quality, mcomp, mspan, mvalue, not bogus"
    );
    let src = raw_source("subject", "a.csv", 1).replace("\"RAW\"", "\"raw\"");
    let field = format!(r#"{{"purpose": "subject", "name": "x", "idx": 1, "sources": [{src}]}}"#);
    let e = decode(&one_field(&field)).unwrap_err();
    assert_eq!(
        e.describe(),
        "malformed data at etlFields/x/sources/source-type: one of RAW, IMPLIED, WIDE, not raw"
    );
}

#[test]
fn a_bad_table_entry_error_names_the_entry() {
    let text = full_object(5, "a.csv", "in network").replace(r#""yes": 1"#, r#""yes": "one""#);
    let e = decode(&text).unwrap_err();
    assert_eq!(e.describe(), "malformed data at etlFields/in network/map-weights/arrows/yes: a number");
}
