//! Decoding the JSON document tree into the configuration object.
use vstd::prelude::*;
use crate::error::{Error, Kind};
use crate::json::{Json, JsonValue};
use crate::number::parse_u32;
use crate::model::{EtlFieldModel, EtlUnitModel, SourceModel, TableModel};
use crate::schema::{
    Codomain, EtlField, EtlObject, EtlUnit, EtlUnitMeasurement, EtlUnitQuality, EtlUnitSubject,
    Interval, MCompField, MSpanField, MValueField, MapImplied, MapSymbols, MapWeights, Purpose,
    QualityField, Range, Reducer, Reference, Scalar, Source, SourceImplied, SourceRaw, SourceWide,
    SubjectField, Time,
};
use crate::wire::{
    Fault, error_is, malformed_at, unknown_tag,
    agrees, as_bool, as_codomain, as_etl_object, as_field, as_names, as_number, as_number_table,
    as_purpose, as_range, as_reducer, as_scalar, as_source, as_str, as_symbols, as_text_table,
    as_u32, as_unit, as_weights, entries_view, field_bool, field_codomain, field_entries,
    field_interval, field_map_implied, field_names, field_purpose, field_ranges, field_reducer,
    field_reference, field_sources, field_str, field_symbols, field_text_tables, field_time,
    field_u32, field_weights, implied_source, interval_entries, items_view, keys_unique,
    lemma_array_view, lemma_object_view, lookup, map_implied_entries, mcomp_field,
    measurement_unit, mspan_field, mvalue_field, number_entries, number_table_entries,
    opt_number_tables, opt_reducer, opt_scalar, opt_str, opt_text_table, opt_weights, optional,
    purpose_of, quality_field, quality_unit, range_entries, ranges_of, raw_source, reducer_of,
    reference_entries, required, sources_of, strings_of, subject_field, subject_unit,
    text_entries, text_table_entries, time_entries, unit_entries, wide_source,
};

verus! {

/// Whether `s` is the text `lit`.
pub fn is_tag(s: &String, lit: &str) -> (r: bool)
    ensures
        r == (s@ == lit@),
{
    let t = String::from_str(lit);
    *s == t
}

/// The value of the first entry of `o` under `key`.
fn find<'a>(o: &'a Vec<(String, JsonValue)>, key: &str) -> (r: Option<&'a JsonValue>)
    ensures
        match r {
            Some(v) => lookup(entries_view(o@), key@) == Some(v@),
            None => lookup(entries_view(o@), key@) is None,
        },
{
    let k = String::from_str(key);
    let ghost ev = entries_view(o@);
    let mut i: usize = 0;
    assert(ev.subrange(0, ev.len() as int) =~= ev);
    while i < o.len()
        invariant
            i <= o@.len(),
            ev == entries_view(o@),
            k@ == key@,
            lookup(ev, key@) == lookup(ev.subrange(i as int, ev.len() as int), key@),
        decreases o@.len() - i,
    {
        let ghost rest = ev.subrange(i as int, ev.len() as int);
        if o[i].0 == k {
            assert(rest[0] == ev[i as int]);
            return Some(&o[i].1);
        }
        assert(rest.drop_first() =~= ev.subrange(i + 1, ev.len() as int));
        i = i + 1;
    }
    None
}

fn get<'a>(o: &'a Vec<(String, JsonValue)>, key: &str) -> (r: Result<&'a JsonValue, Error>)
    ensures
        match r {
            Ok(v) => required(entries_view(o@), key@) == Ok::<Json, Fault>(v@),
            Err(e) => required(entries_view(o@), key@) is Err && error_is(
                e,
                required(entries_view(o@), key@)->Err_0,
            ),
        },
{
    match find(o, key) {
        Some(v) => Ok(v),
        None => Err(Error::about(Kind::MissingParameter, key, "a required key is absent")),
    }
}

fn get_opt<'a>(o: &'a Vec<(String, JsonValue)>, key: &str) -> (r: Option<&'a JsonValue>)
    ensures
        match r {
            Some(v) => optional(entries_view(o@), key@) == Some(v@),
            None => optional(entries_view(o@), key@) is None,
        },
{
    match find(o, key) {
        Some(JsonValue::Null) => None,
        Some(v) => Some(v),
        None => None,
    }
}

fn malformed(key: &str, expected: &str) -> (e: Error)
    ensures
        error_is(e, malformed_at(key@, expected@)),
{
    Error::about(Kind::MalformedData, key, expected)
}

/// An error for a tag that is none of those expected; it names the tag.
fn unknown(key: &str, expected: &str, found: &String) -> (e: Error)
    ensures
        error_is(e, malformed_at(key@, unknown_tag(expected@, found@))),
{
    let mut m = String::from_str(expected);
    m.append(", not ");
    m.append(found.as_str());
    Error { kind: Kind::MalformedData, key: Some(String::from_str(key)), msg: Some(m) }
}

pub fn read_u32(j: &JsonValue, key: &str) -> (r: Result<u32, Error>)
    ensures
        agrees(r, as_u32(j@, key@)),
{
    match j {
        JsonValue::Number(t) => match parse_u32(t.as_str()) {
            Some(n) => Ok(n),
            None => Err(malformed(key, "an integer from 0 to 4294967295")),
        },
        _ => Err(malformed(key, "an integer from 0 to 4294967295")),
    }
}

pub fn read_str(j: &JsonValue, key: &str) -> (r: Result<String, Error>)
    ensures
        agrees(r, as_str(j@, key@)),
{
    match j {
        JsonValue::Str(s) => Ok(s.clone()),
        _ => Err(malformed(key, "a string")),
    }
}

pub fn read_bool(j: &JsonValue, key: &str) -> (r: Result<bool, Error>)
    ensures
        agrees(r, as_bool(j@, key@)),
{
    match j {
        JsonValue::Bool(b) => Ok(*b),
        _ => Err(malformed(key, "a boolean")),
    }
}

pub fn read_number(j: &JsonValue, key: &str) -> (r: Result<String, Error>)
    ensures
        agrees(r, as_number(j@, key@)),
{
    match j {
        JsonValue::Number(t) => Ok(t.clone()),
        _ => Err(malformed(key, "a number")),
    }
}

pub fn read_scalar(j: &JsonValue, key: &str) -> (r: Result<Scalar, Error>)
    ensures
        agrees(r, as_scalar(j@, key@)),
{
    match j {
        JsonValue::Bool(b) => Ok(Scalar::Bool(*b)),
        JsonValue::Number(t) => Ok(Scalar::Number(t.clone())),
        JsonValue::Str(s) => Ok(Scalar::Text(s.clone())),
        _ => Err(malformed(key, "a boolean, a number or a string")),
    }
}

pub fn reducer_from(s: &String) -> (r: Option<Reducer>)
    ensures
        r == reducer_of(s@),
{
    if is_tag(s, "FIRST") {
        Some(Reducer::FIRST)
    } else if is_tag(s, "LAST") {
        Some(Reducer::LAST)
    } else if is_tag(s, "AVG") {
        Some(Reducer::AVG)
    } else if is_tag(s, "SUM") {
        Some(Reducer::SUM)
    } else if is_tag(s, "MIN") {
        Some(Reducer::MIN)
    } else if is_tag(s, "MAX") {
        Some(Reducer::MAX)
    } else {
        None
    }
}

pub fn purpose_from(s: &String) -> (r: Option<Purpose>)
    ensures
        r == purpose_of(s@),
{
    if is_tag(s, "subject") {
        Some(Purpose::SUBJECT)
    } else if is_tag(s, "quality") {
        Some(Purpose::QUALITY)
    } else if is_tag(s, "mcomp") {
        Some(Purpose::MCOMP)
    } else if is_tag(s, "mspan") {
        Some(Purpose::MSPAN)
    } else if is_tag(s, "mvalue") {
        Some(Purpose::MVALUE)
    } else {
        None
    }
}

pub fn read_reducer(j: &JsonValue, key: &str) -> (r: Result<Reducer, Error>)
    ensures
        agrees(r, as_reducer(j@, key@)),
{
    match j {
        JsonValue::Str(s) => match reducer_from(s) {
            Some(v) => Ok(v),
            None => Err(unknown(key, "one of FIRST, LAST, AVG, SUM, MIN, MAX", s)),
        },
        _ => Err(malformed(key, "one of FIRST, LAST, AVG, SUM, MIN, MAX")),
    }
}

pub fn read_purpose(j: &JsonValue, key: &str) -> (r: Result<Purpose, Error>)
    ensures
        agrees(r, as_purpose(j@, key@)),
{
    match j {
        JsonValue::Str(s) => match purpose_from(s) {
            Some(v) => Ok(v),
            None => Err(unknown(key, "one of subject, quality, mcomp, mspan, mvalue", s)),
        },
        _ => Err(malformed(key, "one of subject, quality, mcomp, mspan, mvalue")),
    }
}

/// Resolves a value that may be an integer or a string: an integer is tried
/// first, then a string; anything else is rejected.
pub fn read_codomain(j: &JsonValue, key: &str) -> (r: Result<Codomain, Error>)
    ensures
        agrees(r, as_codomain(j@, key@)),
{
    match j {
        JsonValue::Number(t) => match parse_u32(t.as_str()) {
            Some(n) => Ok(Codomain::Number(n)),
            None => Err(malformed(key, "an integer from 0 to 4294967295, or a string")),
        },
        JsonValue::Str(s) => Ok(Codomain::Text(s.clone())),
        _ => Err(malformed(key, "an integer from 0 to 4294967295, or a string")),
    }
}

pub fn get_u32(o: &Vec<(String, JsonValue)>, key: &str) -> (r: Result<u32, Error>)
    ensures
        agrees(r, field_u32(entries_view(o@), key@)),
{
    match get(o, key) {
        Ok(j) => read_u32(j, key),
        Err(e) => Err(e),
    }
}

pub fn get_str(o: &Vec<(String, JsonValue)>, key: &str) -> (r: Result<String, Error>)
    ensures
        agrees(r, field_str(entries_view(o@), key@)),
{
    match get(o, key) {
        Ok(j) => read_str(j, key),
        Err(e) => Err(e),
    }
}

pub fn get_bool(o: &Vec<(String, JsonValue)>, key: &str) -> (r: Result<bool, Error>)
    ensures
        agrees(r, field_bool(entries_view(o@), key@)),
{
    match get(o, key) {
        Ok(j) => read_bool(j, key),
        Err(e) => Err(e),
    }
}

pub fn get_reducer(o: &Vec<(String, JsonValue)>, key: &str) -> (r: Result<Reducer, Error>)
    ensures
        agrees(r, field_reducer(entries_view(o@), key@)),
{
    match get(o, key) {
        Ok(j) => read_reducer(j, key),
        Err(e) => Err(e),
    }
}

pub fn get_purpose(o: &Vec<(String, JsonValue)>, key: &str) -> (r: Result<Purpose, Error>)
    ensures
        agrees(r, field_purpose(entries_view(o@), key@)),
{
    match get(o, key) {
        Ok(j) => read_purpose(j, key),
        Err(e) => Err(e),
    }
}

pub fn get_opt_str(o: &Vec<(String, JsonValue)>, key: &str) -> (r: Result<Option<String>, Error>)
    ensures
        agrees(r, opt_str(entries_view(o@), key@)),
{
    match get_opt(o, key) {
        None => Ok(None),
        Some(j) => match read_str(j, key) {
            Ok(s) => Ok(Some(s)),
            Err(e) => Err(e),
        },
    }
}

pub fn get_opt_reducer(o: &Vec<(String, JsonValue)>, key: &str) -> (r: Result<
    Option<Reducer>,
    Error,
>)
    ensures
        agrees(r, opt_reducer(entries_view(o@), key@)),
{
    match get_opt(o, key) {
        None => Ok(None),
        Some(j) => match read_reducer(j, key) {
            Ok(v) => Ok(Some(v)),
            Err(e) => Err(e),
        },
    }
}

pub fn get_opt_scalar(o: &Vec<(String, JsonValue)>, key: &str) -> (r: Result<
    Option<Scalar>,
    Error,
>)
    ensures
        agrees(r, opt_scalar(entries_view(o@), key@)),
{
    match get_opt(o, key) {
        None => Ok(None),
        Some(j) => match read_scalar(j, key) {
            Ok(v) => Ok(Some(v)),
            Err(e) => Err(e),
        },
    }
}

} // verus!

verus! {

pub fn read_strings(items: &Vec<JsonValue>, key: &str) -> (r: Result<Vec<String>, Error>)
    ensures
        agrees(r, strings_of(items_view(items@), key@)),
{
    let ghost iv = items_view(items@);
    let mut out: Vec<String> = Vec::new();
    let mut i: usize = 0;
    assert(iv.skip(0) =~= iv);
    assert forall|rest: Seq<Seq<char>>| out.deep_view() + rest =~= rest by {}
    while i < items.len()
        invariant
            i <= items@.len(),
            iv == items_view(items@),
            strings_of(iv, key@) == match strings_of(iv.skip(i as int), key@) {
                Err(k) => Err(k),
                Ok(rest) => Ok::<Seq<Seq<char>>, Fault>(out.deep_view() + rest),
            },
        decreases items@.len() - i,
    {
        assert(iv.skip(i as int).drop_first() =~= iv.skip(i + 1));
        assert(iv.skip(i as int)[0] == iv[i as int]);
        let s = match read_str(&items[i], key) {
            Ok(s) => s,
            Err(e) => return Err(e),
        };
        let ghost before = out.deep_view();
        out.push(s);
        assert(out.deep_view() =~= before.push(s@));
        assert forall|rest: Seq<Seq<char>>| before + (seq![s@] + rest) =~= out.deep_view() + rest by {}
        i = i + 1;
    }
    assert(iv.skip(i as int) =~= Seq::<Json>::empty());
    assert(out.deep_view() + Seq::<Seq<char>>::empty() =~= out.deep_view());
    Ok(out)
}

} // verus!

verus! {

pub fn read_text_entries(o: &Vec<(String, JsonValue)>, key: &str) -> (r: Result<Vec<(String, String)>, Error>)
    ensures
        agrees(r, text_entries(entries_view(o@), key@)),
{
    let ghost ev = entries_view(o@);
    let mut out: Vec<(String, String)> = Vec::new();
    let mut i: usize = 0;
    assert(ev.skip(0) =~= ev);
    assert forall|rest: TableModel<Seq<char>>| out.deep_view() + rest =~= rest by {}
    while i < o.len()
        invariant
            i <= o@.len(),
            ev == entries_view(o@),
            text_entries(ev, key@) == match text_entries(ev.skip(i as int), key@) {
                Err(k) => Err(k),
                Ok(rest) => Ok::<TableModel<Seq<char>>, Fault>(out.deep_view() + rest),
            },
        decreases o@.len() - i,
    {
        assert(ev.skip(i as int).drop_first() =~= ev.skip(i + 1));
        assert(ev.skip(i as int)[0] == ev[i as int]);
        let v = match read_str(&o[i].1, o[i].0.as_str()) {
            Ok(v) => v,
            Err(e) => return Err(e.within(key)),
        };
        let name = o[i].0.clone();
        let ghost before = out.deep_view();
        let ghost item = (name@, v.deep_view());
        out.push((name, v));
        assert(out.deep_view() =~= before.push(item));
        assert forall|rest: TableModel<Seq<char>>| before + (seq![item] + rest) =~= out.deep_view() + rest by {}
        i = i + 1;
    }
    assert(ev.skip(i as int) =~= Seq::<(Seq<char>, Json)>::empty());
    assert(out.deep_view() + Seq::<(Seq<char>, Seq<char>)>::empty() =~= out.deep_view());
    Ok(out)
}

pub fn read_number_entries(o: &Vec<(String, JsonValue)>, key: &str) -> (r: Result<Vec<(String, String)>, Error>)
    ensures
        agrees(r, number_entries(entries_view(o@), key@)),
{
    let ghost ev = entries_view(o@);
    let mut out: Vec<(String, String)> = Vec::new();
    let mut i: usize = 0;
    assert(ev.skip(0) =~= ev);
    assert forall|rest: TableModel<Seq<char>>| out.deep_view() + rest =~= rest by {}
    while i < o.len()
        invariant
            i <= o@.len(),
            ev == entries_view(o@),
            number_entries(ev, key@) == match number_entries(ev.skip(i as int), key@) {
                Err(k) => Err(k),
                Ok(rest) => Ok::<TableModel<Seq<char>>, Fault>(out.deep_view() + rest),
            },
        decreases o@.len() - i,
    {
        assert(ev.skip(i as int).drop_first() =~= ev.skip(i + 1));
        assert(ev.skip(i as int)[0] == ev[i as int]);
        let v = match read_number(&o[i].1, o[i].0.as_str()) {
            Ok(v) => v,
            Err(e) => return Err(e.within(key)),
        };
        let name = o[i].0.clone();
        let ghost before = out.deep_view();
        let ghost item = (name@, v.deep_view());
        out.push((name, v));
        assert(out.deep_view() =~= before.push(item));
        assert forall|rest: TableModel<Seq<char>>| before + (seq![item] + rest) =~= out.deep_view() + rest by {}
        i = i + 1;
    }
    assert(ev.skip(i as int) =~= Seq::<(Seq<char>, Json)>::empty());
    assert(out.deep_view() + Seq::<(Seq<char>, Seq<char>)>::empty() =~= out.deep_view());
    Ok(out)
}

pub fn read_text_table_entries(o: &Vec<(String, JsonValue)>, key: &str) -> (r: Result<Vec<(String, Vec<(String, String)>)>, Error>)
    ensures
        agrees(r, text_table_entries(entries_view(o@), key@)),
{
    let ghost ev = entries_view(o@);
    let mut out: Vec<(String, Vec<(String, String)>)> = Vec::new();
    let mut i: usize = 0;
    assert(ev.skip(0) =~= ev);
    assert forall|rest: TableModel<TableModel<Seq<char>>>| out.deep_view() + rest =~= rest by {}
    while i < o.len()
        invariant
            i <= o@.len(),
            ev == entries_view(o@),
            text_table_entries(ev, key@) == match text_table_entries(ev.skip(i as int), key@) {
                Err(k) => Err(k),
                Ok(rest) => Ok::<TableModel<TableModel<Seq<char>>>, Fault>(out.deep_view() + rest),
            },
        decreases o@.len() - i,
    {
        assert(ev.skip(i as int).drop_first() =~= ev.skip(i + 1));
        assert(ev.skip(i as int)[0] == ev[i as int]);
        let v = match read_text_table(&o[i].1, o[i].0.as_str()) {
            Ok(v) => v,
            Err(e) => return Err(e.within(key)),
        };
        let name = o[i].0.clone();
        let ghost before = out.deep_view();
        let ghost item = (name@, v.deep_view());
        out.push((name, v));
        assert(out.deep_view() =~= before.push(item));
        assert forall|rest: TableModel<TableModel<Seq<char>>>| before + (seq![item] + rest) =~= out.deep_view() + rest by {}
        i = i + 1;
    }
    assert(ev.skip(i as int) =~= Seq::<(Seq<char>, Json)>::empty());
    assert(out.deep_view() + Seq::<(Seq<char>, TableModel<Seq<char>>)>::empty() =~= out.deep_view());
    Ok(out)
}

pub fn read_number_table_entries(o: &Vec<(String, JsonValue)>, key: &str) -> (r: Result<Vec<(String, Vec<(String, String)>)>, Error>)
    ensures
        agrees(r, number_table_entries(entries_view(o@), key@)),
{
    let ghost ev = entries_view(o@);
    let mut out: Vec<(String, Vec<(String, String)>)> = Vec::new();
    let mut i: usize = 0;
    assert(ev.skip(0) =~= ev);
    assert forall|rest: TableModel<TableModel<Seq<char>>>| out.deep_view() + rest =~= rest by {}
    while i < o.len()
        invariant
            i <= o@.len(),
            ev == entries_view(o@),
            number_table_entries(ev, key@) == match number_table_entries(ev.skip(i as int), key@) {
                Err(k) => Err(k),
                Ok(rest) => Ok::<TableModel<TableModel<Seq<char>>>, Fault>(out.deep_view() + rest),
            },
        decreases o@.len() - i,
    {
        assert(ev.skip(i as int).drop_first() =~= ev.skip(i + 1));
        assert(ev.skip(i as int)[0] == ev[i as int]);
        let v = match read_number_table(&o[i].1, o[i].0.as_str()) {
            Ok(v) => v,
            Err(e) => return Err(e.within(key)),
        };
        let name = o[i].0.clone();
        let ghost before = out.deep_view();
        let ghost item = (name@, v.deep_view());
        out.push((name, v));
        assert(out.deep_view() =~= before.push(item));
        assert forall|rest: TableModel<TableModel<Seq<char>>>| before + (seq![item] + rest) =~= out.deep_view() + rest by {}
        i = i + 1;
    }
    assert(ev.skip(i as int) =~= Seq::<(Seq<char>, Json)>::empty());
    assert(out.deep_view() + Seq::<(Seq<char>, TableModel<Seq<char>>)>::empty() =~= out.deep_view());
    Ok(out)
}

/// A list of names, or a single name standing for a list of one.
pub fn read_names(j: &JsonValue, key: &str) -> (r: Result<Vec<String>, Error>)
    ensures
        agrees(r, as_names(j@, key@)),
{
    match j {
        JsonValue::Str(s) => {
            let mut v: Vec<String> = Vec::new();
            v.push(s.clone());
            assert(v.deep_view() =~= seq![s@]);
            Ok(v)
        },
        JsonValue::Array(items) => {
            proof {
                lemma_array_view(items);
            }
            read_strings(items, key)
        },
        _ => Err(malformed(key, "a name or a list of names")),
    }
}

pub fn read_text_table(j: &JsonValue, key: &str) -> (r: Result<Vec<(String, String)>, Error>)
    ensures
        agrees(r, as_text_table(j@, key@)),
{
    match j {
        JsonValue::Object(o) => {
            proof {
                lemma_object_view(o);
            }
            read_text_entries(o, key)
        },
        _ => Err(malformed(key, "an object of strings")),
    }
}

pub fn read_number_table(j: &JsonValue, key: &str) -> (r: Result<Vec<(String, String)>, Error>)
    ensures
        agrees(r, as_number_table(j@, key@)),
{
    match j {
        JsonValue::Object(o) => {
            proof {
                lemma_object_view(o);
            }
            read_number_entries(o, key)
        },
        _ => Err(malformed(key, "an object of numbers")),
    }
}

pub fn read_symbols(j: &JsonValue, key: &str) -> (r: Result<MapSymbols, Error>)
    ensures
        agrees(r, as_symbols(j@, key@)),
{
    match j {
        JsonValue::Object(o) => {
            proof {
                lemma_object_view(o);
            }
            match get(o, "arrows") {
                Ok(t) => match read_text_table(t, "arrows") {
                    Ok(arrows) => Ok(MapSymbols { arrows }),
                    Err(e) => Err(e.within(key)),
                },
                Err(e) => Err(e.within(key)),
            }
        },
        _ => Err(malformed(key, "an object with arrows")),
    }
}

pub fn read_weights(j: &JsonValue, key: &str) -> (r: Result<MapWeights, Error>)
    ensures
        agrees(r, as_weights(j@, key@)),
{
    match j {
        JsonValue::Object(o) => {
            proof {
                lemma_object_view(o);
            }
            match get(o, "arrows") {
                Ok(t) => match read_number_table(t, "arrows") {
                    Ok(arrows) => Ok(MapWeights { arrows }),
                    Err(e) => Err(e.within(key)),
                },
                Err(e) => Err(e.within(key)),
            }
        },
        _ => Err(malformed(key, "an object with arrows")),
    }
}

pub fn get_names(o: &Vec<(String, JsonValue)>, key: &str) -> (r: Result<Vec<String>, Error>)
    ensures
        agrees(r, field_names(entries_view(o@), key@)),
{
    match get(o, key) {
        Ok(j) => read_names(j, key),
        Err(e) => Err(e),
    }
}

pub fn get_symbols(o: &Vec<(String, JsonValue)>, key: &str) -> (r: Result<MapSymbols, Error>)
    ensures
        agrees(r, field_symbols(entries_view(o@), key@)),
{
    match get(o, key) {
        Ok(j) => read_symbols(j, key),
        Err(e) => Err(e),
    }
}

pub fn get_weights(o: &Vec<(String, JsonValue)>, key: &str) -> (r: Result<MapWeights, Error>)
    ensures
        agrees(r, field_weights(entries_view(o@), key@)),
{
    match get(o, key) {
        Ok(j) => read_weights(j, key),
        Err(e) => Err(e),
    }
}

pub fn get_opt_weights(o: &Vec<(String, JsonValue)>, key: &str) -> (r: Result<
    Option<MapWeights>,
    Error,
>)
    ensures
        agrees(r, opt_weights(entries_view(o@), key@)),
{
    match get_opt(o, key) {
        None => Ok(None),
        Some(j) => match read_weights(j, key) {
            Ok(v) => Ok(Some(v)),
            Err(e) => Err(e),
        },
    }
}

pub fn get_opt_text_table(o: &Vec<(String, JsonValue)>, key: &str) -> (r: Result<
    Option<Vec<(String, String)>>,
    Error,
>)
    ensures
        agrees(r, opt_text_table(entries_view(o@), key@)),
{
    match get_opt(o, key) {
        None => Ok(None),
        Some(j) => match read_text_table(j, key) {
            Ok(v) => Ok(Some(v)),
            Err(e) => Err(e),
        },
    }
}

pub fn get_text_tables(o: &Vec<(String, JsonValue)>, key: &str) -> (r: Result<
    Vec<(String, Vec<(String, String)>)>,
    Error,
>)
    ensures
        agrees(r, field_text_tables(entries_view(o@), key@)),
{
    match get(o, key) {
        Ok(JsonValue::Object(e)) => {
            proof {
                lemma_object_view(e);
            }
            read_text_table_entries(e, key)
        },
        Ok(_) => Err(malformed(key, "an object of tables")),
        Err(e) => Err(e),
    }
}

pub fn get_opt_number_tables(o: &Vec<(String, JsonValue)>, key: &str) -> (r: Result<
    Option<Vec<(String, Vec<(String, String)>)>>,
    Error,
>)
    ensures
        agrees(r, opt_number_tables(entries_view(o@), key@)),
{
    match get_opt(o, key) {
        None => Ok(None),
        Some(JsonValue::Object(e)) => {
            proof {
                lemma_object_view(e);
            }
            match read_number_table_entries(e, key) {
                Ok(v) => Ok(Some(v)),
                Err(e) => Err(e),
            }
        },
        Some(_) => Err(malformed(key, "an object of tables")),
    }
}


pub fn read_range_entries(o: &Vec<(String, JsonValue)>) -> (r: Result<Range, Error>)
    ensures
        agrees(r, range_entries(entries_view(o@))),
{
    let range_start = match get_u32(o, "rangeStart") {
        Ok(v) => v,
        Err(e) => return Err(e),
    };
    let range_length = match get_u32(o, "rangeLength") {
        Ok(v) => v,
        Err(e) => return Err(e),
    };
    let reduced = match get_bool(o, "reduced") {
        Ok(v) => v,
        Err(e) => return Err(e),
    };
    Ok(Range { range_start, range_length, reduced })
}

pub fn read_interval_entries(o: &Vec<(String, JsonValue)>) -> (r: Result<Interval, Error>)
    ensures
        agrees(r, interval_entries(entries_view(o@))),
{
    let unit = match get_str(o, "unit") {
        Ok(v) => v,
        Err(e) => return Err(e),
    };
    let count = match get_u32(o, "count") {
        Ok(v) => v,
        Err(e) => return Err(e),
    };
    Ok(Interval { unit, count })
}

pub fn read_reference_entries(o: &Vec<(String, JsonValue)>) -> (r: Result<Reference, Error>)
    ensures
        agrees(r, reference_entries(entries_view(o@))),
{
    let idx = match get_u32(o, "idx") {
        Ok(v) => v,
        Err(e) => return Err(e),
    };
    let value = match get_str(o, "value") {
        Ok(v) => v,
        Err(e) => return Err(e),
    };
    let iso_format = match get_str(o, "isoFormat") {
        Ok(v) => v,
        Err(e) => return Err(e),
    };
    Ok(Reference { idx, value, iso_format })
}

pub fn read_time_entries(o: &Vec<(String, JsonValue)>) -> (r: Result<Time, Error>)
    ensures
        agrees(r, time_entries(entries_view(o@))),
{
    let interval = match get_interval(o, "interval") {
        Ok(v) => v,
        Err(e) => return Err(e),
    };
    let reference = match get_reference(o, "reference") {
        Ok(v) => v,
        Err(e) => return Err(e),
    };
    Ok(Time { interval, reference })
}

pub fn read_map_implied_entries(o: &Vec<(String, JsonValue)>) -> (r: Result<MapImplied, Error>)
    ensures
        agrees(r, map_implied_entries(entries_view(o@))),
{
    let domain = match get_str(o, "domain") {
        Ok(v) => v,
        Err(e) => return Err(e),
    };
    let codomain = match get_codomain(o, "codomain") {
        Ok(v) => v,
        Err(e) => return Err(e),
    };
    Ok(MapImplied { domain, codomain })
}

pub fn read_raw_source(o: &Vec<(String, JsonValue)>) -> (r: Result<SourceRaw, Error>)
    ensures
        agrees(r, raw_source(entries_view(o@))),
{
    let enabled = match get_bool(o, "enabled") {
        Ok(v) => v,
        Err(e) => return Err(e),
    };
    let header_idx = match get_u32(o, "header-idx") {
        Ok(v) => v,
        Err(e) => return Err(e),
    };
    let header_name = match get_opt_str(o, "header-name") {
        Ok(v) => v,
        Err(e) => return Err(e),
    };
    let field_alias = match get_str(o, "field-alias") {
        Ok(v) => v,
        Err(e) => return Err(e),
    };
    let purpose = match get_purpose(o, "purpose") {
        Ok(v) => v,
        Err(e) => return Err(e),
    };
    let null_value = match get_opt_scalar(o, "null-value") {
        Ok(v) => v,
        Err(e) => return Err(e),
    };
    let format = match get_opt_str(o, "format") {
        Ok(v) => v,
        Err(e) => return Err(e),
    };
    let map_symbols = match get_symbols(o, "map-symbols") {
        Ok(v) => v,
        Err(e) => return Err(e),
    };
    let nlevels = match get_u32(o, "nlevels") {
        Ok(v) => v,
        Err(e) => return Err(e),
    };
    let nrows = match get_u32(o, "nrows") {
        Ok(v) => v,
        Err(e) => return Err(e),
    };
    let filename = match get_str(o, "filename") {
        Ok(v) => v,
        Err(e) => return Err(e),
    };
    let null_value_count = match get_u32(o, "null-value-count") {
        Ok(v) => v,
        Err(e) => return Err(e),
    };
    let codomain_reducer = match get_opt_reducer(o, "codomain-reducer") {
        Ok(v) => v,
        Err(e) => return Err(e),
    };
    let map_weights = match get_opt_weights(o, "map-weights") {
        Ok(v) => v,
        Err(e) => return Err(e),
    };
    Ok(SourceRaw { enabled, header_idx, header_name, field_alias, purpose, null_value, format, map_symbols, nlevels, nrows, filename, null_value_count, codomain_reducer, map_weights })
}

pub fn read_implied_source(o: &Vec<(String, JsonValue)>) -> (r: Result<SourceImplied, Error>)
    ensures
        agrees(r, implied_source(entries_view(o@))),
{
    let enabled = match get_bool(o, "enabled") {
        Ok(v) => v,
        Err(e) => return Err(e),
    };
    let field_alias = match get_str(o, "field-alias") {
        Ok(v) => v,
        Err(e) => return Err(e),
    };
    let purpose = match get_purpose(o, "purpose") {
        Ok(v) => v,
        Err(e) => return Err(e),
    };
    let null_value = match get_opt_scalar(o, "null-value") {
        Ok(v) => v,
        Err(e) => return Err(e),
    };
    let format = match get_opt_str(o, "format") {
        Ok(v) => v,
        Err(e) => return Err(e),
    };
    let nlevels = match get_u32(o, "nlevels") {
        Ok(v) => v,
        Err(e) => return Err(e),
    };
    let filename = match get_str(o, "filename") {
        Ok(v) => v,
        Err(e) => return Err(e),
    };
    let map_implied = match get_map_implied(o, "map-implied") {
        Ok(v) => v,
        Err(e) => return Err(e),
    };
    let codomain_reducer = match get_opt_reducer(o, "codomain-reducer") {
        Ok(v) => v,
        Err(e) => return Err(e),
    };
    let slicing_reducer = match get_opt_reducer(o, "slicing-reducer") {
        Ok(v) => v,
        Err(e) => return Err(e),
    };
    let map_weights = match get_opt_weights(o, "map-weights") {
        Ok(v) => v,
        Err(e) => return Err(e),
    };
    Ok(SourceImplied { enabled, field_alias, purpose, null_value, format, nlevels, filename, map_implied, codomain_reducer, slicing_reducer, map_weights })
}

pub fn read_wide_source(o: &Vec<(String, JsonValue)>) -> (r: Result<SourceWide, Error>)
    ensures
        agrees(r, wide_source(entries_view(o@))),
{
    let enabled = match get_bool(o, "enabled") {
        Ok(v) => v,
        Err(e) => return Err(e),
    };
    let header_idx = match get_u32(o, "header-idx") {
        Ok(v) => v,
        Err(e) => return Err(e),
    };
    let default_name = match get_str(o, "default-name") {
        Ok(v) => v,
        Err(e) => return Err(e),
    };
    let field_alias = match get_str(o, "field-alias") {
        Ok(v) => v,
        Err(e) => return Err(e),
    };
    let purpose = match get_purpose(o, "purpose") {
        Ok(v) => v,
        Err(e) => return Err(e),
    };
    let null_value = match get_opt_scalar(o, "null-value") {
        Ok(v) => v,
        Err(e) => return Err(e),
    };
    let format = match get_opt_str(o, "format") {
        Ok(v) => v,
        Err(e) => return Err(e),
    };
    let map_symbols = match get_symbols(o, "map-symbols") {
        Ok(v) => v,
        Err(e) => return Err(e),
    };
    let nlevels = match get_u32(o, "nlevels") {
        Ok(v) => v,
        Err(e) => return Err(e),
    };
    let nrows = match get_u32(o, "nrows") {
        Ok(v) => v,
        Err(e) => return Err(e),
    };
    let filename = match get_str(o, "filename") {
        Ok(v) => v,
        Err(e) => return Err(e),
    };
    let null_value_count = match get_u32(o, "null-value-count") {
        Ok(v) => v,
        Err(e) => return Err(e),
    };
    let codomain_reducer = match get_opt_reducer(o, "codomain-reducer") {
        Ok(v) => v,
        Err(e) => return Err(e),
    };
    let map_weights = match get_opt_weights(o, "map-weights") {
        Ok(v) => v,
        Err(e) => return Err(e),
    };
    Ok(SourceWide { enabled, header_idx, default_name, field_alias, purpose, null_value, format, map_symbols, nlevels, nrows, filename, null_value_count, codomain_reducer, map_weights })
}

pub fn read_subject_field(o: &Vec<(String, JsonValue)>) -> (r: Result<SubjectField, Error>)
    ensures
        agrees(r, subject_field(entries_view(o@))),
{
    let idx = match get_u32(o, "idx") {
        Ok(v) => v,
        Err(e) => return Err(e),
    };
    let name = match get_str(o, "name") {
        Ok(v) => v,
        Err(e) => return Err(e),
    };
    let format = match get_opt_str(o, "format") {
        Ok(v) => v,
        Err(e) => return Err(e),
    };
    let sources = match get_sources(o, "sources") {
        Ok(v) => v,
        Err(e) => return Err(e),
    };
    Ok(SubjectField { idx, name, format, sources })
}

pub fn read_quality_field(o: &Vec<(String, JsonValue)>) -> (r: Result<QualityField, Error>)
    ensures
        agrees(r, quality_field(entries_view(o@))),
{
    let idx = match get_u32(o, "idx") {
        Ok(v) => v,
        Err(e) => return Err(e),
    };
    let name = match get_str(o, "name") {
        Ok(v) => v,
        Err(e) => return Err(e),
    };
    let etl_unit = match get_names(o, "etl-unit") {
        Ok(v) => v,
        Err(e) => return Err(e),
    };
    let format = match get_opt_str(o, "format") {
        Ok(v) => v,
        Err(e) => return Err(e),
    };
    let null_value_expansion = match get_opt_str(o, "null-value-expansion") {
        Ok(v) => v,
        Err(e) => return Err(e),
    };
    let map_weights = match get_weights(o, "map-weights") {
        Ok(v) => v,
        Err(e) => return Err(e),
    };
    let map_files = match get_opt_text_table(o, "map-files") {
        Ok(v) => v,
        Err(e) => return Err(e),
    };
    let sources = match get_sources(o, "sources") {
        Ok(v) => v,
        Err(e) => return Err(e),
    };
    Ok(QualityField { idx, name, etl_unit, format, null_value_expansion, map_weights, map_files, sources })
}

pub fn read_mcomp_field(o: &Vec<(String, JsonValue)>) -> (r: Result<MCompField, Error>)
    ensures
        agrees(r, mcomp_field(entries_view(o@))),
{
    let idx = match get_u32(o, "idx") {
        Ok(v) => v,
        Err(e) => return Err(e),
    };
    let name = match get_str(o, "name") {
        Ok(v) => v,
        Err(e) => return Err(e),
    };
    let etl_unit = match get_names(o, "etl-unit") {
        Ok(v) => v,
        Err(e) => return Err(e),
    };
    let format = match get_opt_str(o, "format") {
        Ok(v) => v,
        Err(e) => return Err(e),
    };
    let map_weights = match get_weights(o, "map-weights") {
        Ok(v) => v,
        Err(e) => return Err(e),
    };
    let map_files = match get_opt_text_table(o, "map-files") {
        Ok(v) => v,
        Err(e) => return Err(e),
    };
    let sources = match get_sources(o, "sources") {
        Ok(v) => v,
        Err(e) => return Err(e),
    };
    Ok(MCompField { idx, name, etl_unit, format, map_weights, map_files, sources })
}

pub fn read_mspan_field(o: &Vec<(String, JsonValue)>) -> (r: Result<MSpanField, Error>)
    ensures
        agrees(r, mspan_field(entries_view(o@))),
{
    let idx = match get_u32(o, "idx") {
        Ok(v) => v,
        Err(e) => return Err(e),
    };
    let name = match get_str(o, "name") {
        Ok(v) => v,
        Err(e) => return Err(e),
    };
    let etl_unit = match get_names(o, "etl-unit") {
        Ok(v) => v,
        Err(e) => return Err(e),
    };
    let format = match get_opt_str(o, "format") {
        Ok(v) => v,
        Err(e) => return Err(e),
    };
    let time = match get_time(o, "time") {
        Ok(v) => v,
        Err(e) => return Err(e),
    };
    let levels_mspan = match get_ranges(o, "levels-mspan") {
        Ok(v) => v,
        Err(e) => return Err(e),
    };
    let sources = match get_sources(o, "sources") {
        Ok(v) => v,
        Err(e) => return Err(e),
    };
    Ok(MSpanField { idx, name, etl_unit, format, time, levels_mspan, sources })
}

pub fn read_mvalue_field(o: &Vec<(String, JsonValue)>) -> (r: Result<MValueField, Error>)
    ensures
        agrees(r, mvalue_field(entries_view(o@))),
{
    let idx = match get_u32(o, "idx") {
        Ok(v) => v,
        Err(e) => return Err(e),
    };
    let name = match get_str(o, "name") {
        Ok(v) => v,
        Err(e) => return Err(e),
    };
    let etl_unit = match get_names(o, "etl-unit") {
        Ok(v) => v,
        Err(e) => return Err(e),
    };
    let format = match get_opt_str(o, "format") {
        Ok(v) => v,
        Err(e) => return Err(e),
    };
    let null_value_expansion = match get_opt_str(o, "null-value-expansion") {
        Ok(v) => v,
        Err(e) => return Err(e),
    };
    let map_files = match get_opt_text_table(o, "map-files") {
        Ok(v) => v,
        Err(e) => return Err(e),
    };
    let map_weights = match get_opt_number_tables(o, "map-weights") {
        Ok(v) => v,
        Err(e) => return Err(e),
    };
    let map_symbols = match get_text_tables(o, "map-symbols") {
        Ok(v) => v,
        Err(e) => return Err(e),
    };
    let codomain_reducer = match get_reducer(o, "codomain-reducer") {
        Ok(v) => v,
        Err(e) => return Err(e),
    };
    let slicing_reducer = match get_reducer(o, "slicing-reducer") {
        Ok(v) => v,
        Err(e) => return Err(e),
    };
    let sources = match get_sources(o, "sources") {
        Ok(v) => v,
        Err(e) => return Err(e),
    };
    Ok(MValueField { idx, name, etl_unit, format, null_value_expansion, map_files, map_weights, map_symbols, codomain_reducer, slicing_reducer, sources })
}

pub fn read_quality_unit(o: &Vec<(String, JsonValue)>) -> (r: Result<EtlUnitQuality, Error>)
    ensures
        agrees(r, quality_unit(entries_view(o@))),
{
    let subject = match get_str(o, "subject") {
        Ok(v) => v,
        Err(e) => return Err(e),
    };
    let codomain = match get_str(o, "codomain") {
        Ok(v) => v,
        Err(e) => return Err(e),
    };
    let codomain_reducer = match get_reducer(o, "codomain-reducer") {
        Ok(v) => v,
        Err(e) => return Err(e),
    };
    Ok(EtlUnitQuality { subject, codomain, codomain_reducer })
}

pub fn read_measurement_unit(o: &Vec<(String, JsonValue)>) -> (r: Result<EtlUnitMeasurement, Error>)
    ensures
        agrees(r, measurement_unit(entries_view(o@))),
{
    let subject = match get_str(o, "subject") {
        Ok(v) => v,
        Err(e) => return Err(e),
    };
    let codomain = match get_str(o, "codomain") {
        Ok(v) => v,
        Err(e) => return Err(e),
    };
    let codomain_reducer = match get_reducer(o, "codomain-reducer") {
        Ok(v) => v,
        Err(e) => return Err(e),
    };
    let mcomps = match get_names(o, "mcomps") {
        Ok(v) => v,
        Err(e) => return Err(e),
    };
    let mspan = match get_str(o, "mspan") {
        Ok(v) => v,
        Err(e) => return Err(e),
    };
    let slicing_reducer = match get_reducer(o, "slicing-reducer") {
        Ok(v) => v,
        Err(e) => return Err(e),
    };
    Ok(EtlUnitMeasurement { subject, codomain, codomain_reducer, mcomps, mspan, slicing_reducer })
}

pub fn read_subject_unit(o: &Vec<(String, JsonValue)>) -> (r: Result<EtlUnitSubject, Error>)
    ensures
        agrees(r, subject_unit(entries_view(o@))),
{
    let subject = match get_str(o, "subject") {
        Ok(v) => v,
        Err(e) => return Err(e),
    };
    let codomain = match get_str(o, "codomain") {
        Ok(v) => v,
        Err(e) => return Err(e),
    };
    Ok(EtlUnitSubject { subject, codomain })
}

pub fn get_interval(o: &Vec<(String, JsonValue)>, key: &str) -> (r: Result<Interval, Error>)
    ensures
        agrees(r, field_interval(entries_view(o@), key@)),
{
    match get(o, key) {
        Ok(JsonValue::Object(e)) => {
            proof {
                lemma_object_view(e);
            }
            match read_interval_entries(e) {
                Ok(v) => Ok(v),
                Err(err) => Err(err.within(key)),
            }
        },
        Ok(_) => Err(malformed(key, "an object")),
        Err(err) => Err(err),
    }
}

pub fn get_reference(o: &Vec<(String, JsonValue)>, key: &str) -> (r: Result<Reference, Error>)
    ensures
        agrees(r, field_reference(entries_view(o@), key@)),
{
    match get(o, key) {
        Ok(JsonValue::Object(e)) => {
            proof {
                lemma_object_view(e);
            }
            match read_reference_entries(e) {
                Ok(v) => Ok(v),
                Err(err) => Err(err.within(key)),
            }
        },
        Ok(_) => Err(malformed(key, "an object")),
        Err(err) => Err(err),
    }
}

pub fn get_time(o: &Vec<(String, JsonValue)>, key: &str) -> (r: Result<Time, Error>)
    ensures
        agrees(r, field_time(entries_view(o@), key@)),
{
    match get(o, key) {
        Ok(JsonValue::Object(e)) => {
            proof {
                lemma_object_view(e);
            }
            match read_time_entries(e) {
                Ok(v) => Ok(v),
                Err(err) => Err(err.within(key)),
            }
        },
        Ok(_) => Err(malformed(key, "an object")),
        Err(err) => Err(err),
    }
}

pub fn get_map_implied(o: &Vec<(String, JsonValue)>, key: &str) -> (r: Result<MapImplied, Error>)
    ensures
        agrees(r, field_map_implied(entries_view(o@), key@)),
{
    match get(o, key) {
        Ok(JsonValue::Object(e)) => {
            proof {
                lemma_object_view(e);
            }
            match read_map_implied_entries(e) {
                Ok(v) => Ok(v),
                Err(err) => Err(err.within(key)),
            }
        },
        Ok(_) => Err(malformed(key, "an object")),
        Err(err) => Err(err),
    }
}

pub fn get_codomain(o: &Vec<(String, JsonValue)>, key: &str) -> (r: Result<Codomain, Error>)
    ensures
        agrees(r, field_codomain(entries_view(o@), key@)),
{
    match get(o, key) {
        Ok(j) => read_codomain(j, key),
        Err(e) => Err(e),
    }
}

pub fn read_range(j: &JsonValue, key: &str) -> (r: Result<Range, Error>)
    ensures
        agrees(r, as_range(j@, key@)),
{
    match j {
        JsonValue::Object(o) => {
            proof {
                lemma_object_view(o);
            }
            match read_range_entries(o) {
                Ok(v) => Ok(v),
                Err(e) => Err(e.within(key)),
            }
        },
        _ => Err(malformed(key, "an object")),
    }
}

pub fn read_ranges(items: &Vec<JsonValue>, key: &str) -> (r: Result<Vec<Range>, Error>)
    ensures
        agrees(r, ranges_of(items_view(items@), key@)),
{
    let ghost iv = items_view(items@);
    let mut out: Vec<Range> = Vec::new();
    let mut i: usize = 0;
    assert(iv.skip(0) =~= iv);
    assert forall|rest: Seq<Range>| out.deep_view() + rest =~= rest by {}
    while i < items.len()
        invariant
            i <= items@.len(),
            iv == items_view(items@),
            ranges_of(iv, key@) == match ranges_of(iv.skip(i as int), key@) {
                Err(k) => Err(k),
                Ok(rest) => Ok::<Seq<Range>, Fault>(out.deep_view() + rest),
            },
        decreases items@.len() - i,
    {
        assert(iv.skip(i as int).drop_first() =~= iv.skip(i + 1));
        assert(iv.skip(i as int)[0] == iv[i as int]);
        let v = match read_range(&items[i], key) {
            Ok(v) => v,
            Err(e) => return Err(e),
        };
        let ghost before = out.deep_view();
        out.push(v);
        assert(out.deep_view() =~= before.push(v));
        assert forall|rest: Seq<Range>| before + (seq![v] + rest) =~= out.deep_view() + rest by {}
        i = i + 1;
    }
    assert(iv.skip(i as int) =~= Seq::<Json>::empty());
    assert(out.deep_view() + Seq::<Range>::empty() =~= out.deep_view());
    Ok(out)
}

pub fn get_ranges(o: &Vec<(String, JsonValue)>, key: &str) -> (r: Result<Vec<Range>, Error>)
    ensures
        agrees(r, field_ranges(entries_view(o@), key@)),
{
    match get(o, key) {
        Ok(JsonValue::Array(items)) => {
            proof {
                lemma_array_view(items);
            }
            read_ranges(items, key)
        },
        Ok(_) => Err(malformed(key, "an array")),
        Err(e) => Err(e),
    }
}

/// Decodes one source, dispatching on its `source-type` tag.
pub fn read_source(j: &JsonValue, key: &str) -> (r: Result<Source, Error>)
    ensures
        agrees(r, as_source(j@, key@)),
{
    match j {
        JsonValue::Object(o) => {
            proof {
                lemma_object_view(o);
            }
            let tag = match get_str(o, "source-type") {
                Ok(t) => t,
                Err(e) => return Err(e.within(key)),
            };
            if is_tag(&tag, "RAW") {
                match read_raw_source(o) {
                    Ok(s) => Ok(Source::Raw(s)),
                    Err(e) => Err(e.within(key)),
                }
            } else if is_tag(&tag, "IMPLIED") {
                match read_implied_source(o) {
                    Ok(s) => Ok(Source::Implied(s)),
                    Err(e) => Err(e.within(key)),
                }
            } else if is_tag(&tag, "WIDE") {
                match read_wide_source(o) {
                    Ok(s) => Ok(Source::Wide(s)),
                    Err(e) => Err(e.within(key)),
                }
            } else {
                Err(unknown("source-type", "one of RAW, IMPLIED, WIDE", &tag).within(key))
            }
        },
        _ => Err(malformed(key, "an object")),
    }
}

pub fn read_sources(items: &Vec<JsonValue>, key: &str) -> (r: Result<Vec<Source>, Error>)
    ensures
        agrees(r, sources_of(items_view(items@), key@)),
{
    let ghost iv = items_view(items@);
    let mut out: Vec<Source> = Vec::new();
    let mut i: usize = 0;
    assert(iv.skip(0) =~= iv);
    assert forall|rest: Seq<SourceModel>| out.deep_view() + rest =~= rest by {}
    while i < items.len()
        invariant
            i <= items@.len(),
            iv == items_view(items@),
            sources_of(iv, key@) == match sources_of(iv.skip(i as int), key@) {
                Err(k) => Err(k),
                Ok(rest) => Ok::<Seq<SourceModel>, Fault>(out.deep_view() + rest),
            },
        decreases items@.len() - i,
    {
        assert(iv.skip(i as int).drop_first() =~= iv.skip(i + 1));
        assert(iv.skip(i as int)[0] == iv[i as int]);
        let v = match read_source(&items[i], key) {
            Ok(v) => v,
            Err(e) => return Err(e),
        };
        let ghost before = out.deep_view();
        let ghost item = v.deep_view();
        out.push(v);
        assert(out.deep_view() =~= before.push(item));
        assert forall|rest: Seq<SourceModel>| before + (seq![item] + rest) =~= out.deep_view() + rest by {}
        i = i + 1;
    }
    assert(iv.skip(i as int) =~= Seq::<Json>::empty());
    assert(out.deep_view() + Seq::<SourceModel>::empty() =~= out.deep_view());
    Ok(out)
}

pub fn get_sources(o: &Vec<(String, JsonValue)>, key: &str) -> (r: Result<Vec<Source>, Error>)
    ensures
        agrees(r, field_sources(entries_view(o@), key@)),
{
    match get(o, key) {
        Ok(JsonValue::Array(items)) => {
            proof {
                lemma_array_view(items);
            }
            read_sources(items, key)
        },
        Ok(_) => Err(malformed(key, "an array")),
        Err(e) => Err(e),
    }
}

/// Decodes one field, dispatching on its `purpose` tag.
pub fn read_field(j: &JsonValue, key: &str) -> (r: Result<EtlField, Error>)
    ensures
        agrees(r, as_field(j@, key@)),
{
    match j {
        JsonValue::Object(o) => {
            proof {
                lemma_object_view(o);
            }
            let tag = match get_str(o, "purpose") {
                Ok(t) => t,
                Err(e) => return Err(e.within(key)),
            };
            let r = if is_tag(&tag, "subject") {
                match read_subject_field(o) {
                    Ok(f) => Ok(EtlField::Subject(f)),
                    Err(e) => Err(e),
                }
            } else if is_tag(&tag, "quality") {
                match read_quality_field(o) {
                    Ok(f) => Ok(EtlField::Quality(f)),
                    Err(e) => Err(e),
                }
            } else if is_tag(&tag, "mcomp") {
                match read_mcomp_field(o) {
                    Ok(f) => Ok(EtlField::MComp(f)),
                    Err(e) => Err(e),
                }
            } else if is_tag(&tag, "mspan") {
                match read_mspan_field(o) {
                    Ok(f) => Ok(EtlField::MSpan(f)),
                    Err(e) => Err(e),
                }
            } else if is_tag(&tag, "mvalue") {
                match read_mvalue_field(o) {
                    Ok(f) => Ok(EtlField::MValue(f)),
                    Err(e) => Err(e),
                }
            } else {
                Err(unknown("purpose", "one of subject, quality, mcomp, mspan, mvalue", &tag))
            };
            match r {
                Ok(f) => Ok(f),
                Err(e) => Err(e.within(key)),
            }
        },
        _ => Err(malformed(key, "an object")),
    }
}

/// Decodes one unit, dispatching on its `type` tag.
pub fn read_unit(j: &JsonValue, key: &str) -> (r: Result<EtlUnit, Error>)
    ensures
        agrees(r, as_unit(j@, key@)),
{
    match j {
        JsonValue::Object(o) => {
            proof {
                lemma_object_view(o);
            }
            let tag = match get_str(o, "type") {
                Ok(t) => t,
                Err(e) => return Err(e.within(key)),
            };
            let r = if is_tag(&tag, "quality") {
                match read_quality_unit(o) {
                    Ok(u) => Ok(EtlUnit::Quality(u)),
                    Err(e) => Err(e),
                }
            } else if is_tag(&tag, "mvalue") {
                match read_measurement_unit(o) {
                    Ok(u) => Ok(EtlUnit::Measurement(u)),
                    Err(e) => Err(e),
                }
            } else if is_tag(&tag, "subject") {
                match read_subject_unit(o) {
                    Ok(u) => Ok(EtlUnit::Subject(u)),
                    Err(e) => Err(e),
                }
            } else {
                Err(unknown("type", "one of quality, mvalue, subject", &tag))
            };
            match r {
                Ok(u) => Ok(u),
                Err(e) => Err(e.within(key)),
            }
        },
        _ => Err(malformed(key, "an object")),
    }
}

pub fn read_field_entries(o: &Vec<(String, JsonValue)>, key: &str) -> (r: Result<Vec<(String, EtlField)>, Error>)
    ensures
        agrees(r, field_entries(entries_view(o@), key@)),
{
    let ghost ev = entries_view(o@);
    let mut out: Vec<(String, EtlField)> = Vec::new();
    let mut i: usize = 0;
    assert(ev.skip(0) =~= ev);
    assert forall|rest: TableModel<EtlFieldModel>| out.deep_view() + rest =~= rest by {}
    while i < o.len()
        invariant
            i <= o@.len(),
            ev == entries_view(o@),
            field_entries(ev, key@) == match field_entries(ev.skip(i as int), key@) {
                Err(k) => Err(k),
                Ok(rest) => Ok::<TableModel<EtlFieldModel>, Fault>(out.deep_view() + rest),
            },
        decreases o@.len() - i,
    {
        assert(ev.skip(i as int).drop_first() =~= ev.skip(i + 1));
        assert(ev.skip(i as int)[0] == ev[i as int]);
        let v = match read_field(&o[i].1, o[i].0.as_str()) {
            Ok(v) => v,
            Err(e) => return Err(e.within(key)),
        };
        let name = o[i].0.clone();
        let ghost before = out.deep_view();
        let ghost item = (name@, v.deep_view());
        out.push((name, v));
        assert(out.deep_view() =~= before.push(item));
        assert forall|rest: TableModel<EtlFieldModel>| before + (seq![item] + rest) =~= out.deep_view() + rest by {}
        i = i + 1;
    }
    assert(ev.skip(i as int) =~= Seq::<(Seq<char>, Json)>::empty());
    assert(out.deep_view() + Seq::<(Seq<char>, EtlFieldModel)>::empty() =~= out.deep_view());
    Ok(out)
}

pub fn read_unit_entries(o: &Vec<(String, JsonValue)>, key: &str) -> (r: Result<Vec<(String, EtlUnit)>, Error>)
    ensures
        agrees(r, unit_entries(entries_view(o@), key@)),
{
    let ghost ev = entries_view(o@);
    let mut out: Vec<(String, EtlUnit)> = Vec::new();
    let mut i: usize = 0;
    assert(ev.skip(0) =~= ev);
    assert forall|rest: TableModel<EtlUnitModel>| out.deep_view() + rest =~= rest by {}
    while i < o.len()
        invariant
            i <= o@.len(),
            ev == entries_view(o@),
            unit_entries(ev, key@) == match unit_entries(ev.skip(i as int), key@) {
                Err(k) => Err(k),
                Ok(rest) => Ok::<TableModel<EtlUnitModel>, Fault>(out.deep_view() + rest),
            },
        decreases o@.len() - i,
    {
        assert(ev.skip(i as int).drop_first() =~= ev.skip(i + 1));
        assert(ev.skip(i as int)[0] == ev[i as int]);
        let v = match read_unit(&o[i].1, o[i].0.as_str()) {
            Ok(v) => v,
            Err(e) => return Err(e.within(key)),
        };
        let name = o[i].0.clone();
        let ghost before = out.deep_view();
        let ghost item = (name@, v.deep_view());
        out.push((name, v));
        assert(out.deep_view() =~= before.push(item));
        assert forall|rest: TableModel<EtlUnitModel>| before + (seq![item] + rest) =~= out.deep_view() + rest by {}
        i = i + 1;
    }
    assert(ev.skip(i as int) =~= Seq::<(Seq<char>, Json)>::empty());
    assert(out.deep_view() + Seq::<(Seq<char>, EtlUnitModel)>::empty() =~= out.deep_view());
    Ok(out)
}

/// Whether no two entries of `t` share a name.
pub fn names_unique<T: DeepView>(t: &Vec<(String, T)>) -> (r: bool)
    ensures
        r == keys_unique(t.deep_view()),
{
    let ghost dv = t.deep_view();
    let mut i: usize = 0;
    while i < t.len()
        invariant
            i <= dv.len(),
            dv == t.deep_view(),
            forall|a: int, b: int| 0 <= a < i && a < b < dv.len() ==> #[trigger] dv[a].0 != #[trigger] dv[b].0,
        decreases dv.len() - i,
    {
        let mut j: usize = i + 1;
        while j < t.len()
            invariant
                i < j <= dv.len(),
                dv == t.deep_view(),
                forall|a: int, b: int|
                    0 <= a < i && a < b < dv.len() ==> #[trigger] dv[a].0 != #[trigger] dv[b].0,
                forall|b: int| i < b < j ==> dv[i as int].0 != #[trigger] dv[b].0,
            decreases dv.len() - j,
        {
            if t[i].0 == t[j].0 {
                assert(dv[i as int].0 == dv[j as int].0);
                return false;
            }
            j = j + 1;
        }
        i = i + 1;
    }
    true
}

/// Decodes the configuration object from its JSON document tree.
pub fn decode_value(j: &JsonValue) -> (r: Result<EtlObject, Error>)
    ensures
        agrees(r, as_etl_object(j@)),
{
    match j {
        JsonValue::Object(o) => {
            proof {
                lemma_object_view(o);
            }
            let etl_fields = match get(o, "etlFields") {
                Ok(JsonValue::Object(e)) => {
                    proof {
                        lemma_object_view(e);
                    }
                    match read_field_entries(e, "etlFields") {
                        Ok(v) => v,
                        Err(err) => return Err(err),
                    }
                },
                Ok(_) => return Err(malformed("etlFields", "an object")),
                Err(err) => return Err(err),
            };
            let etl_units = match get(o, "etlUnits") {
                Ok(JsonValue::Object(e)) => {
                    proof {
                        lemma_object_view(e);
                    }
                    match read_unit_entries(e, "etlUnits") {
                        Ok(v) => v,
                        Err(err) => return Err(err),
                    }
                },
                Ok(_) => return Err(malformed("etlUnits", "an object")),
                Err(err) => return Err(err),
            };
            if !names_unique(&etl_fields) {
                return Err(malformed("etlFields", "each field name once"));
            }
            if !names_unique(&etl_units) {
                return Err(malformed("etlUnits", "each unit name once"));
            }
            Ok(EtlObject { etl_fields, etl_units })
        },
        _ => Err(malformed("", "an object")),
    }
}


impl EtlObject {
    /// Decodes the configuration object from its JSON document tree.
    pub fn from_json(j: &JsonValue) -> (r: Result<EtlObject, Error>)
        ensures
            agrees(r, as_etl_object(j@)),
    {
        decode_value(j)
    }
}

} // verus!
