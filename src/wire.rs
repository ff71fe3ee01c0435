//! The wire format, stated over the JSON model: what each JSON value
//! decodes to, or which error rejects it: its kind, the key path to the
//! offending value and the shape that was expected there.
use vstd::prelude::*;
use crate::error::{Error, Kind};
use crate::json::{Json, JsonValue};
use crate::model::{
    CodomainModel, EtlFieldModel, EtlObjectModel, EtlUnitMeasurementModel, EtlUnitModel,
    EtlUnitQualityModel, EtlUnitSubjectModel, IntervalModel, MCompFieldModel, MSpanFieldModel,
    MValueFieldModel, MapImpliedModel, QualityFieldModel, ReferenceModel, ScalarModel, SourceImpliedModel,
    SourceModel, SourceRawModel, SourceWideModel, SubjectFieldModel, TableModel, TimeModel,
};
use crate::number::decimal_u32;
use crate::schema::{Purpose, Range, Reducer};

verus! {

/// The model of the entries of a JSON object.
pub open spec fn entries_view(e: Seq<(String, JsonValue)>) -> Seq<(Seq<char>, Json)> {
    Seq::new(e.len(), |i: int| (e[i].0@, e[i].1@))
}

/// The model of the items of a JSON array.
pub open spec fn items_view(v: Seq<JsonValue>) -> Seq<Json> {
    Seq::new(v.len(), |i: int| v[i]@)
}

pub proof fn lemma_object_view(entries: &Vec<(String, JsonValue)>)
    ensures
        JsonValue::Object(*entries)@ == Json::Object(entries_view(entries@)),
{
    assert(JsonValue::Object(*entries)@->Object_0 =~= entries_view(entries@));
}

pub proof fn lemma_array_view(items: &Vec<JsonValue>)
    ensures
        JsonValue::Array(*items)@ == Json::Array(items_view(items@)),
{
    assert(JsonValue::Array(*items)@->Array_0 =~= items_view(items@));
}

/// Why a value is rejected: the kind of error, the path of keys from the
/// value that was being decoded to the offending one (separated by `/`),
/// and the shape that was expected there.
pub struct Fault {
    pub kind: Kind,
    pub key: Seq<char>,
    pub msg: Seq<char>,
}

pub open spec fn fault(kind: Kind, key: Seq<char>, msg: Seq<char>) -> Fault {
    Fault { kind, key, msg }
}

pub open spec fn malformed_at(key: Seq<char>, msg: Seq<char>) -> Fault {
    fault(Kind::MalformedData, key, msg)
}

/// The same fault, its key path now starting at `outer`.
pub open spec fn nested(f: Fault, outer: Seq<char>) -> Fault {
    Fault { key: outer + "/"@ + f.key, ..f }
}

/// An exec result agrees with a spec result: the same value, or an error of
/// the same kind, about the same key path, with the same message.
pub open spec fn agrees<T: DeepView>(r: Result<T, Error>, s: Result<T::V, Fault>) -> bool {
    match r {
        Ok(v) => s == Ok::<T::V, Fault>(v.deep_view()),
        Err(e) => s is Err && error_is(e, s->Err_0),
    }
}

/// An error says what a fault says: its kind, its key path and its message.
pub open spec fn error_is(e: Error, f: Fault) -> bool {
    e.kind == f.kind && e.key.deep_view() == Some(f.key) && e.msg.deep_view() == Some(f.msg)
}

/// The value of the first entry with the given key.
pub open spec fn lookup(o: Seq<(Seq<char>, Json)>, key: Seq<char>) -> Option<Json>
    decreases o.len(),
{
    if o.len() == 0 {
        None
    } else if o[0].0 == key {
        Some(o[0].1)
    } else {
        lookup(o.drop_first(), key)
    }
}

/// A key that the matched variant requires.
pub open spec fn required(o: Seq<(Seq<char>, Json)>, key: Seq<char>) -> Result<Json, Fault> {
    match lookup(o, key) {
        Some(v) => Ok(v),
        None => Err(fault(Kind::MissingParameter, key, "a required key is absent"@)),
    }
}

/// A key that may be absent; `null` counts as absent.
pub open spec fn optional(o: Seq<(Seq<char>, Json)>, key: Seq<char>) -> Option<Json> {
    match lookup(o, key) {
        Some(Json::Null) => None,
        Some(v) => Some(v),
        None => None,
    }
}

pub open spec fn as_u32(j: Json, key: Seq<char>) -> Result<u32, Fault> {
    match j {
        Json::Number(t) => match decimal_u32(t) {
            Some(n) => Ok(n),
            None => Err(malformed_at(key, "an integer from 0 to 4294967295"@)),
        },
        _ => Err(malformed_at(key, "an integer from 0 to 4294967295"@)),
    }
}

pub open spec fn as_str(j: Json, key: Seq<char>) -> Result<Seq<char>, Fault> {
    match j {
        Json::Str(s) => Ok(s),
        _ => Err(malformed_at(key, "a string"@)),
    }
}

pub open spec fn as_bool(j: Json, key: Seq<char>) -> Result<bool, Fault> {
    match j {
        Json::Bool(b) => Ok(b),
        _ => Err(malformed_at(key, "a boolean"@)),
    }
}

/// A JSON number, kept as written.
pub open spec fn as_number(j: Json, key: Seq<char>) -> Result<Seq<char>, Fault> {
    match j {
        Json::Number(t) => Ok(t),
        _ => Err(malformed_at(key, "a number"@)),
    }
}

/// A scalar: a boolean, a number or a string.
pub open spec fn as_scalar(j: Json, key: Seq<char>) -> Result<ScalarModel, Fault> {
    match j {
        Json::Bool(b) => Ok(ScalarModel::Bool(b)),
        Json::Number(t) => Ok(ScalarModel::Number(t)),
        Json::Str(s) => Ok(ScalarModel::Text(s)),
        _ => Err(malformed_at(key, "a boolean, a number or a string"@)),
    }
}

pub open spec fn reducer_of(s: Seq<char>) -> Option<Reducer> {
    if s == "FIRST"@ {
        Some(Reducer::FIRST)
    } else if s == "LAST"@ {
        Some(Reducer::LAST)
    } else if s == "AVG"@ {
        Some(Reducer::AVG)
    } else if s == "SUM"@ {
        Some(Reducer::SUM)
    } else if s == "MIN"@ {
        Some(Reducer::MIN)
    } else if s == "MAX"@ {
        Some(Reducer::MAX)
    } else {
        None
    }
}

pub open spec fn purpose_of(s: Seq<char>) -> Option<Purpose> {
    if s == "subject"@ {
        Some(Purpose::SUBJECT)
    } else if s == "quality"@ {
        Some(Purpose::QUALITY)
    } else if s == "mcomp"@ {
        Some(Purpose::MCOMP)
    } else if s == "mspan"@ {
        Some(Purpose::MSPAN)
    } else if s == "mvalue"@ {
        Some(Purpose::MVALUE)
    } else {
        None
    }
}

/// The message for an unknown tag: the tags expected, and the one found.
pub open spec fn unknown_tag(expected: Seq<char>, found: Seq<char>) -> Seq<char> {
    expected + ", not "@ + found
}

pub open spec fn as_reducer(j: Json, key: Seq<char>) -> Result<Reducer, Fault> {
    match j {
        Json::Str(s) => match reducer_of(s) {
            Some(r) => Ok(r),
            None => Err(malformed_at(key, unknown_tag("one of FIRST, LAST, AVG, SUM, MIN, MAX"@, s))),
        },
        _ => Err(malformed_at(key, "one of FIRST, LAST, AVG, SUM, MIN, MAX"@)),
    }
}

pub open spec fn as_purpose(j: Json, key: Seq<char>) -> Result<Purpose, Fault> {
    match j {
        Json::Str(s) => match purpose_of(s) {
            Some(p) => Ok(p),
            None => Err(
                malformed_at(key, unknown_tag("one of subject, quality, mcomp, mspan, mvalue"@, s)),
            ),
        },
        _ => Err(malformed_at(key, "one of subject, quality, mcomp, mspan, mvalue"@)),
    }
}

/// An integer is tried first, then a string: the shape of the JSON value
/// decides, never the text of a string.
pub open spec fn as_codomain(j: Json, key: Seq<char>) -> Result<CodomainModel, Fault> {
    match j {
        Json::Number(t) => match decimal_u32(t) {
            Some(n) => Ok(CodomainModel::Number(n)),
            None => Err(malformed_at(key, "an integer from 0 to 4294967295, or a string"@)),
        },
        Json::Str(s) => Ok(CodomainModel::Text(s)),
        _ => Err(malformed_at(key, "an integer from 0 to 4294967295, or a string"@)),
    }
}

pub open spec fn field_u32(o: Seq<(Seq<char>, Json)>, key: Seq<char>) -> Result<u32, Fault> {
    match required(o, key) {
        Ok(j) => as_u32(j, key),
        Err(f) => Err(f),
    }
}

pub open spec fn field_str(o: Seq<(Seq<char>, Json)>, key: Seq<char>) -> Result<Seq<char>, Fault> {
    match required(o, key) {
        Ok(j) => as_str(j, key),
        Err(f) => Err(f),
    }
}

pub open spec fn field_bool(o: Seq<(Seq<char>, Json)>, key: Seq<char>) -> Result<bool, Fault> {
    match required(o, key) {
        Ok(j) => as_bool(j, key),
        Err(f) => Err(f),
    }
}

pub open spec fn field_reducer(o: Seq<(Seq<char>, Json)>, key: Seq<char>) -> Result<Reducer, Fault> {
    match required(o, key) {
        Ok(j) => as_reducer(j, key),
        Err(f) => Err(f),
    }
}

pub open spec fn field_purpose(o: Seq<(Seq<char>, Json)>, key: Seq<char>) -> Result<Purpose, Fault> {
    match required(o, key) {
        Ok(j) => as_purpose(j, key),
        Err(f) => Err(f),
    }
}

pub open spec fn opt_str(o: Seq<(Seq<char>, Json)>, key: Seq<char>) -> Result<Option<Seq<char>>, Fault> {
    match optional(o, key) {
        None => Ok(None),
        Some(j) => match as_str(j, key) {
            Ok(v) => Ok(Some(v)),
            Err(f) => Err(f),
        },
    }
}

pub open spec fn opt_reducer(o: Seq<(Seq<char>, Json)>, key: Seq<char>) -> Result<Option<Reducer>, Fault> {
    match optional(o, key) {
        None => Ok(None),
        Some(j) => match as_reducer(j, key) {
            Ok(v) => Ok(Some(v)),
            Err(f) => Err(f),
        },
    }
}

pub open spec fn opt_scalar(o: Seq<(Seq<char>, Json)>, key: Seq<char>) -> Result<Option<ScalarModel>, Fault> {
    match optional(o, key) {
        None => Ok(None),
        Some(j) => match as_scalar(j, key) {
            Ok(v) => Ok(Some(v)),
            Err(f) => Err(f),
        },
    }
}

pub open spec fn strings_of(items: Seq<Json>, key: Seq<char>) -> Result<Seq<Seq<char>>, Fault>
    decreases items.len(),
{
    if items.len() == 0 {
        Ok(Seq::empty())
    } else {
        match as_str(items[0], key) {
            Err(f) => Err(f),
            Ok(v) => match strings_of(items.drop_first(), key) {
                Err(f) => Err(f),
                Ok(rest) => Ok(seq![v] + rest),
            },
        }
    }
}

/// A list of names; a single string stands for a list of one.
pub open spec fn as_names(j: Json, key: Seq<char>) -> Result<Seq<Seq<char>>, Fault> {
    match j {
        Json::Str(s) => Ok(seq![s]),
        Json::Array(items) => strings_of(items, key),
        _ => Err(malformed_at(key, "a name or a list of names"@)),
    }
}

pub open spec fn field_names(o: Seq<(Seq<char>, Json)>, key: Seq<char>) -> Result<Seq<Seq<char>>, Fault> {
    match required(o, key) {
        Ok(j) => as_names(j, key),
        Err(f) => Err(f),
    }
}

/// Entries whose values are strings; a fault names the entry.
pub open spec fn text_entries(e: Seq<(Seq<char>, Json)>, key: Seq<char>) -> Result<TableModel<Seq<char>>, Fault>
    decreases e.len(),
{
    if e.len() == 0 {
        Ok(Seq::empty())
    } else {
        match as_str(e[0].1, e[0].0) {
            Err(f) => Err(nested(f, key)),
            Ok(v) => match text_entries(e.drop_first(), key) {
                Err(f) => Err(f),
                Ok(rest) => Ok(seq![(e[0].0, v)] + rest),
            },
        }
    }
}

/// Entries whose values are numbers; a fault names the entry.
pub open spec fn number_entries(e: Seq<(Seq<char>, Json)>, key: Seq<char>) -> Result<TableModel<Seq<char>>, Fault>
    decreases e.len(),
{
    if e.len() == 0 {
        Ok(Seq::empty())
    } else {
        match as_number(e[0].1, e[0].0) {
            Err(f) => Err(nested(f, key)),
            Ok(v) => match number_entries(e.drop_first(), key) {
                Err(f) => Err(f),
                Ok(rest) => Ok(seq![(e[0].0, v)] + rest),
            },
        }
    }
}

pub open spec fn as_text_table(j: Json, key: Seq<char>) -> Result<TableModel<Seq<char>>, Fault> {
    match j {
        Json::Object(e) => text_entries(e, key),
        _ => Err(malformed_at(key, "an object of strings"@)),
    }
}

pub open spec fn as_number_table(j: Json, key: Seq<char>) -> Result<TableModel<Seq<char>>, Fault> {
    match j {
        Json::Object(e) => number_entries(e, key),
        _ => Err(malformed_at(key, "an object of numbers"@)),
    }
}

/// Entries whose values are tables of strings.
pub open spec fn text_table_entries(e: Seq<(Seq<char>, Json)>, key: Seq<char>) -> Result<TableModel<TableModel<Seq<char>>>, Fault>
    decreases e.len(),
{
    if e.len() == 0 {
        Ok(Seq::empty())
    } else {
        match as_text_table(e[0].1, e[0].0) {
            Err(f) => Err(nested(f, key)),
            Ok(v) => match text_table_entries(e.drop_first(), key) {
                Err(f) => Err(f),
                Ok(rest) => Ok(seq![(e[0].0, v)] + rest),
            },
        }
    }
}

/// Entries whose values are tables of numbers.
pub open spec fn number_table_entries(e: Seq<(Seq<char>, Json)>, key: Seq<char>) -> Result<TableModel<TableModel<Seq<char>>>, Fault>
    decreases e.len(),
{
    if e.len() == 0 {
        Ok(Seq::empty())
    } else {
        match as_number_table(e[0].1, e[0].0) {
            Err(f) => Err(nested(f, key)),
            Ok(v) => match number_table_entries(e.drop_first(), key) {
                Err(f) => Err(f),
                Ok(rest) => Ok(seq![(e[0].0, v)] + rest),
            },
        }
    }
}

/// A table of strings wrapped in an object under `arrows`.
pub open spec fn as_symbols(j: Json, key: Seq<char>) -> Result<TableModel<Seq<char>>, Fault> {
    match j {
        Json::Object(o) => match required(o, "arrows"@) {
            Ok(t) => match as_text_table(t, "arrows"@) {
                Ok(v) => Ok(v),
                Err(f) => Err(nested(f, key)),
            },
            Err(f) => Err(nested(f, key)),
        },
        _ => Err(malformed_at(key, "an object with arrows"@)),
    }
}

/// A table of numbers wrapped in an object under `arrows`.
pub open spec fn as_weights(j: Json, key: Seq<char>) -> Result<TableModel<Seq<char>>, Fault> {
    match j {
        Json::Object(o) => match required(o, "arrows"@) {
            Ok(t) => match as_number_table(t, "arrows"@) {
                Ok(v) => Ok(v),
                Err(f) => Err(nested(f, key)),
            },
            Err(f) => Err(nested(f, key)),
        },
        _ => Err(malformed_at(key, "an object with arrows"@)),
    }
}

pub open spec fn field_symbols(o: Seq<(Seq<char>, Json)>, key: Seq<char>) -> Result<TableModel<Seq<char>>, Fault> {
    match required(o, key) {
        Ok(j) => as_symbols(j, key),
        Err(f) => Err(f),
    }
}

pub open spec fn field_weights(o: Seq<(Seq<char>, Json)>, key: Seq<char>) -> Result<TableModel<Seq<char>>, Fault> {
    match required(o, key) {
        Ok(j) => as_weights(j, key),
        Err(f) => Err(f),
    }
}

pub open spec fn opt_weights(o: Seq<(Seq<char>, Json)>, key: Seq<char>) -> Result<Option<TableModel<Seq<char>>>, Fault> {
    match optional(o, key) {
        None => Ok(None),
        Some(j) => match as_weights(j, key) {
            Ok(v) => Ok(Some(v)),
            Err(f) => Err(f),
        },
    }
}

pub open spec fn opt_text_table(o: Seq<(Seq<char>, Json)>, key: Seq<char>) -> Result<Option<TableModel<Seq<char>>>, Fault> {
    match optional(o, key) {
        None => Ok(None),
        Some(j) => match as_text_table(j, key) {
            Ok(v) => Ok(Some(v)),
            Err(f) => Err(f),
        },
    }
}

pub open spec fn field_text_tables(o: Seq<(Seq<char>, Json)>, key: Seq<char>) -> Result<TableModel<TableModel<Seq<char>>>, Fault> {
    match required(o, key) {
        Ok(Json::Object(e)) => text_table_entries(e, key),
        Ok(_) => Err(malformed_at(key, "an object of tables"@)),
        Err(f) => Err(f),
    }
}

pub open spec fn opt_number_tables(o: Seq<(Seq<char>, Json)>, key: Seq<char>) -> Result<
    Option<TableModel<TableModel<Seq<char>>>>,
    Fault,
> {
    match optional(o, key) {
        None => Ok(None),
        Some(Json::Object(e)) => match number_table_entries(e, key) {
            Ok(t) => Ok(Some(t)),
            Err(f) => Err(f),
        },
        Some(_) => Err(malformed_at(key, "an object of tables"@)),
    }
}

pub open spec fn range_entries(o: Seq<(Seq<char>, Json)>) -> Result<Range, Fault> {
    let range_start = field_u32(o, "rangeStart"@);
    let range_length = field_u32(o, "rangeLength"@);
    let reduced = field_bool(o, "reduced"@);
    if range_start is Err {
        Err(range_start->Err_0)
    } else if range_length is Err {
        Err(range_length->Err_0)
    } else if reduced is Err {
        Err(reduced->Err_0)
    } else {
        Ok(Range {
            range_start: range_start->Ok_0,
            range_length: range_length->Ok_0,
            reduced: reduced->Ok_0,
        })
    }
}

pub open spec fn interval_entries(o: Seq<(Seq<char>, Json)>) -> Result<IntervalModel, Fault> {
    let unit = field_str(o, "unit"@);
    let count = field_u32(o, "count"@);
    if unit is Err {
        Err(unit->Err_0)
    } else if count is Err {
        Err(count->Err_0)
    } else {
        Ok(IntervalModel {
            unit: unit->Ok_0,
            count: count->Ok_0,
        })
    }
}

pub open spec fn reference_entries(o: Seq<(Seq<char>, Json)>) -> Result<ReferenceModel, Fault> {
    let idx = field_u32(o, "idx"@);
    let value = field_str(o, "value"@);
    let iso_format = field_str(o, "isoFormat"@);
    if idx is Err {
        Err(idx->Err_0)
    } else if value is Err {
        Err(value->Err_0)
    } else if iso_format is Err {
        Err(iso_format->Err_0)
    } else {
        Ok(ReferenceModel {
            idx: idx->Ok_0,
            value: value->Ok_0,
            iso_format: iso_format->Ok_0,
        })
    }
}

pub open spec fn time_entries(o: Seq<(Seq<char>, Json)>) -> Result<TimeModel, Fault> {
    let interval = field_interval(o, "interval"@);
    let reference = field_reference(o, "reference"@);
    if interval is Err {
        Err(interval->Err_0)
    } else if reference is Err {
        Err(reference->Err_0)
    } else {
        Ok(TimeModel {
            interval: interval->Ok_0,
            reference: reference->Ok_0,
        })
    }
}

pub open spec fn map_implied_entries(o: Seq<(Seq<char>, Json)>) -> Result<MapImpliedModel, Fault> {
    let domain = field_str(o, "domain"@);
    let codomain = field_codomain(o, "codomain"@);
    if domain is Err {
        Err(domain->Err_0)
    } else if codomain is Err {
        Err(codomain->Err_0)
    } else {
        Ok(MapImpliedModel {
            domain: domain->Ok_0,
            codomain: codomain->Ok_0,
        })
    }
}

pub open spec fn raw_source(o: Seq<(Seq<char>, Json)>) -> Result<SourceRawModel, Fault> {
    let enabled = field_bool(o, "enabled"@);
    let header_idx = field_u32(o, "header-idx"@);
    let header_name = opt_str(o, "header-name"@);
    let field_alias = field_str(o, "field-alias"@);
    let purpose = field_purpose(o, "purpose"@);
    let null_value = opt_scalar(o, "null-value"@);
    let format = opt_str(o, "format"@);
    let map_symbols = field_symbols(o, "map-symbols"@);
    let nlevels = field_u32(o, "nlevels"@);
    let nrows = field_u32(o, "nrows"@);
    let filename = field_str(o, "filename"@);
    let null_value_count = field_u32(o, "null-value-count"@);
    let codomain_reducer = opt_reducer(o, "codomain-reducer"@);
    let map_weights = opt_weights(o, "map-weights"@);
    if enabled is Err {
        Err(enabled->Err_0)
    } else if header_idx is Err {
        Err(header_idx->Err_0)
    } else if header_name is Err {
        Err(header_name->Err_0)
    } else if field_alias is Err {
        Err(field_alias->Err_0)
    } else if purpose is Err {
        Err(purpose->Err_0)
    } else if null_value is Err {
        Err(null_value->Err_0)
    } else if format is Err {
        Err(format->Err_0)
    } else if map_symbols is Err {
        Err(map_symbols->Err_0)
    } else if nlevels is Err {
        Err(nlevels->Err_0)
    } else if nrows is Err {
        Err(nrows->Err_0)
    } else if filename is Err {
        Err(filename->Err_0)
    } else if null_value_count is Err {
        Err(null_value_count->Err_0)
    } else if codomain_reducer is Err {
        Err(codomain_reducer->Err_0)
    } else if map_weights is Err {
        Err(map_weights->Err_0)
    } else {
        Ok(SourceRawModel {
            enabled: enabled->Ok_0,
            header_idx: header_idx->Ok_0,
            header_name: header_name->Ok_0,
            field_alias: field_alias->Ok_0,
            purpose: purpose->Ok_0,
            null_value: null_value->Ok_0,
            format: format->Ok_0,
            map_symbols: map_symbols->Ok_0,
            nlevels: nlevels->Ok_0,
            nrows: nrows->Ok_0,
            filename: filename->Ok_0,
            null_value_count: null_value_count->Ok_0,
            codomain_reducer: codomain_reducer->Ok_0,
            map_weights: map_weights->Ok_0,
        })
    }
}

pub open spec fn implied_source(o: Seq<(Seq<char>, Json)>) -> Result<SourceImpliedModel, Fault> {
    let enabled = field_bool(o, "enabled"@);
    let field_alias = field_str(o, "field-alias"@);
    let purpose = field_purpose(o, "purpose"@);
    let null_value = opt_scalar(o, "null-value"@);
    let format = opt_str(o, "format"@);
    let nlevels = field_u32(o, "nlevels"@);
    let filename = field_str(o, "filename"@);
    let map_implied = field_map_implied(o, "map-implied"@);
    let codomain_reducer = opt_reducer(o, "codomain-reducer"@);
    let slicing_reducer = opt_reducer(o, "slicing-reducer"@);
    let map_weights = opt_weights(o, "map-weights"@);
    if enabled is Err {
        Err(enabled->Err_0)
    } else if field_alias is Err {
        Err(field_alias->Err_0)
    } else if purpose is Err {
        Err(purpose->Err_0)
    } else if null_value is Err {
        Err(null_value->Err_0)
    } else if format is Err {
        Err(format->Err_0)
    } else if nlevels is Err {
        Err(nlevels->Err_0)
    } else if filename is Err {
        Err(filename->Err_0)
    } else if map_implied is Err {
        Err(map_implied->Err_0)
    } else if codomain_reducer is Err {
        Err(codomain_reducer->Err_0)
    } else if slicing_reducer is Err {
        Err(slicing_reducer->Err_0)
    } else if map_weights is Err {
        Err(map_weights->Err_0)
    } else {
        Ok(SourceImpliedModel {
            enabled: enabled->Ok_0,
            field_alias: field_alias->Ok_0,
            purpose: purpose->Ok_0,
            null_value: null_value->Ok_0,
            format: format->Ok_0,
            nlevels: nlevels->Ok_0,
            filename: filename->Ok_0,
            map_implied: map_implied->Ok_0,
            codomain_reducer: codomain_reducer->Ok_0,
            slicing_reducer: slicing_reducer->Ok_0,
            map_weights: map_weights->Ok_0,
        })
    }
}

pub open spec fn wide_source(o: Seq<(Seq<char>, Json)>) -> Result<SourceWideModel, Fault> {
    let enabled = field_bool(o, "enabled"@);
    let header_idx = field_u32(o, "header-idx"@);
    let default_name = field_str(o, "default-name"@);
    let field_alias = field_str(o, "field-alias"@);
    let purpose = field_purpose(o, "purpose"@);
    let null_value = opt_scalar(o, "null-value"@);
    let format = opt_str(o, "format"@);
    let map_symbols = field_symbols(o, "map-symbols"@);
    let nlevels = field_u32(o, "nlevels"@);
    let nrows = field_u32(o, "nrows"@);
    let filename = field_str(o, "filename"@);
    let null_value_count = field_u32(o, "null-value-count"@);
    let codomain_reducer = opt_reducer(o, "codomain-reducer"@);
    let map_weights = opt_weights(o, "map-weights"@);
    if enabled is Err {
        Err(enabled->Err_0)
    } else if header_idx is Err {
        Err(header_idx->Err_0)
    } else if default_name is Err {
        Err(default_name->Err_0)
    } else if field_alias is Err {
        Err(field_alias->Err_0)
    } else if purpose is Err {
        Err(purpose->Err_0)
    } else if null_value is Err {
        Err(null_value->Err_0)
    } else if format is Err {
        Err(format->Err_0)
    } else if map_symbols is Err {
        Err(map_symbols->Err_0)
    } else if nlevels is Err {
        Err(nlevels->Err_0)
    } else if nrows is Err {
        Err(nrows->Err_0)
    } else if filename is Err {
        Err(filename->Err_0)
    } else if null_value_count is Err {
        Err(null_value_count->Err_0)
    } else if codomain_reducer is Err {
        Err(codomain_reducer->Err_0)
    } else if map_weights is Err {
        Err(map_weights->Err_0)
    } else {
        Ok(SourceWideModel {
            enabled: enabled->Ok_0,
            header_idx: header_idx->Ok_0,
            default_name: default_name->Ok_0,
            field_alias: field_alias->Ok_0,
            purpose: purpose->Ok_0,
            null_value: null_value->Ok_0,
            format: format->Ok_0,
            map_symbols: map_symbols->Ok_0,
            nlevels: nlevels->Ok_0,
            nrows: nrows->Ok_0,
            filename: filename->Ok_0,
            null_value_count: null_value_count->Ok_0,
            codomain_reducer: codomain_reducer->Ok_0,
            map_weights: map_weights->Ok_0,
        })
    }
}

pub open spec fn subject_field(o: Seq<(Seq<char>, Json)>) -> Result<SubjectFieldModel, Fault> {
    let idx = field_u32(o, "idx"@);
    let name = field_str(o, "name"@);
    let format = opt_str(o, "format"@);
    let sources = field_sources(o, "sources"@);
    if idx is Err {
        Err(idx->Err_0)
    } else if name is Err {
        Err(name->Err_0)
    } else if format is Err {
        Err(format->Err_0)
    } else if sources is Err {
        Err(sources->Err_0)
    } else {
        Ok(SubjectFieldModel {
            idx: idx->Ok_0,
            name: name->Ok_0,
            format: format->Ok_0,
            sources: sources->Ok_0,
        })
    }
}

pub open spec fn quality_field(o: Seq<(Seq<char>, Json)>) -> Result<QualityFieldModel, Fault> {
    let idx = field_u32(o, "idx"@);
    let name = field_str(o, "name"@);
    let etl_unit = field_names(o, "etl-unit"@);
    let format = opt_str(o, "format"@);
    let null_value_expansion = opt_str(o, "null-value-expansion"@);
    let map_weights = field_weights(o, "map-weights"@);
    let map_files = opt_text_table(o, "map-files"@);
    let sources = field_sources(o, "sources"@);
    if idx is Err {
        Err(idx->Err_0)
    } else if name is Err {
        Err(name->Err_0)
    } else if etl_unit is Err {
        Err(etl_unit->Err_0)
    } else if format is Err {
        Err(format->Err_0)
    } else if null_value_expansion is Err {
        Err(null_value_expansion->Err_0)
    } else if map_weights is Err {
        Err(map_weights->Err_0)
    } else if map_files is Err {
        Err(map_files->Err_0)
    } else if sources is Err {
        Err(sources->Err_0)
    } else {
        Ok(QualityFieldModel {
            idx: idx->Ok_0,
            name: name->Ok_0,
            etl_unit: etl_unit->Ok_0,
            format: format->Ok_0,
            null_value_expansion: null_value_expansion->Ok_0,
            map_weights: map_weights->Ok_0,
            map_files: map_files->Ok_0,
            sources: sources->Ok_0,
        })
    }
}

pub open spec fn mcomp_field(o: Seq<(Seq<char>, Json)>) -> Result<MCompFieldModel, Fault> {
    let idx = field_u32(o, "idx"@);
    let name = field_str(o, "name"@);
    let etl_unit = field_names(o, "etl-unit"@);
    let format = opt_str(o, "format"@);
    let map_weights = field_weights(o, "map-weights"@);
    let map_files = opt_text_table(o, "map-files"@);
    let sources = field_sources(o, "sources"@);
    if idx is Err {
        Err(idx->Err_0)
    } else if name is Err {
        Err(name->Err_0)
    } else if etl_unit is Err {
        Err(etl_unit->Err_0)
    } else if format is Err {
        Err(format->Err_0)
    } else if map_weights is Err {
        Err(map_weights->Err_0)
    } else if map_files is Err {
        Err(map_files->Err_0)
    } else if sources is Err {
        Err(sources->Err_0)
    } else {
        Ok(MCompFieldModel {
            idx: idx->Ok_0,
            name: name->Ok_0,
            etl_unit: etl_unit->Ok_0,
            format: format->Ok_0,
            map_weights: map_weights->Ok_0,
            map_files: map_files->Ok_0,
            sources: sources->Ok_0,
        })
    }
}

pub open spec fn mspan_field(o: Seq<(Seq<char>, Json)>) -> Result<MSpanFieldModel, Fault> {
    let idx = field_u32(o, "idx"@);
    let name = field_str(o, "name"@);
    let etl_unit = field_names(o, "etl-unit"@);
    let format = opt_str(o, "format"@);
    let time = field_time(o, "time"@);
    let levels_mspan = field_ranges(o, "levels-mspan"@);
    let sources = field_sources(o, "sources"@);
    if idx is Err {
        Err(idx->Err_0)
    } else if name is Err {
        Err(name->Err_0)
    } else if etl_unit is Err {
        Err(etl_unit->Err_0)
    } else if format is Err {
        Err(format->Err_0)
    } else if time is Err {
        Err(time->Err_0)
    } else if levels_mspan is Err {
        Err(levels_mspan->Err_0)
    } else if sources is Err {
        Err(sources->Err_0)
    } else {
        Ok(MSpanFieldModel {
            idx: idx->Ok_0,
            name: name->Ok_0,
            etl_unit: etl_unit->Ok_0,
            format: format->Ok_0,
            time: time->Ok_0,
            levels_mspan: levels_mspan->Ok_0,
            sources: sources->Ok_0,
        })
    }
}

pub open spec fn mvalue_field(o: Seq<(Seq<char>, Json)>) -> Result<MValueFieldModel, Fault> {
    let idx = field_u32(o, "idx"@);
    let name = field_str(o, "name"@);
    let etl_unit = field_names(o, "etl-unit"@);
    let format = opt_str(o, "format"@);
    let null_value_expansion = opt_str(o, "null-value-expansion"@);
    let map_files = opt_text_table(o, "map-files"@);
    let map_weights = opt_number_tables(o, "map-weights"@);
    let map_symbols = field_text_tables(o, "map-symbols"@);
    let codomain_reducer = field_reducer(o, "codomain-reducer"@);
    let slicing_reducer = field_reducer(o, "slicing-reducer"@);
    let sources = field_sources(o, "sources"@);
    if idx is Err {
        Err(idx->Err_0)
    } else if name is Err {
        Err(name->Err_0)
    } else if etl_unit is Err {
        Err(etl_unit->Err_0)
    } else if format is Err {
        Err(format->Err_0)
    } else if null_value_expansion is Err {
        Err(null_value_expansion->Err_0)
    } else if map_files is Err {
        Err(map_files->Err_0)
    } else if map_weights is Err {
        Err(map_weights->Err_0)
    } else if map_symbols is Err {
        Err(map_symbols->Err_0)
    } else if codomain_reducer is Err {
        Err(codomain_reducer->Err_0)
    } else if slicing_reducer is Err {
        Err(slicing_reducer->Err_0)
    } else if sources is Err {
        Err(sources->Err_0)
    } else {
        Ok(MValueFieldModel {
            idx: idx->Ok_0,
            name: name->Ok_0,
            etl_unit: etl_unit->Ok_0,
            format: format->Ok_0,
            null_value_expansion: null_value_expansion->Ok_0,
            map_files: map_files->Ok_0,
            map_weights: map_weights->Ok_0,
            map_symbols: map_symbols->Ok_0,
            codomain_reducer: codomain_reducer->Ok_0,
            slicing_reducer: slicing_reducer->Ok_0,
            sources: sources->Ok_0,
        })
    }
}

pub open spec fn quality_unit(o: Seq<(Seq<char>, Json)>) -> Result<EtlUnitQualityModel, Fault> {
    let subject = field_str(o, "subject"@);
    let codomain = field_str(o, "codomain"@);
    let codomain_reducer = field_reducer(o, "codomain-reducer"@);
    if subject is Err {
        Err(subject->Err_0)
    } else if codomain is Err {
        Err(codomain->Err_0)
    } else if codomain_reducer is Err {
        Err(codomain_reducer->Err_0)
    } else {
        Ok(EtlUnitQualityModel {
            subject: subject->Ok_0,
            codomain: codomain->Ok_0,
            codomain_reducer: codomain_reducer->Ok_0,
        })
    }
}

pub open spec fn measurement_unit(o: Seq<(Seq<char>, Json)>) -> Result<EtlUnitMeasurementModel, Fault> {
    let subject = field_str(o, "subject"@);
    let codomain = field_str(o, "codomain"@);
    let codomain_reducer = field_reducer(o, "codomain-reducer"@);
    let mcomps = field_names(o, "mcomps"@);
    let mspan = field_str(o, "mspan"@);
    let slicing_reducer = field_reducer(o, "slicing-reducer"@);
    if subject is Err {
        Err(subject->Err_0)
    } else if codomain is Err {
        Err(codomain->Err_0)
    } else if codomain_reducer is Err {
        Err(codomain_reducer->Err_0)
    } else if mcomps is Err {
        Err(mcomps->Err_0)
    } else if mspan is Err {
        Err(mspan->Err_0)
    } else if slicing_reducer is Err {
        Err(slicing_reducer->Err_0)
    } else {
        Ok(EtlUnitMeasurementModel {
            subject: subject->Ok_0,
            codomain: codomain->Ok_0,
            codomain_reducer: codomain_reducer->Ok_0,
            mcomps: mcomps->Ok_0,
            mspan: mspan->Ok_0,
            slicing_reducer: slicing_reducer->Ok_0,
        })
    }
}

pub open spec fn subject_unit(o: Seq<(Seq<char>, Json)>) -> Result<EtlUnitSubjectModel, Fault> {
    let subject = field_str(o, "subject"@);
    let codomain = field_str(o, "codomain"@);
    if subject is Err {
        Err(subject->Err_0)
    } else if codomain is Err {
        Err(codomain->Err_0)
    } else {
        Ok(EtlUnitSubjectModel {
            subject: subject->Ok_0,
            codomain: codomain->Ok_0,
        })
    }
}


pub open spec fn field_interval(o: Seq<(Seq<char>, Json)>, key: Seq<char>) -> Result<IntervalModel, Fault> {
    match required(o, key) {
        Ok(Json::Object(e)) => match interval_entries(e) {
            Ok(v) => Ok(v),
            Err(f) => Err(nested(f, key)),
        },
        Ok(_) => Err(malformed_at(key, "an object"@)),
        Err(f) => Err(f),
    }
}

pub open spec fn field_reference(o: Seq<(Seq<char>, Json)>, key: Seq<char>) -> Result<ReferenceModel, Fault> {
    match required(o, key) {
        Ok(Json::Object(e)) => match reference_entries(e) {
            Ok(v) => Ok(v),
            Err(f) => Err(nested(f, key)),
        },
        Ok(_) => Err(malformed_at(key, "an object"@)),
        Err(f) => Err(f),
    }
}

pub open spec fn field_time(o: Seq<(Seq<char>, Json)>, key: Seq<char>) -> Result<TimeModel, Fault> {
    match required(o, key) {
        Ok(Json::Object(e)) => match time_entries(e) {
            Ok(v) => Ok(v),
            Err(f) => Err(nested(f, key)),
        },
        Ok(_) => Err(malformed_at(key, "an object"@)),
        Err(f) => Err(f),
    }
}

pub open spec fn field_map_implied(o: Seq<(Seq<char>, Json)>, key: Seq<char>) -> Result<MapImpliedModel, Fault> {
    match required(o, key) {
        Ok(Json::Object(e)) => match map_implied_entries(e) {
            Ok(v) => Ok(v),
            Err(f) => Err(nested(f, key)),
        },
        Ok(_) => Err(malformed_at(key, "an object"@)),
        Err(f) => Err(f),
    }
}

pub open spec fn field_codomain(o: Seq<(Seq<char>, Json)>, key: Seq<char>) -> Result<CodomainModel, Fault> {
    match required(o, key) {
        Ok(j) => as_codomain(j, key),
        Err(f) => Err(f),
    }
}

pub open spec fn as_range(j: Json, key: Seq<char>) -> Result<Range, Fault> {
    match j {
        Json::Object(o) => match range_entries(o) {
            Ok(v) => Ok(v),
            Err(f) => Err(nested(f, key)),
        },
        _ => Err(malformed_at(key, "an object"@)),
    }
}

pub open spec fn ranges_of(items: Seq<Json>, key: Seq<char>) -> Result<Seq<Range>, Fault>
    decreases items.len(),
{
    if items.len() == 0 {
        Ok(Seq::empty())
    } else {
        match as_range(items[0], key) {
            Err(f) => Err(f),
            Ok(v) => match ranges_of(items.drop_first(), key) {
                Err(f) => Err(f),
                Ok(rest) => Ok(seq![v] + rest),
            },
        }
    }
}

pub open spec fn field_ranges(o: Seq<(Seq<char>, Json)>, key: Seq<char>) -> Result<Seq<Range>, Fault> {
    match required(o, key) {
        Ok(Json::Array(items)) => ranges_of(items, key),
        Ok(_) => Err(malformed_at(key, "an array"@)),
        Err(f) => Err(f),
    }
}

/// A source, by its `source-type` tag; a fault is placed under `key`.
pub open spec fn as_source(j: Json, key: Seq<char>) -> Result<SourceModel, Fault> {
    match j {
        Json::Object(o) => match field_str(o, "source-type"@) {
            Err(f) => Err(nested(f, key)),
            Ok(tag) => if tag == "RAW"@ {
                match raw_source(o) {
                    Ok(v) => Ok(SourceModel::Raw(v)),
                    Err(f) => Err(nested(f, key)),
                }
            } else if tag == "IMPLIED"@ {
                match implied_source(o) {
                    Ok(v) => Ok(SourceModel::Implied(v)),
                    Err(f) => Err(nested(f, key)),
                }
            } else if tag == "WIDE"@ {
                match wide_source(o) {
                    Ok(v) => Ok(SourceModel::Wide(v)),
                    Err(f) => Err(nested(f, key)),
                }
            } else {
                Err(nested(malformed_at("source-type"@, unknown_tag("one of RAW, IMPLIED, WIDE"@, tag)), key))
            },
        },
        _ => Err(malformed_at(key, "an object"@)),
    }
}

pub open spec fn sources_of(items: Seq<Json>, key: Seq<char>) -> Result<Seq<SourceModel>, Fault>
    decreases items.len(),
{
    if items.len() == 0 {
        Ok(Seq::empty())
    } else {
        match as_source(items[0], key) {
            Err(f) => Err(f),
            Ok(v) => match sources_of(items.drop_first(), key) {
                Err(f) => Err(f),
                Ok(rest) => Ok(seq![v] + rest),
            },
        }
    }
}

pub open spec fn field_sources(o: Seq<(Seq<char>, Json)>, key: Seq<char>) -> Result<Seq<SourceModel>, Fault> {
    match required(o, key) {
        Ok(Json::Array(items)) => sources_of(items, key),
        Ok(_) => Err(malformed_at(key, "an array"@)),
        Err(f) => Err(f),
    }
}

/// A field, by its `purpose` tag; a fault is placed under `key`.
pub open spec fn as_field(j: Json, key: Seq<char>) -> Result<EtlFieldModel, Fault> {
    match j {
        Json::Object(o) => match field_str(o, "purpose"@) {
            Err(f) => Err(nested(f, key)),
            Ok(tag) => if tag == "subject"@ {
                match subject_field(o) {
                    Ok(v) => Ok(EtlFieldModel::Subject(v)),
                    Err(f) => Err(nested(f, key)),
                }
            } else if tag == "quality"@ {
                match quality_field(o) {
                    Ok(v) => Ok(EtlFieldModel::Quality(v)),
                    Err(f) => Err(nested(f, key)),
                }
            } else if tag == "mcomp"@ {
                match mcomp_field(o) {
                    Ok(v) => Ok(EtlFieldModel::MComp(v)),
                    Err(f) => Err(nested(f, key)),
                }
            } else if tag == "mspan"@ {
                match mspan_field(o) {
                    Ok(v) => Ok(EtlFieldModel::MSpan(v)),
                    Err(f) => Err(nested(f, key)),
                }
            } else if tag == "mvalue"@ {
                match mvalue_field(o) {
                    Ok(v) => Ok(EtlFieldModel::MValue(v)),
                    Err(f) => Err(nested(f, key)),
                }
            } else {
                Err(nested(malformed_at("purpose"@, unknown_tag("one of subject, quality, mcomp, mspan, mvalue"@, tag)), key))
            },
        },
        _ => Err(malformed_at(key, "an object"@)),
    }
}

/// A unit, by its `type` tag; a fault is placed under `key`.
pub open spec fn as_unit(j: Json, key: Seq<char>) -> Result<EtlUnitModel, Fault> {
    match j {
        Json::Object(o) => match field_str(o, "type"@) {
            Err(f) => Err(nested(f, key)),
            Ok(tag) => if tag == "quality"@ {
                match quality_unit(o) {
                    Ok(v) => Ok(EtlUnitModel::Quality(v)),
                    Err(f) => Err(nested(f, key)),
                }
            } else if tag == "mvalue"@ {
                match measurement_unit(o) {
                    Ok(v) => Ok(EtlUnitModel::Measurement(v)),
                    Err(f) => Err(nested(f, key)),
                }
            } else if tag == "subject"@ {
                match subject_unit(o) {
                    Ok(v) => Ok(EtlUnitModel::Subject(v)),
                    Err(f) => Err(nested(f, key)),
                }
            } else {
                Err(nested(malformed_at("type"@, unknown_tag("one of quality, mvalue, subject"@, tag)), key))
            },
        },
        _ => Err(malformed_at(key, "an object"@)),
    }
}

/// The fields, each under its name; a fault names the field.
pub open spec fn field_entries(e: Seq<(Seq<char>, Json)>, key: Seq<char>) -> Result<TableModel<EtlFieldModel>, Fault>
    decreases e.len(),
{
    if e.len() == 0 {
        Ok(Seq::empty())
    } else {
        match as_field(e[0].1, e[0].0) {
            Err(f) => Err(nested(f, key)),
            Ok(v) => match field_entries(e.drop_first(), key) {
                Err(f) => Err(f),
                Ok(rest) => Ok(seq![(e[0].0, v)] + rest),
            },
        }
    }
}

/// The units, each under its name; a fault names the unit.
pub open spec fn unit_entries(e: Seq<(Seq<char>, Json)>, key: Seq<char>) -> Result<TableModel<EtlUnitModel>, Fault>
    decreases e.len(),
{
    if e.len() == 0 {
        Ok(Seq::empty())
    } else {
        match as_unit(e[0].1, e[0].0) {
            Err(f) => Err(nested(f, key)),
            Ok(v) => match unit_entries(e.drop_first(), key) {
                Err(f) => Err(f),
                Ok(rest) => Ok(seq![(e[0].0, v)] + rest),
            },
        }
    }
}

/// No two entries of a table share a name.
pub open spec fn keys_unique<T>(t: TableModel<T>) -> bool {
    forall|i: int, j: int| 0 <= i < j < t.len() ==> #[trigger] t[i].0 != #[trigger] t[j].0
}

/// Fields and units are keyed by name, each name used once.
pub open spec fn well_formed(o: EtlObjectModel) -> bool {
    keys_unique(o.etl_fields) && keys_unique(o.etl_units)
}

/// The whole configuration object: `etlFields` and `etlUnits`, each name
/// used once.
pub open spec fn as_etl_object(j: Json) -> Result<EtlObjectModel, Fault> {
    match j {
        Json::Object(o) => {
            let fields = match required(o, "etlFields"@) {
                Ok(Json::Object(e)) => field_entries(e, "etlFields"@),
                Ok(_) => Err(malformed_at("etlFields"@, "an object"@)),
                Err(f) => Err(f),
            };
            let units = match required(o, "etlUnits"@) {
                Ok(Json::Object(e)) => unit_entries(e, "etlUnits"@),
                Ok(_) => Err(malformed_at("etlUnits"@, "an object"@)),
                Err(f) => Err(f),
            };
            if fields is Err {
                Err(fields->Err_0)
            } else if units is Err {
                Err(units->Err_0)
            } else if !keys_unique(fields->Ok_0) {
                Err(malformed_at("etlFields"@, "each field name once"@))
            } else if !keys_unique(units->Ok_0) {
                Err(malformed_at("etlUnits"@, "each unit name once"@))
            } else {
                Ok(EtlObjectModel { etl_fields: fields->Ok_0, etl_units: units->Ok_0 })
            }
        },
        _ => Err(malformed_at(""@, "an object"@)),
    }
}

} // verus!
