//! Encoding the configuration object as a JSON document tree, with the
//! keys and tags that the decoder reads.
use vstd::prelude::*;
use crate::json::{Json, JsonValue};
use crate::model::{
    CodomainModel, EtlFieldModel, EtlObjectModel, EtlUnitMeasurementModel, EtlUnitModel,
    EtlUnitQualityModel, EtlUnitSubjectModel, IntervalModel, MCompFieldModel, MSpanFieldModel,
    MValueFieldModel, MapImpliedModel, QualityFieldModel, ReferenceModel, ScalarModel, SourceImpliedModel,
    SourceModel, SourceRawModel, SourceWideModel, SubjectFieldModel, TableModel, TimeModel,
};
use crate::number::{decimal, decimal_string};
use crate::schema::{
    Codomain, EtlField, EtlObject, EtlUnit, EtlUnitMeasurement, EtlUnitQuality, EtlUnitSubject,
    Interval, MCompField, MSpanField, MValueField, MapImplied, MapWeights, Purpose, QualityField,
    Range, Reducer, Reference, Scalar, Source, SourceImplied, SourceRaw, SourceWide, SubjectField, Time,
};
use crate::wire::{entries_view, items_view, lemma_array_view, lemma_object_view};

verus! {

pub open spec fn enc_u32(n: u32) -> Json {
    Json::Number(decimal(n as nat))
}

pub open spec fn reducer_name(r: Reducer) -> Seq<char> {
    match r {
        Reducer::FIRST => "FIRST"@,
        Reducer::LAST => "LAST"@,
        Reducer::AVG => "AVG"@,
        Reducer::SUM => "SUM"@,
        Reducer::MIN => "MIN"@,
        Reducer::MAX => "MAX"@,
    }
}

pub open spec fn purpose_name(p: Purpose) -> Seq<char> {
    match p {
        Purpose::SUBJECT => "subject"@,
        Purpose::QUALITY => "quality"@,
        Purpose::MCOMP => "mcomp"@,
        Purpose::MSPAN => "mspan"@,
        Purpose::MVALUE => "mvalue"@,
    }
}

pub open spec fn enc_reducer(r: Reducer) -> Json {
    Json::Str(reducer_name(r))
}

pub open spec fn enc_purpose(p: Purpose) -> Json {
    Json::Str(purpose_name(p))
}

pub open spec fn enc_opt_str(o: Option<Seq<char>>) -> Json {
    match o {
        Some(s) => Json::Str(s),
        None => Json::Null,
    }
}

pub open spec fn enc_opt_reducer(o: Option<Reducer>) -> Json {
    match o {
        Some(r) => enc_reducer(r),
        None => Json::Null,
    }
}

pub open spec fn enc_opt_scalar(o: Option<ScalarModel>) -> Json {
    match o {
        Some(ScalarModel::Bool(b)) => Json::Bool(b),
        Some(ScalarModel::Number(t)) => Json::Number(t),
        Some(ScalarModel::Text(s)) => Json::Str(s),
        None => Json::Null,
    }
}

pub open spec fn enc_names(ns: Seq<Seq<char>>) -> Json {
    Json::Array(Seq::new(ns.len(), |i: int| Json::Str(ns[i])))
}

pub open spec fn enc_text_table(t: TableModel<Seq<char>>) -> Json {
    Json::Object(Seq::new(t.len(), |i: int| (t[i].0, Json::Str(t[i].1))))
}

pub open spec fn enc_number_table(t: TableModel<Seq<char>>) -> Json {
    Json::Object(Seq::new(t.len(), |i: int| (t[i].0, Json::Number(t[i].1))))
}

pub open spec fn enc_arrows_text(t: TableModel<Seq<char>>) -> Json {
    Json::Object(seq![("arrows"@, enc_text_table(t))])
}

pub open spec fn enc_arrows_number(t: TableModel<Seq<char>>) -> Json {
    Json::Object(seq![("arrows"@, enc_number_table(t))])
}

pub open spec fn enc_opt_arrows_number(o: Option<TableModel<Seq<char>>>) -> Json {
    match o {
        Some(t) => enc_arrows_number(t),
        None => Json::Null,
    }
}

pub open spec fn enc_opt_text_table(o: Option<TableModel<Seq<char>>>) -> Json {
    match o {
        Some(t) => enc_text_table(t),
        None => Json::Null,
    }
}

pub open spec fn enc_text_tables(tt: TableModel<TableModel<Seq<char>>>) -> Json {
    Json::Object(Seq::new(tt.len(), |i: int| (tt[i].0, enc_text_table(tt[i].1))))
}

pub open spec fn enc_number_tables(tt: TableModel<TableModel<Seq<char>>>) -> Json {
    Json::Object(Seq::new(tt.len(), |i: int| (tt[i].0, enc_number_table(tt[i].1))))
}

pub open spec fn enc_opt_number_tables(o: Option<TableModel<TableModel<Seq<char>>>>) -> Json {
    match o {
        Some(tt) => enc_number_tables(tt),
        None => Json::Null,
    }
}

pub open spec fn enc_codomain(c: CodomainModel) -> Json {
    match c {
        CodomainModel::Number(n) => enc_u32(n),
        CodomainModel::Text(s) => Json::Str(s),
    }
}

pub open spec fn enc_ranges(rs: Seq<Range>) -> Json {
    Json::Array(Seq::new(rs.len(), |i: int| Json::Object(enc_range(rs[i]))))
}

pub open spec fn enc_source(s: SourceModel) -> Json {
    match s {
        SourceModel::Raw(r) => Json::Object(enc_raw_source(r)),
        SourceModel::Implied(r) => Json::Object(enc_implied_source(r)),
        SourceModel::Wide(r) => Json::Object(enc_wide_source(r)),
    }
}

pub open spec fn enc_sources(ss: Seq<SourceModel>) -> Json {
    Json::Array(Seq::new(ss.len(), |i: int| enc_source(ss[i])))
}

pub open spec fn enc_field(f: EtlFieldModel) -> Json {
    match f {
        EtlFieldModel::Subject(x) => Json::Object(enc_subject_field(x)),
        EtlFieldModel::Quality(x) => Json::Object(enc_quality_field(x)),
        EtlFieldModel::MComp(x) => Json::Object(enc_mcomp_field(x)),
        EtlFieldModel::MSpan(x) => Json::Object(enc_mspan_field(x)),
        EtlFieldModel::MValue(x) => Json::Object(enc_mvalue_field(x)),
    }
}

pub open spec fn enc_unit(u: EtlUnitModel) -> Json {
    match u {
        EtlUnitModel::Quality(x) => Json::Object(enc_quality_unit(x)),
        EtlUnitModel::Measurement(x) => Json::Object(enc_measurement_unit(x)),
        EtlUnitModel::Subject(x) => Json::Object(enc_subject_unit(x)),
    }
}

pub open spec fn enc_fields(t: TableModel<EtlFieldModel>) -> Json {
    Json::Object(Seq::new(t.len(), |i: int| (t[i].0, enc_field(t[i].1))))
}

pub open spec fn enc_units(t: TableModel<EtlUnitModel>) -> Json {
    Json::Object(Seq::new(t.len(), |i: int| (t[i].0, enc_unit(t[i].1))))
}

/// The JSON document of a configuration object.
pub open spec fn enc_etl_object(m: EtlObjectModel) -> Json {
    Json::Object(
        Seq::empty().push(("etlFields"@, enc_fields(m.etl_fields))).push(
            ("etlUnits"@, enc_units(m.etl_units)),
        ),
    )
}
pub open spec fn enc_range(m: Range) -> Seq<(Seq<char>, Json)> {
    Seq::empty()
        .push(("rangeStart"@, enc_u32(m.range_start)))
        .push(("rangeLength"@, enc_u32(m.range_length)))
        .push(("reduced"@, Json::Bool(m.reduced)))
}

pub open spec fn enc_interval(m: IntervalModel) -> Seq<(Seq<char>, Json)> {
    Seq::empty()
        .push(("unit"@, Json::Str(m.unit)))
        .push(("count"@, enc_u32(m.count)))
}

pub open spec fn enc_reference(m: ReferenceModel) -> Seq<(Seq<char>, Json)> {
    Seq::empty()
        .push(("idx"@, enc_u32(m.idx)))
        .push(("value"@, Json::Str(m.value)))
        .push(("isoFormat"@, Json::Str(m.iso_format)))
}

pub open spec fn enc_time(m: TimeModel) -> Seq<(Seq<char>, Json)> {
    Seq::empty()
        .push(("interval"@, Json::Object(enc_interval(m.interval))))
        .push(("reference"@, Json::Object(enc_reference(m.reference))))
}

pub open spec fn enc_map_implied(m: MapImpliedModel) -> Seq<(Seq<char>, Json)> {
    Seq::empty()
        .push(("domain"@, Json::Str(m.domain)))
        .push(("codomain"@, enc_codomain(m.codomain)))
}

pub open spec fn enc_raw_source(m: SourceRawModel) -> Seq<(Seq<char>, Json)> {
    Seq::empty()
        .push(("source-type"@, Json::Str("RAW"@)))
        .push(("enabled"@, Json::Bool(m.enabled)))
        .push(("header-idx"@, enc_u32(m.header_idx)))
        .push(("header-name"@, enc_opt_str(m.header_name)))
        .push(("field-alias"@, Json::Str(m.field_alias)))
        .push(("purpose"@, enc_purpose(m.purpose)))
        .push(("null-value"@, enc_opt_scalar(m.null_value)))
        .push(("format"@, enc_opt_str(m.format)))
        .push(("map-symbols"@, enc_arrows_text(m.map_symbols)))
        .push(("nlevels"@, enc_u32(m.nlevels)))
        .push(("nrows"@, enc_u32(m.nrows)))
        .push(("filename"@, Json::Str(m.filename)))
        .push(("null-value-count"@, enc_u32(m.null_value_count)))
        .push(("codomain-reducer"@, enc_opt_reducer(m.codomain_reducer)))
        .push(("map-weights"@, enc_opt_arrows_number(m.map_weights)))
}

pub open spec fn enc_implied_source(m: SourceImpliedModel) -> Seq<(Seq<char>, Json)> {
    Seq::empty()
        .push(("source-type"@, Json::Str("IMPLIED"@)))
        .push(("enabled"@, Json::Bool(m.enabled)))
        .push(("field-alias"@, Json::Str(m.field_alias)))
        .push(("purpose"@, enc_purpose(m.purpose)))
        .push(("null-value"@, enc_opt_scalar(m.null_value)))
        .push(("format"@, enc_opt_str(m.format)))
        .push(("nlevels"@, enc_u32(m.nlevels)))
        .push(("filename"@, Json::Str(m.filename)))
        .push(("map-implied"@, Json::Object(enc_map_implied(m.map_implied))))
        .push(("codomain-reducer"@, enc_opt_reducer(m.codomain_reducer)))
        .push(("slicing-reducer"@, enc_opt_reducer(m.slicing_reducer)))
        .push(("map-weights"@, enc_opt_arrows_number(m.map_weights)))
}

pub open spec fn enc_wide_source(m: SourceWideModel) -> Seq<(Seq<char>, Json)> {
    Seq::empty()
        .push(("source-type"@, Json::Str("WIDE"@)))
        .push(("enabled"@, Json::Bool(m.enabled)))
        .push(("header-idx"@, enc_u32(m.header_idx)))
        .push(("default-name"@, Json::Str(m.default_name)))
        .push(("field-alias"@, Json::Str(m.field_alias)))
        .push(("purpose"@, enc_purpose(m.purpose)))
        .push(("null-value"@, enc_opt_scalar(m.null_value)))
        .push(("format"@, enc_opt_str(m.format)))
        .push(("map-symbols"@, enc_arrows_text(m.map_symbols)))
        .push(("nlevels"@, enc_u32(m.nlevels)))
        .push(("nrows"@, enc_u32(m.nrows)))
        .push(("filename"@, Json::Str(m.filename)))
        .push(("null-value-count"@, enc_u32(m.null_value_count)))
        .push(("codomain-reducer"@, enc_opt_reducer(m.codomain_reducer)))
        .push(("map-weights"@, enc_opt_arrows_number(m.map_weights)))
}

pub open spec fn enc_subject_field(m: SubjectFieldModel) -> Seq<(Seq<char>, Json)> {
    Seq::empty()
        .push(("purpose"@, Json::Str("subject"@)))
        .push(("idx"@, enc_u32(m.idx)))
        .push(("name"@, Json::Str(m.name)))
        .push(("format"@, enc_opt_str(m.format)))
        .push(("sources"@, enc_sources(m.sources)))
}

pub open spec fn enc_quality_field(m: QualityFieldModel) -> Seq<(Seq<char>, Json)> {
    Seq::empty()
        .push(("purpose"@, Json::Str("quality"@)))
        .push(("idx"@, enc_u32(m.idx)))
        .push(("name"@, Json::Str(m.name)))
        .push(("etl-unit"@, enc_names(m.etl_unit)))
        .push(("format"@, enc_opt_str(m.format)))
        .push(("null-value-expansion"@, enc_opt_str(m.null_value_expansion)))
        .push(("map-weights"@, enc_arrows_number(m.map_weights)))
        .push(("map-files"@, enc_opt_text_table(m.map_files)))
        .push(("sources"@, enc_sources(m.sources)))
}

pub open spec fn enc_mcomp_field(m: MCompFieldModel) -> Seq<(Seq<char>, Json)> {
    Seq::empty()
        .push(("purpose"@, Json::Str("mcomp"@)))
        .push(("idx"@, enc_u32(m.idx)))
        .push(("name"@, Json::Str(m.name)))
        .push(("etl-unit"@, enc_names(m.etl_unit)))
        .push(("format"@, enc_opt_str(m.format)))
        .push(("map-weights"@, enc_arrows_number(m.map_weights)))
        .push(("map-files"@, enc_opt_text_table(m.map_files)))
        .push(("sources"@, enc_sources(m.sources)))
}

pub open spec fn enc_mspan_field(m: MSpanFieldModel) -> Seq<(Seq<char>, Json)> {
    Seq::empty()
        .push(("purpose"@, Json::Str("mspan"@)))
        .push(("idx"@, enc_u32(m.idx)))
        .push(("name"@, Json::Str(m.name)))
        .push(("etl-unit"@, enc_names(m.etl_unit)))
        .push(("format"@, enc_opt_str(m.format)))
        .push(("time"@, Json::Object(enc_time(m.time))))
        .push(("levels-mspan"@, enc_ranges(m.levels_mspan)))
        .push(("sources"@, enc_sources(m.sources)))
}

pub open spec fn enc_mvalue_field(m: MValueFieldModel) -> Seq<(Seq<char>, Json)> {
    Seq::empty()
        .push(("purpose"@, Json::Str("mvalue"@)))
        .push(("idx"@, enc_u32(m.idx)))
        .push(("name"@, Json::Str(m.name)))
        .push(("etl-unit"@, enc_names(m.etl_unit)))
        .push(("format"@, enc_opt_str(m.format)))
        .push(("null-value-expansion"@, enc_opt_str(m.null_value_expansion)))
        .push(("map-files"@, enc_opt_text_table(m.map_files)))
        .push(("map-weights"@, enc_opt_number_tables(m.map_weights)))
        .push(("map-symbols"@, enc_text_tables(m.map_symbols)))
        .push(("codomain-reducer"@, enc_reducer(m.codomain_reducer)))
        .push(("slicing-reducer"@, enc_reducer(m.slicing_reducer)))
        .push(("sources"@, enc_sources(m.sources)))
}

pub open spec fn enc_quality_unit(m: EtlUnitQualityModel) -> Seq<(Seq<char>, Json)> {
    Seq::empty()
        .push(("type"@, Json::Str("quality"@)))
        .push(("subject"@, Json::Str(m.subject)))
        .push(("codomain"@, Json::Str(m.codomain)))
        .push(("codomain-reducer"@, enc_reducer(m.codomain_reducer)))
}

pub open spec fn enc_measurement_unit(m: EtlUnitMeasurementModel) -> Seq<(Seq<char>, Json)> {
    Seq::empty()
        .push(("type"@, Json::Str("mvalue"@)))
        .push(("subject"@, Json::Str(m.subject)))
        .push(("codomain"@, Json::Str(m.codomain)))
        .push(("codomain-reducer"@, enc_reducer(m.codomain_reducer)))
        .push(("mcomps"@, enc_names(m.mcomps)))
        .push(("mspan"@, Json::Str(m.mspan)))
        .push(("slicing-reducer"@, enc_reducer(m.slicing_reducer)))
}

pub open spec fn enc_subject_unit(m: EtlUnitSubjectModel) -> Seq<(Seq<char>, Json)> {
    Seq::empty()
        .push(("type"@, Json::Str("subject"@)))
        .push(("subject"@, Json::Str(m.subject)))
        .push(("codomain"@, Json::Str(m.codomain)))
}

pub fn write_u32(n: u32) -> (r: JsonValue)
    ensures
        r@ == enc_u32(n),
{
    JsonValue::Number(decimal_string(n as usize))
}

pub fn reducer_text(r: Reducer) -> (s: &'static str)
    ensures
        s@ == reducer_name(r),
{
    match r {
        Reducer::FIRST => "FIRST",
        Reducer::LAST => "LAST",
        Reducer::AVG => "AVG",
        Reducer::SUM => "SUM",
        Reducer::MIN => "MIN",
        Reducer::MAX => "MAX",
    }
}

pub fn purpose_text(p: Purpose) -> (s: &'static str)
    ensures
        s@ == purpose_name(p),
{
    match p {
        Purpose::SUBJECT => "subject",
        Purpose::QUALITY => "quality",
        Purpose::MCOMP => "mcomp",
        Purpose::MSPAN => "mspan",
        Purpose::MVALUE => "mvalue",
    }
}

pub fn write_reducer(r: Reducer) -> (j: JsonValue)
    ensures
        j@ == enc_reducer(r),
{
    JsonValue::Str(String::from_str(reducer_text(r)))
}

pub fn write_purpose(p: Purpose) -> (j: JsonValue)
    ensures
        j@ == enc_purpose(p),
{
    JsonValue::Str(String::from_str(purpose_text(p)))
}

pub fn write_opt_str(o: &Option<String>) -> (j: JsonValue)
    ensures
        j@ == enc_opt_str(o.deep_view()),
{
    match o {
        Some(s) => JsonValue::Str(s.clone()),
        None => JsonValue::Null,
    }
}

pub fn write_opt_reducer(o: Option<Reducer>) -> (j: JsonValue)
    ensures
        j@ == enc_opt_reducer(o),
{
    match o {
        Some(r) => write_reducer(r),
        None => JsonValue::Null,
    }
}

pub fn write_opt_scalar(o: &Option<Scalar>) -> (j: JsonValue)
    ensures
        j@ == enc_opt_scalar(o.deep_view()),
{
    match o {
        Some(Scalar::Bool(b)) => JsonValue::Bool(*b),
        Some(Scalar::Number(t)) => JsonValue::Number(t.clone()),
        Some(Scalar::Text(s)) => JsonValue::Str(s.clone()),
        None => JsonValue::Null,
    }
}

pub fn write_arrows_text(t: &Vec<(String, String)>) -> (j: JsonValue)
    ensures
        j@ == enc_arrows_text(t.deep_view()),
{
    let mut e: Vec<(String, JsonValue)> = Vec::new();
    e.push((String::from_str("arrows"), write_text_table(t)));
    proof {
        lemma_object_view(&e);
    }
    assert(entries_view(e@) =~= enc_arrows_text(t.deep_view())->Object_0);
    JsonValue::Object(e)
}

pub fn write_arrows_number(t: &Vec<(String, String)>) -> (j: JsonValue)
    ensures
        j@ == enc_arrows_number(t.deep_view()),
{
    let mut e: Vec<(String, JsonValue)> = Vec::new();
    e.push((String::from_str("arrows"), write_number_table(t)));
    proof {
        lemma_object_view(&e);
    }
    assert(entries_view(e@) =~= enc_arrows_number(t.deep_view())->Object_0);
    JsonValue::Object(e)
}

pub fn write_opt_arrows_number(o: &Option<MapWeights>) -> (j: JsonValue)
    ensures
        j@ == enc_opt_arrows_number(o.deep_view()),
{
    match o {
        Some(w) => write_arrows_number(&w.arrows),
        None => JsonValue::Null,
    }
}

pub fn write_opt_text_table(o: &Option<Vec<(String, String)>>) -> (j: JsonValue)
    ensures
        j@ == enc_opt_text_table(o.deep_view()),
{
    match o {
        Some(t) => write_text_table(t),
        None => JsonValue::Null,
    }
}

pub fn write_opt_number_tables(o: &Option<Vec<(String, Vec<(String, String)>)>>) -> (j: JsonValue)
    ensures
        j@ == enc_opt_number_tables(o.deep_view()),
{
    match o {
        Some(t) => write_number_tables(t),
        None => JsonValue::Null,
    }
}

pub fn write_codomain(c: &Codomain) -> (j: JsonValue)
    ensures
        j@ == enc_codomain(c.deep_view()),
{
    match c {
        Codomain::Number(n) => write_u32(*n),
        Codomain::Text(s) => JsonValue::Str(s.clone()),
    }
}

pub fn write_source(s: &Source) -> (j: JsonValue)
    ensures
        j@ == enc_source(s.deep_view()),
{
    match s {
        Source::Raw(x) => write_raw_source(x),
        Source::Implied(x) => write_implied_source(x),
        Source::Wide(x) => write_wide_source(x),
    }
}

pub fn write_field(f: &EtlField) -> (j: JsonValue)
    ensures
        j@ == enc_field(f.deep_view()),
{
    match f {
        EtlField::Subject(x) => write_subject_field(x),
        EtlField::Quality(x) => write_quality_field(x),
        EtlField::MComp(x) => write_mcomp_field(x),
        EtlField::MSpan(x) => write_mspan_field(x),
        EtlField::MValue(x) => write_mvalue_field(x),
    }
}

pub fn write_unit(u: &EtlUnit) -> (j: JsonValue)
    ensures
        j@ == enc_unit(u.deep_view()),
{
    match u {
        EtlUnit::Quality(x) => write_quality_unit(x),
        EtlUnit::Measurement(x) => write_measurement_unit(x),
        EtlUnit::Subject(x) => write_subject_unit(x),
    }
}

/// Encodes the configuration object as its JSON document tree.
pub fn encode_value(o: &EtlObject) -> (j: JsonValue)
    ensures
        j@ == enc_etl_object(o.deep_view()),
{
    let mut e: Vec<(String, JsonValue)> = Vec::new();
    e.push((String::from_str("etlFields"), write_fields(&o.etl_fields)));
    e.push((String::from_str("etlUnits"), write_units(&o.etl_units)));
    proof {
        lemma_object_view(&e);
    }
    assert(entries_view(e@) =~= enc_etl_object(o.deep_view())->Object_0);
    JsonValue::Object(e)
}

pub fn write_names(v: &Vec<String>) -> (r: JsonValue)
    ensures
        r@ == enc_names(v.deep_view()),
{
    let ghost dv = v.deep_view();
    let mut out: Vec<JsonValue> = Vec::new();
    let mut i: usize = 0;
    while i < v.len()
        invariant
            i <= v@.len(),
            dv == v.deep_view(),
            out@.len() == i,
            forall|k: int| 0 <= k < i ==> #[trigger] out@[k]@ == Json::Str(dv[k]),
        decreases v@.len() - i,
    {
        let x = JsonValue::Str(v[i].clone());
        out.push(x);
        i = i + 1;
    }
    proof {
        lemma_array_view(&out);
    }
    assert(items_view(out@) =~= enc_names(dv)->Array_0);
    JsonValue::Array(out)
}

pub fn write_ranges(v: &Vec<Range>) -> (r: JsonValue)
    ensures
        r@ == enc_ranges(v.deep_view()),
{
    let ghost dv = v.deep_view();
    let mut out: Vec<JsonValue> = Vec::new();
    let mut i: usize = 0;
    while i < v.len()
        invariant
            i <= v@.len(),
            dv == v.deep_view(),
            out@.len() == i,
            forall|k: int| 0 <= k < i ==> #[trigger] out@[k]@ == Json::Object(enc_range(dv[k])),
        decreases v@.len() - i,
    {
        let x = write_range(&v[i]);
        out.push(x);
        i = i + 1;
    }
    proof {
        lemma_array_view(&out);
    }
    assert(items_view(out@) =~= enc_ranges(dv)->Array_0);
    JsonValue::Array(out)
}

pub fn write_sources(v: &Vec<Source>) -> (r: JsonValue)
    ensures
        r@ == enc_sources(v.deep_view()),
{
    let ghost dv = v.deep_view();
    let mut out: Vec<JsonValue> = Vec::new();
    let mut i: usize = 0;
    while i < v.len()
        invariant
            i <= v@.len(),
            dv == v.deep_view(),
            out@.len() == i,
            forall|k: int| 0 <= k < i ==> #[trigger] out@[k]@ == enc_source(dv[k]),
        decreases v@.len() - i,
    {
        let x = write_source(&v[i]);
        out.push(x);
        i = i + 1;
    }
    proof {
        lemma_array_view(&out);
    }
    assert(items_view(out@) =~= enc_sources(dv)->Array_0);
    JsonValue::Array(out)
}

pub fn write_text_table(v: &Vec<(String, String)>) -> (r: JsonValue)
    ensures
        r@ == enc_text_table(v.deep_view()),
{
    let ghost dv = v.deep_view();
    let mut out: Vec<(String, JsonValue)> = Vec::new();
    let mut i: usize = 0;
    while i < v.len()
        invariant
            i <= v@.len(),
            dv == v.deep_view(),
            out@.len() == i,
            forall|k: int| 0 <= k < i ==> #[trigger] out@[k].0@ == dv[k].0 && out@[k].1@ == Json::Str(dv[k].1),
        decreases v@.len() - i,
    {
        let x = JsonValue::Str(v[i].1.clone());
        out.push((v[i].0.clone(), x));
        i = i + 1;
    }
    proof {
        lemma_object_view(&out);
    }
    assert(entries_view(out@) =~= enc_text_table(dv)->Object_0);
    JsonValue::Object(out)
}

pub fn write_number_table(v: &Vec<(String, String)>) -> (r: JsonValue)
    ensures
        r@ == enc_number_table(v.deep_view()),
{
    let ghost dv = v.deep_view();
    let mut out: Vec<(String, JsonValue)> = Vec::new();
    let mut i: usize = 0;
    while i < v.len()
        invariant
            i <= v@.len(),
            dv == v.deep_view(),
            out@.len() == i,
            forall|k: int| 0 <= k < i ==> #[trigger] out@[k].0@ == dv[k].0 && out@[k].1@ == Json::Number(dv[k].1),
        decreases v@.len() - i,
    {
        let x = JsonValue::Number(v[i].1.clone());
        out.push((v[i].0.clone(), x));
        i = i + 1;
    }
    proof {
        lemma_object_view(&out);
    }
    assert(entries_view(out@) =~= enc_number_table(dv)->Object_0);
    JsonValue::Object(out)
}

pub fn write_text_tables(v: &Vec<(String, Vec<(String, String)>)>) -> (r: JsonValue)
    ensures
        r@ == enc_text_tables(v.deep_view()),
{
    let ghost dv = v.deep_view();
    let mut out: Vec<(String, JsonValue)> = Vec::new();
    let mut i: usize = 0;
    while i < v.len()
        invariant
            i <= v@.len(),
            dv == v.deep_view(),
            out@.len() == i,
            forall|k: int| 0 <= k < i ==> #[trigger] out@[k].0@ == dv[k].0 && out@[k].1@ == enc_text_table(dv[k].1),
        decreases v@.len() - i,
    {
        let x = write_text_table(&v[i].1);
        out.push((v[i].0.clone(), x));
        i = i + 1;
    }
    proof {
        lemma_object_view(&out);
    }
    assert(entries_view(out@) =~= enc_text_tables(dv)->Object_0);
    JsonValue::Object(out)
}

pub fn write_number_tables(v: &Vec<(String, Vec<(String, String)>)>) -> (r: JsonValue)
    ensures
        r@ == enc_number_tables(v.deep_view()),
{
    let ghost dv = v.deep_view();
    let mut out: Vec<(String, JsonValue)> = Vec::new();
    let mut i: usize = 0;
    while i < v.len()
        invariant
            i <= v@.len(),
            dv == v.deep_view(),
            out@.len() == i,
            forall|k: int| 0 <= k < i ==> #[trigger] out@[k].0@ == dv[k].0 && out@[k].1@ == enc_number_table(dv[k].1),
        decreases v@.len() - i,
    {
        let x = write_number_table(&v[i].1);
        out.push((v[i].0.clone(), x));
        i = i + 1;
    }
    proof {
        lemma_object_view(&out);
    }
    assert(entries_view(out@) =~= enc_number_tables(dv)->Object_0);
    JsonValue::Object(out)
}

pub fn write_fields(v: &Vec<(String, EtlField)>) -> (r: JsonValue)
    ensures
        r@ == enc_fields(v.deep_view()),
{
    let ghost dv = v.deep_view();
    let mut out: Vec<(String, JsonValue)> = Vec::new();
    let mut i: usize = 0;
    while i < v.len()
        invariant
            i <= v@.len(),
            dv == v.deep_view(),
            out@.len() == i,
            forall|k: int| 0 <= k < i ==> #[trigger] out@[k].0@ == dv[k].0 && out@[k].1@ == enc_field(dv[k].1),
        decreases v@.len() - i,
    {
        let x = write_field(&v[i].1);
        out.push((v[i].0.clone(), x));
        i = i + 1;
    }
    proof {
        lemma_object_view(&out);
    }
    assert(entries_view(out@) =~= enc_fields(dv)->Object_0);
    JsonValue::Object(out)
}

pub fn write_units(v: &Vec<(String, EtlUnit)>) -> (r: JsonValue)
    ensures
        r@ == enc_units(v.deep_view()),
{
    let ghost dv = v.deep_view();
    let mut out: Vec<(String, JsonValue)> = Vec::new();
    let mut i: usize = 0;
    while i < v.len()
        invariant
            i <= v@.len(),
            dv == v.deep_view(),
            out@.len() == i,
            forall|k: int| 0 <= k < i ==> #[trigger] out@[k].0@ == dv[k].0 && out@[k].1@ == enc_unit(dv[k].1),
        decreases v@.len() - i,
    {
        let x = write_unit(&v[i].1);
        out.push((v[i].0.clone(), x));
        i = i + 1;
    }
    proof {
        lemma_object_view(&out);
    }
    assert(entries_view(out@) =~= enc_units(dv)->Object_0);
    JsonValue::Object(out)
}
pub fn write_range(v: &Range) -> (r: JsonValue)
    ensures
        r@ == Json::Object(enc_range(v.deep_view())),
{
    let mut e: Vec<(String, JsonValue)> = Vec::new();
    e.push((String::from_str("rangeStart"), write_u32(v.range_start)));
    e.push((String::from_str("rangeLength"), write_u32(v.range_length)));
    e.push((String::from_str("reduced"), JsonValue::Bool(v.reduced)));
    proof {
        lemma_object_view(&e);
    }
    assert(entries_view(e@) =~= enc_range(v.deep_view()));
    JsonValue::Object(e)
}

pub fn write_interval(v: &Interval) -> (r: JsonValue)
    ensures
        r@ == Json::Object(enc_interval(v.deep_view())),
{
    let mut e: Vec<(String, JsonValue)> = Vec::new();
    e.push((String::from_str("unit"), JsonValue::Str(v.unit.clone())));
    e.push((String::from_str("count"), write_u32(v.count)));
    proof {
        lemma_object_view(&e);
    }
    assert(entries_view(e@) =~= enc_interval(v.deep_view()));
    JsonValue::Object(e)
}

pub fn write_reference(v: &Reference) -> (r: JsonValue)
    ensures
        r@ == Json::Object(enc_reference(v.deep_view())),
{
    let mut e: Vec<(String, JsonValue)> = Vec::new();
    e.push((String::from_str("idx"), write_u32(v.idx)));
    e.push((String::from_str("value"), JsonValue::Str(v.value.clone())));
    e.push((String::from_str("isoFormat"), JsonValue::Str(v.iso_format.clone())));
    proof {
        lemma_object_view(&e);
    }
    assert(entries_view(e@) =~= enc_reference(v.deep_view()));
    JsonValue::Object(e)
}

pub fn write_time(v: &Time) -> (r: JsonValue)
    ensures
        r@ == Json::Object(enc_time(v.deep_view())),
{
    let mut e: Vec<(String, JsonValue)> = Vec::new();
    e.push((String::from_str("interval"), write_interval(&v.interval)));
    e.push((String::from_str("reference"), write_reference(&v.reference)));
    proof {
        lemma_object_view(&e);
    }
    assert(entries_view(e@) =~= enc_time(v.deep_view()));
    JsonValue::Object(e)
}

pub fn write_map_implied(v: &MapImplied) -> (r: JsonValue)
    ensures
        r@ == Json::Object(enc_map_implied(v.deep_view())),
{
    let mut e: Vec<(String, JsonValue)> = Vec::new();
    e.push((String::from_str("domain"), JsonValue::Str(v.domain.clone())));
    e.push((String::from_str("codomain"), write_codomain(&v.codomain)));
    proof {
        lemma_object_view(&e);
    }
    assert(entries_view(e@) =~= enc_map_implied(v.deep_view()));
    JsonValue::Object(e)
}

pub fn write_raw_source(v: &SourceRaw) -> (r: JsonValue)
    ensures
        r@ == Json::Object(enc_raw_source(v.deep_view())),
{
    let mut e: Vec<(String, JsonValue)> = Vec::new();
    e.push((String::from_str("source-type"), JsonValue::Str(String::from_str("RAW"))));
    e.push((String::from_str("enabled"), JsonValue::Bool(v.enabled)));
    e.push((String::from_str("header-idx"), write_u32(v.header_idx)));
    e.push((String::from_str("header-name"), write_opt_str(&v.header_name)));
    e.push((String::from_str("field-alias"), JsonValue::Str(v.field_alias.clone())));
    e.push((String::from_str("purpose"), write_purpose(v.purpose)));
    e.push((String::from_str("null-value"), write_opt_scalar(&v.null_value)));
    e.push((String::from_str("format"), write_opt_str(&v.format)));
    e.push((String::from_str("map-symbols"), write_arrows_text(&v.map_symbols.arrows)));
    e.push((String::from_str("nlevels"), write_u32(v.nlevels)));
    e.push((String::from_str("nrows"), write_u32(v.nrows)));
    e.push((String::from_str("filename"), JsonValue::Str(v.filename.clone())));
    e.push((String::from_str("null-value-count"), write_u32(v.null_value_count)));
    e.push((String::from_str("codomain-reducer"), write_opt_reducer(v.codomain_reducer)));
    e.push((String::from_str("map-weights"), write_opt_arrows_number(&v.map_weights)));
    proof {
        lemma_object_view(&e);
    }
    assert(entries_view(e@) =~= enc_raw_source(v.deep_view()));
    JsonValue::Object(e)
}

pub fn write_implied_source(v: &SourceImplied) -> (r: JsonValue)
    ensures
        r@ == Json::Object(enc_implied_source(v.deep_view())),
{
    let mut e: Vec<(String, JsonValue)> = Vec::new();
    e.push((String::from_str("source-type"), JsonValue::Str(String::from_str("IMPLIED"))));
    e.push((String::from_str("enabled"), JsonValue::Bool(v.enabled)));
    e.push((String::from_str("field-alias"), JsonValue::Str(v.field_alias.clone())));
    e.push((String::from_str("purpose"), write_purpose(v.purpose)));
    e.push((String::from_str("null-value"), write_opt_scalar(&v.null_value)));
    e.push((String::from_str("format"), write_opt_str(&v.format)));
    e.push((String::from_str("nlevels"), write_u32(v.nlevels)));
    e.push((String::from_str("filename"), JsonValue::Str(v.filename.clone())));
    e.push((String::from_str("map-implied"), write_map_implied(&v.map_implied)));
    e.push((String::from_str("codomain-reducer"), write_opt_reducer(v.codomain_reducer)));
    e.push((String::from_str("slicing-reducer"), write_opt_reducer(v.slicing_reducer)));
    e.push((String::from_str("map-weights"), write_opt_arrows_number(&v.map_weights)));
    proof {
        lemma_object_view(&e);
    }
    assert(entries_view(e@) =~= enc_implied_source(v.deep_view()));
    JsonValue::Object(e)
}

pub fn write_wide_source(v: &SourceWide) -> (r: JsonValue)
    ensures
        r@ == Json::Object(enc_wide_source(v.deep_view())),
{
    let mut e: Vec<(String, JsonValue)> = Vec::new();
    e.push((String::from_str("source-type"), JsonValue::Str(String::from_str("WIDE"))));
    e.push((String::from_str("enabled"), JsonValue::Bool(v.enabled)));
    e.push((String::from_str("header-idx"), write_u32(v.header_idx)));
    e.push((String::from_str("default-name"), JsonValue::Str(v.default_name.clone())));
    e.push((String::from_str("field-alias"), JsonValue::Str(v.field_alias.clone())));
    e.push((String::from_str("purpose"), write_purpose(v.purpose)));
    e.push((String::from_str("null-value"), write_opt_scalar(&v.null_value)));
    e.push((String::from_str("format"), write_opt_str(&v.format)));
    e.push((String::from_str("map-symbols"), write_arrows_text(&v.map_symbols.arrows)));
    e.push((String::from_str("nlevels"), write_u32(v.nlevels)));
    e.push((String::from_str("nrows"), write_u32(v.nrows)));
    e.push((String::from_str("filename"), JsonValue::Str(v.filename.clone())));
    e.push((String::from_str("null-value-count"), write_u32(v.null_value_count)));
    e.push((String::from_str("codomain-reducer"), write_opt_reducer(v.codomain_reducer)));
    e.push((String::from_str("map-weights"), write_opt_arrows_number(&v.map_weights)));
    proof {
        lemma_object_view(&e);
    }
    assert(entries_view(e@) =~= enc_wide_source(v.deep_view()));
    JsonValue::Object(e)
}

pub fn write_subject_field(v: &SubjectField) -> (r: JsonValue)
    ensures
        r@ == Json::Object(enc_subject_field(v.deep_view())),
{
    let mut e: Vec<(String, JsonValue)> = Vec::new();
    e.push((String::from_str("purpose"), JsonValue::Str(String::from_str("subject"))));
    e.push((String::from_str("idx"), write_u32(v.idx)));
    e.push((String::from_str("name"), JsonValue::Str(v.name.clone())));
    e.push((String::from_str("format"), write_opt_str(&v.format)));
    e.push((String::from_str("sources"), write_sources(&v.sources)));
    proof {
        lemma_object_view(&e);
    }
    assert(entries_view(e@) =~= enc_subject_field(v.deep_view()));
    JsonValue::Object(e)
}

pub fn write_quality_field(v: &QualityField) -> (r: JsonValue)
    ensures
        r@ == Json::Object(enc_quality_field(v.deep_view())),
{
    let mut e: Vec<(String, JsonValue)> = Vec::new();
    e.push((String::from_str("purpose"), JsonValue::Str(String::from_str("quality"))));
    e.push((String::from_str("idx"), write_u32(v.idx)));
    e.push((String::from_str("name"), JsonValue::Str(v.name.clone())));
    e.push((String::from_str("etl-unit"), write_names(&v.etl_unit)));
    e.push((String::from_str("format"), write_opt_str(&v.format)));
    e.push((String::from_str("null-value-expansion"), write_opt_str(&v.null_value_expansion)));
    e.push((String::from_str("map-weights"), write_arrows_number(&v.map_weights.arrows)));
    e.push((String::from_str("map-files"), write_opt_text_table(&v.map_files)));
    e.push((String::from_str("sources"), write_sources(&v.sources)));
    proof {
        lemma_object_view(&e);
    }
    assert(entries_view(e@) =~= enc_quality_field(v.deep_view()));
    JsonValue::Object(e)
}

pub fn write_mcomp_field(v: &MCompField) -> (r: JsonValue)
    ensures
        r@ == Json::Object(enc_mcomp_field(v.deep_view())),
{
    let mut e: Vec<(String, JsonValue)> = Vec::new();
    e.push((String::from_str("purpose"), JsonValue::Str(String::from_str("mcomp"))));
    e.push((String::from_str("idx"), write_u32(v.idx)));
    e.push((String::from_str("name"), JsonValue::Str(v.name.clone())));
    e.push((String::from_str("etl-unit"), write_names(&v.etl_unit)));
    e.push((String::from_str("format"), write_opt_str(&v.format)));
    e.push((String::from_str("map-weights"), write_arrows_number(&v.map_weights.arrows)));
    e.push((String::from_str("map-files"), write_opt_text_table(&v.map_files)));
    e.push((String::from_str("sources"), write_sources(&v.sources)));
    proof {
        lemma_object_view(&e);
    }
    assert(entries_view(e@) =~= enc_mcomp_field(v.deep_view()));
    JsonValue::Object(e)
}

pub fn write_mspan_field(v: &MSpanField) -> (r: JsonValue)
    ensures
        r@ == Json::Object(enc_mspan_field(v.deep_view())),
{
    let mut e: Vec<(String, JsonValue)> = Vec::new();
    e.push((String::from_str("purpose"), JsonValue::Str(String::from_str("mspan"))));
    e.push((String::from_str("idx"), write_u32(v.idx)));
    e.push((String::from_str("name"), JsonValue::Str(v.name.clone())));
    e.push((String::from_str("etl-unit"), write_names(&v.etl_unit)));
    e.push((String::from_str("format"), write_opt_str(&v.format)));
    e.push((String::from_str("time"), write_time(&v.time)));
    e.push((String::from_str("levels-mspan"), write_ranges(&v.levels_mspan)));
    e.push((String::from_str("sources"), write_sources(&v.sources)));
    proof {
        lemma_object_view(&e);
    }
    assert(entries_view(e@) =~= enc_mspan_field(v.deep_view()));
    JsonValue::Object(e)
}

pub fn write_mvalue_field(v: &MValueField) -> (r: JsonValue)
    ensures
        r@ == Json::Object(enc_mvalue_field(v.deep_view())),
{
    let mut e: Vec<(String, JsonValue)> = Vec::new();
    e.push((String::from_str("purpose"), JsonValue::Str(String::from_str("mvalue"))));
    e.push((String::from_str("idx"), write_u32(v.idx)));
    e.push((String::from_str("name"), JsonValue::Str(v.name.clone())));
    e.push((String::from_str("etl-unit"), write_names(&v.etl_unit)));
    e.push((String::from_str("format"), write_opt_str(&v.format)));
    e.push((String::from_str("null-value-expansion"), write_opt_str(&v.null_value_expansion)));
    e.push((String::from_str("map-files"), write_opt_text_table(&v.map_files)));
    e.push((String::from_str("map-weights"), write_opt_number_tables(&v.map_weights)));
    e.push((String::from_str("map-symbols"), write_text_tables(&v.map_symbols)));
    e.push((String::from_str("codomain-reducer"), write_reducer(v.codomain_reducer)));
    e.push((String::from_str("slicing-reducer"), write_reducer(v.slicing_reducer)));
    e.push((String::from_str("sources"), write_sources(&v.sources)));
    proof {
        lemma_object_view(&e);
    }
    assert(entries_view(e@) =~= enc_mvalue_field(v.deep_view()));
    JsonValue::Object(e)
}

pub fn write_quality_unit(v: &EtlUnitQuality) -> (r: JsonValue)
    ensures
        r@ == Json::Object(enc_quality_unit(v.deep_view())),
{
    let mut e: Vec<(String, JsonValue)> = Vec::new();
    e.push((String::from_str("type"), JsonValue::Str(String::from_str("quality"))));
    e.push((String::from_str("subject"), JsonValue::Str(v.subject.clone())));
    e.push((String::from_str("codomain"), JsonValue::Str(v.codomain.clone())));
    e.push((String::from_str("codomain-reducer"), write_reducer(v.codomain_reducer)));
    proof {
        lemma_object_view(&e);
    }
    assert(entries_view(e@) =~= enc_quality_unit(v.deep_view()));
    JsonValue::Object(e)
}

pub fn write_measurement_unit(v: &EtlUnitMeasurement) -> (r: JsonValue)
    ensures
        r@ == Json::Object(enc_measurement_unit(v.deep_view())),
{
    let mut e: Vec<(String, JsonValue)> = Vec::new();
    e.push((String::from_str("type"), JsonValue::Str(String::from_str("mvalue"))));
    e.push((String::from_str("subject"), JsonValue::Str(v.subject.clone())));
    e.push((String::from_str("codomain"), JsonValue::Str(v.codomain.clone())));
    e.push((String::from_str("codomain-reducer"), write_reducer(v.codomain_reducer)));
    e.push((String::from_str("mcomps"), write_names(&v.mcomps)));
    e.push((String::from_str("mspan"), JsonValue::Str(v.mspan.clone())));
    e.push((String::from_str("slicing-reducer"), write_reducer(v.slicing_reducer)));
    proof {
        lemma_object_view(&e);
    }
    assert(entries_view(e@) =~= enc_measurement_unit(v.deep_view()));
    JsonValue::Object(e)
}

pub fn write_subject_unit(v: &EtlUnitSubject) -> (r: JsonValue)
    ensures
        r@ == Json::Object(enc_subject_unit(v.deep_view())),
{
    let mut e: Vec<(String, JsonValue)> = Vec::new();
    e.push((String::from_str("type"), JsonValue::Str(String::from_str("subject"))));
    e.push((String::from_str("subject"), JsonValue::Str(v.subject.clone())));
    e.push((String::from_str("codomain"), JsonValue::Str(v.codomain.clone())));
    proof {
        lemma_object_view(&e);
    }
    assert(entries_view(e@) =~= enc_subject_unit(v.deep_view()));
    JsonValue::Object(e)
}


impl EtlObject {
    /// The JSON document tree of the object, as the decoder reads it.
    pub fn to_json(&self) -> (j: JsonValue)
        ensures
            j@ == enc_etl_object(self.deep_view()),
    {
        encode_value(self)
    }
}

} // verus!
