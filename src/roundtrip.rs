//! Decoding what the encoder wrote gives back the same object.
use vstd::prelude::*;
use crate::encode::{
    enc_arrows_number, enc_arrows_text, enc_codomain, enc_etl_object, enc_field, enc_fields,
    enc_implied_source, enc_interval, enc_map_implied, enc_mcomp_field, enc_measurement_unit,
    enc_mspan_field, enc_mvalue_field, enc_names, enc_number_table, enc_number_tables,
    enc_opt_arrows_number, enc_opt_number_tables, enc_opt_reducer, enc_opt_scalar, enc_opt_str,
    enc_opt_text_table, enc_purpose, enc_quality_field, enc_quality_unit, enc_range, enc_ranges,
    enc_raw_source, enc_reducer, enc_reference, enc_source, enc_sources, enc_subject_field,
    enc_subject_unit, enc_text_table, enc_text_tables, enc_time, enc_u32, enc_unit, enc_units,
    enc_wide_source,
};
use crate::json::Json;
use crate::model::{
    CodomainModel, EtlFieldModel, EtlObjectModel, EtlUnitMeasurementModel, EtlUnitModel,
    EtlUnitQualityModel, EtlUnitSubjectModel, IntervalModel, MCompFieldModel, MSpanFieldModel,
    MValueFieldModel, MapImpliedModel, QualityFieldModel, ReferenceModel, SourceImpliedModel,
    SourceModel, SourceRawModel, SourceWideModel, SubjectFieldModel, TableModel, TimeModel,
};
use crate::number::lemma_decimal_reads_back;
use crate::schema::{Purpose, Range, Reducer};
use crate::wire::{
    Fault,    as_codomain, as_etl_object, as_field, as_purpose, as_reducer, as_source, as_u32, as_unit,
    field_entries, field_str, implied_source, interval_entries, lookup, map_implied_entries,
    mcomp_field, measurement_unit, mspan_field, mvalue_field, number_entries,
    number_table_entries, quality_field, quality_unit, range_entries, ranges_of, raw_source,
    reference_entries, sources_of, strings_of, subject_field, subject_unit, text_entries,
    text_table_entries, time_entries, unit_entries, well_formed, wide_source,
};

verus! {

/// Looking a key up in entries with one more at the end.
pub broadcast proof fn lemma_lookup_push(o: Seq<(Seq<char>, Json)>, e: (Seq<char>, Json), key: Seq<char>)
    ensures
        #[trigger] lookup(o.push(e), key) == match lookup(o, key) {
            Some(v) => Some(v),
            None => if e.0 == key {
                Some(e.1)
            } else {
                None
            },
        },
    decreases o.len(),
{
    if o.len() > 0 {
        assert(o.push(e)[0] == o[0]);
        assert(o.push(e).drop_first() =~= o.drop_first().push(e));
        lemma_lookup_push(o.drop_first(), e, key);
    } else {
        assert(o.push(e).drop_first() =~= o);
    }
}

/// The tags of the source kinds differ.
proof fn lemma_source_tags_distinct()
    ensures
        "source-type"@ != "RAW"@,
        "source-type"@ != "IMPLIED"@,
        "source-type"@ != "WIDE"@,
        "RAW"@ != "IMPLIED"@,
        "RAW"@ != "WIDE"@,
        "IMPLIED"@ != "WIDE"@,
{
    reveal_strlit("source-type");
    reveal_strlit("RAW");
    reveal_strlit("IMPLIED");
    reveal_strlit("WIDE");
    assert("source-type"@.len() == 11);
    assert("RAW"@.len() == 3);
    assert("IMPLIED"@.len() == 7);
    assert("WIDE"@.len() == 4);
}

/// The tags of the field kinds differ.
proof fn lemma_purpose_tags_distinct()
    ensures
        "subject"@ != "quality"@,
        "subject"@ != "mcomp"@,
        "subject"@ != "mspan"@,
        "subject"@ != "mvalue"@,
        "quality"@ != "mcomp"@,
        "quality"@ != "mspan"@,
        "quality"@ != "mvalue"@,
        "mcomp"@ != "mspan"@,
        "mcomp"@ != "mvalue"@,
        "mspan"@ != "mvalue"@,
{
    reveal_strlit("subject");
    reveal_strlit("quality");
    reveal_strlit("mcomp");
    reveal_strlit("mspan");
    reveal_strlit("mvalue");
    assert("subject"@.len() == 7);
    assert("quality"@.len() == 7);
    assert("mcomp"@.len() == 5);
    assert("mspan"@.len() == 5);
    assert("mvalue"@.len() == 6);
    assert("subject"@[0] == 's' && "quality"@[0] == 'q');
    assert("mcomp"@[1] == 'c' && "mspan"@[1] == 's');
}

/// The tags of the unit kinds differ.
proof fn lemma_unit_tags_distinct()
    ensures
        "type"@ != "quality"@,
        "type"@ != "mvalue"@,
        "type"@ != "subject"@,
        "quality"@ != "mvalue"@,
        "quality"@ != "subject"@,
        "mvalue"@ != "subject"@,
{
    reveal_strlit("type");
    reveal_strlit("quality");
    reveal_strlit("mvalue");
    reveal_strlit("subject");
    assert("type"@.len() == 4);
    assert("quality"@.len() == 7);
    assert("mvalue"@.len() == 6);
    assert("subject"@.len() == 7);
    assert("quality"@[0] == 'q' && "subject"@[0] == 's');
}

/// The names of the reducers differ.
proof fn lemma_reducer_names_distinct()
    ensures
        "FIRST"@ != "LAST"@,
        "FIRST"@ != "AVG"@,
        "FIRST"@ != "SUM"@,
        "FIRST"@ != "MIN"@,
        "FIRST"@ != "MAX"@,
        "LAST"@ != "AVG"@,
        "LAST"@ != "SUM"@,
        "LAST"@ != "MIN"@,
        "LAST"@ != "MAX"@,
        "AVG"@ != "SUM"@,
        "AVG"@ != "MIN"@,
        "AVG"@ != "MAX"@,
        "SUM"@ != "MIN"@,
        "SUM"@ != "MAX"@,
        "MIN"@ != "MAX"@,
{
    reveal_strlit("FIRST");
    reveal_strlit("LAST");
    reveal_strlit("AVG");
    reveal_strlit("SUM");
    reveal_strlit("MIN");
    reveal_strlit("MAX");
    assert("FIRST"@.len() == 5);
    assert("LAST"@.len() == 4);
    assert("AVG"@.len() == 3);
    assert("SUM"@.len() == 3);
    assert("MIN"@.len() == 3);
    assert("MAX"@.len() == 3);
    assert("AVG"@[0] == 'A' && "SUM"@[0] == 'S');
    assert("AVG"@[0] == 'A' && "MIN"@[0] == 'M');
    assert("AVG"@[0] == 'A' && "MAX"@[0] == 'M');
    assert("SUM"@[0] == 'S' && "MIN"@[0] == 'M');
    assert("SUM"@[0] == 'S' && "MAX"@[0] == 'M');
    assert("MIN"@[1] == 'I' && "MAX"@[1] == 'A');
}

pub proof fn lemma_u32_round_trip(n: u32, key: Seq<char>)
    ensures
        as_u32(enc_u32(n), key) == Ok::<u32, Fault>(n),
{
    lemma_decimal_reads_back(n as nat);
}

pub proof fn lemma_reducer_round_trip(r: Reducer, key: Seq<char>)
    ensures
        as_reducer(enc_reducer(r), key) == Ok::<Reducer, Fault>(r),
{
    lemma_reducer_names_distinct();
}

pub proof fn lemma_purpose_round_trip(p: Purpose, key: Seq<char>)
    ensures
        as_purpose(enc_purpose(p), key) == Ok::<Purpose, Fault>(p),
{
    lemma_purpose_tags_distinct();
}

pub proof fn lemma_codomain_round_trip(c: CodomainModel, key: Seq<char>)
    ensures
        as_codomain(enc_codomain(c), key) == Ok::<CodomainModel, Fault>(c),
{
    if let CodomainModel::Number(n) = c {
        lemma_decimal_reads_back(n as nat);
    }
}

pub proof fn lemma_source_round_trip(x: SourceModel, key: Seq<char>)
    ensures
        as_source(enc_source(x), key) == Ok::<SourceModel, Fault>(x),
{
    match x {
        SourceModel::Raw(m) => lemma_raw_source_dispatch(m, key),
        SourceModel::Implied(m) => lemma_implied_source_dispatch(m, key),
        SourceModel::Wide(m) => lemma_wide_source_dispatch(m, key),
    }
}

proof fn lemma_raw_source_dispatch(m: SourceRawModel, key: Seq<char>)
    ensures
        as_source(enc_source(SourceModel::Raw(m)), key) == Ok::<SourceModel, Fault>(SourceModel::Raw(m)),
{
    broadcast use lemma_lookup_push;

    lemma_source_tags_distinct();
    let o = enc_raw_source(m);
    assert(lookup(o, "source-type"@) == Some(Json::Str("RAW"@)));
    assert(field_str(o, "source-type"@) == Ok::<Seq<char>, Fault>("RAW"@));
    lemma_raw_source_round_trip(m);
}

proof fn lemma_implied_source_dispatch(m: SourceImpliedModel, key: Seq<char>)
    ensures
        as_source(enc_source(SourceModel::Implied(m)), key) == Ok::<SourceModel, Fault>(SourceModel::Implied(m)),
{
    broadcast use lemma_lookup_push;

    lemma_source_tags_distinct();
    let o = enc_implied_source(m);
    assert(lookup(o, "source-type"@) == Some(Json::Str("IMPLIED"@)));
    assert(field_str(o, "source-type"@) == Ok::<Seq<char>, Fault>("IMPLIED"@));
    lemma_implied_source_round_trip(m);
}

proof fn lemma_wide_source_dispatch(m: SourceWideModel, key: Seq<char>)
    ensures
        as_source(enc_source(SourceModel::Wide(m)), key) == Ok::<SourceModel, Fault>(SourceModel::Wide(m)),
{
    broadcast use lemma_lookup_push;

    lemma_source_tags_distinct();
    let o = enc_wide_source(m);
    assert(lookup(o, "source-type"@) == Some(Json::Str("WIDE"@)));
    assert(field_str(o, "source-type"@) == Ok::<Seq<char>, Fault>("WIDE"@));
    lemma_wide_source_round_trip(m);
}

pub proof fn lemma_field_round_trip(x: EtlFieldModel, key: Seq<char>)
    ensures
        as_field(enc_field(x), key) == Ok::<EtlFieldModel, Fault>(x),
{
    match x {
        EtlFieldModel::Subject(m) => lemma_subject_field_dispatch(m, key),
        EtlFieldModel::Quality(m) => lemma_quality_field_dispatch(m, key),
        EtlFieldModel::MComp(m) => lemma_mcomp_field_dispatch(m, key),
        EtlFieldModel::MSpan(m) => lemma_mspan_field_dispatch(m, key),
        EtlFieldModel::MValue(m) => lemma_mvalue_field_dispatch(m, key),
    }
}

proof fn lemma_subject_field_dispatch(m: SubjectFieldModel, key: Seq<char>)
    ensures
        as_field(enc_field(EtlFieldModel::Subject(m)), key) == Ok::<EtlFieldModel, Fault>(EtlFieldModel::Subject(m)),
{
    broadcast use lemma_lookup_push;

    lemma_purpose_tags_distinct();
    reveal_strlit("purpose");
    let o = enc_subject_field(m);
    assert(lookup(o, "purpose"@) == Some(Json::Str("subject"@)));
    assert(field_str(o, "purpose"@) == Ok::<Seq<char>, Fault>("subject"@));
    lemma_subject_field_round_trip(m);
}

proof fn lemma_quality_field_dispatch(m: QualityFieldModel, key: Seq<char>)
    ensures
        as_field(enc_field(EtlFieldModel::Quality(m)), key) == Ok::<EtlFieldModel, Fault>(EtlFieldModel::Quality(m)),
{
    broadcast use lemma_lookup_push;

    lemma_purpose_tags_distinct();
    reveal_strlit("purpose");
    let o = enc_quality_field(m);
    assert(lookup(o, "purpose"@) == Some(Json::Str("quality"@)));
    assert(field_str(o, "purpose"@) == Ok::<Seq<char>, Fault>("quality"@));
    lemma_quality_field_round_trip(m);
}

proof fn lemma_mcomp_field_dispatch(m: MCompFieldModel, key: Seq<char>)
    ensures
        as_field(enc_field(EtlFieldModel::MComp(m)), key) == Ok::<EtlFieldModel, Fault>(EtlFieldModel::MComp(m)),
{
    broadcast use lemma_lookup_push;

    lemma_purpose_tags_distinct();
    reveal_strlit("purpose");
    let o = enc_mcomp_field(m);
    assert(lookup(o, "purpose"@) == Some(Json::Str("mcomp"@)));
    assert(field_str(o, "purpose"@) == Ok::<Seq<char>, Fault>("mcomp"@));
    lemma_mcomp_field_round_trip(m);
}

proof fn lemma_mspan_field_dispatch(m: MSpanFieldModel, key: Seq<char>)
    ensures
        as_field(enc_field(EtlFieldModel::MSpan(m)), key) == Ok::<EtlFieldModel, Fault>(EtlFieldModel::MSpan(m)),
{
    broadcast use lemma_lookup_push;

    lemma_purpose_tags_distinct();
    reveal_strlit("purpose");
    let o = enc_mspan_field(m);
    assert(lookup(o, "purpose"@) == Some(Json::Str("mspan"@)));
    assert(field_str(o, "purpose"@) == Ok::<Seq<char>, Fault>("mspan"@));
    lemma_mspan_field_round_trip(m);
}

#[verifier::rlimit(40)]
proof fn lemma_mvalue_field_dispatch(m: MValueFieldModel, key: Seq<char>)
    ensures
        as_field(enc_field(EtlFieldModel::MValue(m)), key) == Ok::<EtlFieldModel, Fault>(EtlFieldModel::MValue(m)),
{
    broadcast use lemma_lookup_push;

    lemma_purpose_tags_distinct();
    reveal_strlit("purpose");
    let o = enc_mvalue_field(m);
    assert(lookup(o, "purpose"@) == Some(Json::Str("mvalue"@)));
    assert(field_str(o, "purpose"@) == Ok::<Seq<char>, Fault>("mvalue"@));
    lemma_mvalue_field_round_trip(m);
}

pub proof fn lemma_unit_round_trip(x: EtlUnitModel, key: Seq<char>)
    ensures
        as_unit(enc_unit(x), key) == Ok::<EtlUnitModel, Fault>(x),
{
    match x {
        EtlUnitModel::Quality(m) => lemma_quality_unit_dispatch(m, key),
        EtlUnitModel::Measurement(m) => lemma_measurement_unit_dispatch(m, key),
        EtlUnitModel::Subject(m) => lemma_subject_unit_dispatch(m, key),
    }
}

proof fn lemma_quality_unit_dispatch(m: EtlUnitQualityModel, key: Seq<char>)
    ensures
        as_unit(enc_unit(EtlUnitModel::Quality(m)), key) == Ok::<EtlUnitModel, Fault>(EtlUnitModel::Quality(m)),
{
    broadcast use lemma_lookup_push;

    lemma_unit_tags_distinct();
    let o = enc_quality_unit(m);
    assert(lookup(o, "type"@) == Some(Json::Str("quality"@)));
    assert(field_str(o, "type"@) == Ok::<Seq<char>, Fault>("quality"@));
    lemma_quality_unit_round_trip(m);
}

proof fn lemma_measurement_unit_dispatch(m: EtlUnitMeasurementModel, key: Seq<char>)
    ensures
        as_unit(enc_unit(EtlUnitModel::Measurement(m)), key) == Ok::<EtlUnitModel, Fault>(EtlUnitModel::Measurement(m)),
{
    broadcast use lemma_lookup_push;

    lemma_unit_tags_distinct();
    let o = enc_measurement_unit(m);
    assert(lookup(o, "type"@) == Some(Json::Str("mvalue"@)));
    assert(field_str(o, "type"@) == Ok::<Seq<char>, Fault>("mvalue"@));
    lemma_measurement_unit_round_trip(m);
}

proof fn lemma_subject_unit_dispatch(m: EtlUnitSubjectModel, key: Seq<char>)
    ensures
        as_unit(enc_unit(EtlUnitModel::Subject(m)), key) == Ok::<EtlUnitModel, Fault>(EtlUnitModel::Subject(m)),
{
    broadcast use lemma_lookup_push;

    lemma_unit_tags_distinct();
    let o = enc_subject_unit(m);
    assert(lookup(o, "type"@) == Some(Json::Str("subject"@)));
    assert(field_str(o, "type"@) == Ok::<Seq<char>, Fault>("subject"@));
    lemma_subject_unit_round_trip(m);
}

/// Decoding the encoding of any well-formed configuration object (every
/// decoded one is) gives back the same object: the same fields and units
/// under the same names, with the same variants and the same values, in the
/// same order.
pub proof fn lemma_round_trip(m: EtlObjectModel)
    requires
        well_formed(m),
    ensures
        as_etl_object(enc_etl_object(m)) == Ok::<EtlObjectModel, Fault>(m),
{
    broadcast use lemma_lookup_push;

    reveal_strlit("etlFields");
    reveal_strlit("etlUnits");
    assert("etlFields"@.len() == 9);
    assert("etlUnits"@.len() == 8);
    lemma_fields_round_trip(m.etl_fields, "etlFields"@);
    lemma_units_round_trip(m.etl_units, "etlUnits"@);
}

pub proof fn lemma_range_round_trip(m: Range)
    ensures
        range_entries(enc_range(m)) == Ok::<Range, Fault>(m),
{
    broadcast use lemma_lookup_push;

    reveal_strlit("rangeStart");
    reveal_strlit("rangeLength");
    reveal_strlit("reduced");
    assert("rangeStart"@.len() == 10);
    assert("rangeLength"@.len() == 11);
    assert("reduced"@.len() == 7);
    assert("rangeStart"@ != "rangeLength"@);
    assert("rangeStart"@ != "reduced"@);
    assert("rangeLength"@ != "reduced"@);
    let o = enc_range(m);
    assert(lookup(o, "rangeStart"@) == Some(enc_u32(m.range_start)));
    assert(lookup(o, "rangeLength"@) == Some(enc_u32(m.range_length)));
    assert(lookup(o, "reduced"@) == Some(Json::Bool(m.reduced)));
    lemma_u32_round_trip(m.range_start, "rangeStart"@);
    lemma_u32_round_trip(m.range_length, "rangeLength"@);
}

pub proof fn lemma_interval_round_trip(m: IntervalModel)
    ensures
        interval_entries(enc_interval(m)) == Ok::<IntervalModel, Fault>(m),
{
    broadcast use lemma_lookup_push;

    reveal_strlit("unit");
    reveal_strlit("count");
    assert("unit"@.len() == 4);
    assert("count"@.len() == 5);
    assert("unit"@ != "count"@);
    let o = enc_interval(m);
    assert(lookup(o, "unit"@) == Some(Json::Str(m.unit)));
    assert(lookup(o, "count"@) == Some(enc_u32(m.count)));
    lemma_u32_round_trip(m.count, "count"@);
}

pub proof fn lemma_reference_round_trip(m: ReferenceModel)
    ensures
        reference_entries(enc_reference(m)) == Ok::<ReferenceModel, Fault>(m),
{
    broadcast use lemma_lookup_push;

    reveal_strlit("idx");
    reveal_strlit("value");
    reveal_strlit("isoFormat");
    assert("idx"@.len() == 3);
    assert("value"@.len() == 5);
    assert("isoFormat"@.len() == 9);
    assert("idx"@ != "value"@);
    assert("idx"@ != "isoFormat"@);
    assert("value"@ != "isoFormat"@);
    let o = enc_reference(m);
    assert(lookup(o, "idx"@) == Some(enc_u32(m.idx)));
    assert(lookup(o, "value"@) == Some(Json::Str(m.value)));
    assert(lookup(o, "isoFormat"@) == Some(Json::Str(m.iso_format)));
    lemma_u32_round_trip(m.idx, "idx"@);
}

pub proof fn lemma_time_round_trip(m: TimeModel)
    ensures
        time_entries(enc_time(m)) == Ok::<TimeModel, Fault>(m),
{
    broadcast use lemma_lookup_push;

    reveal_strlit("interval");
    reveal_strlit("reference");
    assert("interval"@.len() == 8);
    assert("reference"@.len() == 9);
    assert("interval"@ != "reference"@);
    let o = enc_time(m);
    assert(lookup(o, "interval"@) == Some(Json::Object(enc_interval(m.interval))));
    assert(lookup(o, "reference"@) == Some(Json::Object(enc_reference(m.reference))));
    lemma_interval_round_trip(m.interval);
    lemma_reference_round_trip(m.reference);
}

pub proof fn lemma_map_implied_round_trip(m: MapImpliedModel)
    ensures
        map_implied_entries(enc_map_implied(m)) == Ok::<MapImpliedModel, Fault>(m),
{
    broadcast use lemma_lookup_push;

    reveal_strlit("domain");
    reveal_strlit("codomain");
    assert("domain"@.len() == 6);
    assert("codomain"@.len() == 8);
    assert("domain"@ != "codomain"@);
    let o = enc_map_implied(m);
    assert(lookup(o, "domain"@) == Some(Json::Str(m.domain)));
    assert(lookup(o, "codomain"@) == Some(enc_codomain(m.codomain)));
    lemma_codomain_round_trip(m.codomain, "codomain"@);
}

pub proof fn lemma_raw_source_round_trip(m: SourceRawModel)
    ensures
        raw_source(enc_raw_source(m)) == Ok::<SourceRawModel, Fault>(m),
{
    broadcast use lemma_lookup_push;

    reveal_strlit("source-type");
    reveal_strlit("enabled");
    reveal_strlit("header-idx");
    reveal_strlit("header-name");
    reveal_strlit("field-alias");
    reveal_strlit("purpose");
    reveal_strlit("null-value");
    reveal_strlit("format");
    reveal_strlit("map-symbols");
    reveal_strlit("nlevels");
    reveal_strlit("nrows");
    reveal_strlit("filename");
    reveal_strlit("null-value-count");
    reveal_strlit("codomain-reducer");
    reveal_strlit("map-weights");
    assert("source-type"@.len() == 11);
    assert("enabled"@.len() == 7);
    assert("header-idx"@.len() == 10);
    assert("header-name"@.len() == 11);
    assert("field-alias"@.len() == 11);
    assert("purpose"@.len() == 7);
    assert("null-value"@.len() == 10);
    assert("format"@.len() == 6);
    assert("map-symbols"@.len() == 11);
    assert("nlevels"@.len() == 7);
    assert("nrows"@.len() == 5);
    assert("filename"@.len() == 8);
    assert("null-value-count"@.len() == 16);
    assert("codomain-reducer"@.len() == 16);
    assert("map-weights"@.len() == 11);
    assert("source-type"@[0] == 's' && "header-name"@[0] == 'h');
    assert("source-type"@[0] == 's' && "field-alias"@[0] == 'f');
    assert("source-type"@[0] == 's' && "map-symbols"@[0] == 'm');
    assert("source-type"@[0] == 's' && "map-weights"@[0] == 'm');
    assert("enabled"@[0] == 'e' && "purpose"@[0] == 'p');
    assert("enabled"@[0] == 'e' && "nlevels"@[0] == 'n');
    assert("header-idx"@[0] == 'h' && "null-value"@[0] == 'n');
    assert("header-name"@[0] == 'h' && "field-alias"@[0] == 'f');
    assert("header-name"@[0] == 'h' && "map-symbols"@[0] == 'm');
    assert("header-name"@[0] == 'h' && "map-weights"@[0] == 'm');
    assert("field-alias"@[0] == 'f' && "map-symbols"@[0] == 'm');
    assert("field-alias"@[0] == 'f' && "map-weights"@[0] == 'm');
    assert("purpose"@[0] == 'p' && "nlevels"@[0] == 'n');
    assert("map-symbols"@[4] == 's' && "map-weights"@[4] == 'w');
    assert("null-value-count"@[0] == 'n' && "codomain-reducer"@[0] == 'c');
    assert("source-type"@ != "enabled"@);
    assert("source-type"@ != "header-idx"@);
    assert("source-type"@ != "header-name"@);
    assert("source-type"@ != "field-alias"@);
    assert("source-type"@ != "purpose"@);
    assert("source-type"@ != "null-value"@);
    assert("source-type"@ != "format"@);
    assert("source-type"@ != "map-symbols"@);
    assert("source-type"@ != "nlevels"@);
    assert("source-type"@ != "nrows"@);
    assert("source-type"@ != "filename"@);
    assert("source-type"@ != "null-value-count"@);
    assert("source-type"@ != "codomain-reducer"@);
    assert("source-type"@ != "map-weights"@);
    assert("enabled"@ != "header-idx"@);
    assert("enabled"@ != "header-name"@);
    assert("enabled"@ != "field-alias"@);
    assert("enabled"@ != "purpose"@);
    assert("enabled"@ != "null-value"@);
    assert("enabled"@ != "format"@);
    assert("enabled"@ != "map-symbols"@);
    assert("enabled"@ != "nlevels"@);
    assert("enabled"@ != "nrows"@);
    assert("enabled"@ != "filename"@);
    assert("enabled"@ != "null-value-count"@);
    assert("enabled"@ != "codomain-reducer"@);
    assert("enabled"@ != "map-weights"@);
    assert("header-idx"@ != "header-name"@);
    assert("header-idx"@ != "field-alias"@);
    assert("header-idx"@ != "purpose"@);
    assert("header-idx"@ != "null-value"@);
    assert("header-idx"@ != "format"@);
    assert("header-idx"@ != "map-symbols"@);
    assert("header-idx"@ != "nlevels"@);
    assert("header-idx"@ != "nrows"@);
    assert("header-idx"@ != "filename"@);
    assert("header-idx"@ != "null-value-count"@);
    assert("header-idx"@ != "codomain-reducer"@);
    assert("header-idx"@ != "map-weights"@);
    assert("header-name"@ != "field-alias"@);
    assert("header-name"@ != "purpose"@);
    assert("header-name"@ != "null-value"@);
    assert("header-name"@ != "format"@);
    assert("header-name"@ != "map-symbols"@);
    assert("header-name"@ != "nlevels"@);
    assert("header-name"@ != "nrows"@);
    assert("header-name"@ != "filename"@);
    assert("header-name"@ != "null-value-count"@);
    assert("header-name"@ != "codomain-reducer"@);
    assert("header-name"@ != "map-weights"@);
    assert("field-alias"@ != "purpose"@);
    assert("field-alias"@ != "null-value"@);
    assert("field-alias"@ != "format"@);
    assert("field-alias"@ != "map-symbols"@);
    assert("field-alias"@ != "nlevels"@);
    assert("field-alias"@ != "nrows"@);
    assert("field-alias"@ != "filename"@);
    assert("field-alias"@ != "null-value-count"@);
    assert("field-alias"@ != "codomain-reducer"@);
    assert("field-alias"@ != "map-weights"@);
    assert("purpose"@ != "null-value"@);
    assert("purpose"@ != "format"@);
    assert("purpose"@ != "map-symbols"@);
    assert("purpose"@ != "nlevels"@);
    assert("purpose"@ != "nrows"@);
    assert("purpose"@ != "filename"@);
    assert("purpose"@ != "null-value-count"@);
    assert("purpose"@ != "codomain-reducer"@);
    assert("purpose"@ != "map-weights"@);
    assert("null-value"@ != "format"@);
    assert("null-value"@ != "map-symbols"@);
    assert("null-value"@ != "nlevels"@);
    assert("null-value"@ != "nrows"@);
    assert("null-value"@ != "filename"@);
    assert("null-value"@ != "null-value-count"@);
    assert("null-value"@ != "codomain-reducer"@);
    assert("null-value"@ != "map-weights"@);
    assert("format"@ != "map-symbols"@);
    assert("format"@ != "nlevels"@);
    assert("format"@ != "nrows"@);
    assert("format"@ != "filename"@);
    assert("format"@ != "null-value-count"@);
    assert("format"@ != "codomain-reducer"@);
    assert("format"@ != "map-weights"@);
    assert("map-symbols"@ != "nlevels"@);
    assert("map-symbols"@ != "nrows"@);
    assert("map-symbols"@ != "filename"@);
    assert("map-symbols"@ != "null-value-count"@);
    assert("map-symbols"@ != "codomain-reducer"@);
    assert("map-symbols"@ != "map-weights"@);
    assert("nlevels"@ != "nrows"@);
    assert("nlevels"@ != "filename"@);
    assert("nlevels"@ != "null-value-count"@);
    assert("nlevels"@ != "codomain-reducer"@);
    assert("nlevels"@ != "map-weights"@);
    assert("nrows"@ != "filename"@);
    assert("nrows"@ != "null-value-count"@);
    assert("nrows"@ != "codomain-reducer"@);
    assert("nrows"@ != "map-weights"@);
    assert("filename"@ != "null-value-count"@);
    assert("filename"@ != "codomain-reducer"@);
    assert("filename"@ != "map-weights"@);
    assert("null-value-count"@ != "codomain-reducer"@);
    assert("null-value-count"@ != "map-weights"@);
    assert("codomain-reducer"@ != "map-weights"@);
    let o = enc_raw_source(m);
    assert(lookup(o, "source-type"@) == Some(Json::Str("RAW"@)));
    assert(lookup(o, "enabled"@) == Some(Json::Bool(m.enabled)));
    assert(lookup(o, "header-idx"@) == Some(enc_u32(m.header_idx)));
    assert(lookup(o, "header-name"@) == Some(enc_opt_str(m.header_name)));
    assert(lookup(o, "field-alias"@) == Some(Json::Str(m.field_alias)));
    assert(lookup(o, "purpose"@) == Some(enc_purpose(m.purpose)));
    assert(lookup(o, "null-value"@) == Some(enc_opt_scalar(m.null_value)));
    assert(lookup(o, "format"@) == Some(enc_opt_str(m.format)));
    assert(lookup(o, "map-symbols"@) == Some(enc_arrows_text(m.map_symbols)));
    assert(lookup(o, "nlevels"@) == Some(enc_u32(m.nlevels)));
    assert(lookup(o, "nrows"@) == Some(enc_u32(m.nrows)));
    assert(lookup(o, "filename"@) == Some(Json::Str(m.filename)));
    assert(lookup(o, "null-value-count"@) == Some(enc_u32(m.null_value_count)));
    assert(lookup(o, "codomain-reducer"@) == Some(enc_opt_reducer(m.codomain_reducer)));
    assert(lookup(o, "map-weights"@) == Some(enc_opt_arrows_number(m.map_weights)));
    lemma_u32_round_trip(m.header_idx, "header-idx"@);
    lemma_purpose_round_trip(m.purpose, "purpose"@);
    lemma_text_table_round_trip(m.map_symbols, "arrows"@);
    lemma_u32_round_trip(m.nlevels, "nlevels"@);
    lemma_u32_round_trip(m.nrows, "nrows"@);
    lemma_u32_round_trip(m.null_value_count, "null-value-count"@);
    if let Some(r) = m.codomain_reducer {
        lemma_reducer_round_trip(r, "codomain-reducer"@);
    }
    if let Some(t) = m.map_weights {
        lemma_number_table_round_trip(t, "arrows"@);
    }
}

pub proof fn lemma_implied_source_round_trip(m: SourceImpliedModel)
    ensures
        implied_source(enc_implied_source(m)) == Ok::<SourceImpliedModel, Fault>(m),
{
    broadcast use lemma_lookup_push;

    reveal_strlit("source-type");
    reveal_strlit("enabled");
    reveal_strlit("field-alias");
    reveal_strlit("purpose");
    reveal_strlit("null-value");
    reveal_strlit("format");
    reveal_strlit("nlevels");
    reveal_strlit("filename");
    reveal_strlit("map-implied");
    reveal_strlit("codomain-reducer");
    reveal_strlit("slicing-reducer");
    reveal_strlit("map-weights");
    assert("source-type"@.len() == 11);
    assert("enabled"@.len() == 7);
    assert("field-alias"@.len() == 11);
    assert("purpose"@.len() == 7);
    assert("null-value"@.len() == 10);
    assert("format"@.len() == 6);
    assert("nlevels"@.len() == 7);
    assert("filename"@.len() == 8);
    assert("map-implied"@.len() == 11);
    assert("codomain-reducer"@.len() == 16);
    assert("slicing-reducer"@.len() == 15);
    assert("map-weights"@.len() == 11);
    assert("source-type"@[0] == 's' && "field-alias"@[0] == 'f');
    assert("source-type"@[0] == 's' && "map-implied"@[0] == 'm');
    assert("source-type"@[0] == 's' && "map-weights"@[0] == 'm');
    assert("enabled"@[0] == 'e' && "purpose"@[0] == 'p');
    assert("enabled"@[0] == 'e' && "nlevels"@[0] == 'n');
    assert("field-alias"@[0] == 'f' && "map-implied"@[0] == 'm');
    assert("field-alias"@[0] == 'f' && "map-weights"@[0] == 'm');
    assert("purpose"@[0] == 'p' && "nlevels"@[0] == 'n');
    assert("map-implied"@[4] == 'i' && "map-weights"@[4] == 'w');
    assert("source-type"@ != "enabled"@);
    assert("source-type"@ != "field-alias"@);
    assert("source-type"@ != "purpose"@);
    assert("source-type"@ != "null-value"@);
    assert("source-type"@ != "format"@);
    assert("source-type"@ != "nlevels"@);
    assert("source-type"@ != "filename"@);
    assert("source-type"@ != "map-implied"@);
    assert("source-type"@ != "codomain-reducer"@);
    assert("source-type"@ != "slicing-reducer"@);
    assert("source-type"@ != "map-weights"@);
    assert("enabled"@ != "field-alias"@);
    assert("enabled"@ != "purpose"@);
    assert("enabled"@ != "null-value"@);
    assert("enabled"@ != "format"@);
    assert("enabled"@ != "nlevels"@);
    assert("enabled"@ != "filename"@);
    assert("enabled"@ != "map-implied"@);
    assert("enabled"@ != "codomain-reducer"@);
    assert("enabled"@ != "slicing-reducer"@);
    assert("enabled"@ != "map-weights"@);
    assert("field-alias"@ != "purpose"@);
    assert("field-alias"@ != "null-value"@);
    assert("field-alias"@ != "format"@);
    assert("field-alias"@ != "nlevels"@);
    assert("field-alias"@ != "filename"@);
    assert("field-alias"@ != "map-implied"@);
    assert("field-alias"@ != "codomain-reducer"@);
    assert("field-alias"@ != "slicing-reducer"@);
    assert("field-alias"@ != "map-weights"@);
    assert("purpose"@ != "null-value"@);
    assert("purpose"@ != "format"@);
    assert("purpose"@ != "nlevels"@);
    assert("purpose"@ != "filename"@);
    assert("purpose"@ != "map-implied"@);
    assert("purpose"@ != "codomain-reducer"@);
    assert("purpose"@ != "slicing-reducer"@);
    assert("purpose"@ != "map-weights"@);
    assert("null-value"@ != "format"@);
    assert("null-value"@ != "nlevels"@);
    assert("null-value"@ != "filename"@);
    assert("null-value"@ != "map-implied"@);
    assert("null-value"@ != "codomain-reducer"@);
    assert("null-value"@ != "slicing-reducer"@);
    assert("null-value"@ != "map-weights"@);
    assert("format"@ != "nlevels"@);
    assert("format"@ != "filename"@);
    assert("format"@ != "map-implied"@);
    assert("format"@ != "codomain-reducer"@);
    assert("format"@ != "slicing-reducer"@);
    assert("format"@ != "map-weights"@);
    assert("nlevels"@ != "filename"@);
    assert("nlevels"@ != "map-implied"@);
    assert("nlevels"@ != "codomain-reducer"@);
    assert("nlevels"@ != "slicing-reducer"@);
    assert("nlevels"@ != "map-weights"@);
    assert("filename"@ != "map-implied"@);
    assert("filename"@ != "codomain-reducer"@);
    assert("filename"@ != "slicing-reducer"@);
    assert("filename"@ != "map-weights"@);
    assert("map-implied"@ != "codomain-reducer"@);
    assert("map-implied"@ != "slicing-reducer"@);
    assert("map-implied"@ != "map-weights"@);
    assert("codomain-reducer"@ != "slicing-reducer"@);
    assert("codomain-reducer"@ != "map-weights"@);
    assert("slicing-reducer"@ != "map-weights"@);
    let o = enc_implied_source(m);
    assert(lookup(o, "source-type"@) == Some(Json::Str("IMPLIED"@)));
    assert(lookup(o, "enabled"@) == Some(Json::Bool(m.enabled)));
    assert(lookup(o, "field-alias"@) == Some(Json::Str(m.field_alias)));
    assert(lookup(o, "purpose"@) == Some(enc_purpose(m.purpose)));
    assert(lookup(o, "null-value"@) == Some(enc_opt_scalar(m.null_value)));
    assert(lookup(o, "format"@) == Some(enc_opt_str(m.format)));
    assert(lookup(o, "nlevels"@) == Some(enc_u32(m.nlevels)));
    assert(lookup(o, "filename"@) == Some(Json::Str(m.filename)));
    assert(lookup(o, "map-implied"@) == Some(Json::Object(enc_map_implied(m.map_implied))));
    assert(lookup(o, "codomain-reducer"@) == Some(enc_opt_reducer(m.codomain_reducer)));
    assert(lookup(o, "slicing-reducer"@) == Some(enc_opt_reducer(m.slicing_reducer)));
    assert(lookup(o, "map-weights"@) == Some(enc_opt_arrows_number(m.map_weights)));
    lemma_purpose_round_trip(m.purpose, "purpose"@);
    lemma_u32_round_trip(m.nlevels, "nlevels"@);
    lemma_map_implied_round_trip(m.map_implied);
    if let Some(r) = m.codomain_reducer {
        lemma_reducer_round_trip(r, "codomain-reducer"@);
    }
    if let Some(r) = m.slicing_reducer {
        lemma_reducer_round_trip(r, "slicing-reducer"@);
    }
    if let Some(t) = m.map_weights {
        lemma_number_table_round_trip(t, "arrows"@);
    }
}

pub proof fn lemma_wide_source_round_trip(m: SourceWideModel)
    ensures
        wide_source(enc_wide_source(m)) == Ok::<SourceWideModel, Fault>(m),
{
    broadcast use lemma_lookup_push;

    reveal_strlit("source-type");
    reveal_strlit("enabled");
    reveal_strlit("header-idx");
    reveal_strlit("default-name");
    reveal_strlit("field-alias");
    reveal_strlit("purpose");
    reveal_strlit("null-value");
    reveal_strlit("format");
    reveal_strlit("map-symbols");
    reveal_strlit("nlevels");
    reveal_strlit("nrows");
    reveal_strlit("filename");
    reveal_strlit("null-value-count");
    reveal_strlit("codomain-reducer");
    reveal_strlit("map-weights");
    assert("source-type"@.len() == 11);
    assert("enabled"@.len() == 7);
    assert("header-idx"@.len() == 10);
    assert("default-name"@.len() == 12);
    assert("field-alias"@.len() == 11);
    assert("purpose"@.len() == 7);
    assert("null-value"@.len() == 10);
    assert("format"@.len() == 6);
    assert("map-symbols"@.len() == 11);
    assert("nlevels"@.len() == 7);
    assert("nrows"@.len() == 5);
    assert("filename"@.len() == 8);
    assert("null-value-count"@.len() == 16);
    assert("codomain-reducer"@.len() == 16);
    assert("map-weights"@.len() == 11);
    assert("source-type"@[0] == 's' && "field-alias"@[0] == 'f');
    assert("source-type"@[0] == 's' && "map-symbols"@[0] == 'm');
    assert("source-type"@[0] == 's' && "map-weights"@[0] == 'm');
    assert("enabled"@[0] == 'e' && "purpose"@[0] == 'p');
    assert("enabled"@[0] == 'e' && "nlevels"@[0] == 'n');
    assert("header-idx"@[0] == 'h' && "null-value"@[0] == 'n');
    assert("field-alias"@[0] == 'f' && "map-symbols"@[0] == 'm');
    assert("field-alias"@[0] == 'f' && "map-weights"@[0] == 'm');
    assert("purpose"@[0] == 'p' && "nlevels"@[0] == 'n');
    assert("map-symbols"@[4] == 's' && "map-weights"@[4] == 'w');
    assert("null-value-count"@[0] == 'n' && "codomain-reducer"@[0] == 'c');
    assert("source-type"@ != "enabled"@);
    assert("source-type"@ != "header-idx"@);
    assert("source-type"@ != "default-name"@);
    assert("source-type"@ != "field-alias"@);
    assert("source-type"@ != "purpose"@);
    assert("source-type"@ != "null-value"@);
    assert("source-type"@ != "format"@);
    assert("source-type"@ != "map-symbols"@);
    assert("source-type"@ != "nlevels"@);
    assert("source-type"@ != "nrows"@);
    assert("source-type"@ != "filename"@);
    assert("source-type"@ != "null-value-count"@);
    assert("source-type"@ != "codomain-reducer"@);
    assert("source-type"@ != "map-weights"@);
    assert("enabled"@ != "header-idx"@);
    assert("enabled"@ != "default-name"@);
    assert("enabled"@ != "field-alias"@);
    assert("enabled"@ != "purpose"@);
    assert("enabled"@ != "null-value"@);
    assert("enabled"@ != "format"@);
    assert("enabled"@ != "map-symbols"@);
    assert("enabled"@ != "nlevels"@);
    assert("enabled"@ != "nrows"@);
    assert("enabled"@ != "filename"@);
    assert("enabled"@ != "null-value-count"@);
    assert("enabled"@ != "codomain-reducer"@);
    assert("enabled"@ != "map-weights"@);
    assert("header-idx"@ != "default-name"@);
    assert("header-idx"@ != "field-alias"@);
    assert("header-idx"@ != "purpose"@);
    assert("header-idx"@ != "null-value"@);
    assert("header-idx"@ != "format"@);
    assert("header-idx"@ != "map-symbols"@);
    assert("header-idx"@ != "nlevels"@);
    assert("header-idx"@ != "nrows"@);
    assert("header-idx"@ != "filename"@);
    assert("header-idx"@ != "null-value-count"@);
    assert("header-idx"@ != "codomain-reducer"@);
    assert("header-idx"@ != "map-weights"@);
    assert("default-name"@ != "field-alias"@);
    assert("default-name"@ != "purpose"@);
    assert("default-name"@ != "null-value"@);
    assert("default-name"@ != "format"@);
    assert("default-name"@ != "map-symbols"@);
    assert("default-name"@ != "nlevels"@);
    assert("default-name"@ != "nrows"@);
    assert("default-name"@ != "filename"@);
    assert("default-name"@ != "null-value-count"@);
    assert("default-name"@ != "codomain-reducer"@);
    assert("default-name"@ != "map-weights"@);
    assert("field-alias"@ != "purpose"@);
    assert("field-alias"@ != "null-value"@);
    assert("field-alias"@ != "format"@);
    assert("field-alias"@ != "map-symbols"@);
    assert("field-alias"@ != "nlevels"@);
    assert("field-alias"@ != "nrows"@);
    assert("field-alias"@ != "filename"@);
    assert("field-alias"@ != "null-value-count"@);
    assert("field-alias"@ != "codomain-reducer"@);
    assert("field-alias"@ != "map-weights"@);
    assert("purpose"@ != "null-value"@);
    assert("purpose"@ != "format"@);
    assert("purpose"@ != "map-symbols"@);
    assert("purpose"@ != "nlevels"@);
    assert("purpose"@ != "nrows"@);
    assert("purpose"@ != "filename"@);
    assert("purpose"@ != "null-value-count"@);
    assert("purpose"@ != "codomain-reducer"@);
    assert("purpose"@ != "map-weights"@);
    assert("null-value"@ != "format"@);
    assert("null-value"@ != "map-symbols"@);
    assert("null-value"@ != "nlevels"@);
    assert("null-value"@ != "nrows"@);
    assert("null-value"@ != "filename"@);
    assert("null-value"@ != "null-value-count"@);
    assert("null-value"@ != "codomain-reducer"@);
    assert("null-value"@ != "map-weights"@);
    assert("format"@ != "map-symbols"@);
    assert("format"@ != "nlevels"@);
    assert("format"@ != "nrows"@);
    assert("format"@ != "filename"@);
    assert("format"@ != "null-value-count"@);
    assert("format"@ != "codomain-reducer"@);
    assert("format"@ != "map-weights"@);
    assert("map-symbols"@ != "nlevels"@);
    assert("map-symbols"@ != "nrows"@);
    assert("map-symbols"@ != "filename"@);
    assert("map-symbols"@ != "null-value-count"@);
    assert("map-symbols"@ != "codomain-reducer"@);
    assert("map-symbols"@ != "map-weights"@);
    assert("nlevels"@ != "nrows"@);
    assert("nlevels"@ != "filename"@);
    assert("nlevels"@ != "null-value-count"@);
    assert("nlevels"@ != "codomain-reducer"@);
    assert("nlevels"@ != "map-weights"@);
    assert("nrows"@ != "filename"@);
    assert("nrows"@ != "null-value-count"@);
    assert("nrows"@ != "codomain-reducer"@);
    assert("nrows"@ != "map-weights"@);
    assert("filename"@ != "null-value-count"@);
    assert("filename"@ != "codomain-reducer"@);
    assert("filename"@ != "map-weights"@);
    assert("null-value-count"@ != "codomain-reducer"@);
    assert("null-value-count"@ != "map-weights"@);
    assert("codomain-reducer"@ != "map-weights"@);
    let o = enc_wide_source(m);
    assert(lookup(o, "source-type"@) == Some(Json::Str("WIDE"@)));
    assert(lookup(o, "enabled"@) == Some(Json::Bool(m.enabled)));
    assert(lookup(o, "header-idx"@) == Some(enc_u32(m.header_idx)));
    assert(lookup(o, "default-name"@) == Some(Json::Str(m.default_name)));
    assert(lookup(o, "field-alias"@) == Some(Json::Str(m.field_alias)));
    assert(lookup(o, "purpose"@) == Some(enc_purpose(m.purpose)));
    assert(lookup(o, "null-value"@) == Some(enc_opt_scalar(m.null_value)));
    assert(lookup(o, "format"@) == Some(enc_opt_str(m.format)));
    assert(lookup(o, "map-symbols"@) == Some(enc_arrows_text(m.map_symbols)));
    assert(lookup(o, "nlevels"@) == Some(enc_u32(m.nlevels)));
    assert(lookup(o, "nrows"@) == Some(enc_u32(m.nrows)));
    assert(lookup(o, "filename"@) == Some(Json::Str(m.filename)));
    assert(lookup(o, "null-value-count"@) == Some(enc_u32(m.null_value_count)));
    assert(lookup(o, "codomain-reducer"@) == Some(enc_opt_reducer(m.codomain_reducer)));
    assert(lookup(o, "map-weights"@) == Some(enc_opt_arrows_number(m.map_weights)));
    lemma_u32_round_trip(m.header_idx, "header-idx"@);
    lemma_purpose_round_trip(m.purpose, "purpose"@);
    lemma_text_table_round_trip(m.map_symbols, "arrows"@);
    lemma_u32_round_trip(m.nlevels, "nlevels"@);
    lemma_u32_round_trip(m.nrows, "nrows"@);
    lemma_u32_round_trip(m.null_value_count, "null-value-count"@);
    if let Some(r) = m.codomain_reducer {
        lemma_reducer_round_trip(r, "codomain-reducer"@);
    }
    if let Some(t) = m.map_weights {
        lemma_number_table_round_trip(t, "arrows"@);
    }
}

pub proof fn lemma_subject_field_round_trip(m: SubjectFieldModel)
    ensures
        subject_field(enc_subject_field(m)) == Ok::<SubjectFieldModel, Fault>(m),
{
    broadcast use lemma_lookup_push;

    reveal_strlit("purpose");
    reveal_strlit("idx");
    reveal_strlit("name");
    reveal_strlit("format");
    reveal_strlit("sources");
    assert("purpose"@.len() == 7);
    assert("idx"@.len() == 3);
    assert("name"@.len() == 4);
    assert("format"@.len() == 6);
    assert("sources"@.len() == 7);
    assert("purpose"@[0] == 'p' && "sources"@[0] == 's');
    assert("purpose"@ != "idx"@);
    assert("purpose"@ != "name"@);
    assert("purpose"@ != "format"@);
    assert("purpose"@ != "sources"@);
    assert("idx"@ != "name"@);
    assert("idx"@ != "format"@);
    assert("idx"@ != "sources"@);
    assert("name"@ != "format"@);
    assert("name"@ != "sources"@);
    assert("format"@ != "sources"@);
    let o = enc_subject_field(m);
    assert(lookup(o, "purpose"@) == Some(Json::Str("subject"@)));
    assert(lookup(o, "idx"@) == Some(enc_u32(m.idx)));
    assert(lookup(o, "name"@) == Some(Json::Str(m.name)));
    assert(lookup(o, "format"@) == Some(enc_opt_str(m.format)));
    assert(lookup(o, "sources"@) == Some(enc_sources(m.sources)));
    lemma_u32_round_trip(m.idx, "idx"@);
    lemma_sources_round_trip(m.sources, "sources"@);
}

pub proof fn lemma_quality_field_round_trip(m: QualityFieldModel)
    ensures
        quality_field(enc_quality_field(m)) == Ok::<QualityFieldModel, Fault>(m),
{
    broadcast use lemma_lookup_push;

    reveal_strlit("purpose");
    reveal_strlit("idx");
    reveal_strlit("name");
    reveal_strlit("etl-unit");
    reveal_strlit("format");
    reveal_strlit("null-value-expansion");
    reveal_strlit("map-weights");
    reveal_strlit("map-files");
    reveal_strlit("sources");
    assert("purpose"@.len() == 7);
    assert("idx"@.len() == 3);
    assert("name"@.len() == 4);
    assert("etl-unit"@.len() == 8);
    assert("format"@.len() == 6);
    assert("null-value-expansion"@.len() == 20);
    assert("map-weights"@.len() == 11);
    assert("map-files"@.len() == 9);
    assert("sources"@.len() == 7);
    assert("purpose"@[0] == 'p' && "sources"@[0] == 's');
    assert("purpose"@ != "idx"@);
    assert("purpose"@ != "name"@);
    assert("purpose"@ != "etl-unit"@);
    assert("purpose"@ != "format"@);
    assert("purpose"@ != "null-value-expansion"@);
    assert("purpose"@ != "map-weights"@);
    assert("purpose"@ != "map-files"@);
    assert("purpose"@ != "sources"@);
    assert("idx"@ != "name"@);
    assert("idx"@ != "etl-unit"@);
    assert("idx"@ != "format"@);
    assert("idx"@ != "null-value-expansion"@);
    assert("idx"@ != "map-weights"@);
    assert("idx"@ != "map-files"@);
    assert("idx"@ != "sources"@);
    assert("name"@ != "etl-unit"@);
    assert("name"@ != "format"@);
    assert("name"@ != "null-value-expansion"@);
    assert("name"@ != "map-weights"@);
    assert("name"@ != "map-files"@);
    assert("name"@ != "sources"@);
    assert("etl-unit"@ != "format"@);
    assert("etl-unit"@ != "null-value-expansion"@);
    assert("etl-unit"@ != "map-weights"@);
    assert("etl-unit"@ != "map-files"@);
    assert("etl-unit"@ != "sources"@);
    assert("format"@ != "null-value-expansion"@);
    assert("format"@ != "map-weights"@);
    assert("format"@ != "map-files"@);
    assert("format"@ != "sources"@);
    assert("null-value-expansion"@ != "map-weights"@);
    assert("null-value-expansion"@ != "map-files"@);
    assert("null-value-expansion"@ != "sources"@);
    assert("map-weights"@ != "map-files"@);
    assert("map-weights"@ != "sources"@);
    assert("map-files"@ != "sources"@);
    let o = enc_quality_field(m);
    assert(lookup(o, "purpose"@) == Some(Json::Str("quality"@)));
    assert(lookup(o, "idx"@) == Some(enc_u32(m.idx)));
    assert(lookup(o, "name"@) == Some(Json::Str(m.name)));
    assert(lookup(o, "etl-unit"@) == Some(enc_names(m.etl_unit)));
    assert(lookup(o, "format"@) == Some(enc_opt_str(m.format)));
    assert(lookup(o, "null-value-expansion"@) == Some(enc_opt_str(m.null_value_expansion)));
    assert(lookup(o, "map-weights"@) == Some(enc_arrows_number(m.map_weights)));
    assert(lookup(o, "map-files"@) == Some(enc_opt_text_table(m.map_files)));
    assert(lookup(o, "sources"@) == Some(enc_sources(m.sources)));
    lemma_u32_round_trip(m.idx, "idx"@);
    lemma_names_round_trip(m.etl_unit, "etl-unit"@);
    lemma_number_table_round_trip(m.map_weights, "arrows"@);
    if let Some(t) = m.map_files {
        lemma_text_table_round_trip(t, "map-files"@);
    }
    lemma_sources_round_trip(m.sources, "sources"@);
}

pub proof fn lemma_mcomp_field_round_trip(m: MCompFieldModel)
    ensures
        mcomp_field(enc_mcomp_field(m)) == Ok::<MCompFieldModel, Fault>(m),
{
    broadcast use lemma_lookup_push;

    reveal_strlit("purpose");
    reveal_strlit("idx");
    reveal_strlit("name");
    reveal_strlit("etl-unit");
    reveal_strlit("format");
    reveal_strlit("map-weights");
    reveal_strlit("map-files");
    reveal_strlit("sources");
    assert("purpose"@.len() == 7);
    assert("idx"@.len() == 3);
    assert("name"@.len() == 4);
    assert("etl-unit"@.len() == 8);
    assert("format"@.len() == 6);
    assert("map-weights"@.len() == 11);
    assert("map-files"@.len() == 9);
    assert("sources"@.len() == 7);
    assert("purpose"@[0] == 'p' && "sources"@[0] == 's');
    assert("purpose"@ != "idx"@);
    assert("purpose"@ != "name"@);
    assert("purpose"@ != "etl-unit"@);
    assert("purpose"@ != "format"@);
    assert("purpose"@ != "map-weights"@);
    assert("purpose"@ != "map-files"@);
    assert("purpose"@ != "sources"@);
    assert("idx"@ != "name"@);
    assert("idx"@ != "etl-unit"@);
    assert("idx"@ != "format"@);
    assert("idx"@ != "map-weights"@);
    assert("idx"@ != "map-files"@);
    assert("idx"@ != "sources"@);
    assert("name"@ != "etl-unit"@);
    assert("name"@ != "format"@);
    assert("name"@ != "map-weights"@);
    assert("name"@ != "map-files"@);
    assert("name"@ != "sources"@);
    assert("etl-unit"@ != "format"@);
    assert("etl-unit"@ != "map-weights"@);
    assert("etl-unit"@ != "map-files"@);
    assert("etl-unit"@ != "sources"@);
    assert("format"@ != "map-weights"@);
    assert("format"@ != "map-files"@);
    assert("format"@ != "sources"@);
    assert("map-weights"@ != "map-files"@);
    assert("map-weights"@ != "sources"@);
    assert("map-files"@ != "sources"@);
    let o = enc_mcomp_field(m);
    assert(lookup(o, "purpose"@) == Some(Json::Str("mcomp"@)));
    assert(lookup(o, "idx"@) == Some(enc_u32(m.idx)));
    assert(lookup(o, "name"@) == Some(Json::Str(m.name)));
    assert(lookup(o, "etl-unit"@) == Some(enc_names(m.etl_unit)));
    assert(lookup(o, "format"@) == Some(enc_opt_str(m.format)));
    assert(lookup(o, "map-weights"@) == Some(enc_arrows_number(m.map_weights)));
    assert(lookup(o, "map-files"@) == Some(enc_opt_text_table(m.map_files)));
    assert(lookup(o, "sources"@) == Some(enc_sources(m.sources)));
    lemma_u32_round_trip(m.idx, "idx"@);
    lemma_names_round_trip(m.etl_unit, "etl-unit"@);
    lemma_number_table_round_trip(m.map_weights, "arrows"@);
    if let Some(t) = m.map_files {
        lemma_text_table_round_trip(t, "map-files"@);
    }
    lemma_sources_round_trip(m.sources, "sources"@);
}

pub proof fn lemma_mspan_field_round_trip(m: MSpanFieldModel)
    ensures
        mspan_field(enc_mspan_field(m)) == Ok::<MSpanFieldModel, Fault>(m),
{
    broadcast use lemma_lookup_push;

    reveal_strlit("purpose");
    reveal_strlit("idx");
    reveal_strlit("name");
    reveal_strlit("etl-unit");
    reveal_strlit("format");
    reveal_strlit("time");
    reveal_strlit("levels-mspan");
    reveal_strlit("sources");
    assert("purpose"@.len() == 7);
    assert("idx"@.len() == 3);
    assert("name"@.len() == 4);
    assert("etl-unit"@.len() == 8);
    assert("format"@.len() == 6);
    assert("time"@.len() == 4);
    assert("levels-mspan"@.len() == 12);
    assert("sources"@.len() == 7);
    assert("purpose"@[0] == 'p' && "sources"@[0] == 's');
    assert("name"@[0] == 'n' && "time"@[0] == 't');
    assert("purpose"@ != "idx"@);
    assert("purpose"@ != "name"@);
    assert("purpose"@ != "etl-unit"@);
    assert("purpose"@ != "format"@);
    assert("purpose"@ != "time"@);
    assert("purpose"@ != "levels-mspan"@);
    assert("purpose"@ != "sources"@);
    assert("idx"@ != "name"@);
    assert("idx"@ != "etl-unit"@);
    assert("idx"@ != "format"@);
    assert("idx"@ != "time"@);
    assert("idx"@ != "levels-mspan"@);
    assert("idx"@ != "sources"@);
    assert("name"@ != "etl-unit"@);
    assert("name"@ != "format"@);
    assert("name"@ != "time"@);
    assert("name"@ != "levels-mspan"@);
    assert("name"@ != "sources"@);
    assert("etl-unit"@ != "format"@);
    assert("etl-unit"@ != "time"@);
    assert("etl-unit"@ != "levels-mspan"@);
    assert("etl-unit"@ != "sources"@);
    assert("format"@ != "time"@);
    assert("format"@ != "levels-mspan"@);
    assert("format"@ != "sources"@);
    assert("time"@ != "levels-mspan"@);
    assert("time"@ != "sources"@);
    assert("levels-mspan"@ != "sources"@);
    let o = enc_mspan_field(m);
    assert(lookup(o, "purpose"@) == Some(Json::Str("mspan"@)));
    assert(lookup(o, "idx"@) == Some(enc_u32(m.idx)));
    assert(lookup(o, "name"@) == Some(Json::Str(m.name)));
    assert(lookup(o, "etl-unit"@) == Some(enc_names(m.etl_unit)));
    assert(lookup(o, "format"@) == Some(enc_opt_str(m.format)));
    assert(lookup(o, "time"@) == Some(Json::Object(enc_time(m.time))));
    assert(lookup(o, "levels-mspan"@) == Some(enc_ranges(m.levels_mspan)));
    assert(lookup(o, "sources"@) == Some(enc_sources(m.sources)));
    lemma_u32_round_trip(m.idx, "idx"@);
    lemma_names_round_trip(m.etl_unit, "etl-unit"@);
    lemma_time_round_trip(m.time);
    lemma_ranges_round_trip(m.levels_mspan, "levels-mspan"@);
    lemma_sources_round_trip(m.sources, "sources"@);
}

pub proof fn lemma_mvalue_field_round_trip(m: MValueFieldModel)
    ensures
        mvalue_field(enc_mvalue_field(m)) == Ok::<MValueFieldModel, Fault>(m),
{
    broadcast use lemma_lookup_push;

    reveal_strlit("purpose");
    reveal_strlit("idx");
    reveal_strlit("name");
    reveal_strlit("etl-unit");
    reveal_strlit("format");
    reveal_strlit("null-value-expansion");
    reveal_strlit("map-files");
    reveal_strlit("map-weights");
    reveal_strlit("map-symbols");
    reveal_strlit("codomain-reducer");
    reveal_strlit("slicing-reducer");
    reveal_strlit("sources");
    assert("purpose"@.len() == 7);
    assert("idx"@.len() == 3);
    assert("name"@.len() == 4);
    assert("etl-unit"@.len() == 8);
    assert("format"@.len() == 6);
    assert("null-value-expansion"@.len() == 20);
    assert("map-files"@.len() == 9);
    assert("map-weights"@.len() == 11);
    assert("map-symbols"@.len() == 11);
    assert("codomain-reducer"@.len() == 16);
    assert("slicing-reducer"@.len() == 15);
    assert("sources"@.len() == 7);
    assert("purpose"@[0] == 'p' && "sources"@[0] == 's');
    assert("map-weights"@[4] == 'w' && "map-symbols"@[4] == 's');
    assert("purpose"@ != "idx"@);
    assert("purpose"@ != "name"@);
    assert("purpose"@ != "etl-unit"@);
    assert("purpose"@ != "format"@);
    assert("purpose"@ != "null-value-expansion"@);
    assert("purpose"@ != "map-files"@);
    assert("purpose"@ != "map-weights"@);
    assert("purpose"@ != "map-symbols"@);
    assert("purpose"@ != "codomain-reducer"@);
    assert("purpose"@ != "slicing-reducer"@);
    assert("purpose"@ != "sources"@);
    assert("idx"@ != "name"@);
    assert("idx"@ != "etl-unit"@);
    assert("idx"@ != "format"@);
    assert("idx"@ != "null-value-expansion"@);
    assert("idx"@ != "map-files"@);
    assert("idx"@ != "map-weights"@);
    assert("idx"@ != "map-symbols"@);
    assert("idx"@ != "codomain-reducer"@);
    assert("idx"@ != "slicing-reducer"@);
    assert("idx"@ != "sources"@);
    assert("name"@ != "etl-unit"@);
    assert("name"@ != "format"@);
    assert("name"@ != "null-value-expansion"@);
    assert("name"@ != "map-files"@);
    assert("name"@ != "map-weights"@);
    assert("name"@ != "map-symbols"@);
    assert("name"@ != "codomain-reducer"@);
    assert("name"@ != "slicing-reducer"@);
    assert("name"@ != "sources"@);
    assert("etl-unit"@ != "format"@);
    assert("etl-unit"@ != "null-value-expansion"@);
    assert("etl-unit"@ != "map-files"@);
    assert("etl-unit"@ != "map-weights"@);
    assert("etl-unit"@ != "map-symbols"@);
    assert("etl-unit"@ != "codomain-reducer"@);
    assert("etl-unit"@ != "slicing-reducer"@);
    assert("etl-unit"@ != "sources"@);
    assert("format"@ != "null-value-expansion"@);
    assert("format"@ != "map-files"@);
    assert("format"@ != "map-weights"@);
    assert("format"@ != "map-symbols"@);
    assert("format"@ != "codomain-reducer"@);
    assert("format"@ != "slicing-reducer"@);
    assert("format"@ != "sources"@);
    assert("null-value-expansion"@ != "map-files"@);
    assert("null-value-expansion"@ != "map-weights"@);
    assert("null-value-expansion"@ != "map-symbols"@);
    assert("null-value-expansion"@ != "codomain-reducer"@);
    assert("null-value-expansion"@ != "slicing-reducer"@);
    assert("null-value-expansion"@ != "sources"@);
    assert("map-files"@ != "map-weights"@);
    assert("map-files"@ != "map-symbols"@);
    assert("map-files"@ != "codomain-reducer"@);
    assert("map-files"@ != "slicing-reducer"@);
    assert("map-files"@ != "sources"@);
    assert("map-weights"@ != "map-symbols"@);
    assert("map-weights"@ != "codomain-reducer"@);
    assert("map-weights"@ != "slicing-reducer"@);
    assert("map-weights"@ != "sources"@);
    assert("map-symbols"@ != "codomain-reducer"@);
    assert("map-symbols"@ != "slicing-reducer"@);
    assert("map-symbols"@ != "sources"@);
    assert("codomain-reducer"@ != "slicing-reducer"@);
    assert("codomain-reducer"@ != "sources"@);
    assert("slicing-reducer"@ != "sources"@);
    let o = enc_mvalue_field(m);
    assert(lookup(o, "purpose"@) == Some(Json::Str("mvalue"@)));
    assert(lookup(o, "idx"@) == Some(enc_u32(m.idx)));
    assert(lookup(o, "name"@) == Some(Json::Str(m.name)));
    assert(lookup(o, "etl-unit"@) == Some(enc_names(m.etl_unit)));
    assert(lookup(o, "format"@) == Some(enc_opt_str(m.format)));
    assert(lookup(o, "null-value-expansion"@) == Some(enc_opt_str(m.null_value_expansion)));
    assert(lookup(o, "map-files"@) == Some(enc_opt_text_table(m.map_files)));
    assert(lookup(o, "map-weights"@) == Some(enc_opt_number_tables(m.map_weights)));
    assert(lookup(o, "map-symbols"@) == Some(enc_text_tables(m.map_symbols)));
    assert(lookup(o, "codomain-reducer"@) == Some(enc_reducer(m.codomain_reducer)));
    assert(lookup(o, "slicing-reducer"@) == Some(enc_reducer(m.slicing_reducer)));
    assert(lookup(o, "sources"@) == Some(enc_sources(m.sources)));
    lemma_u32_round_trip(m.idx, "idx"@);
    lemma_names_round_trip(m.etl_unit, "etl-unit"@);
    if let Some(t) = m.map_files {
        lemma_text_table_round_trip(t, "map-files"@);
    }
    if let Some(t) = m.map_weights {
        lemma_number_tables_round_trip(t, "map-weights"@);
    }
    lemma_text_tables_round_trip(m.map_symbols, "map-symbols"@);
    lemma_reducer_round_trip(m.codomain_reducer, "codomain-reducer"@);
    lemma_reducer_round_trip(m.slicing_reducer, "slicing-reducer"@);
    lemma_sources_round_trip(m.sources, "sources"@);
}

pub proof fn lemma_quality_unit_round_trip(m: EtlUnitQualityModel)
    ensures
        quality_unit(enc_quality_unit(m)) == Ok::<EtlUnitQualityModel, Fault>(m),
{
    broadcast use lemma_lookup_push;

    reveal_strlit("type");
    reveal_strlit("subject");
    reveal_strlit("codomain");
    reveal_strlit("codomain-reducer");
    assert("type"@.len() == 4);
    assert("subject"@.len() == 7);
    assert("codomain"@.len() == 8);
    assert("codomain-reducer"@.len() == 16);
    assert("type"@ != "subject"@);
    assert("type"@ != "codomain"@);
    assert("type"@ != "codomain-reducer"@);
    assert("subject"@ != "codomain"@);
    assert("subject"@ != "codomain-reducer"@);
    assert("codomain"@ != "codomain-reducer"@);
    let o = enc_quality_unit(m);
    assert(lookup(o, "type"@) == Some(Json::Str("quality"@)));
    assert(lookup(o, "subject"@) == Some(Json::Str(m.subject)));
    assert(lookup(o, "codomain"@) == Some(Json::Str(m.codomain)));
    assert(lookup(o, "codomain-reducer"@) == Some(enc_reducer(m.codomain_reducer)));
    lemma_reducer_round_trip(m.codomain_reducer, "codomain-reducer"@);
}

pub proof fn lemma_measurement_unit_round_trip(m: EtlUnitMeasurementModel)
    ensures
        measurement_unit(enc_measurement_unit(m)) == Ok::<EtlUnitMeasurementModel, Fault>(m),
{
    broadcast use lemma_lookup_push;

    reveal_strlit("type");
    reveal_strlit("subject");
    reveal_strlit("codomain");
    reveal_strlit("codomain-reducer");
    reveal_strlit("mcomps");
    reveal_strlit("mspan");
    reveal_strlit("slicing-reducer");
    assert("type"@.len() == 4);
    assert("subject"@.len() == 7);
    assert("codomain"@.len() == 8);
    assert("codomain-reducer"@.len() == 16);
    assert("mcomps"@.len() == 6);
    assert("mspan"@.len() == 5);
    assert("slicing-reducer"@.len() == 15);
    assert("type"@ != "subject"@);
    assert("type"@ != "codomain"@);
    assert("type"@ != "codomain-reducer"@);
    assert("type"@ != "mcomps"@);
    assert("type"@ != "mspan"@);
    assert("type"@ != "slicing-reducer"@);
    assert("subject"@ != "codomain"@);
    assert("subject"@ != "codomain-reducer"@);
    assert("subject"@ != "mcomps"@);
    assert("subject"@ != "mspan"@);
    assert("subject"@ != "slicing-reducer"@);
    assert("codomain"@ != "codomain-reducer"@);
    assert("codomain"@ != "mcomps"@);
    assert("codomain"@ != "mspan"@);
    assert("codomain"@ != "slicing-reducer"@);
    assert("codomain-reducer"@ != "mcomps"@);
    assert("codomain-reducer"@ != "mspan"@);
    assert("codomain-reducer"@ != "slicing-reducer"@);
    assert("mcomps"@ != "mspan"@);
    assert("mcomps"@ != "slicing-reducer"@);
    assert("mspan"@ != "slicing-reducer"@);
    let o = enc_measurement_unit(m);
    assert(lookup(o, "type"@) == Some(Json::Str("mvalue"@)));
    assert(lookup(o, "subject"@) == Some(Json::Str(m.subject)));
    assert(lookup(o, "codomain"@) == Some(Json::Str(m.codomain)));
    assert(lookup(o, "codomain-reducer"@) == Some(enc_reducer(m.codomain_reducer)));
    assert(lookup(o, "mcomps"@) == Some(enc_names(m.mcomps)));
    assert(lookup(o, "mspan"@) == Some(Json::Str(m.mspan)));
    assert(lookup(o, "slicing-reducer"@) == Some(enc_reducer(m.slicing_reducer)));
    lemma_reducer_round_trip(m.codomain_reducer, "codomain-reducer"@);
    lemma_names_round_trip(m.mcomps, "mcomps"@);
    lemma_reducer_round_trip(m.slicing_reducer, "slicing-reducer"@);
}

pub proof fn lemma_subject_unit_round_trip(m: EtlUnitSubjectModel)
    ensures
        subject_unit(enc_subject_unit(m)) == Ok::<EtlUnitSubjectModel, Fault>(m),
{
    broadcast use lemma_lookup_push;

    reveal_strlit("type");
    reveal_strlit("subject");
    reveal_strlit("codomain");
    assert("type"@.len() == 4);
    assert("subject"@.len() == 7);
    assert("codomain"@.len() == 8);
    assert("type"@ != "subject"@);
    assert("type"@ != "codomain"@);
    assert("subject"@ != "codomain"@);
    let o = enc_subject_unit(m);
    assert(lookup(o, "type"@) == Some(Json::Str("subject"@)));
    assert(lookup(o, "subject"@) == Some(Json::Str(m.subject)));
    assert(lookup(o, "codomain"@) == Some(Json::Str(m.codomain)));
}

pub proof fn lemma_names_round_trip(t: Seq<Seq<char>>, key: Seq<char>)
    ensures
        strings_of(enc_names(t)->Array_0, key) == Ok::<Seq<Seq<char>>, Fault>(t),
    decreases t.len(),
{
    if t.len() > 0 {
        lemma_names_round_trip(t.drop_first(), key);
        
        assert(enc_names(t)->Array_0.drop_first() =~= enc_names(t.drop_first())->Array_0);
        assert(seq![t[0]] + t.drop_first() =~= t);
    } else {
        assert(t =~= Seq::empty());
    }
}

pub proof fn lemma_text_table_round_trip(t: TableModel<Seq<char>>, key: Seq<char>)
    ensures
        text_entries(enc_text_table(t)->Object_0, key) == Ok::<TableModel<Seq<char>>, Fault>(t),
    decreases t.len(),
{
    if t.len() > 0 {
        lemma_text_table_round_trip(t.drop_first(), key);
        
        assert(enc_text_table(t)->Object_0.drop_first() =~= enc_text_table(t.drop_first())->Object_0);
        assert(seq![t[0]] + t.drop_first() =~= t);
    } else {
        assert(t =~= Seq::empty());
    }
}

pub proof fn lemma_number_table_round_trip(t: TableModel<Seq<char>>, key: Seq<char>)
    ensures
        number_entries(enc_number_table(t)->Object_0, key) == Ok::<TableModel<Seq<char>>, Fault>(t),
    decreases t.len(),
{
    if t.len() > 0 {
        lemma_number_table_round_trip(t.drop_first(), key);
        
        assert(enc_number_table(t)->Object_0.drop_first() =~= enc_number_table(t.drop_first())->Object_0);
        assert(seq![t[0]] + t.drop_first() =~= t);
    } else {
        assert(t =~= Seq::empty());
    }
}

pub proof fn lemma_text_tables_round_trip(t: TableModel<TableModel<Seq<char>>>, key: Seq<char>)
    ensures
        text_table_entries(enc_text_tables(t)->Object_0, key) == Ok::<TableModel<TableModel<Seq<char>>>, Fault>(t),
    decreases t.len(),
{
    if t.len() > 0 {
        lemma_text_tables_round_trip(t.drop_first(), key);
        lemma_text_table_round_trip(t[0].1, t[0].0);
        assert(enc_text_tables(t)->Object_0.drop_first() =~= enc_text_tables(t.drop_first())->Object_0);
        assert(seq![t[0]] + t.drop_first() =~= t);
    } else {
        assert(t =~= Seq::empty());
    }
}

pub proof fn lemma_number_tables_round_trip(t: TableModel<TableModel<Seq<char>>>, key: Seq<char>)
    ensures
        number_table_entries(enc_number_tables(t)->Object_0, key) == Ok::<TableModel<TableModel<Seq<char>>>, Fault>(t),
    decreases t.len(),
{
    if t.len() > 0 {
        lemma_number_tables_round_trip(t.drop_first(), key);
        lemma_number_table_round_trip(t[0].1, t[0].0);
        assert(enc_number_tables(t)->Object_0.drop_first() =~= enc_number_tables(t.drop_first())->Object_0);
        assert(seq![t[0]] + t.drop_first() =~= t);
    } else {
        assert(t =~= Seq::empty());
    }
}

pub proof fn lemma_ranges_round_trip(t: Seq<Range>, key: Seq<char>)
    ensures
        ranges_of(enc_ranges(t)->Array_0, key) == Ok::<Seq<Range>, Fault>(t),
    decreases t.len(),
{
    if t.len() > 0 {
        lemma_ranges_round_trip(t.drop_first(), key);
        lemma_range_round_trip(t[0]);
        assert(enc_ranges(t)->Array_0.drop_first() =~= enc_ranges(t.drop_first())->Array_0);
        assert(seq![t[0]] + t.drop_first() =~= t);
    } else {
        assert(t =~= Seq::empty());
    }
}

pub proof fn lemma_sources_round_trip(t: Seq<SourceModel>, key: Seq<char>)
    ensures
        sources_of(enc_sources(t)->Array_0, key) == Ok::<Seq<SourceModel>, Fault>(t),
    decreases t.len(),
{
    if t.len() > 0 {
        lemma_sources_round_trip(t.drop_first(), key);
        lemma_source_round_trip(t[0], key);
        assert(enc_sources(t)->Array_0.drop_first() =~= enc_sources(t.drop_first())->Array_0);
        assert(seq![t[0]] + t.drop_first() =~= t);
    } else {
        assert(t =~= Seq::empty());
    }
}

pub proof fn lemma_fields_round_trip(t: TableModel<EtlFieldModel>, key: Seq<char>)
    ensures
        field_entries(enc_fields(t)->Object_0, key) == Ok::<TableModel<EtlFieldModel>, Fault>(t),
    decreases t.len(),
{
    if t.len() > 0 {
        lemma_fields_round_trip(t.drop_first(), key);
        lemma_field_round_trip(t[0].1, t[0].0);
        assert(enc_fields(t)->Object_0.drop_first() =~= enc_fields(t.drop_first())->Object_0);
        assert(seq![t[0]] + t.drop_first() =~= t);
    } else {
        assert(t =~= Seq::empty());
    }
}

pub proof fn lemma_units_round_trip(t: TableModel<EtlUnitModel>, key: Seq<char>)
    ensures
        unit_entries(enc_units(t)->Object_0, key) == Ok::<TableModel<EtlUnitModel>, Fault>(t),
    decreases t.len(),
{
    if t.len() > 0 {
        lemma_units_round_trip(t.drop_first(), key);
        lemma_unit_round_trip(t[0].1, t[0].0);
        assert(enc_units(t)->Object_0.drop_first() =~= enc_units(t.drop_first())->Object_0);
        assert(seq![t[0]] + t.drop_first() =~= t);
    } else {
        assert(t =~= Seq::empty());
    }
}


/// The round trip, for any object that decoding produced: decoding its
/// encoding gives it back.
pub proof fn lemma_decoded_round_trip(j: Json, m: EtlObjectModel)
    requires
        as_etl_object(j) == Ok::<EtlObjectModel, Fault>(m),
    ensures
        as_etl_object(enc_etl_object(m)) == Ok::<EtlObjectModel, Fault>(m),
{
    lemma_round_trip(m);
}

} // verus!
