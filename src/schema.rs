//! The configuration object: named analytic fields and aggregation units,
//! and where each field's raw values come from.
use vstd::prelude::*;
use crate::model::{
    CodomainModel, EtlFieldModel, EtlObjectModel, EtlUnitMeasurementModel, EtlUnitModel,
    EtlUnitQualityModel, EtlUnitSubjectModel, IntervalModel, MCompFieldModel, MSpanFieldModel,
    MValueFieldModel, MapImpliedModel, QualityFieldModel, ReferenceModel, ScalarModel, SourceImpliedModel,
    SourceModel, SourceRawModel, SourceWideModel, SubjectFieldModel, TableModel, TimeModel,
};

verus! {

/// The aggregation applied when several raw values meet in one output value.
#[derive(Clone, Copy, Debug, PartialEq, Eq, Structural)]
pub enum Reducer {
    FIRST,
    LAST,
    AVG,
    SUM,
    MIN,
    MAX,
}

/// The role of a field, as a source declares it.
#[derive(Clone, Copy, Debug, PartialEq, Eq, Structural)]
pub enum Purpose {
    SUBJECT,
    QUALITY,
    MCOMP,
    MSPAN,
    MVALUE,
}

/// One temporal bucketing level of a span field.
#[derive(Clone, Copy, Debug, PartialEq, Eq, Structural)]
pub struct Range {
    pub range_start: u32,
    pub range_length: u32,
    pub reduced: bool,
}

/// A bucketing level with signed bounds.
#[derive(Clone, Copy, Debug, PartialEq, Eq, Structural)]
pub struct LevelsMspan {
    pub range_start: i64,
    pub range_length: i64,
    pub reduced: bool,
}

/// A level of a source column, with the number of rows that hold it.
#[derive(Debug)]
pub struct Level {
    pub count: u32,
    pub value: String,
}

/// A JSON scalar: a boolean, a number kept as written, or a string.
#[derive(Debug)]
pub enum Scalar {
    Bool(bool),
    Number(String),
    Text(String),
}

/// A value that arrives either as a non-negative integer or as a string.
#[derive(Debug)]
pub enum Codomain {
    Number(u32),
    Text(String),
}

/// The rule that an implied source derives its value from.
#[derive(Debug)]
pub struct MapImplied {
    pub domain: String,
    pub codomain: Codomain,
}

/// Arrows from a domain token to a symbol.
#[derive(Debug)]
pub struct MapSymbols {
    pub arrows: Vec<(String, String)>,
}

/// Arrows from a domain token to a weight: a JSON number, kept as written.
#[derive(Debug)]
pub struct MapWeights {
    pub arrows: Vec<(String, String)>,
}

/// Arrows from a file name to a value.
#[derive(Debug)]
pub struct MapFiles {
    pub arrows: Vec<(String, String)>,
}

#[derive(Debug)]
pub struct Interval {
    pub unit: String,
    pub count: u32,
}

#[derive(Debug)]
pub struct Reference {
    pub idx: u32,
    pub value: String,
    pub iso_format: String,
}

/// How a span field buckets time.
#[derive(Debug)]
pub struct Time {
    pub interval: Interval,
    pub reference: Reference,
}

/// A column read directly from a file at a header index.
#[derive(Debug)]
pub struct SourceRaw {
    pub enabled: bool,
    pub header_idx: u32,
    pub header_name: Option<String>,
    pub field_alias: String,
    pub purpose: Purpose,
    pub null_value: Option<Scalar>,
    pub format: Option<String>,
    pub map_symbols: MapSymbols,
    pub nlevels: u32,
    pub nrows: u32,
    pub filename: String,
    pub null_value_count: u32,
    pub codomain_reducer: Option<Reducer>,
    pub map_weights: Option<MapWeights>,
}

/// A value derived from a mapping rule rather than read from a column.
#[derive(Debug)]
pub struct SourceImplied {
    pub enabled: bool,
    pub field_alias: String,
    pub purpose: Purpose,
    pub null_value: Option<Scalar>,
    pub format: Option<String>,
    pub nlevels: u32,
    pub filename: String,
    pub map_implied: MapImplied,
    pub codomain_reducer: Option<Reducer>,
    pub slicing_reducer: Option<Reducer>,
    pub map_weights: Option<MapWeights>,
}

/// A column of a file in the wide layout.
#[derive(Debug)]
pub struct SourceWide {
    pub enabled: bool,
    pub header_idx: u32,
    pub default_name: String,
    pub field_alias: String,
    pub purpose: Purpose,
    pub null_value: Option<Scalar>,
    pub format: Option<String>,
    pub map_symbols: MapSymbols,
    pub nlevels: u32,
    pub nrows: u32,
    pub filename: String,
    pub null_value_count: u32,
    pub codomain_reducer: Option<Reducer>,
    pub map_weights: Option<MapWeights>,
}

/// Where one field's raw values come from.
#[derive(Debug)]
pub enum Source {
    Raw(SourceRaw),
    Implied(SourceImplied),
    Wide(SourceWide),
}

#[derive(Debug)]
pub struct SubjectField {
    pub idx: u32,
    pub name: String,
    pub format: Option<String>,
    pub sources: Vec<Source>,
}

#[derive(Debug)]
pub struct QualityField {
    pub idx: u32,
    pub name: String,
    pub etl_unit: Vec<String>,
    pub format: Option<String>,
    pub null_value_expansion: Option<String>,
    pub map_weights: MapWeights,
    pub map_files: Option<Vec<(String, String)>>,
    pub sources: Vec<Source>,
}

#[derive(Debug)]
pub struct MCompField {
    pub idx: u32,
    pub name: String,
    pub etl_unit: Vec<String>,
    pub format: Option<String>,
    pub map_weights: MapWeights,
    pub map_files: Option<Vec<(String, String)>>,
    pub sources: Vec<Source>,
}

#[derive(Debug)]
pub struct MSpanField {
    pub idx: u32,
    pub name: String,
    pub etl_unit: Vec<String>,
    pub format: Option<String>,
    pub time: Time,
    pub levels_mspan: Vec<Range>,
    pub sources: Vec<Source>,
}

#[derive(Debug)]
pub struct MValueField {
    pub idx: u32,
    pub name: String,
    pub etl_unit: Vec<String>,
    pub format: Option<String>,
    pub null_value_expansion: Option<String>,
    pub map_files: Option<Vec<(String, String)>>,
    pub map_weights: Option<Vec<(String, Vec<(String, String)>)>>,
    pub map_symbols: Vec<(String, Vec<(String, String)>)>,
    pub codomain_reducer: Reducer,
    pub slicing_reducer: Reducer,
    pub sources: Vec<Source>,
}

/// A named analytic field, by its role.
#[derive(Debug)]
pub enum EtlField {
    Subject(SubjectField),
    Quality(QualityField),
    MComp(MCompField),
    MSpan(MSpanField),
    MValue(MValueField),
}

#[derive(Debug)]
pub struct EtlUnitQuality {
    pub subject: String,
    pub codomain: String,
    pub codomain_reducer: Reducer,
}

#[derive(Debug)]
pub struct EtlUnitMeasurement {
    pub subject: String,
    pub codomain: String,
    pub codomain_reducer: Reducer,
    pub mcomps: Vec<String>,
    pub mspan: String,
    pub slicing_reducer: Reducer,
}

#[derive(Debug)]
pub struct EtlUnitSubject {
    pub subject: String,
    pub codomain: String,
}

/// An aggregation unit, by its kind.
#[derive(Debug)]
pub enum EtlUnit {
    Quality(EtlUnitQuality),
    Measurement(EtlUnitMeasurement),
    Subject(EtlUnitSubject),
}

/// The configuration object: fields and units, each keyed by its name.
#[derive(Debug)]
pub struct EtlObject {
    pub etl_fields: Vec<(String, EtlField)>,
    pub etl_units: Vec<(String, EtlUnit)>,
}

impl DeepView for Reducer {
    type V = Reducer;

    open spec fn deep_view(&self) -> Reducer {
        *self
    }
}

impl DeepView for Purpose {
    type V = Purpose;

    open spec fn deep_view(&self) -> Purpose {
        *self
    }
}

impl DeepView for Range {
    type V = Range;

    open spec fn deep_view(&self) -> Range {
        *self
    }
}

impl DeepView for Scalar {
    type V = ScalarModel;

    open spec fn deep_view(&self) -> ScalarModel {
        match self {
            Scalar::Bool(b) => ScalarModel::Bool(*b),
            Scalar::Number(t) => ScalarModel::Number(t@),
            Scalar::Text(s) => ScalarModel::Text(s@),
        }
    }
}

impl DeepView for Codomain {
    type V = CodomainModel;

    open spec fn deep_view(&self) -> CodomainModel {
        match self {
            Codomain::Number(n) => CodomainModel::Number(*n),
            Codomain::Text(t) => CodomainModel::Text(t@),
        }
    }
}

impl DeepView for MapImplied {
    type V = MapImpliedModel;

    open spec fn deep_view(&self) -> MapImpliedModel {
        MapImpliedModel { domain: self.domain@, codomain: self.codomain.deep_view() }
    }
}

impl DeepView for MapSymbols {
    type V = TableModel<Seq<char>>;

    open spec fn deep_view(&self) -> TableModel<Seq<char>> {
        self.arrows.deep_view()
    }
}

impl DeepView for MapWeights {
    type V = TableModel<Seq<char>>;

    open spec fn deep_view(&self) -> TableModel<Seq<char>> {
        self.arrows.deep_view()
    }
}

impl DeepView for Interval {
    type V = IntervalModel;

    open spec fn deep_view(&self) -> IntervalModel {
        IntervalModel { unit: self.unit@, count: self.count }
    }
}

impl DeepView for Reference {
    type V = ReferenceModel;

    open spec fn deep_view(&self) -> ReferenceModel {
        ReferenceModel { idx: self.idx, value: self.value@, iso_format: self.iso_format@ }
    }
}

impl DeepView for Time {
    type V = TimeModel;

    open spec fn deep_view(&self) -> TimeModel {
        TimeModel { interval: self.interval.deep_view(), reference: self.reference.deep_view() }
    }
}

impl DeepView for SourceRaw {
    type V = SourceRawModel;

    open spec fn deep_view(&self) -> SourceRawModel {
        SourceRawModel {
            enabled: self.enabled,
            header_idx: self.header_idx,
            header_name: self.header_name.deep_view(),
            field_alias: self.field_alias@,
            purpose: self.purpose,
            null_value: self.null_value.deep_view(),
            format: self.format.deep_view(),
            map_symbols: self.map_symbols.deep_view(),
            nlevels: self.nlevels,
            nrows: self.nrows,
            filename: self.filename@,
            null_value_count: self.null_value_count,
            codomain_reducer: self.codomain_reducer,
            map_weights: self.map_weights.deep_view(),
        }
    }
}

impl DeepView for SourceImplied {
    type V = SourceImpliedModel;

    open spec fn deep_view(&self) -> SourceImpliedModel {
        SourceImpliedModel {
            enabled: self.enabled,
            field_alias: self.field_alias@,
            purpose: self.purpose,
            null_value: self.null_value.deep_view(),
            format: self.format.deep_view(),
            nlevels: self.nlevels,
            filename: self.filename@,
            map_implied: self.map_implied.deep_view(),
            codomain_reducer: self.codomain_reducer,
            slicing_reducer: self.slicing_reducer,
            map_weights: self.map_weights.deep_view(),
        }
    }
}

impl DeepView for SourceWide {
    type V = SourceWideModel;

    open spec fn deep_view(&self) -> SourceWideModel {
        SourceWideModel {
            enabled: self.enabled,
            header_idx: self.header_idx,
            default_name: self.default_name@,
            field_alias: self.field_alias@,
            purpose: self.purpose,
            null_value: self.null_value.deep_view(),
            format: self.format.deep_view(),
            map_symbols: self.map_symbols.deep_view(),
            nlevels: self.nlevels,
            nrows: self.nrows,
            filename: self.filename@,
            null_value_count: self.null_value_count,
            codomain_reducer: self.codomain_reducer,
            map_weights: self.map_weights.deep_view(),
        }
    }
}

impl DeepView for Source {
    type V = SourceModel;

    open spec fn deep_view(&self) -> SourceModel {
        match self {
            Source::Raw(s) => SourceModel::Raw(s.deep_view()),
            Source::Implied(s) => SourceModel::Implied(s.deep_view()),
            Source::Wide(s) => SourceModel::Wide(s.deep_view()),
        }
    }
}

impl DeepView for SubjectField {
    type V = SubjectFieldModel;

    open spec fn deep_view(&self) -> SubjectFieldModel {
        SubjectFieldModel {
            idx: self.idx,
            name: self.name@,
            format: self.format.deep_view(),
            sources: self.sources.deep_view(),
        }
    }
}

impl DeepView for QualityField {
    type V = QualityFieldModel;

    open spec fn deep_view(&self) -> QualityFieldModel {
        QualityFieldModel {
            idx: self.idx,
            name: self.name@,
            etl_unit: self.etl_unit.deep_view(),
            format: self.format.deep_view(),
            null_value_expansion: self.null_value_expansion.deep_view(),
            map_weights: self.map_weights.deep_view(),
            map_files: self.map_files.deep_view(),
            sources: self.sources.deep_view(),
        }
    }
}

impl DeepView for MCompField {
    type V = MCompFieldModel;

    open spec fn deep_view(&self) -> MCompFieldModel {
        MCompFieldModel {
            idx: self.idx,
            name: self.name@,
            etl_unit: self.etl_unit.deep_view(),
            format: self.format.deep_view(),
            map_weights: self.map_weights.deep_view(),
            map_files: self.map_files.deep_view(),
            sources: self.sources.deep_view(),
        }
    }
}

impl DeepView for MSpanField {
    type V = MSpanFieldModel;

    open spec fn deep_view(&self) -> MSpanFieldModel {
        MSpanFieldModel {
            idx: self.idx,
            name: self.name@,
            etl_unit: self.etl_unit.deep_view(),
            format: self.format.deep_view(),
            time: self.time.deep_view(),
            levels_mspan: self.levels_mspan.deep_view(),
            sources: self.sources.deep_view(),
        }
    }
}

impl DeepView for MValueField {
    type V = MValueFieldModel;

    open spec fn deep_view(&self) -> MValueFieldModel {
        MValueFieldModel {
            idx: self.idx,
            name: self.name@,
            etl_unit: self.etl_unit.deep_view(),
            format: self.format.deep_view(),
            null_value_expansion: self.null_value_expansion.deep_view(),
            map_files: self.map_files.deep_view(),
            map_weights: self.map_weights.deep_view(),
            map_symbols: self.map_symbols.deep_view(),
            codomain_reducer: self.codomain_reducer,
            slicing_reducer: self.slicing_reducer,
            sources: self.sources.deep_view(),
        }
    }
}

impl DeepView for EtlField {
    type V = EtlFieldModel;

    open spec fn deep_view(&self) -> EtlFieldModel {
        match self {
            EtlField::Subject(f) => EtlFieldModel::Subject(f.deep_view()),
            EtlField::Quality(f) => EtlFieldModel::Quality(f.deep_view()),
            EtlField::MComp(f) => EtlFieldModel::MComp(f.deep_view()),
            EtlField::MSpan(f) => EtlFieldModel::MSpan(f.deep_view()),
            EtlField::MValue(f) => EtlFieldModel::MValue(f.deep_view()),
        }
    }
}

impl DeepView for EtlUnitQuality {
    type V = EtlUnitQualityModel;

    open spec fn deep_view(&self) -> EtlUnitQualityModel {
        EtlUnitQualityModel {
            subject: self.subject@,
            codomain: self.codomain@,
            codomain_reducer: self.codomain_reducer,
        }
    }
}

impl DeepView for EtlUnitMeasurement {
    type V = EtlUnitMeasurementModel;

    open spec fn deep_view(&self) -> EtlUnitMeasurementModel {
        EtlUnitMeasurementModel {
            subject: self.subject@,
            codomain: self.codomain@,
            codomain_reducer: self.codomain_reducer,
            mcomps: self.mcomps.deep_view(),
            mspan: self.mspan@,
            slicing_reducer: self.slicing_reducer,
        }
    }
}

impl DeepView for EtlUnitSubject {
    type V = EtlUnitSubjectModel;

    open spec fn deep_view(&self) -> EtlUnitSubjectModel {
        EtlUnitSubjectModel { subject: self.subject@, codomain: self.codomain@ }
    }
}

impl DeepView for EtlUnit {
    type V = EtlUnitModel;

    open spec fn deep_view(&self) -> EtlUnitModel {
        match self {
            EtlUnit::Quality(u) => EtlUnitModel::Quality(u.deep_view()),
            EtlUnit::Measurement(u) => EtlUnitModel::Measurement(u.deep_view()),
            EtlUnit::Subject(u) => EtlUnitModel::Subject(u.deep_view()),
        }
    }
}

impl DeepView for EtlObject {
    type V = EtlObjectModel;

    open spec fn deep_view(&self) -> EtlObjectModel {
        EtlObjectModel {
            etl_fields: self.etl_fields.deep_view(),
            etl_units: self.etl_units.deep_view(),
        }
    }
}

} // verus!
