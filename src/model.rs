//! Mathematical models of the configuration object: the values that the
//! contracts of the decoder, encoder, validator and summarizer speak of.
use vstd::prelude::*;
use crate::schema::{Purpose, Range, Reducer};

verus! {

/// A table from a domain token to a value, in the order of its entries.
pub type TableModel<V> = Seq<(Seq<char>, V)>;

pub enum ScalarModel {
    Bool(bool),
    Number(Seq<char>),
    Text(Seq<char>),
}

pub enum CodomainModel {
    Number(u32),
    Text(Seq<char>),
}

pub struct MapImpliedModel {
    pub domain: Seq<char>,
    pub codomain: CodomainModel,
}

pub struct IntervalModel {
    pub unit: Seq<char>,
    pub count: u32,
}

pub struct ReferenceModel {
    pub idx: u32,
    pub value: Seq<char>,
    pub iso_format: Seq<char>,
}

pub struct TimeModel {
    pub interval: IntervalModel,
    pub reference: ReferenceModel,
}

pub struct SourceRawModel {
    pub enabled: bool,
    pub header_idx: u32,
    pub header_name: Option<Seq<char>>,
    pub field_alias: Seq<char>,
    pub purpose: Purpose,
    pub null_value: Option<ScalarModel>,
    pub format: Option<Seq<char>>,
    pub map_symbols: TableModel<Seq<char>>,
    pub nlevels: u32,
    pub nrows: u32,
    pub filename: Seq<char>,
    pub null_value_count: u32,
    pub codomain_reducer: Option<Reducer>,
    pub map_weights: Option<TableModel<Seq<char>>>,
}

pub struct SourceImpliedModel {
    pub enabled: bool,
    pub field_alias: Seq<char>,
    pub purpose: Purpose,
    pub null_value: Option<ScalarModel>,
    pub format: Option<Seq<char>>,
    pub nlevels: u32,
    pub filename: Seq<char>,
    pub map_implied: MapImpliedModel,
    pub codomain_reducer: Option<Reducer>,
    pub slicing_reducer: Option<Reducer>,
    pub map_weights: Option<TableModel<Seq<char>>>,
}

pub struct SourceWideModel {
    pub enabled: bool,
    pub header_idx: u32,
    pub default_name: Seq<char>,
    pub field_alias: Seq<char>,
    pub purpose: Purpose,
    pub null_value: Option<ScalarModel>,
    pub format: Option<Seq<char>>,
    pub map_symbols: TableModel<Seq<char>>,
    pub nlevels: u32,
    pub nrows: u32,
    pub filename: Seq<char>,
    pub null_value_count: u32,
    pub codomain_reducer: Option<Reducer>,
    pub map_weights: Option<TableModel<Seq<char>>>,
}

pub enum SourceModel {
    Raw(SourceRawModel),
    Implied(SourceImpliedModel),
    Wide(SourceWideModel),
}

pub struct SubjectFieldModel {
    pub idx: u32,
    pub name: Seq<char>,
    pub format: Option<Seq<char>>,
    pub sources: Seq<SourceModel>,
}

pub struct QualityFieldModel {
    pub idx: u32,
    pub name: Seq<char>,
    pub etl_unit: Seq<Seq<char>>,
    pub format: Option<Seq<char>>,
    pub null_value_expansion: Option<Seq<char>>,
    pub map_weights: TableModel<Seq<char>>,
    pub map_files: Option<TableModel<Seq<char>>>,
    pub sources: Seq<SourceModel>,
}

pub struct MCompFieldModel {
    pub idx: u32,
    pub name: Seq<char>,
    pub etl_unit: Seq<Seq<char>>,
    pub format: Option<Seq<char>>,
    pub map_weights: TableModel<Seq<char>>,
    pub map_files: Option<TableModel<Seq<char>>>,
    pub sources: Seq<SourceModel>,
}

pub struct MSpanFieldModel {
    pub idx: u32,
    pub name: Seq<char>,
    pub etl_unit: Seq<Seq<char>>,
    pub format: Option<Seq<char>>,
    pub time: TimeModel,
    pub levels_mspan: Seq<Range>,
    pub sources: Seq<SourceModel>,
}

pub struct MValueFieldModel {
    pub idx: u32,
    pub name: Seq<char>,
    pub etl_unit: Seq<Seq<char>>,
    pub format: Option<Seq<char>>,
    pub null_value_expansion: Option<Seq<char>>,
    pub map_files: Option<TableModel<Seq<char>>>,
    pub map_weights: Option<TableModel<TableModel<Seq<char>>>>,
    pub map_symbols: TableModel<TableModel<Seq<char>>>,
    pub codomain_reducer: Reducer,
    pub slicing_reducer: Reducer,
    pub sources: Seq<SourceModel>,
}

pub enum EtlFieldModel {
    Subject(SubjectFieldModel),
    Quality(QualityFieldModel),
    MComp(MCompFieldModel),
    MSpan(MSpanFieldModel),
    MValue(MValueFieldModel),
}

pub struct EtlUnitQualityModel {
    pub subject: Seq<char>,
    pub codomain: Seq<char>,
    pub codomain_reducer: Reducer,
}

pub struct EtlUnitMeasurementModel {
    pub subject: Seq<char>,
    pub codomain: Seq<char>,
    pub codomain_reducer: Reducer,
    pub mcomps: Seq<Seq<char>>,
    pub mspan: Seq<char>,
    pub slicing_reducer: Reducer,
}

pub struct EtlUnitSubjectModel {
    pub subject: Seq<char>,
    pub codomain: Seq<char>,
}

pub enum EtlUnitModel {
    Quality(EtlUnitQualityModel),
    Measurement(EtlUnitMeasurementModel),
    Subject(EtlUnitSubjectModel),
}

pub struct EtlObjectModel {
    pub etl_fields: TableModel<EtlFieldModel>,
    pub etl_units: TableModel<EtlUnitModel>,
}

} // verus!
