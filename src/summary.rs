//! A bounded, human-readable summary of a configuration object: one line
//! for the object, one per field, source and unit, and never the contents
//! of a mapping table.
use vstd::prelude::*;
use crate::model::{
    EtlFieldModel, EtlObjectModel, EtlUnitModel, MCompFieldModel, MSpanFieldModel,
    MValueFieldModel, QualityFieldModel, SourceImpliedModel, SourceModel, SourceRawModel,
    SourceWideModel, SubjectFieldModel, TableModel,
};
use crate::number::{decimal, decimal_string};
use crate::schema::{EtlField, EtlObject, EtlUnit, Source};
use crate::validate::{named_units, sources, sources_in, units_of};

verus! {

pub open spec fn source_line(s: SourceModel) -> Seq<char> {
    match s {
        SourceModel::Raw(r) => "Source::Raw { nlevels: "@ + decimal(r.nlevels as nat) + ", nrows: "@
            + decimal(r.nrows as nat) + ", filename: "@ + r.filename + ", header-idx: "@ + decimal(
            r.header_idx as nat,
        ) + " }"@,
        SourceModel::Implied(r) => "Source::Implied { nlevels: "@ + decimal(r.nlevels as nat)
            + ", filename: "@ + r.filename + " }"@,
        SourceModel::Wide(r) => "Source::Wide { nlevels: "@ + decimal(r.nlevels as nat)
            + ", nrows: "@ + decimal(r.nrows as nat) + ", filename: "@ + r.filename
            + ", header-idx: "@ + decimal(r.header_idx as nat) + " }"@,
    }
}

/// One indented line per source.
pub open spec fn sources_text(ss: Seq<SourceModel>) -> Seq<char>
    decreases ss.len(),
{
    if ss.len() == 0 {
        Seq::empty()
    } else {
        sources_text(ss.drop_last()) + "  "@ + source_line(ss.last()) + "\n"@
    }
}

/// Names separated by a comma and a space.
pub open spec fn joined(ns: Seq<Seq<char>>) -> Seq<char>
    decreases ns.len(),
{
    if ns.len() == 0 {
        Seq::empty()
    } else if ns.len() == 1 {
        ns[0]
    } else {
        joined(ns.drop_last()) + ", "@ + ns.last()
    }
}

pub open spec fn variant_name(f: EtlFieldModel) -> Seq<char> {
    match f {
        EtlFieldModel::Subject(_) => "Subject"@,
        EtlFieldModel::Quality(_) => "Quality"@,
        EtlFieldModel::MComp(_) => "MComp"@,
        EtlFieldModel::MSpan(_) => "MSpan"@,
        EtlFieldModel::MValue(_) => "MValue"@,
    }
}

pub open spec fn name_of(f: EtlFieldModel) -> Seq<char> {
    match f {
        EtlFieldModel::Subject(x) => x.name,
        EtlFieldModel::Quality(x) => x.name,
        EtlFieldModel::MComp(x) => x.name,
        EtlFieldModel::MSpan(x) => x.name,
        EtlFieldModel::MValue(x) => x.name,
    }
}

pub open spec fn units_shown(f: EtlFieldModel) -> Seq<char> {
    match f {
        EtlFieldModel::Subject(_) => "None"@,
        _ => joined(units_of(f)),
    }
}

/// The line of a field, then the lines of its sources.
pub open spec fn field_text(key: Seq<char>, f: EtlFieldModel) -> Seq<char> {
    key + ": EtlField::"@ + variant_name(f) + " { name: "@ + name_of(f) + ", etl_unit: "@
        + units_shown(f) + ", source count: "@ + decimal(sources_in(f).len()) + " }\n"@
        + sources_text(sources_in(f))
}

pub open spec fn unit_text(key: Seq<char>, u: EtlUnitModel) -> Seq<char> {
    key + match u {
        EtlUnitModel::Quality(q) => ": EtlUnit::Quality { codomain: "@ + q.codomain + " }\n"@,
        EtlUnitModel::Measurement(m) => ": EtlUnit::Measurement { codomain: "@ + m.codomain
            + ", mcomps: "@ + decimal(m.mcomps.len()) + ", mspan: "@ + m.mspan + " }\n"@,
        EtlUnitModel::Subject(s) => ": EtlUnit::Subject { codomain: "@ + s.codomain + " }\n"@,
    }
}

pub open spec fn fields_text(t: TableModel<EtlFieldModel>) -> Seq<char>
    decreases t.len(),
{
    if t.len() == 0 {
        Seq::empty()
    } else {
        fields_text(t.drop_last()) + field_text(t.last().0, t.last().1)
    }
}

pub open spec fn units_text(t: TableModel<EtlUnitModel>) -> Seq<char>
    decreases t.len(),
{
    if t.len() == 0 {
        Seq::empty()
    } else {
        units_text(t.drop_last()) + unit_text(t.last().0, t.last().1)
    }
}

/// The whole summary: a header line, then the fields, then the units.
pub open spec fn summary_text(o: EtlObjectModel) -> Seq<char> {
    "EtlObject: "@ + decimal(o.etl_fields.len()) + " fields, "@ + decimal(o.etl_units.len())
        + " units\n"@ + fields_text(o.etl_fields) + units_text(o.etl_units)
}

fn push_source_line(s: &Source, out: &mut String)
    ensures
        final(out)@ == old(out)@ + source_line(s.deep_view()),
{
    let ghost start = out@;
    match s {
        Source::Raw(r) => {
            out.append("Source::Raw { nlevels: ");
            out.append(decimal_string(r.nlevels as usize).as_str());
            out.append(", nrows: ");
            out.append(decimal_string(r.nrows as usize).as_str());
            out.append(", filename: ");
            out.append(r.filename.as_str());
            out.append(", header-idx: ");
            out.append(decimal_string(r.header_idx as usize).as_str());
            out.append(" }");
        },
        Source::Implied(r) => {
            out.append("Source::Implied { nlevels: ");
            out.append(decimal_string(r.nlevels as usize).as_str());
            out.append(", filename: ");
            out.append(r.filename.as_str());
            out.append(" }");
        },
        Source::Wide(r) => {
            out.append("Source::Wide { nlevels: ");
            out.append(decimal_string(r.nlevels as usize).as_str());
            out.append(", nrows: ");
            out.append(decimal_string(r.nrows as usize).as_str());
            out.append(", filename: ");
            out.append(r.filename.as_str());
            out.append(", header-idx: ");
            out.append(decimal_string(r.header_idx as usize).as_str());
            out.append(" }");
        },
    }
    assert(out@ =~= start + source_line(s.deep_view()));
}

fn push_sources(ss: &Vec<Source>, out: &mut String)
    ensures
        final(out)@ == old(out)@ + sources_text(ss.deep_view()),
{
    let ghost sd = ss.deep_view();
    let ghost start = out@;
    let mut i: usize = 0;
    assert(sd.take(0) =~= Seq::<SourceModel>::empty());
    assert(start + sources_text(sd.take(0)) =~= start);
    while i < ss.len()
        invariant
            i <= sd.len(),
            sd == ss.deep_view(),
            out@ == start + sources_text(sd.take(i as int)),
        decreases sd.len() - i,
    {
        assert(sd.take(i + 1).drop_last() =~= sd.take(i as int));
        assert(sd.take(i + 1).last() == sd[i as int]);
        let ghost before = out@;
        out.append("  ");
        push_source_line(&ss[i], out);
        out.append("\n");
        assert(out@ =~= before + "  "@ + source_line(sd[i as int]) + "\n"@);
        i = i + 1;
    }
    assert(sd.take(sd.len() as int) =~= sd);
}

fn push_joined(ns: &Vec<String>, out: &mut String)
    ensures
        final(out)@ == old(out)@ + joined(ns.deep_view()),
{
    let ghost nd = ns.deep_view();
    let ghost start = out@;
    let mut i: usize = 0;
    assert(nd.take(0) =~= Seq::<Seq<char>>::empty());
    assert(start + joined(nd.take(0)) =~= start);
    while i < ns.len()
        invariant
            i <= nd.len(),
            nd == ns.deep_view(),
            out@ == start + joined(nd.take(i as int)),
        decreases nd.len() - i,
    {
        assert(nd.take(i + 1).drop_last() =~= nd.take(i as int));
        assert(nd.take(i + 1).last() == nd[i as int]);
        let ghost before = out@;
        if i > 0 {
            out.append(", ");
        }
        out.append(ns[i].as_str());
        if i == 0 {
            assert(nd.take(1)[0] == nd[0]);
            assert(out@ =~= start + joined(nd.take(1)));
        } else {
            assert(out@ =~= before + ", "@ + nd[i as int]);
        }
        i = i + 1;
    }
    assert(nd.take(nd.len() as int) =~= nd);
}

fn push_field(key: &String, f: &EtlField, out: &mut String)
    ensures
        final(out)@ == old(out)@ + field_text(key@, f.deep_view()),
{
    let ghost start = out@;
    let ghost fd = f.deep_view();
    out.append(key.as_str());
    out.append(": EtlField::");
    let (variant, name) = match f {
        EtlField::Subject(x) => ("Subject", &x.name),
        EtlField::Quality(x) => ("Quality", &x.name),
        EtlField::MComp(x) => ("MComp", &x.name),
        EtlField::MSpan(x) => ("MSpan", &x.name),
        EtlField::MValue(x) => ("MValue", &x.name),
    };
    assert(variant@ == variant_name(fd) && name@ == name_of(fd));
    out.append(variant);
    out.append(" { name: ");
    out.append(name.as_str());
    out.append(", etl_unit: ");
    let ghost mid = out@;
    push_units_shown(f, out);
    let ghost mid2 = out@;
    out.append(", source count: ");
    let ss = sources(f);
    out.append(decimal_string(ss.len()).as_str());
    out.append(" }\n");
    push_sources(ss, out);
    assert(mid =~= start + key@ + ": EtlField::"@ + variant_name(fd) + " { name: "@ + name_of(fd)
        + ", etl_unit: "@);
    assert(out@ =~= mid2 + ", source count: "@ + decimal(sources_in(fd).len()) + " }\n"@
        + sources_text(sources_in(fd)));
    assert(out@ =~= start + field_text(key@, fd));
}

fn push_units_shown(f: &EtlField, out: &mut String)
    ensures
        final(out)@ == old(out)@ + units_shown(f.deep_view()),
{
    match named_units(f) {
        Some(ns) => {
            push_joined(ns, out);
        },
        None => {
            out.append("None");
        },
    }
}

fn push_unit(key: &String, u: &EtlUnit, out: &mut String)
    ensures
        final(out)@ == old(out)@ + unit_text(key@, u.deep_view()),
{
    let ghost start = out@;
    out.append(key.as_str());
    match u {
        EtlUnit::Quality(q) => {
            out.append(": EtlUnit::Quality { codomain: ");
            out.append(q.codomain.as_str());
            out.append(" }\n");
        },
        EtlUnit::Measurement(m) => {
            out.append(": EtlUnit::Measurement { codomain: ");
            out.append(m.codomain.as_str());
            out.append(", mcomps: ");
            out.append(decimal_string(m.mcomps.len()).as_str());
            out.append(", mspan: ");
            out.append(m.mspan.as_str());
            out.append(" }\n");
        },
        EtlUnit::Subject(s) => {
            out.append(": EtlUnit::Subject { codomain: ");
            out.append(s.codomain.as_str());
            out.append(" }\n");
        },
    }
    assert(out@ =~= start + unit_text(key@, u.deep_view()));
}

impl EtlObject {
    /// The summary of the object: its header line, a line for each field
    /// followed by a line for each of its sources, and a line for each unit.
    pub fn summary(&self) -> (r: String)
        ensures
            r@ == summary_text(self.deep_view()),
    {
        let ghost od = self.deep_view();
        let ghost fd = od.etl_fields;
        let ghost ud = od.etl_units;
        let mut out = String::from_str("EtlObject: ");
        out.append(decimal_string(self.etl_fields.len()).as_str());
        out.append(" fields, ");
        out.append(decimal_string(self.etl_units.len()).as_str());
        out.append(" units\n");
        let ghost head = out@;
        let mut i: usize = 0;
        assert(fd.take(0) =~= TableModel::<EtlFieldModel>::empty());
        assert(head + fields_text(fd.take(0)) =~= head);
        while i < self.etl_fields.len()
            invariant
                i <= fd.len(),
                od == self.deep_view(),
                fd == od.etl_fields,
                fd.len() == self.etl_fields@.len(),
                out@ == head + fields_text(fd.take(i as int)),
            decreases fd.len() - i,
        {
            assert(fd.take(i + 1).drop_last() =~= fd.take(i as int));
            assert(fd.take(i + 1).last() == fd[i as int]);
            let ghost before = out@;
            push_field(&self.etl_fields[i].0, &self.etl_fields[i].1, &mut out);
            assert(out@ =~= before + field_text(fd[i as int].0, fd[i as int].1));
            i = i + 1;
        }
        assert(fd.take(fd.len() as int) =~= fd);
        let ghost mid = out@;
        let mut j: usize = 0;
        assert(ud.take(0) =~= TableModel::<EtlUnitModel>::empty());
        assert(mid + units_text(ud.take(0)) =~= mid);
        while j < self.etl_units.len()
            invariant
                j <= ud.len(),
                od == self.deep_view(),
                ud == od.etl_units,
                ud.len() == self.etl_units@.len(),
                out@ == mid + units_text(ud.take(j as int)),
            decreases ud.len() - j,
        {
            assert(ud.take(j + 1).drop_last() =~= ud.take(j as int));
            assert(ud.take(j + 1).last() == ud[j as int]);
            let ghost before = out@;
            push_unit(&self.etl_units[j].0, &self.etl_units[j].1, &mut out);
            assert(out@ =~= before + unit_text(ud[j as int].0, ud[j as int].1));
            j = j + 1;
        }
        assert(ud.take(ud.len() as int) =~= ud);
        assert(out@ =~= summary_text(od));
        out
    }
}


/// A source with its mapping tables emptied.
pub open spec fn source_without_tables(s: SourceModel) -> SourceModel {
    match s {
        SourceModel::Raw(r) => SourceModel::Raw(
            SourceRawModel {
                map_symbols: Seq::empty(),
                map_weights: match r.map_weights {
                    Some(_) => Some(Seq::empty()),
                    None => None,
                },
                ..r
            },
        ),
        SourceModel::Implied(r) => SourceModel::Implied(
            SourceImpliedModel {
                map_weights: match r.map_weights {
                    Some(_) => Some(Seq::empty()),
                    None => None,
                },
                ..r
            },
        ),
        SourceModel::Wide(r) => SourceModel::Wide(
            SourceWideModel {
                map_symbols: Seq::empty(),
                map_weights: match r.map_weights {
                    Some(_) => Some(Seq::empty()),
                    None => None,
                },
                ..r
            },
        ),
    }
}

pub open spec fn sources_without_tables(ss: Seq<SourceModel>) -> Seq<SourceModel> {
    Seq::new(ss.len(), |i: int| source_without_tables(ss[i]))
}

/// A field with its mapping tables, and those of its sources, emptied.
pub open spec fn field_without_tables(f: EtlFieldModel) -> EtlFieldModel {
    match f {
        EtlFieldModel::Subject(x) => EtlFieldModel::Subject(
            SubjectFieldModel { sources: sources_without_tables(x.sources), ..x },
        ),
        EtlFieldModel::Quality(x) => EtlFieldModel::Quality(
            QualityFieldModel {
                map_weights: Seq::empty(),
                map_files: match x.map_files {
                    Some(_) => Some(Seq::empty()),
                    None => None,
                },
                sources: sources_without_tables(x.sources),
                ..x
            },
        ),
        EtlFieldModel::MComp(x) => EtlFieldModel::MComp(
            MCompFieldModel {
                map_weights: Seq::empty(),
                map_files: match x.map_files {
                    Some(_) => Some(Seq::empty()),
                    None => None,
                },
                sources: sources_without_tables(x.sources),
                ..x
            },
        ),
        EtlFieldModel::MSpan(x) => EtlFieldModel::MSpan(
            MSpanFieldModel { sources: sources_without_tables(x.sources), ..x },
        ),
        EtlFieldModel::MValue(x) => EtlFieldModel::MValue(
            MValueFieldModel {
                map_files: match x.map_files {
                    Some(_) => Some(Seq::empty()),
                    None => None,
                },
                map_weights: match x.map_weights {
                    Some(_) => Some(Seq::empty()),
                    None => None,
                },
                map_symbols: Seq::empty(),
                sources: sources_without_tables(x.sources),
                ..x
            },
        ),
    }
}

/// The object with every mapping table emptied.
pub open spec fn without_tables(o: EtlObjectModel) -> EtlObjectModel {
    EtlObjectModel {
        etl_fields: Seq::new(
            o.etl_fields.len(),
            |i: int| (o.etl_fields[i].0, field_without_tables(o.etl_fields[i].1)),
        ),
        ..o
    }
}

proof fn lemma_sources_text_ignores_tables(ss: Seq<SourceModel>)
    ensures
        sources_text(sources_without_tables(ss)) == sources_text(ss),
    decreases ss.len(),
{
    if ss.len() > 0 {
        lemma_sources_text_ignores_tables(ss.drop_last());
        assert(sources_without_tables(ss).drop_last() =~= sources_without_tables(ss.drop_last()));
    }
}

proof fn lemma_field_text_ignores_tables(key: Seq<char>, f: EtlFieldModel)
    ensures
        field_text(key, field_without_tables(f)) == field_text(key, f),
{
    lemma_sources_text_ignores_tables(sources_in(f));
}

proof fn lemma_fields_text_ignores_tables(t: TableModel<EtlFieldModel>)
    ensures
        fields_text(Seq::new(t.len(), |i: int| (t[i].0, field_without_tables(t[i].1))))
            == fields_text(t),
    decreases t.len(),
{
    if t.len() > 0 {
        let c = Seq::new(t.len(), |i: int| (t[i].0, field_without_tables(t[i].1)));
        let d = t.drop_last();
        lemma_fields_text_ignores_tables(d);
        assert(c.drop_last() =~= Seq::new(d.len(), |i: int| (d[i].0, field_without_tables(d[i].1))));
        lemma_field_text_ignores_tables(t.last().0, t.last().1);
    }
}

/// The summary reads no mapping table: emptying every table leaves it
/// unchanged, so its size does not depend on the tables' sizes.
pub proof fn lemma_summary_ignores_tables(o: EtlObjectModel)
    ensures
        summary_text(without_tables(o)) == summary_text(o),
{
    lemma_fields_text_ignores_tables(o.etl_fields);
}


pub open spec fn pow10(k: nat) -> nat
    decreases k,
{
    if k == 0 {
        1
    } else {
        10 * pow10((k - 1) as nat)
    }
}

proof fn lemma_decimal_len_pow(n: nat, k: nat)
    requires
        k >= 1,
        n < pow10(k),
    ensures
        decimal(n).len() <= k,
    decreases k,
{
    if n >= 10 {
        if k == 1 {
            assert(pow10(1) == 10 * pow10(0));
        } else {
            let p = pow10((k - 1) as nat);
            assert(n < 10 * p);
            assert(n / 10 < p) by (nonlinear_arith)
                requires
                    n < 10 * p,
            ;
            lemma_decimal_len_pow(n / 10, (k - 1) as nat);
        }
    }
}

/// The decimal form of a `u32` has at most ten digits.
proof fn lemma_decimal_u32_len(n: u32)
    ensures
        decimal(n as nat).len() <= 10,
{
    reveal_with_fuel(pow10, 11);
    assert(pow10(10) == 10000000000);
    lemma_decimal_len_pow(n as nat, 10);
}

/// A count has no more digits than one more than itself.
proof fn lemma_decimal_count_len(n: nat)
    ensures
        decimal(n).len() <= n + 1,
    decreases n,
{
    if n >= 10 {
        lemma_decimal_count_len(n / 10);
    }
}

pub open spec fn filename_of(s: SourceModel) -> Seq<char> {
    match s {
        SourceModel::Raw(r) => r.filename,
        SourceModel::Implied(r) => r.filename,
        SourceModel::Wide(r) => r.filename,
    }
}

/// The total length of the file names of some sources.
pub open spec fn files_len(ss: Seq<SourceModel>) -> nat
    decreases ss.len(),
{
    if ss.len() == 0 {
        0
    } else {
        files_len(ss.drop_last()) + filename_of(ss.last()).len()
    }
}

/// What the summary shows of the fields, besides fixed text and numbers:
/// keys, names, unit names and file names.
pub open spec fn fields_shown(t: TableModel<EtlFieldModel>) -> nat
    decreases t.len(),
{
    if t.len() == 0 {
        0
    } else {
        fields_shown(t.drop_last()) + t.last().0.len() + name_of(t.last().1).len() + units_shown(
            t.last().1,
        ).len() + files_len(sources_in(t.last().1))
    }
}

/// The fields and their sources, counted.
pub open spec fn fields_count(t: TableModel<EtlFieldModel>) -> nat
    decreases t.len(),
{
    if t.len() == 0 {
        0
    } else {
        fields_count(t.drop_last()) + 1 + sources_in(t.last().1).len()
    }
}

pub open spec fn unit_shown(u: EtlUnitModel) -> nat {
    match u {
        EtlUnitModel::Quality(q) => q.codomain.len(),
        EtlUnitModel::Measurement(m) => m.codomain.len() + m.mspan.len(),
        EtlUnitModel::Subject(s) => s.codomain.len(),
    }
}

pub open spec fn unit_components(u: EtlUnitModel) -> nat {
    match u {
        EtlUnitModel::Measurement(m) => m.mcomps.len(),
        _ => 0,
    }
}

/// What the summary shows of the units, besides fixed text and numbers:
/// keys, codomains and span names.
pub open spec fn unit_entries_shown(t: TableModel<EtlUnitModel>) -> nat
    decreases t.len(),
{
    if t.len() == 0 {
        0
    } else {
        unit_entries_shown(t.drop_last()) + t.last().0.len() + unit_shown(t.last().1)
    }
}

/// The units and their components, counted.
pub open spec fn units_count(t: TableModel<EtlUnitModel>) -> nat
    decreases t.len(),
{
    if t.len() == 0 {
        0
    } else {
        units_count(t.drop_last()) + 1 + unit_components(t.last().1)
    }
}

proof fn lemma_source_line_len(s: SourceModel)
    ensures
        source_line(s).len() <= 97 + filename_of(s).len(),
{
    reveal_strlit("Source::Raw { nlevels: ");
    assert("Source::Raw { nlevels: "@.len() == 23);
    reveal_strlit(", nrows: ");
    assert(", nrows: "@.len() == 9);
    reveal_strlit(", filename: ");
    assert(", filename: "@.len() == 12);
    reveal_strlit(", header-idx: ");
    assert(", header-idx: "@.len() == 14);
    reveal_strlit(" }");
    assert(" }"@.len() == 2);
    reveal_strlit("Source::Implied { nlevels: ");
    assert("Source::Implied { nlevels: "@.len() == 27);
    reveal_strlit("Source::Wide { nlevels: ");
    assert("Source::Wide { nlevels: "@.len() == 24);
    match s {
        SourceModel::Raw(r) => {
            lemma_decimal_u32_len(r.nlevels);
            lemma_decimal_u32_len(r.nrows);
            lemma_decimal_u32_len(r.header_idx);
        },
        SourceModel::Implied(r) => {
            lemma_decimal_u32_len(r.nlevels);
        },
        SourceModel::Wide(r) => {
            lemma_decimal_u32_len(r.nlevels);
            lemma_decimal_u32_len(r.nrows);
            lemma_decimal_u32_len(r.header_idx);
        },
    }
}

proof fn lemma_sources_text_len(ss: Seq<SourceModel>)
    ensures
        sources_text(ss).len() <= 100 * ss.len() + files_len(ss),
    decreases ss.len(),
{
    if ss.len() > 0 {
        lemma_sources_text_len(ss.drop_last());
        lemma_source_line_len(ss.last());
        reveal_strlit("  ");
        reveal_strlit("\n");
        assert("  "@.len() == 2);
        assert("\n"@.len() == 1);
    }
}

proof fn lemma_field_text_len(key: Seq<char>, f: EtlFieldModel)
    ensures
        field_text(key, f).len() <= 199 * (1 + sources_in(f).len()) + key.len() + name_of(f).len()
            + units_shown(f).len() + files_len(sources_in(f)),
{
    reveal_strlit("MValue");
    assert("MValue"@.len() == 6);
    reveal_strlit(": EtlField::");
    assert(": EtlField::"@.len() == 12);
    reveal_strlit(" { name: ");
    assert(" { name: "@.len() == 9);
    reveal_strlit(", etl_unit: ");
    assert(", etl_unit: "@.len() == 12);
    reveal_strlit(", source count: ");
    assert(", source count: "@.len() == 16);
    reveal_strlit(" }\n");
    assert(" }\n"@.len() == 3);
    reveal_strlit("Subject");
    assert("Subject"@.len() == 7);
    reveal_strlit("Quality");
    assert("Quality"@.len() == 7);
    reveal_strlit("MComp");
    assert("MComp"@.len() == 5);
    reveal_strlit("MSpan");
    assert("MSpan"@.len() == 5);
    lemma_decimal_count_len(sources_in(f).len());
    lemma_sources_text_len(sources_in(f));
    assert(variant_name(f).len() <= 7);
    let n = sources_in(f).len();
    assert(field_text(key, f).len() == key.len() + 12 + variant_name(f).len() + 9 + name_of(f).len()
        + 12 + units_shown(f).len() + 16 + decimal(n).len() + 3 + sources_text(sources_in(f)).len());
}

proof fn lemma_fields_text_len(t: TableModel<EtlFieldModel>)
    ensures
        fields_text(t).len() <= 199 * fields_count(t) + fields_shown(t),
    decreases t.len(),
{
    if t.len() > 0 {
        lemma_fields_text_len(t.drop_last());
        lemma_field_text_len(t.last().0, t.last().1);
    }
}

proof fn lemma_unit_text_len(key: Seq<char>, u: EtlUnitModel)
    ensures
        unit_text(key, u).len() <= 199 * (1 + unit_components(u)) + key.len() + unit_shown(u),
{
    reveal_strlit(": EtlUnit::Subject { codomain: ");
    assert(": EtlUnit::Subject { codomain: "@.len() == 31);
    reveal_strlit("MValue");
    assert("MValue"@.len() == 6);
    reveal_strlit(": EtlUnit::Quality { codomain: ");
    assert(": EtlUnit::Quality { codomain: "@.len() == 31);
    reveal_strlit(": EtlUnit::Measurement { codomain: ");
    assert(": EtlUnit::Measurement { codomain: "@.len() == 35);
    reveal_strlit(", mcomps: ");
    assert(", mcomps: "@.len() == 10);
    reveal_strlit(", mspan: ");
    assert(", mspan: "@.len() == 9);
    reveal_strlit(" }\n");
    assert(" }\n"@.len() == 3);
    match u {
        EtlUnitModel::Measurement(m) => {
            lemma_decimal_count_len(m.mcomps.len());
            assert(unit_text(key, u).len() == key.len() + 35 + m.codomain.len() + 10 + decimal(
                m.mcomps.len(),
            ).len() + 9 + m.mspan.len() + 3);
        },
        EtlUnitModel::Quality(q) => {
            assert(unit_text(key, u).len() == key.len() + 31 + q.codomain.len() + 3);
        },
        EtlUnitModel::Subject(q) => {
            assert(unit_text(key, u).len() == key.len() + 31 + q.codomain.len() + 3);
        },
    }
}

proof fn lemma_units_text_len(t: TableModel<EtlUnitModel>)
    ensures
        units_text(t).len() <= 199 * units_count(t) + unit_entries_shown(t),
    decreases t.len(),
{
    if t.len() > 0 {
        lemma_units_text_len(t.drop_last());
        lemma_unit_text_len(t.last().0, t.last().1);
    }
}

proof fn lemma_fields_count_at_least(t: TableModel<EtlFieldModel>)
    ensures
        t.len() <= fields_count(t),
    decreases t.len(),
{
    if t.len() > 0 {
        lemma_fields_count_at_least(t.drop_last());
    }
}

proof fn lemma_units_count_at_least(t: TableModel<EtlUnitModel>)
    ensures
        t.len() <= units_count(t),
    decreases t.len(),
{
    if t.len() > 0 {
        lemma_units_count_at_least(t.drop_last());
    }
}

/// The summary is bounded: a fixed amount of text for the object, for each
/// field, source, unit and component, plus the keys, names, unit names,
/// codomains, span names and file names that it shows. No mapping table
/// adds to it.
pub proof fn lemma_summary_len(o: EtlObjectModel)
    ensures
        summary_text(o).len() <= 200 * (1 + fields_count(o.etl_fields) + units_count(o.etl_units))
            + fields_shown(o.etl_fields) + unit_entries_shown(o.etl_units),
{
    reveal_strlit(": EtlUnit::Subject { codomain: ");
    assert(": EtlUnit::Subject { codomain: "@.len() == 31);
    reveal_strlit("EtlObject: ");
    assert("EtlObject: "@.len() == 11);
    reveal_strlit(" fields, ");
    assert(" fields, "@.len() == 9);
    reveal_strlit(" units\n");
    assert(" units\n"@.len() == 7);
    lemma_decimal_count_len(o.etl_fields.len());
    lemma_decimal_count_len(o.etl_units.len());
    lemma_fields_count_at_least(o.etl_fields);
    lemma_units_count_at_least(o.etl_units);
    lemma_fields_text_len(o.etl_fields);
    lemma_units_text_len(o.etl_units);
    assert(summary_text(o).len() == 11 + decimal(o.etl_fields.len()).len() + 9 + decimal(
        o.etl_units.len(),
    ).len() + 7 + fields_text(o.etl_fields).len() + units_text(o.etl_units).len());
}

} // verus!
