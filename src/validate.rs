//! Checking the cross-references and the column layout of a configuration
//! object. Every problem is reported; none stops the pass.
use vstd::prelude::*;
use crate::model::{EtlFieldModel, EtlObjectModel, EtlUnitModel, SourceModel, TableModel};
use crate::schema::{EtlField, EtlObject, EtlUnit, Purpose, Source};

verus! {

/// One problem found in a configuration object.
#[derive(Debug)]
pub enum Violation {
    /// A field lists a unit that is not among the units.
    UnknownUnit { field: String, unit: String },
    /// A unit's codomain is not among the fields.
    UnknownCodomain { unit: String, codomain: String },
    /// A measurement lists a component that is not among the fields.
    UnknownComponent { unit: String, component: String },
    /// A measurement lists a component whose field is not a component field.
    NotAComponent { unit: String, component: String },
    /// A measurement's span is not among the fields.
    UnknownSpan { unit: String, span: String },
    /// A measurement's span names a field that is not a span field.
    NotASpan { unit: String, span: String },
    /// Two sources claim the same column of the same file.
    ColumnCollision { filename: String, header_idx: u32, first: String, second: String },
    /// A source declares a purpose other than its field's role.
    PurposeMismatch { field: String, source: usize },
}

pub enum ViolationModel {
    UnknownUnit { field: Seq<char>, unit: Seq<char> },
    UnknownCodomain { unit: Seq<char>, codomain: Seq<char> },
    UnknownComponent { unit: Seq<char>, component: Seq<char> },
    NotAComponent { unit: Seq<char>, component: Seq<char> },
    UnknownSpan { unit: Seq<char>, span: Seq<char> },
    NotASpan { unit: Seq<char>, span: Seq<char> },
    ColumnCollision { filename: Seq<char>, header_idx: u32, first: Seq<char>, second: Seq<char> },
    PurposeMismatch { field: Seq<char>, source: nat },
}

impl DeepView for Violation {
    type V = ViolationModel;

    open spec fn deep_view(&self) -> ViolationModel {
        match self {
            Violation::UnknownUnit { field, unit } => ViolationModel::UnknownUnit {
                field: field@,
                unit: unit@,
            },
            Violation::UnknownCodomain { unit, codomain } => ViolationModel::UnknownCodomain {
                unit: unit@,
                codomain: codomain@,
            },
            Violation::UnknownComponent { unit, component } => ViolationModel::UnknownComponent {
                unit: unit@,
                component: component@,
            },
            Violation::NotAComponent { unit, component } => ViolationModel::NotAComponent {
                unit: unit@,
                component: component@,
            },
            Violation::UnknownSpan { unit, span } => ViolationModel::UnknownSpan {
                unit: unit@,
                span: span@,
            },
            Violation::NotASpan { unit, span } => ViolationModel::NotASpan {
                unit: unit@,
                span: span@,
            },
            Violation::ColumnCollision { filename, header_idx, first, second } =>
                ViolationModel::ColumnCollision {
                filename: filename@,
                header_idx: *header_idx,
                first: first@,
                second: second@,
            },
            Violation::PurposeMismatch { field, source } => ViolationModel::PurposeMismatch {
                field: field@,
                source: *source as nat,
            },
        }
    }
}

/// Whether a table has an entry under `key`.
pub open spec fn has_key<T>(t: TableModel<T>, key: Seq<char>) -> bool {
    exists|i: int| 0 <= i < t.len() && #[trigger] t[i].0 == key
}

/// The role of a field, as the purpose its sources must declare.
pub open spec fn role_of(f: EtlFieldModel) -> Purpose {
    match f {
        EtlFieldModel::Subject(_) => Purpose::SUBJECT,
        EtlFieldModel::Quality(_) => Purpose::QUALITY,
        EtlFieldModel::MComp(_) => Purpose::MCOMP,
        EtlFieldModel::MSpan(_) => Purpose::MSPAN,
        EtlFieldModel::MValue(_) => Purpose::MVALUE,
    }
}

/// Whether some field under `key` has the given role.
pub open spec fn has_role(t: TableModel<EtlFieldModel>, key: Seq<char>, role: Purpose) -> bool {
    exists|i: int| 0 <= i < t.len() && #[trigger] t[i].0 == key && role_of(t[i].1) == role
}

/// The units that a field names; a subject field names none.
pub open spec fn units_of(f: EtlFieldModel) -> Seq<Seq<char>> {
    match f {
        EtlFieldModel::Subject(_) => Seq::empty(),
        EtlFieldModel::Quality(q) => q.etl_unit,
        EtlFieldModel::MComp(q) => q.etl_unit,
        EtlFieldModel::MSpan(q) => q.etl_unit,
        EtlFieldModel::MValue(q) => q.etl_unit,
    }
}

pub open spec fn sources_in(f: EtlFieldModel) -> Seq<SourceModel> {
    match f {
        EtlFieldModel::Subject(q) => q.sources,
        EtlFieldModel::Quality(q) => q.sources,
        EtlFieldModel::MComp(q) => q.sources,
        EtlFieldModel::MSpan(q) => q.sources,
        EtlFieldModel::MValue(q) => q.sources,
    }
}

pub open spec fn declared_purpose(s: SourceModel) -> Purpose {
    match s {
        SourceModel::Raw(r) => r.purpose,
        SourceModel::Implied(r) => r.purpose,
        SourceModel::Wide(r) => r.purpose,
    }
}

pub open spec fn codomain_of(u: EtlUnitModel) -> Seq<char> {
    match u {
        EtlUnitModel::Quality(q) => q.codomain,
        EtlUnitModel::Measurement(q) => q.codomain,
        EtlUnitModel::Subject(q) => q.codomain,
    }
}

/// A column that a source claims: its file, its header index, and the field
/// that it feeds.
pub type Claim = (Seq<char>, u32, Seq<char>);

/// The columns claimed by the sources of one field, in order; implied
/// sources claim none.
pub open spec fn source_claims(name: Seq<char>, s: Seq<SourceModel>) -> Seq<Claim>
    decreases s.len(),
{
    if s.len() == 0 {
        Seq::empty()
    } else {
        let rest = source_claims(name, s.drop_last());
        match s.last() {
            SourceModel::Raw(r) => rest.push((r.filename, r.header_idx, name)),
            SourceModel::Wide(r) => rest.push((r.filename, r.header_idx, name)),
            SourceModel::Implied(_) => rest,
        }
    }
}

/// The columns claimed by all fields, in order.
pub open spec fn claims(t: TableModel<EtlFieldModel>) -> Seq<Claim>
    decreases t.len(),
{
    if t.len() == 0 {
        Seq::empty()
    } else {
        claims(t.drop_last()) + source_claims(t.last().0, sources_in(t.last().1))
    }
}

/// What each kind of violation means.
pub open spec fn is_violation(o: EtlObjectModel, v: ViolationModel) -> bool {
    let fields = o.etl_fields;
    let units = o.etl_units;
    match v {
        ViolationModel::UnknownUnit { field, unit } => !has_key(units, unit) && exists|i: int, j: int|
            0 <= i < fields.len() && 0 <= j < units_of(fields[i].1).len() && #[trigger] fields[i].0
                == field && #[trigger] units_of(fields[i].1)[j] == unit,
        ViolationModel::UnknownCodomain { unit, codomain } => !has_key(fields, codomain)
            && exists|i: int|
            0 <= i < units.len() && #[trigger] units[i].0 == unit && codomain_of(units[i].1)
                == codomain,
        ViolationModel::UnknownComponent { unit, component } => !has_key(fields, component)
            && exists|i: int, j: int|
            0 <= i < units.len() && #[trigger] units[i].0 == unit && units[i].1 is Measurement && 0
                <= j < units[i].1->Measurement_0.mcomps.len()
                && #[trigger] units[i].1->Measurement_0.mcomps[j] == component,
        ViolationModel::NotAComponent { unit, component } => has_key(fields, component) && !has_role(
            fields,
            component,
            Purpose::MCOMP,
        ) && exists|i: int, j: int|
            0 <= i < units.len() && #[trigger] units[i].0 == unit && units[i].1 is Measurement && 0
                <= j < units[i].1->Measurement_0.mcomps.len()
                && #[trigger] units[i].1->Measurement_0.mcomps[j] == component,
        ViolationModel::UnknownSpan { unit, span } => !has_key(fields, span) && exists|i: int|
            0 <= i < units.len() && #[trigger] units[i].0 == unit && units[i].1 is Measurement
                && units[i].1->Measurement_0.mspan == span,
        ViolationModel::NotASpan { unit, span } => has_key(fields, span) && !has_role(
            fields,
            span,
            Purpose::MSPAN,
        ) && exists|i: int|
            0 <= i < units.len() && #[trigger] units[i].0 == unit && units[i].1 is Measurement
                && units[i].1->Measurement_0.mspan == span,
        ViolationModel::ColumnCollision { filename, header_idx, first, second } => exists|
            a: int,
            b: int,
        |
            0 <= a < b < claims(fields).len() && #[trigger] claims(fields)[a] == (
                filename,
                header_idx,
                first,
            ) && #[trigger] claims(fields)[b] == (filename, header_idx, second),
        ViolationModel::PurposeMismatch { field, source } => exists|i: int|
            0 <= i < fields.len() && #[trigger] fields[i].0 == field && source < sources_in(
                fields[i].1,
            ).len() && declared_purpose(sources_in(fields[i].1)[source as int]) != role_of(
                fields[i].1,
            ),
    }
}


proof fn lemma_push_contains(s: Seq<ViolationModel>, e: ViolationModel)
    ensures
        s.push(e).contains(e),
        forall|x: ViolationModel| s.contains(x) ==> #[trigger] s.push(e).contains(x),
{
    assert(s.push(e)[s.len() as int] == e);
    assert forall|x: ViolationModel| s.contains(x) implies #[trigger] s.push(e).contains(x) by {
        let k = choose|k: int| 0 <= k < s.len() && s[k] == x;
        assert(s.push(e)[k] == x);
    }
}

/// Whether `t` has an entry under `key`.
pub fn table_has<T: DeepView>(t: &Vec<(String, T)>, key: &String) -> (r: bool)
    ensures
        r == has_key(t.deep_view(), key@),
{
    let ghost dv = t.deep_view();
    let mut i: usize = 0;
    while i < t.len()
        invariant
            i <= t@.len(),
            dv == t.deep_view(),
            forall|k: int| 0 <= k < i ==> #[trigger] dv[k].0 != key@,
        decreases t@.len() - i,
    {
        if t[i].0 == *key {
            assert(dv[i as int].0 == key@);
            return true;
        }
        i = i + 1;
    }
    false
}

pub fn role(f: &EtlField) -> (r: Purpose)
    ensures
        r == role_of(f.deep_view()),
{
    match f {
        EtlField::Subject(_) => Purpose::SUBJECT,
        EtlField::Quality(_) => Purpose::QUALITY,
        EtlField::MComp(_) => Purpose::MCOMP,
        EtlField::MSpan(_) => Purpose::MSPAN,
        EtlField::MValue(_) => Purpose::MVALUE,
    }
}

/// Whether some field under `key` has the given role.
pub fn fields_have_role(t: &Vec<(String, EtlField)>, key: &String, want: Purpose) -> (r: bool)
    ensures
        r == has_role(t.deep_view(), key@, want),
{
    let ghost dv = t.deep_view();
    let mut i: usize = 0;
    while i < t.len()
        invariant
            i <= t@.len(),
            dv == t.deep_view(),
            forall|k: int| 0 <= k < i ==> #[trigger] dv[k].0 != key@ || role_of(dv[k].1) != want,
        decreases t@.len() - i,
    {
        if t[i].0 == *key && role(&t[i].1) == want {
            assert(dv[i as int].0 == key@);
            return true;
        }
        i = i + 1;
    }
    false
}

/// The units that a field names, if it can name any.
pub fn named_units(f: &EtlField) -> (r: Option<&Vec<String>>)
    ensures
        match r {
            Some(v) => v.deep_view() == units_of(f.deep_view()) && !(f.deep_view() is Subject),
            None => units_of(f.deep_view()) == Seq::<Seq<char>>::empty() && f.deep_view() is Subject,
        },
{
    match f {
        EtlField::Subject(_) => None,
        EtlField::Quality(q) => Some(&q.etl_unit),
        EtlField::MComp(q) => Some(&q.etl_unit),
        EtlField::MSpan(q) => Some(&q.etl_unit),
        EtlField::MValue(q) => Some(&q.etl_unit),
    }
}

pub fn sources(f: &EtlField) -> (r: &Vec<Source>)
    ensures
        r.deep_view() == sources_in(f.deep_view()),
{
    match f {
        EtlField::Subject(q) => &q.sources,
        EtlField::Quality(q) => &q.sources,
        EtlField::MComp(q) => &q.sources,
        EtlField::MSpan(q) => &q.sources,
        EtlField::MValue(q) => &q.sources,
    }
}

pub fn source_purpose(s: &Source) -> (r: Purpose)
    ensures
        r == declared_purpose(s.deep_view()),
{
    match s {
        Source::Raw(x) => x.purpose,
        Source::Implied(x) => x.purpose,
        Source::Wide(x) => x.purpose,
    }
}

/// Fields that name a unit which does not exist.
fn check_field_units(o: &EtlObject) -> (r: Vec<Violation>)
    ensures
        forall|k: int| 0 <= k < r@.len() ==> is_violation(o.deep_view(), #[trigger] r.deep_view()[k]),
        forall|field: Seq<char>, unit: Seq<char>|
            is_violation(o.deep_view(), ViolationModel::UnknownUnit { field, unit })
                ==> #[trigger] r.deep_view().contains(ViolationModel::UnknownUnit { field, unit }),
{
    let ghost od = o.deep_view();
    let ghost fd = od.etl_fields;
    let mut out: Vec<Violation> = Vec::new();
    let mut i: usize = 0;
    while i < o.etl_fields.len()
        invariant
            i <= fd.len(),
            od == o.deep_view(),
            fd == od.etl_fields,
            fd.len() == o.etl_fields@.len(),
            forall|k: int| 0 <= k < out@.len() ==> is_violation(od, #[trigger] out.deep_view()[k]),
            forall|i2: int, j2: int|
                0 <= i2 < i && 0 <= j2 < units_of(fd[i2].1).len() && !has_key(
                    od.etl_units,
                    #[trigger] units_of(fd[i2].1)[j2],
                ) ==> out.deep_view().contains(
                    ViolationModel::UnknownUnit { field: fd[i2].0, unit: units_of(fd[i2].1)[j2] },
                ),
        decreases fd.len() - i,
    {
        let name = &o.etl_fields[i].0;
        assert(fd[i as int].0 == name@);
        match named_units(&o.etl_fields[i].1) {
            None => {},
            Some(names) => {
                let ghost nd = names.deep_view();
                let mut j: usize = 0;
                while j < names.len()
                    invariant
                        j <= names@.len(),
                        nd == names.deep_view(),
                        nd == units_of(fd[i as int].1),
                        i < fd.len(),
                        fd[i as int].0 == name@,
                        od == o.deep_view(),
                        fd == od.etl_fields,
                        forall|k: int|
                            0 <= k < out@.len() ==> is_violation(od, #[trigger] out.deep_view()[k]),
                        forall|i2: int, j2: int|
                            0 <= i2 < i && 0 <= j2 < units_of(fd[i2].1).len() && !has_key(
                                od.etl_units,
                                #[trigger] units_of(fd[i2].1)[j2],
                            ) ==> out.deep_view().contains(
                                ViolationModel::UnknownUnit {
                                    field: fd[i2].0,
                                    unit: units_of(fd[i2].1)[j2],
                                },
                            ),
                        forall|j2: int|
                            0 <= j2 < j && !has_key(od.etl_units, #[trigger] nd[j2])
                                ==> out.deep_view().contains(
                                ViolationModel::UnknownUnit { field: name@, unit: nd[j2] },
                            ),
                    decreases names@.len() - j,
                {
                    if !table_has(&o.etl_units, &names[j]) {
                        let v = Violation::UnknownUnit { field: name.clone(), unit: names[j].clone() };
                        let ghost before = out.deep_view();
                        let ghost vm = v.deep_view();
                        assert(units_of(fd[i as int].1)[j as int] == nd[j as int]);
                        assert(is_violation(od, vm));
                        out.push(v);
                        assert(out.deep_view() =~= before.push(vm));
                        proof {
                            lemma_push_contains(before, vm);
                        }
                    }
                    j = j + 1;
                }
            },
        }
        i = i + 1;
    }
    proof {
        assert forall|field: Seq<char>, unit: Seq<char>|
            is_violation(od, ViolationModel::UnknownUnit { field, unit }) implies #[trigger] out.deep_view().contains(
            ViolationModel::UnknownUnit { field, unit },
        ) by {
            let (i2, j2) = choose|i2: int, j2: int|
                0 <= i2 < fd.len() && 0 <= j2 < units_of(fd[i2].1).len() && #[trigger] fd[i2].0
                    == field && #[trigger] units_of(fd[i2].1)[j2] == unit;
        }
    }
    out
}


/// Units whose codomain is not a field.
fn check_codomains(o: &EtlObject) -> (r: Vec<Violation>)
    ensures
        forall|k: int| 0 <= k < r@.len() ==> is_violation(o.deep_view(), #[trigger] r.deep_view()[k]),
        forall|unit: Seq<char>, codomain: Seq<char>|
            is_violation(o.deep_view(), ViolationModel::UnknownCodomain { unit, codomain })
                ==> #[trigger] r.deep_view().contains(
                ViolationModel::UnknownCodomain { unit, codomain },
            ),
{
    let ghost od = o.deep_view();
    let ghost ud = od.etl_units;
    let mut out: Vec<Violation> = Vec::new();
    let mut i: usize = 0;
    while i < o.etl_units.len()
        invariant
            i <= ud.len(),
            od == o.deep_view(),
            ud == od.etl_units,
            ud.len() == o.etl_units@.len(),
            forall|k: int| 0 <= k < out@.len() ==> is_violation(od, #[trigger] out.deep_view()[k]),
            forall|i2: int|
                0 <= i2 < i && !has_key(od.etl_fields, codomain_of(#[trigger] ud[i2].1))
                    ==> out.deep_view().contains(
                    ViolationModel::UnknownCodomain { unit: ud[i2].0, codomain: codomain_of(ud[i2].1) },
                ),
        decreases ud.len() - i,
    {
        let name = &o.etl_units[i].0;
        let codomain = match &o.etl_units[i].1 {
            EtlUnit::Quality(u) => &u.codomain,
            EtlUnit::Measurement(u) => &u.codomain,
            EtlUnit::Subject(u) => &u.codomain,
        };
        assert(ud[i as int].0 == name@ && codomain_of(ud[i as int].1) == codomain@);
        if !table_has(&o.etl_fields, codomain) {
            let v = Violation::UnknownCodomain { unit: name.clone(), codomain: codomain.clone() };
            let ghost before = out.deep_view();
            let ghost vm = v.deep_view();
            assert(is_violation(od, vm));
            out.push(v);
            assert(out.deep_view() =~= before.push(vm));
            proof {
                lemma_push_contains(before, vm);
            }
        }
        i = i + 1;
    }
    out
}

/// Measurements whose components are missing or are not component fields,
/// and whose span is missing or is not a span field.
fn check_measurements(o: &EtlObject) -> (r: Vec<Violation>)
    ensures
        forall|k: int| 0 <= k < r@.len() ==> is_violation(o.deep_view(), #[trigger] r.deep_view()[k]),
        forall|unit: Seq<char>, component: Seq<char>|
            is_violation(o.deep_view(), ViolationModel::UnknownComponent { unit, component })
                ==> #[trigger] r.deep_view().contains(
                ViolationModel::UnknownComponent { unit, component },
            ),
        forall|unit: Seq<char>, component: Seq<char>|
            is_violation(o.deep_view(), ViolationModel::NotAComponent { unit, component })
                ==> #[trigger] r.deep_view().contains(
                ViolationModel::NotAComponent { unit, component },
            ),
        forall|unit: Seq<char>, span: Seq<char>|
            is_violation(o.deep_view(), ViolationModel::UnknownSpan { unit, span })
                ==> #[trigger] r.deep_view().contains(ViolationModel::UnknownSpan { unit, span }),
        forall|unit: Seq<char>, span: Seq<char>|
            is_violation(o.deep_view(), ViolationModel::NotASpan { unit, span })
                ==> #[trigger] r.deep_view().contains(ViolationModel::NotASpan { unit, span }),
{
    let ghost od = o.deep_view();
    let ghost fd = od.etl_fields;
    let ghost ud = od.etl_units;
    let mut out: Vec<Violation> = Vec::new();
    let mut i: usize = 0;
    while i < o.etl_units.len()
        invariant
            i <= ud.len(),
            od == o.deep_view(),
            fd == od.etl_fields,
            ud == od.etl_units,
            ud.len() == o.etl_units@.len(),
            forall|k: int| 0 <= k < out@.len() ==> is_violation(od, #[trigger] out.deep_view()[k]),
            forall|i2: int, j2: int|
                0 <= i2 < i && ud[i2].1 is Measurement && 0 <= j2
                    < ud[i2].1->Measurement_0.mcomps.len() && !has_key(
                    fd,
                    #[trigger] ud[i2].1->Measurement_0.mcomps[j2],
                ) ==> out.deep_view().contains(
                    ViolationModel::UnknownComponent {
                        unit: ud[i2].0,
                        component: ud[i2].1->Measurement_0.mcomps[j2],
                    },
                ),
            forall|i2: int, j2: int|
                0 <= i2 < i && ud[i2].1 is Measurement && 0 <= j2
                    < ud[i2].1->Measurement_0.mcomps.len() && has_key(
                    fd,
                    #[trigger] ud[i2].1->Measurement_0.mcomps[j2],
                ) && !has_role(fd, ud[i2].1->Measurement_0.mcomps[j2], Purpose::MCOMP)
                    ==> out.deep_view().contains(
                    ViolationModel::NotAComponent {
                        unit: ud[i2].0,
                        component: ud[i2].1->Measurement_0.mcomps[j2],
                    },
                ),
            forall|i2: int|
                0 <= i2 < i && #[trigger] ud[i2].1 is Measurement && !has_key(
                    fd,
                    ud[i2].1->Measurement_0.mspan,
                ) ==> out.deep_view().contains(
                    ViolationModel::UnknownSpan { unit: ud[i2].0, span: ud[i2].1->Measurement_0.mspan },
                ),
            forall|i2: int|
                0 <= i2 < i && #[trigger] ud[i2].1 is Measurement && has_key(
                    fd,
                    ud[i2].1->Measurement_0.mspan,
                ) && !has_role(fd, ud[i2].1->Measurement_0.mspan, Purpose::MSPAN)
                    ==> out.deep_view().contains(
                    ViolationModel::NotASpan { unit: ud[i2].0, span: ud[i2].1->Measurement_0.mspan },
                ),
        decreases ud.len() - i,
    {
        let name = &o.etl_units[i].0;
        assert(ud[i as int].0 == name@);
        match &o.etl_units[i].1 {
            EtlUnit::Measurement(m) => {
                let ghost md = m.deep_view();
                assert(ud[i as int].1 == EtlUnitModel::Measurement(md));
                let mut j: usize = 0;
                while j < m.mcomps.len()
                    invariant
                        j <= md.mcomps.len(),
                        md == m.deep_view(),
                        i < ud.len(),
                        ud[i as int].1 == EtlUnitModel::Measurement(md),
                        ud[i as int].0 == name@,
                        od == o.deep_view(),
                        fd == od.etl_fields,
                        ud == od.etl_units,
                        forall|k: int|
                            0 <= k < out@.len() ==> is_violation(od, #[trigger] out.deep_view()[k]),
                        forall|i2: int, j2: int|
                            0 <= i2 < i && ud[i2].1 is Measurement && 0 <= j2
                                < ud[i2].1->Measurement_0.mcomps.len() && !has_key(
                                fd,
                                #[trigger] ud[i2].1->Measurement_0.mcomps[j2],
                            ) ==> out.deep_view().contains(
                                ViolationModel::UnknownComponent {
                                    unit: ud[i2].0,
                                    component: ud[i2].1->Measurement_0.mcomps[j2],
                                },
                            ),
                        forall|i2: int, j2: int|
                            0 <= i2 < i && ud[i2].1 is Measurement && 0 <= j2
                                < ud[i2].1->Measurement_0.mcomps.len() && has_key(
                                fd,
                                #[trigger] ud[i2].1->Measurement_0.mcomps[j2],
                            ) && !has_role(fd, ud[i2].1->Measurement_0.mcomps[j2], Purpose::MCOMP)
                                ==> out.deep_view().contains(
                                ViolationModel::NotAComponent {
                                    unit: ud[i2].0,
                                    component: ud[i2].1->Measurement_0.mcomps[j2],
                                },
                            ),
                        forall|i2: int|
                            0 <= i2 < i && #[trigger] ud[i2].1 is Measurement && !has_key(
                                fd,
                                ud[i2].1->Measurement_0.mspan,
                            ) ==> out.deep_view().contains(
                                ViolationModel::UnknownSpan {
                                    unit: ud[i2].0,
                                    span: ud[i2].1->Measurement_0.mspan,
                                },
                            ),
                        forall|i2: int|
                            0 <= i2 < i && #[trigger] ud[i2].1 is Measurement && has_key(
                                fd,
                                ud[i2].1->Measurement_0.mspan,
                            ) && !has_role(fd, ud[i2].1->Measurement_0.mspan, Purpose::MSPAN)
                                ==> out.deep_view().contains(
                                ViolationModel::NotASpan {
                                    unit: ud[i2].0,
                                    span: ud[i2].1->Measurement_0.mspan,
                                },
                            ),
                        forall|j2: int|
                            0 <= j2 < j && !has_key(fd, #[trigger] md.mcomps[j2])
                                ==> out.deep_view().contains(
                                ViolationModel::UnknownComponent { unit: name@, component: md.mcomps[j2] },
                            ),
                        forall|j2: int|
                            0 <= j2 < j && has_key(fd, #[trigger] md.mcomps[j2]) && !has_role(
                                fd,
                                md.mcomps[j2],
                                Purpose::MCOMP,
                            ) ==> out.deep_view().contains(
                                ViolationModel::NotAComponent { unit: name@, component: md.mcomps[j2] },
                            ),
                    decreases md.mcomps.len() - j,
                {
                    let c = &m.mcomps[j];
                    assert(md.mcomps[j as int] == c@);
                    if !table_has(&o.etl_fields, c) {
                        let v = Violation::UnknownComponent { unit: name.clone(), component: c.clone() };
                        let ghost before = out.deep_view();
                        let ghost vm = v.deep_view();
                        assert(is_violation(od, vm));
                        out.push(v);
                        assert(out.deep_view() =~= before.push(vm));
                        proof {
                            lemma_push_contains(before, vm);
                        }
                    } else if !fields_have_role(&o.etl_fields, c, Purpose::MCOMP) {
                        let v = Violation::NotAComponent { unit: name.clone(), component: c.clone() };
                        let ghost before = out.deep_view();
                        let ghost vm = v.deep_view();
                        assert(is_violation(od, vm));
                        out.push(v);
                        assert(out.deep_view() =~= before.push(vm));
                        proof {
                            lemma_push_contains(before, vm);
                        }
                    }
                    j = j + 1;
                }
                let sp = &m.mspan;
                if !table_has(&o.etl_fields, sp) {
                    let v = Violation::UnknownSpan { unit: name.clone(), span: sp.clone() };
                    let ghost before = out.deep_view();
                    let ghost vm = v.deep_view();
                    assert(is_violation(od, vm));
                    out.push(v);
                    assert(out.deep_view() =~= before.push(vm));
                    proof {
                        lemma_push_contains(before, vm);
                    }
                } else if !fields_have_role(&o.etl_fields, sp, Purpose::MSPAN) {
                    let v = Violation::NotASpan { unit: name.clone(), span: sp.clone() };
                    let ghost before = out.deep_view();
                    let ghost vm = v.deep_view();
                    assert(is_violation(od, vm));
                    out.push(v);
                    assert(out.deep_view() =~= before.push(vm));
                    proof {
                        lemma_push_contains(before, vm);
                    }
                }
            },
            _ => {},
        }
        i = i + 1;
    }
    proof {
        assert forall|unit: Seq<char>, component: Seq<char>|
            is_violation(od, ViolationModel::UnknownComponent { unit, component }) implies #[trigger] out.deep_view().contains(
            ViolationModel::UnknownComponent { unit, component },
        ) by {
            let (i2, j2) = choose|i2: int, j2: int|
                0 <= i2 < ud.len() && #[trigger] ud[i2].0 == unit && ud[i2].1 is Measurement && 0
                    <= j2 < ud[i2].1->Measurement_0.mcomps.len()
                    && #[trigger] ud[i2].1->Measurement_0.mcomps[j2] == component;
        }
        assert forall|unit: Seq<char>, component: Seq<char>|
            is_violation(od, ViolationModel::NotAComponent { unit, component }) implies #[trigger] out.deep_view().contains(
            ViolationModel::NotAComponent { unit, component },
        ) by {
            let (i2, j2) = choose|i2: int, j2: int|
                0 <= i2 < ud.len() && #[trigger] ud[i2].0 == unit && ud[i2].1 is Measurement && 0
                    <= j2 < ud[i2].1->Measurement_0.mcomps.len()
                    && #[trigger] ud[i2].1->Measurement_0.mcomps[j2] == component;
        }
    }
    out
}

/// Sources whose declared purpose is not their field's role.
fn check_purposes(o: &EtlObject) -> (r: Vec<Violation>)
    ensures
        forall|k: int| 0 <= k < r@.len() ==> is_violation(o.deep_view(), #[trigger] r.deep_view()[k]),
        forall|field: Seq<char>, source: nat|
            is_violation(o.deep_view(), ViolationModel::PurposeMismatch { field, source })
                ==> #[trigger] r.deep_view().contains(
                ViolationModel::PurposeMismatch { field, source },
            ),
{
    let ghost od = o.deep_view();
    let ghost fd = od.etl_fields;
    let mut out: Vec<Violation> = Vec::new();
    let mut i: usize = 0;
    while i < o.etl_fields.len()
        invariant
            i <= fd.len(),
            od == o.deep_view(),
            fd == od.etl_fields,
            fd.len() == o.etl_fields@.len(),
            forall|k: int| 0 <= k < out@.len() ==> is_violation(od, #[trigger] out.deep_view()[k]),
            forall|i2: int, j2: int|
                0 <= i2 < i && 0 <= j2 < sources_in(fd[i2].1).len() && declared_purpose(
                    #[trigger] sources_in(fd[i2].1)[j2],
                ) != role_of(fd[i2].1) ==> out.deep_view().contains(
                    ViolationModel::PurposeMismatch { field: fd[i2].0, source: j2 as nat },
                ),
        decreases fd.len() - i,
    {
        let name = &o.etl_fields[i].0;
        let want = role(&o.etl_fields[i].1);
        let srcs = sources(&o.etl_fields[i].1);
        let ghost sd = srcs.deep_view();
        assert(fd[i as int].0 == name@);
        let mut j: usize = 0;
        while j < srcs.len()
            invariant
                j <= sd.len(),
                sd == srcs.deep_view(),
                sd == sources_in(fd[i as int].1),
                want == role_of(fd[i as int].1),
                i < fd.len(),
                fd[i as int].0 == name@,
                od == o.deep_view(),
                fd == od.etl_fields,
                forall|k: int|
                    0 <= k < out@.len() ==> is_violation(od, #[trigger] out.deep_view()[k]),
                forall|i2: int, j2: int|
                    0 <= i2 < i && 0 <= j2 < sources_in(fd[i2].1).len() && declared_purpose(
                        #[trigger] sources_in(fd[i2].1)[j2],
                    ) != role_of(fd[i2].1) ==> out.deep_view().contains(
                        ViolationModel::PurposeMismatch { field: fd[i2].0, source: j2 as nat },
                    ),
                forall|j2: int|
                    0 <= j2 < j && declared_purpose(#[trigger] sd[j2]) != want
                        ==> out.deep_view().contains(
                        ViolationModel::PurposeMismatch { field: name@, source: j2 as nat },
                    ),
            decreases sd.len() - j,
        {
            if source_purpose(&srcs[j]) != want {
                let v = Violation::PurposeMismatch { field: name.clone(), source: j };
                let ghost before = out.deep_view();
                let ghost vm = v.deep_view();
                assert(sd[j as int] == sources_in(fd[i as int].1)[j as int]);
                assert(is_violation(od, vm));
                out.push(v);
                assert(out.deep_view() =~= before.push(vm));
                proof {
                    lemma_push_contains(before, vm);
                }
            }
            j = j + 1;
        }
        i = i + 1;
    }
    proof {
        assert forall|field: Seq<char>, source: nat|
            is_violation(od, ViolationModel::PurposeMismatch { field, source }) implies #[trigger] out.deep_view().contains(
            ViolationModel::PurposeMismatch { field, source },
        ) by {
            let i2 = choose|i2: int|
                0 <= i2 < fd.len() && #[trigger] fd[i2].0 == field && source < sources_in(
                    fd[i2].1,
                ).len() && declared_purpose(sources_in(fd[i2].1)[source as int]) != role_of(
                    fd[i2].1,
                );
            assert(declared_purpose(sources_in(fd[i2].1)[source as int]) != role_of(fd[i2].1));
        }
    }
    out
}


/// Appends the columns that the sources of one field claim.
fn push_claims(name: &String, srcs: &Vec<Source>, out: &mut Vec<(String, u32, String)>)
    ensures
        final(out).deep_view() == old(out).deep_view() + source_claims(name@, srcs.deep_view()),
{
    let ghost sd = srcs.deep_view();
    let ghost start = out.deep_view();
    let mut j: usize = 0;
    assert(sd.take(0) =~= Seq::<SourceModel>::empty());
    assert(start + source_claims(name@, sd.take(0)) =~= start);
    while j < srcs.len()
        invariant
            j <= sd.len(),
            sd == srcs.deep_view(),
            out.deep_view() == start + source_claims(name@, sd.take(j as int)),
        decreases sd.len() - j,
    {
        assert(sd.take(j + 1).drop_last() =~= sd.take(j as int));
        assert(sd.take(j + 1).last() == sd[j as int]);
        let ghost before = out.deep_view();
        match &srcs[j] {
            Source::Raw(r) => {
                out.push((r.filename.clone(), r.header_idx, name.clone()));
                assert(out.deep_view() =~= before.push((r.filename@, r.header_idx, name@)));
            },
            Source::Wide(r) => {
                out.push((r.filename.clone(), r.header_idx, name.clone()));
                assert(out.deep_view() =~= before.push((r.filename@, r.header_idx, name@)));
            },
            Source::Implied(_) => {},
        }
        j = j + 1;
    }
    assert(sd.take(sd.len() as int) =~= sd);
}

/// The columns claimed by all sources of all fields, in order.
pub fn column_claims(o: &EtlObject) -> (r: Vec<(String, u32, String)>)
    ensures
        r.deep_view() == claims(o.deep_view().etl_fields),
{
    let ghost fd = o.deep_view().etl_fields;
    let mut out: Vec<(String, u32, String)> = Vec::new();
    let mut i: usize = 0;
    assert(fd.take(0) =~= TableModel::<EtlFieldModel>::empty());
    assert(out.deep_view() =~= Seq::<Claim>::empty());
    while i < o.etl_fields.len()
        invariant
            i <= fd.len(),
            fd == o.deep_view().etl_fields,
            fd.len() == o.etl_fields@.len(),
            out.deep_view() == claims(fd.take(i as int)),
        decreases fd.len() - i,
    {
        assert(fd.take(i + 1).drop_last() =~= fd.take(i as int));
        assert(fd.take(i + 1).last() == fd[i as int]);
        push_claims(&o.etl_fields[i].0, sources(&o.etl_fields[i].1), &mut out);
        i = i + 1;
    }
    assert(fd.take(fd.len() as int) =~= fd);
    out
}

/// Pairs of sources that claim the same column of the same file.
fn check_columns(o: &EtlObject) -> (r: Vec<Violation>)
    ensures
        forall|k: int| 0 <= k < r@.len() ==> is_violation(o.deep_view(), #[trigger] r.deep_view()[k]),
        forall|filename: Seq<char>, header_idx: u32, first: Seq<char>, second: Seq<char>|
            is_violation(
                o.deep_view(),
                ViolationModel::ColumnCollision { filename, header_idx, first, second },
            ) ==> #[trigger] r.deep_view().contains(
                ViolationModel::ColumnCollision { filename, header_idx, first, second },
            ),
{
    let ghost od = o.deep_view();
    let cl = column_claims(o);
    let ghost cd = cl.deep_view();
    let mut out: Vec<Violation> = Vec::new();
    let mut a: usize = 0;
    while a < cl.len()
        invariant
            a <= cd.len(),
            cd == cl.deep_view(),
            cd == claims(od.etl_fields),
            od == o.deep_view(),
            forall|k: int| 0 <= k < out@.len() ==> is_violation(od, #[trigger] out.deep_view()[k]),
            forall|a2: int, b2: int|
                0 <= a2 < a && a2 < b2 < cd.len() && (#[trigger] cd[a2]).0 == (#[trigger] cd[b2]).0
                    && cd[a2].1 == cd[b2].1 ==> out.deep_view().contains(
                    ViolationModel::ColumnCollision {
                        filename: cd[a2].0,
                        header_idx: cd[a2].1,
                        first: cd[a2].2,
                        second: cd[b2].2,
                    },
                ),
        decreases cd.len() - a,
    {
        let mut b: usize = a + 1;
        while b < cl.len()
            invariant
                a < b <= cd.len(),
                cd == cl.deep_view(),
                cd == claims(od.etl_fields),
                od == o.deep_view(),
                forall|k: int|
                    0 <= k < out@.len() ==> is_violation(od, #[trigger] out.deep_view()[k]),
                forall|a2: int, b2: int|
                    0 <= a2 < a && a2 < b2 < cd.len() && (#[trigger] cd[a2]).0 == (
                    #[trigger] cd[b2]).0 && cd[a2].1 == cd[b2].1 ==> out.deep_view().contains(
                        ViolationModel::ColumnCollision {
                            filename: cd[a2].0,
                            header_idx: cd[a2].1,
                            first: cd[a2].2,
                            second: cd[b2].2,
                        },
                    ),
                forall|b2: int|
                    a < b2 < b && cd[a as int].0 == (#[trigger] cd[b2]).0 && cd[a as int].1
                        == cd[b2].1 ==> out.deep_view().contains(
                        ViolationModel::ColumnCollision {
                            filename: cd[a as int].0,
                            header_idx: cd[a as int].1,
                            first: cd[a as int].2,
                            second: cd[b2].2,
                        },
                    ),
            decreases cd.len() - b,
        {
            if cl[a].0 == cl[b].0 && cl[a].1 == cl[b].1 {
                let v = Violation::ColumnCollision {
                    filename: cl[a].0.clone(),
                    header_idx: cl[a].1,
                    first: cl[a].2.clone(),
                    second: cl[b].2.clone(),
                };
                let ghost before = out.deep_view();
                let ghost vm = v.deep_view();
                assert(cd[a as int] == (cd[a as int].0, cd[a as int].1, cd[a as int].2));
                assert(cd[b as int] == (cd[a as int].0, cd[a as int].1, cd[b as int].2));
                assert(is_violation(od, vm));
                out.push(v);
                assert(out.deep_view() =~= before.push(vm));
                proof {
                    lemma_push_contains(before, vm);
                }
            }
            b = b + 1;
        }
        a = a + 1;
    }
    proof {
        assert forall|filename: Seq<char>, header_idx: u32, first: Seq<char>, second: Seq<char>|
            is_violation(
                od,
                ViolationModel::ColumnCollision { filename, header_idx, first, second },
            ) implies #[trigger] out.deep_view().contains(
            ViolationModel::ColumnCollision { filename, header_idx, first, second },
        ) by {
            let (a2, b2) = choose|a2: int, b2: int|
                0 <= a2 < b2 < cd.len() && #[trigger] cd[a2] == (filename, header_idx, first)
                    && #[trigger] cd[b2] == (filename, header_idx, second);
        }
    }
    out
}


fn extend(out: &mut Vec<Violation>, more: Vec<Violation>)
    ensures
        final(out).deep_view() == old(out).deep_view() + more.deep_view(),
{
    let ghost a = out.deep_view();
    let ghost b = more.deep_view();
    let mut more = more;
    out.append(&mut more);
    assert(out.deep_view() =~= a + b);
}

proof fn lemma_concat_contains(a: Seq<ViolationModel>, b: Seq<ViolationModel>)
    ensures
        forall|x: ViolationModel| a.contains(x) ==> #[trigger] (a + b).contains(x),
        forall|x: ViolationModel| b.contains(x) ==> #[trigger] (a + b).contains(x),
{
    assert forall|x: ViolationModel| a.contains(x) implies #[trigger] (a + b).contains(x) by {
        let k = choose|k: int| 0 <= k < a.len() && a[k] == x;
        assert((a + b)[k] == x);
    }
    assert forall|x: ViolationModel| b.contains(x) implies #[trigger] (a + b).contains(x) by {
        let k = choose|k: int| 0 <= k < b.len() && b[k] == x;
        assert((a + b)[a.len() + k] == x);
    }
}

impl EtlObject {
    /// Every violation of the object's cross-reference, role and column
    /// rules, all found in one pass: exactly the violations there are.
    pub fn validate(&self) -> (r: Vec<Violation>)
        ensures
            forall|k: int|
                0 <= k < r@.len() ==> is_violation(self.deep_view(), #[trigger] r.deep_view()[k]),
            forall|v: ViolationModel|
                is_violation(self.deep_view(), v) ==> #[trigger] r.deep_view().contains(v),
    {
        let ghost od = self.deep_view();
        let r1 = check_field_units(self);
        let r2 = check_codomains(self);
        let r3 = check_measurements(self);
        let r4 = check_columns(self);
        let r5 = check_purposes(self);
        let ghost (d1, d2, d3, d4, d5) = (
            r1.deep_view(),
            r2.deep_view(),
            r3.deep_view(),
            r4.deep_view(),
            r5.deep_view(),
        );
        let mut out = r1;
        extend(&mut out, r2);
        extend(&mut out, r3);
        extend(&mut out, r4);
        extend(&mut out, r5);
        proof {
            let all = d1 + d2 + d3 + d4 + d5;
            assert(out.deep_view() == all);
            lemma_concat_contains(d1, d2);
            lemma_concat_contains(d1 + d2, d3);
            lemma_concat_contains(d1 + d2 + d3, d4);
            lemma_concat_contains(d1 + d2 + d3 + d4, d5);
            assert forall|k: int| 0 <= k < all.len() implies is_violation(od, #[trigger] all[k]) by {
                if k < d1.len() {
                    assert(all[k] == d1[k]);
                } else if k < d1.len() + d2.len() {
                    assert(all[k] == d2[k - d1.len()]);
                } else if k < d1.len() + d2.len() + d3.len() {
                    assert(all[k] == d3[k - d1.len() - d2.len()]);
                } else if k < d1.len() + d2.len() + d3.len() + d4.len() {
                    assert(all[k] == d4[k - d1.len() - d2.len() - d3.len()]);
                } else {
                    assert(all[k] == d5[k - d1.len() - d2.len() - d3.len() - d4.len()]);
                }
            }
            assert forall|v: ViolationModel| is_violation(od, v) implies #[trigger] all.contains(v) by {
                match v {
                    ViolationModel::UnknownUnit { field, unit } => {
                        assert(d1.contains(v));
                    },
                    ViolationModel::UnknownCodomain { unit, codomain } => {
                        assert(d2.contains(v));
                    },
                    ViolationModel::UnknownComponent { unit, component } => {
                        assert(d3.contains(v));
                    },
                    ViolationModel::NotAComponent { unit, component } => {
                        assert(d3.contains(v));
                    },
                    ViolationModel::UnknownSpan { unit, span } => {
                        assert(d3.contains(v));
                    },
                    ViolationModel::NotASpan { unit, span } => {
                        assert(d3.contains(v));
                    },
                    ViolationModel::ColumnCollision { filename, header_idx, first, second } => {
                        assert(d4.contains(v));
                    },
                    ViolationModel::PurposeMismatch { field, source } => {
                        assert(d5.contains(v));
                    },
                }
            }
        }
        out
    }
}


/// Every name reference resolves to an entity of the right role, no two
/// sources claim one column of one file, and every source declares its
/// field's role.
pub open spec fn self_consistent(o: EtlObjectModel) -> bool {
    let fields = o.etl_fields;
    let units = o.etl_units;
    &&& forall|i: int, j: int|
        0 <= i < fields.len() && 0 <= j < units_of(fields[i].1).len() ==> has_key(
            units,
            #[trigger] units_of(fields[i].1)[j],
        )
    &&& forall|i: int| 0 <= i < units.len() ==> has_key(fields, codomain_of(#[trigger] units[i].1))
    &&& forall|i: int, j: int|
        0 <= i < units.len() && units[i].1 is Measurement && 0 <= j
            < units[i].1->Measurement_0.mcomps.len() ==> has_role(
            fields,
            #[trigger] units[i].1->Measurement_0.mcomps[j],
            Purpose::MCOMP,
        )
    &&& forall|i: int|
        0 <= i < units.len() && #[trigger] units[i].1 is Measurement ==> has_role(
            fields,
            units[i].1->Measurement_0.mspan,
            Purpose::MSPAN,
        )
    &&& forall|a: int, b: int|
        0 <= a < b < claims(fields).len() ==> ((#[trigger] claims(fields)[a]).0, claims(fields)[a].1)
            != ((#[trigger] claims(fields)[b]).0, claims(fields)[b].1)
    &&& forall|i: int, j: int|
        0 <= i < fields.len() && 0 <= j < sources_in(fields[i].1).len() ==> declared_purpose(
            #[trigger] sources_in(fields[i].1)[j],
        ) == role_of(fields[i].1)
}

/// A self-consistent object has no violation, so validating it reports
/// nothing.
pub proof fn lemma_self_consistent_has_no_violation(o: EtlObjectModel, v: ViolationModel)
    requires
        self_consistent(o),
    ensures
        !is_violation(o, v),
{
    let fields = o.etl_fields;
    let units = o.etl_units;
    match v {
        ViolationModel::UnknownUnit { field, unit } => {
            if is_violation(o, v) {
                let (i, j) = choose|i: int, j: int|
                    0 <= i < fields.len() && 0 <= j < units_of(fields[i].1).len()
                        && #[trigger] fields[i].0 == field && #[trigger] units_of(fields[i].1)[j]
                        == unit;
            }
        },
        ViolationModel::UnknownCodomain { unit, codomain } => {
            if is_violation(o, v) {
                let i = choose|i: int|
                    0 <= i < units.len() && #[trigger] units[i].0 == unit && codomain_of(units[i].1)
                        == codomain;
                assert(has_key(fields, codomain_of(units[i].1)));
            }
        },
        ViolationModel::UnknownComponent { unit, component } => {
            if is_violation(o, v) {
                let (i, j) = choose|i: int, j: int|
                    0 <= i < units.len() && #[trigger] units[i].0 == unit && units[i].1 is Measurement
                        && 0 <= j < units[i].1->Measurement_0.mcomps.len()
                        && #[trigger] units[i].1->Measurement_0.mcomps[j] == component;
                assert(has_role(fields, component, Purpose::MCOMP));
                let k = choose|k: int|
                    0 <= k < fields.len() && #[trigger] fields[k].0 == component && role_of(
                        fields[k].1,
                    ) == Purpose::MCOMP;
                assert(has_key(fields, component));
            }
        },
        ViolationModel::NotAComponent { unit, component } => {
            if is_violation(o, v) {
                let (i, j) = choose|i: int, j: int|
                    0 <= i < units.len() && #[trigger] units[i].0 == unit && units[i].1 is Measurement
                        && 0 <= j < units[i].1->Measurement_0.mcomps.len()
                        && #[trigger] units[i].1->Measurement_0.mcomps[j] == component;
            }
        },
        ViolationModel::UnknownSpan { unit, span } => {
            if is_violation(o, v) {
                let i = choose|i: int|
                    0 <= i < units.len() && #[trigger] units[i].0 == unit && units[i].1 is Measurement
                        && units[i].1->Measurement_0.mspan == span;
                assert(has_role(fields, span, Purpose::MSPAN));
                let k = choose|k: int|
                    0 <= k < fields.len() && #[trigger] fields[k].0 == span && role_of(fields[k].1)
                        == Purpose::MSPAN;
                assert(has_key(fields, span));
            }
        },
        ViolationModel::NotASpan { unit, span } => {
            if is_violation(o, v) {
                let i = choose|i: int|
                    0 <= i < units.len() && #[trigger] units[i].0 == unit && units[i].1 is Measurement
                        && units[i].1->Measurement_0.mspan == span;
            }
        },
        ViolationModel::ColumnCollision { filename, header_idx, first, second } => {
            if is_violation(o, v) {
                let (a, b) = choose|a: int, b: int|
                    0 <= a < b < claims(fields).len() && #[trigger] claims(fields)[a] == (
                        filename,
                        header_idx,
                        first,
                    ) && #[trigger] claims(fields)[b] == (filename, header_idx, second);
            }
        },
        ViolationModel::PurposeMismatch { field, source } => {
            if is_violation(o, v) {
                let i = choose|i: int|
                    0 <= i < fields.len() && #[trigger] fields[i].0 == field && source < sources_in(
                        fields[i].1,
                    ).len() && declared_purpose(sources_in(fields[i].1)[source as int]) != role_of(
                        fields[i].1,
                    );
                assert(declared_purpose(sources_in(fields[i].1)[source as int]) == role_of(
                    fields[i].1,
                ));
            }
        },
    }
}


/// An object that is not self-consistent has a violation, so validating it
/// reports at least one.
pub proof fn lemma_inconsistent_has_violation(o: EtlObjectModel)
    requires
        !self_consistent(o),
    ensures
        exists|v: ViolationModel| is_violation(o, v),
{
    let fields = o.etl_fields;
    let units = o.etl_units;
    if !(forall|i: int, j: int|
        0 <= i < fields.len() && 0 <= j < units_of(fields[i].1).len() ==> has_key(
            units,
            #[trigger] units_of(fields[i].1)[j],
        )) {
        let (i, j) = choose|i: int, j: int|
            0 <= i < fields.len() && 0 <= j < units_of(fields[i].1).len() && !has_key(
                units,
                #[trigger] units_of(fields[i].1)[j],
            );
        let v = ViolationModel::UnknownUnit { field: fields[i].0, unit: units_of(fields[i].1)[j] };
        assert(is_violation(o, v));
    } else if !(forall|i: int|
        0 <= i < units.len() ==> has_key(fields, codomain_of(#[trigger] units[i].1))) {
        let i = choose|i: int| 0 <= i < units.len() && !has_key(fields, codomain_of(#[trigger] units[i].1));
        let v = ViolationModel::UnknownCodomain { unit: units[i].0, codomain: codomain_of(units[i].1) };
        assert(is_violation(o, v));
    } else if !(forall|i: int, j: int|
        0 <= i < units.len() && units[i].1 is Measurement && 0 <= j
            < units[i].1->Measurement_0.mcomps.len() ==> has_role(
            fields,
            #[trigger] units[i].1->Measurement_0.mcomps[j],
            Purpose::MCOMP,
        )) {
        let (i, j) = choose|i: int, j: int|
            0 <= i < units.len() && units[i].1 is Measurement && 0 <= j
                < units[i].1->Measurement_0.mcomps.len() && !has_role(
                fields,
                #[trigger] units[i].1->Measurement_0.mcomps[j],
                Purpose::MCOMP,
            );
        let c = units[i].1->Measurement_0.mcomps[j];
        if has_key(fields, c) {
            assert(is_violation(o, ViolationModel::NotAComponent { unit: units[i].0, component: c }));
        } else {
            assert(is_violation(o, ViolationModel::UnknownComponent { unit: units[i].0, component: c }));
        }
    } else if !(forall|i: int|
        0 <= i < units.len() && #[trigger] units[i].1 is Measurement ==> has_role(
            fields,
            units[i].1->Measurement_0.mspan,
            Purpose::MSPAN,
        )) {
        let i = choose|i: int|
            0 <= i < units.len() && #[trigger] units[i].1 is Measurement && !has_role(
                fields,
                units[i].1->Measurement_0.mspan,
                Purpose::MSPAN,
            );
        let sp = units[i].1->Measurement_0.mspan;
        if has_key(fields, sp) {
            assert(is_violation(o, ViolationModel::NotASpan { unit: units[i].0, span: sp }));
        } else {
            assert(is_violation(o, ViolationModel::UnknownSpan { unit: units[i].0, span: sp }));
        }
    } else if !(forall|a: int, b: int|
        0 <= a < b < claims(fields).len() ==> ((#[trigger] claims(fields)[a]).0, claims(fields)[a].1)
            != ((#[trigger] claims(fields)[b]).0, claims(fields)[b].1)) {
        let (a, b) = choose|a: int, b: int|
            0 <= a < b < claims(fields).len() && ((#[trigger] claims(fields)[a]).0, claims(
                fields,
            )[a].1) == ((#[trigger] claims(fields)[b]).0, claims(fields)[b].1);
        let ca = claims(fields)[a];
        let cb = claims(fields)[b];
        assert(ca == (ca.0, ca.1, ca.2));
        assert(cb == (ca.0, ca.1, cb.2));
        assert(is_violation(
            o,
            ViolationModel::ColumnCollision { filename: ca.0, header_idx: ca.1, first: ca.2, second: cb.2 },
        ));
    } else {
        let (i, j) = choose|i: int, j: int|
            0 <= i < fields.len() && 0 <= j < sources_in(fields[i].1).len() && declared_purpose(
                #[trigger] sources_in(fields[i].1)[j],
            ) != role_of(fields[i].1);
        assert(is_violation(o, ViolationModel::PurposeMismatch { field: fields[i].0, source: j as nat }));
    }
}


/// The column that a source claims: its file and header index; an implied
/// source claims none.
pub open spec fn column_of(s: SourceModel) -> Option<(Seq<char>, u32)> {
    match s {
        SourceModel::Raw(r) => Some((r.filename, r.header_idx)),
        SourceModel::Wide(r) => Some((r.filename, r.header_idx)),
        SourceModel::Implied(_) => None,
    }
}

pub open spec fn column_file(s: SourceModel) -> Seq<char> {
    match column_of(s) {
        Some(c) => c.0,
        None => Seq::empty(),
    }
}

pub open spec fn column_index(s: SourceModel) -> u32 {
    match column_of(s) {
        Some(c) => c.1,
        None => 0,
    }
}

pub open spec fn is_prefix<A>(a: Seq<A>, b: Seq<A>) -> bool {
    a.len() <= b.len() && forall|k: int| 0 <= k < a.len() ==> #[trigger] a[k] == b[k]
}

proof fn lemma_source_claims_prefix(name: Seq<char>, ss: Seq<SourceModel>, j: int)
    requires
        0 <= j <= ss.len(),
    ensures
        is_prefix(source_claims(name, ss.take(j)), source_claims(name, ss)),
    decreases ss.len(),
{
    if j == ss.len() {
        assert(ss.take(j) =~= ss);
    } else {
        let d = ss.drop_last();
        lemma_source_claims_prefix(name, d, j);
        assert(d.take(j) =~= ss.take(j));
    }
}

/// The claim of the source at `j` stands in the field's claims right after
/// the claims of the sources before it.
proof fn lemma_source_claim_at(name: Seq<char>, ss: Seq<SourceModel>, j: int)
    requires
        0 <= j < ss.len(),
        column_of(ss[j]) is Some,
    ensures
        source_claims(name, ss.take(j)).len() < source_claims(name, ss).len(),
        source_claims(name, ss)[source_claims(name, ss.take(j)).len() as int] == (
            column_file(ss[j]),
            column_index(ss[j]),
            name,
        ),
        source_claims(name, ss.take(j)).len() < source_claims(name, ss.take(j + 1)).len(),
{
    let t = ss.take(j + 1);
    assert(t.drop_last() =~= ss.take(j));
    assert(t.last() == ss[j]);
    lemma_source_claims_prefix(name, ss, j + 1);
    let k = source_claims(name, ss.take(j)).len() as int;
    assert(source_claims(name, t) == source_claims(name, ss.take(j)).push(
        (column_file(ss[j]), column_index(ss[j]), name),
    ));
    assert(source_claims(name, t)[k] == (column_file(ss[j]), column_index(ss[j]), name));
}

proof fn lemma_claims_prefix(t: TableModel<EtlFieldModel>, i: int)
    requires
        0 <= i <= t.len(),
    ensures
        is_prefix(claims(t.take(i)), claims(t)),
    decreases t.len(),
{
    if i == t.len() {
        assert(t.take(i) =~= t);
    } else {
        let d = t.drop_last();
        lemma_claims_prefix(d, i);
        assert(d.take(i) =~= t.take(i));
    }
}

/// Two sources of one field that claim the same column of the same file
/// make a column collision; so do they after any other change that keeps
/// both claims.
pub proof fn lemma_same_column_collides(o: EtlObjectModel, i: int, j1: int, j2: int)
    requires
        0 <= i < o.etl_fields.len(),
        0 <= j1 < j2 < sources_in(o.etl_fields[i].1).len(),
        column_of(sources_in(o.etl_fields[i].1)[j1]) is Some,
        column_of(sources_in(o.etl_fields[i].1)[j1]) == column_of(
            sources_in(o.etl_fields[i].1)[j2],
        ),
    ensures
        is_violation(
            o,
            ViolationModel::ColumnCollision {
                filename: column_file(sources_in(o.etl_fields[i].1)[j1]),
                header_idx: column_index(sources_in(o.etl_fields[i].1)[j1]),
                first: o.etl_fields[i].0,
                second: o.etl_fields[i].0,
            },
        ),
{
    let t = o.etl_fields;
    let name = t[i].0;
    let ss = sources_in(t[i].1);
    lemma_source_claim_at(name, ss, j1);
    lemma_source_claim_at(name, ss, j2);
    lemma_source_claims_prefix(name, ss.take(j2), j1 + 1);
    assert(ss.take(j2).take(j1 + 1) =~= ss.take(j1 + 1));
    let sc = source_claims(name, ss);
    let k1 = source_claims(name, ss.take(j1)).len() as int;
    let k2 = source_claims(name, ss.take(j2)).len() as int;
    assert(k1 < k2);
    let upto = t.take(i + 1);
    assert(upto.drop_last() =~= t.take(i));
    assert(upto.last() == t[i]);
    let base = claims(t.take(i)).len() as int;
    assert(claims(upto) == claims(t.take(i)) + sc);
    lemma_claims_prefix(t, i + 1);
    let c = claims(t);
    assert(claims(upto)[base + k1] == sc[k1]);
    assert(claims(upto)[base + k2] == sc[k2]);
    assert(c[base + k1] == (column_file(ss[j1]), column_index(ss[j1]), name));
    assert(c[base + k2] == (column_file(ss[j1]), column_index(ss[j1]), name));
}


/// When no two sources claim the same column of the same file, there is no
/// column collision.
pub proof fn lemma_distinct_columns_do_not_collide(
    o: EtlObjectModel,
    filename: Seq<char>,
    header_idx: u32,
    first: Seq<char>,
    second: Seq<char>,
)
    requires
        forall|a: int, b: int|
            0 <= a < b < claims(o.etl_fields).len() ==> ((#[trigger] claims(o.etl_fields)[a]).0,
            claims(o.etl_fields)[a].1) != ((#[trigger] claims(o.etl_fields)[b]).0, claims(
                o.etl_fields,
            )[b].1),
    ensures
        !is_violation(o, ViolationModel::ColumnCollision { filename, header_idx, first, second }),
{
    let c = claims(o.etl_fields);
    if is_violation(o, ViolationModel::ColumnCollision { filename, header_idx, first, second }) {
        let (a, b) = choose|a: int, b: int|
            0 <= a < b < c.len() && #[trigger] c[a] == (filename, header_idx, first)
                && #[trigger] c[b] == (filename, header_idx, second);
        assert((c[a].0, c[a].1) == (c[b].0, c[b].1));
    }
}

} // verus!
