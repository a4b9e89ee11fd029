use vstd::prelude::*;
use crate::classify::classification;
use crate::diagnostic::Diagnostic;
use crate::declaration::{checked_fields, checked_upto, field_ignored, Declaration, FieldDecl};
use crate::emit::{generated, outcome, violation_message, CheckMethod, FieldCheck};

verus! {

/// Every checked position among the first `n` fields is below `n` and names a
/// field without the marker.
proof fn lemma_checked_upto_members(fields: Seq<FieldDecl>, n: nat)
    requires
        n <= fields.len(),
    ensures
        forall|k: int|
            0 <= k < checked_upto(fields, n).len() ==> #[trigger] checked_upto(fields, n)[k] < n
                && !field_ignored(fields[checked_upto(fields, n)[k] as int]),
    decreases n,
{
    if n > 0 {
        let prefix = checked_upto(fields, (n - 1) as nat);
        lemma_checked_upto_members(fields, (n - 1) as nat);
        assert forall|k: int| 0 <= k < checked_upto(fields, n).len() implies #[trigger] checked_upto(
            fields,
            n,
        )[k] < n && !field_ignored(fields[checked_upto(fields, n)[k] as int]) by {
            if k < prefix.len() {
                assert(checked_upto(fields, n)[k] == prefix[k]);
            }
        }
    }
}

/// Checks that all read empty fields let the method complete.
proof fn lemma_checks_pass_when_empty(checks: Seq<FieldCheck>, occupied: Seq<bool>)
    requires
        forall|j: int| 0 <= j < checks.len() ==> !occupied[(#[trigger] checks[j]).index as int],
    ensures
        outcome(checks, occupied) is None,
    decreases checks.len(),
{
    if checks.len() > 0 {
        assert(!occupied[checks[0].index as int]);
        assert forall|j: int| 0 <= j < checks.drop_first().len() implies !occupied[(
        #[trigger] checks.drop_first()[j]).index as int] by {
            assert(checks.drop_first()[j] == checks[j + 1]);
        }
        lemma_checks_pass_when_empty(checks.drop_first(), occupied);
    }
}

/// Changing a field that no check reads leaves the outcome as it was.
proof fn lemma_outcome_ignores_unread(
    checks: Seq<FieldCheck>,
    occupied: Seq<bool>,
    i: int,
    b: bool,
)
    requires
        0 <= i < occupied.len(),
        forall|j: int|
            0 <= j < checks.len() ==> (#[trigger] checks[j]).index != i && checks[j].index
                < occupied.len(),
    ensures
        outcome(checks, occupied.update(i, b)) == outcome(checks, occupied),
    decreases checks.len(),
{
    if checks.len() > 0 {
        assert(checks[0].index != i);
        assert forall|j: int| 0 <= j < checks.drop_first().len() implies (
        #[trigger] checks.drop_first()[j]).index != i && checks.drop_first()[j].index
            < occupied.len() by {
            assert(checks.drop_first()[j] == checks[j + 1]);
        }
        lemma_outcome_ignores_unread(checks.drop_first(), occupied, i, b);
    }
}

/// Two check lists that read the same fields with the same messages have the
/// same outcome.
proof fn lemma_outcome_same_checks(a: Seq<FieldCheck>, b: Seq<FieldCheck>, occupied: Seq<bool>)
    requires
        a.len() == b.len(),
        forall|j: int|
            0 <= j < a.len() ==> (#[trigger] a[j]).index == b[j].index && a[j].message@
                == b[j].message@,
    ensures
        outcome(a, occupied) == outcome(b, occupied),
    decreases a.len(),
{
    if a.len() > 0 {
        assert(a[0].index == b[0].index);
        assert forall|j: int| 0 <= j < a.drop_first().len() implies (
        #[trigger] a.drop_first()[j]).index == b.drop_first()[j].index
            && a.drop_first()[j].message@ == b.drop_first()[j].message@ by {
            assert(a.drop_first()[j] == a[j + 1]);
            assert(b.drop_first()[j] == b[j + 1]);
        }
        lemma_outcome_same_checks(a.drop_first(), b.drop_first(), occupied);
    }
}

/// A record with no field gets a method that never stops, whatever the
/// instance.
pub proof fn lemma_no_fields_always_passes(
    decl: Declaration,
    m: CheckMethod,
    occupied: Seq<bool>,
)
    requires
        classification(decl) == Ok::<Seq<FieldDecl>, Diagnostic>(
            Seq::empty(),
        ),
        generated(decl, m),
    ensures
        outcome(m.checks@, occupied) is None,
{
    assert(m.checks@.len() == 0);
}

/// A record whose every field carries the marker gets a method that never
/// stops, whatever the fields hold.
pub proof fn lemma_all_ignored_always_passes(
    decl: Declaration,
    fields: Seq<FieldDecl>,
    m: CheckMethod,
    occupied: Seq<bool>,
)
    requires
        classification(decl) == Ok::<Seq<FieldDecl>, Diagnostic>(fields),
        generated(decl, m),
        forall|i: int| 0 <= i < fields.len() ==> field_ignored(#[trigger] fields[i]),
    ensures
        outcome(m.checks@, occupied) is None,
{
    lemma_checked_upto_members(fields, fields.len());
    if checked_fields(fields).len() > 0 {
        assert(!field_ignored(fields[checked_fields(fields)[0] as int]));
    }
    assert(m.checks@.len() == 0);
}

/// When the first checked field holds a value, the method stops with that
/// field's name, whatever the later fields hold.
pub proof fn lemma_first_checked_field_stops(
    decl: Declaration,
    fields: Seq<FieldDecl>,
    m: CheckMethod,
    occupied: Seq<bool>,
)
    requires
        classification(decl) == Ok::<Seq<FieldDecl>, Diagnostic>(fields),
        generated(decl, m),
        occupied.len() == fields.len(),
        checked_fields(fields).len() > 0,
        occupied[checked_fields(fields)[0] as int],
    ensures
        outcome(m.checks@, occupied) == Some(
            violation_message(fields[checked_fields(fields)[0] as int].ident@),
        ),
{
    assert(m.checks@[0].index == checked_fields(fields)[0]);
}

/// When every checked field is empty, the method completes without a stop.
pub proof fn lemma_empty_checked_fields_pass(
    decl: Declaration,
    fields: Seq<FieldDecl>,
    m: CheckMethod,
    occupied: Seq<bool>,
)
    requires
        classification(decl) == Ok::<Seq<FieldDecl>, Diagnostic>(fields),
        generated(decl, m),
        occupied.len() == fields.len(),
        forall|k: int|
            0 <= k < checked_fields(fields).len() ==> !occupied[#[trigger] checked_fields(
                fields,
            )[k] as int],
    ensures
        outcome(m.checks@, occupied) is None,
{
    assert forall|j: int| 0 <= j < m.checks@.len() implies !occupied[(
    #[trigger] m.checks@[j]).index as int] by {
        assert(m.checks@[j].index == checked_fields(fields)[j]);
    }
    lemma_checks_pass_when_empty(m.checks@, occupied);
}

/// A field that carries the marker is never checked: whatever it holds, the
/// method behaves the same.
pub proof fn lemma_ignored_field_has_no_effect(
    decl: Declaration,
    fields: Seq<FieldDecl>,
    m: CheckMethod,
    occupied: Seq<bool>,
    i: int,
    value: bool,
)
    requires
        classification(decl) == Ok::<Seq<FieldDecl>, Diagnostic>(fields),
        generated(decl, m),
        occupied.len() == fields.len(),
        0 <= i < fields.len(),
        field_ignored(fields[i]),
    ensures
        outcome(m.checks@, occupied.update(i, value)) == outcome(m.checks@, occupied),
{
    lemma_checked_upto_members(fields, fields.len());
    assert forall|j: int| 0 <= j < m.checks@.len() implies (#[trigger] m.checks@[j]).index
        != i && m.checks@[j].index < occupied.len() by {
        assert(m.checks@[j].index == checked_fields(fields)[j]);
    }
    lemma_outcome_ignores_unread(m.checks@, occupied, i, value);
}

/// Generic parameters, lifetimes and where-clauses change the impl header
/// only: two declarations with the same fields get methods that behave alike.
pub proof fn lemma_generics_do_not_change_checks(
    plain: Declaration,
    generic: Declaration,
    fields: Seq<FieldDecl>,
    m_plain: CheckMethod,
    m_generic: CheckMethod,
    occupied: Seq<bool>,
)
    requires
        classification(plain) == Ok::<Seq<FieldDecl>, Diagnostic>(fields),
        classification(generic) == Ok::<Seq<FieldDecl>, Diagnostic>(fields),
        generated(plain, m_plain),
        generated(generic, m_generic),
    ensures
        outcome(m_plain.checks@, occupied) == outcome(m_generic.checks@, occupied),
{
    assert forall|j: int| 0 <= j < m_plain.checks@.len() implies (
    #[trigger] m_plain.checks@[j]).index == m_generic.checks@[j].index
        && m_plain.checks@[j].message@ == m_generic.checks@[j].message@ by {
        assert(m_plain.checks@[j].index == checked_fields(fields)[j]);
        assert(m_generic.checks@[j].index == checked_fields(fields)[j]);
    }
    lemma_outcome_same_checks(m_plain.checks@, m_generic.checks@, occupied);
}

} // verus!
