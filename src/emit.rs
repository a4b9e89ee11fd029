use vstd::prelude::*;
use crate::classify::{classification, classify};
use crate::declaration::{checked_fields, Declaration, FieldDecl};
use crate::diagnostic::Diagnostic;
use crate::generics::{impl_generics_text, split_for_impl, type_generics_text, where_clause_text};
use crate::select::{positions, select_fields, CheckedField};

verus! {

/// One check of the generated method: the field it reads, by position and by
/// name, and the message it stops with when that field holds a value.
pub struct FieldCheck {
    pub index: usize,
    pub ident: String,
    pub message: String,
}

/// The generated `check_initial_state` method and the impl block around it.
pub struct CheckMethod {
    pub impl_generics: String,
    pub struct_name: String,
    pub type_generics: String,
    pub where_clause: Option<String>,
    pub checks: Vec<FieldCheck>,
}

/// The message of the stop caused by field `ident`.
pub open spec fn violation_message(ident: Seq<char>) -> Seq<char> {
    "Field `"@ + ident + "` has Some value instead of None"@
}

/// `m` is the method generated for `decl`, whose named fields are `fields`.
pub open spec fn emitted_for(decl: Declaration, fields: Seq<FieldDecl>, m: CheckMethod) -> bool {
    &&& m.impl_generics@ == impl_generics_text(decl.generics)
    &&& m.struct_name@ == decl.name@
    &&& m.type_generics@ == type_generics_text(decl.generics)
    &&& match m.where_clause {
        Some(w) => where_clause_text(decl.generics) == Some(w@),
        None => where_clause_text(decl.generics) is None,
    }
    &&& m.checks@.len() == checked_fields(fields).len()
    &&& forall|j: int|
        0 <= j < m.checks@.len() ==> {
            &&& (#[trigger] m.checks@[j]).index == checked_fields(fields)[j]
            &&& m.checks@[j].ident@ == fields[m.checks@[j].index as int].ident@
            &&& m.checks@[j].message@ == violation_message(m.checks@[j].ident@)
        }
}

/// `m` is the method generated for `decl`.
pub open spec fn generated(decl: Declaration, m: CheckMethod) -> bool {
    match classification(decl) {
        Ok(fields) => emitted_for(decl, fields, m),
        Err(_) => false,
    }
}

/// What running the checks on an instance gives: `None` when every check
/// passes, else the message of the first check whose field holds a value.
/// `occupied[i]` tells whether field `i` of the instance holds a value.
pub open spec fn outcome(checks: Seq<FieldCheck>, occupied: Seq<bool>) -> Option<Seq<char>>
    decreases checks.len(),
{
    if checks.len() == 0 {
        None
    } else if occupied[checks[0].index as int] {
        Some(checks[0].message@)
    } else {
        outcome(checks.drop_first(), occupied)
    }
}

/// Every check reads a field that the instance has.
pub open spec fn checks_in_bounds(checks: Seq<FieldCheck>, occupied: Seq<bool>) -> bool {
    forall|j: int| 0 <= j < checks.len() ==> (#[trigger] checks[j]).index < occupied.len()
}

/// Writes the message of the stop caused by field `ident`.
pub fn violation_text(ident: &String) -> (r: String)
    ensures
        r@ == violation_message(ident@),
{
    let mut r = String::from_str("Field `");
    r.append(ident.as_str());
    r.append("` has Some value instead of None");
    r
}

/// Builds the method for `input` from its checked fields.
pub fn emit(input: &Declaration, fields: &Vec<FieldDecl>, checked: &Vec<CheckedField>) -> (r:
    CheckMethod)
    requires
        positions(checked@) == checked_fields(fields@),
        forall|j: int|
            0 <= j < checked@.len() ==> #[trigger] checked@[j].index < fields@.len()
                && checked@[j].ident@ == fields@[checked@[j].index as int].ident@,
    ensures
        emitted_for(*input, fields@, r),
{
    let (impl_generics, type_generics, where_clause) = split_for_impl(&input.generics);
    let mut checks: Vec<FieldCheck> = Vec::new();
    let mut i: usize = 0;
    while i < checked.len()
        invariant
            i <= checked@.len(),
            checks@.len() == i,
            forall|j: int|
                0 <= j < i ==> {
                    &&& (#[trigger] checks@[j]).index == checked@[j].index
                    &&& checks@[j].ident@ == checked@[j].ident@
                    &&& checks@[j].message@ == violation_message(checks@[j].ident@)
                },
        decreases checked@.len() - i,
    {
        let c = &checked[i];
        let message = violation_text(&c.ident);
        checks.push(FieldCheck { index: c.index, ident: c.ident.clone(), message });
        i += 1;
    }
    assert forall|j: int| 0 <= j < checks@.len() implies (#[trigger] checks@[j]).index
        == checked_fields(fields@)[j] by {
        assert(positions(checked@)[j] == checked@[j].index as nat);
    }
    CheckMethod {
        impl_generics,
        struct_name: input.name.clone(),
        type_generics,
        where_clause,
        checks,
    }
}

/// Generates the `check_initial_state` method for a record with named
/// fields, or the diagnostic that rejects the declaration.
pub fn check_initial_state_derive(input: &Declaration) -> (r: Result<CheckMethod, Diagnostic>)
    ensures
        match classification(*input) {
            Ok(fields) => r is Ok && emitted_for(*input, fields, r->Ok_0) && generated(
                *input,
                r->Ok_0,
            ),
            Err(d) => r is Err && r->Err_0 == d,
        },
{
    let fields = match classify(input) {
        Ok(fields) => fields,
        Err(d) => return Err(d),
    };
    let checked = select_fields(fields);
    Ok(emit(input, fields, &checked))
}

impl CheckMethod {
    /// Runs the generated method on an instance whose field `i` holds a value
    /// exactly when `occupied[i]`: `Err` carries the message of the stop.
    pub fn run(&self, occupied: &Vec<bool>) -> (r: Result<(), String>)
        requires
            checks_in_bounds(self.checks@, occupied@),
        ensures
            match outcome(self.checks@, occupied@) {
                None => r is Ok,
                Some(msg) => r is Err && r->Err_0@ == msg,
            },
    {
        let mut i: usize = 0;
        assert(self.checks@.subrange(0, self.checks@.len() as int) =~= self.checks@);
        while i < self.checks.len()
            invariant
                i <= self.checks@.len(),
                checks_in_bounds(self.checks@, occupied@),
                outcome(self.checks@, occupied@) == outcome(
                    self.checks@.subrange(i as int, self.checks@.len() as int),
                    occupied@,
                ),
            decreases self.checks@.len() - i,
        {
            let c = &self.checks[i];
            let ghost rest = self.checks@.subrange(i as int, self.checks@.len() as int);
            assert(rest[0] == c);
            if occupied[c.index] {
                return Err(c.message.clone());
            }
            assert(rest.drop_first() =~= self.checks@.subrange(
                i + 1,
                self.checks@.len() as int,
            ));
            i += 1;
        }
        Ok(())
    }
}

} // verus!
