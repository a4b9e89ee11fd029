use vstd::prelude::*;
use crate::declaration::{Data, Declaration, FieldDecl, Fields};
use crate::diagnostic::{Diagnostic, DiagnosticKind, DiagnosticSpan};

verus! {

/// The outcome of classifying a declaration: its named fields, or the
/// diagnostic that rejects it.
pub open spec fn classification(decl: Declaration) -> Result<Seq<FieldDecl>, Diagnostic> {
    match decl.data {
        Data::Struct(Fields::Named(fields)) => Ok(fields@),
        Data::Struct(Fields::Unnamed) => Err(
            Diagnostic { kind: DiagnosticKind::NamedFieldsOnly, span: DiagnosticSpan::Fields },
        ),
        Data::Struct(Fields::Unit) => Err(
            Diagnostic { kind: DiagnosticKind::UnitStruct, span: DiagnosticSpan::Declaration },
        ),
        _ => Err(
            Diagnostic { kind: DiagnosticKind::NamedFieldsOnly, span: DiagnosticSpan::Declaration },
        ),
    }
}

/// Returns the fields of `input` when it is a struct; enums and unions are
/// rejected.
pub fn extract_struct(input: &Declaration) -> (r: Result<&Fields, Diagnostic>)
    ensures
        match input.data {
            Data::Struct(fields) => r == Ok::<&Fields, Diagnostic>(&fields),
            _ => r == Err::<&Fields, Diagnostic>(
                Diagnostic { kind: DiagnosticKind::NamedFieldsOnly, span: DiagnosticSpan::Declaration },
            ),
        },
{
    match &input.data {
        Data::Struct(fields) => Ok(fields),
        _ => Err(
            Diagnostic { kind: DiagnosticKind::NamedFieldsOnly, span: DiagnosticSpan::Declaration },
        ),
    }
}

/// Returns the named fields of a struct; unit and tuple structs are rejected.
pub fn fetch_fields(fields: &Fields) -> (r: Result<&Vec<FieldDecl>, Diagnostic>)
    ensures
        match *fields {
            Fields::Named(named) => r == Ok::<&Vec<FieldDecl>, Diagnostic>(&named),
            Fields::Unit => r == Err::<&Vec<FieldDecl>, Diagnostic>(
                Diagnostic { kind: DiagnosticKind::UnitStruct, span: DiagnosticSpan::Declaration },
            ),
            Fields::Unnamed => r == Err::<&Vec<FieldDecl>, Diagnostic>(
                Diagnostic { kind: DiagnosticKind::NamedFieldsOnly, span: DiagnosticSpan::Fields },
            ),
        },
{
    match fields {
        Fields::Named(named) => Ok(named),
        Fields::Unit => Err(
            Diagnostic { kind: DiagnosticKind::UnitStruct, span: DiagnosticSpan::Declaration },
        ),
        Fields::Unnamed => Err(
            Diagnostic { kind: DiagnosticKind::NamedFieldsOnly, span: DiagnosticSpan::Fields },
        ),
    }
}

/// Accepts exactly the records with named fields, zero fields included, and
/// returns those fields.
pub fn classify(input: &Declaration) -> (r: Result<&Vec<FieldDecl>, Diagnostic>)
    ensures
        match r {
            Ok(fields) => classification(*input) == Ok::<Seq<FieldDecl>, Diagnostic>(fields@),
            Err(d) => classification(*input) == Err::<Seq<FieldDecl>, Diagnostic>(d),
        },
{
    let data = extract_struct(input)?;
    fetch_fields(data)
}

} // verus!
