use vstd::prelude::*;

verus! {

/// Why a declaration cannot get a `check_initial_state` method.
#[derive(PartialEq, Eq, Structural, Clone, Copy, Debug)]
pub enum DiagnosticKind {
    /// Enums, unions and tuple structs.
    NamedFieldsOnly,
    /// Unit structs.
    UnitStruct,
}

/// The part of the input that a diagnostic points at.
#[derive(PartialEq, Eq, Structural, Clone, Copy, Debug)]
pub enum DiagnosticSpan {
    /// The whole declaration.
    Declaration,
    /// The declaration's field list.
    Fields,
}

/// A compile-time error reported instead of generated code.
#[derive(PartialEq, Eq, Structural, Clone, Copy, Debug)]
pub struct Diagnostic {
    pub kind: DiagnosticKind,
    pub span: DiagnosticSpan,
}

pub open spec fn diagnostic_text(kind: DiagnosticKind) -> Seq<char> {
    match kind {
        DiagnosticKind::NamedFieldsOnly =>
            "`CheckInitialState` procedural macro is allowed for structs with named fields only"@,
        DiagnosticKind::UnitStruct =>
            "`CheckInitialState` procedural macro is no allowed for unit structs"@,
    }
}

impl Diagnostic {
    /// The text shown to the user.
    pub fn message(&self) -> (r: String)
        ensures
            r@ == diagnostic_text(self.kind),
    {
        match self.kind {
            DiagnosticKind::NamedFieldsOnly => String::from_str(
                "`CheckInitialState` procedural macro is allowed for structs with named fields only",
            ),
            DiagnosticKind::UnitStruct => String::from_str(
                "`CheckInitialState` procedural macro is no allowed for unit structs",
            ),
        }
    }
}

} // verus!
