use vstd::prelude::*;
use crate::declaration::{checked_fields, checked_upto, field_ignored, FieldDecl, IGNORE_FIELD_ATTRIBUTE};

verus! {

/// A field that takes part in the check: its position in the declaration and
/// its identifier.
pub struct CheckedField {
    pub index: usize,
    pub ident: String,
}

/// Positions of a sequence of checked fields.
pub open spec fn positions(checked: Seq<CheckedField>) -> Seq<nat> {
    checked.map_values(|c: CheckedField| c.index as nat)
}

/// Tells whether `field` carries the exclusion marker.
pub fn is_ignored(field: &FieldDecl) -> (r: bool)
    ensures
        r == field_ignored(*field),
{
    let marker = String::from_str(IGNORE_FIELD_ATTRIBUTE);
    let mut i: usize = 0;
    while i < field.attributes.len()
        invariant
            i <= field.attributes@.len(),
            marker@ == IGNORE_FIELD_ATTRIBUTE@,
            forall|j: int| 0 <= j < i ==> field.attributes@[j]@ != IGNORE_FIELD_ATTRIBUTE@,
        decreases field.attributes@.len() - i,
    {
        if field.attributes[i] == marker {
            return true;
        }
        i += 1;
    }
    false
}

/// Keeps the fields without the exclusion marker, in declaration order.
pub fn select_fields(fields: &Vec<FieldDecl>) -> (r: Vec<CheckedField>)
    ensures
        positions(r@) == checked_fields(fields@),
        forall|j: int|
            0 <= j < r@.len() ==> #[trigger] r@[j].index < fields@.len() && r@[j].ident@
                == fields@[r@[j].index as int].ident@,
{
    let mut r: Vec<CheckedField> = Vec::new();
    let mut i: usize = 0;
    while i < fields.len()
        invariant
            i <= fields@.len(),
            positions(r@) == checked_upto(fields@, i as nat),
            forall|j: int|
                0 <= j < r@.len() ==> #[trigger] r@[j].index < i && r@[j].ident@
                    == fields@[r@[j].index as int].ident@,
        decreases fields@.len() - i,
    {
        let field = &fields[i];
        if !is_ignored(field) {
            let ghost before = r@;
            r.push(CheckedField { index: i, ident: field.ident.clone() });
            assert(positions(r@) =~= positions(before).push(i as nat));
        }
        i += 1;
    }
    r
}

} // verus!
