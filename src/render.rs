use vstd::prelude::*;
use crate::emit::{CheckMethod, FieldCheck};

verus! {

/// `impl<..> Name<..> where ..`
pub open spec fn header_text(m: CheckMethod) -> Seq<char> {
    let base = "impl"@ + m.impl_generics@ + " "@ + m.struct_name@ + m.type_generics@;
    match m.where_clause {
        Some(w) => base + " "@ + w@,
        None => base,
    }
}

/// The statement that checks one field.
pub open spec fn check_text(c: FieldCheck) -> Seq<char> {
    "\t\tif ::std::option::Option::is_some(&self."@ + c.ident@ + ") {\n\t\t\tpanic!(\""@
        + c.message@ + "\");\n\t\t};\n"@
}

/// The statements of all checks, in order.
pub open spec fn checks_text(checks: Seq<FieldCheck>) -> Seq<char>
    decreases checks.len(),
{
    if checks.len() == 0 {
        Seq::empty()
    } else {
        checks_text(checks.drop_last()) + check_text(checks.last())
    }
}

pub open spec fn method_open_text() -> Seq<char> {
    " {\n\t/// Checks that every field not marked `ignore_field` is `None`.\n\t/// # Panics\n\t/// When such a field holds a value; the message names the field.\n\tfn check_initial_state(&self) {\n"@
}

pub open spec fn method_close_text() -> Seq<char> {
    "\t}\n}\n"@
}

/// The whole impl block as Rust source.
pub open spec fn rendered(m: CheckMethod) -> Seq<char> {
    header_text(m) + method_open_text() + checks_text(m.checks@) + method_close_text()
}

/// Writes the statement that checks one field.
pub fn render_check(c: &FieldCheck) -> (r: String)
    ensures
        r@ == check_text(*c),
{
    let mut r = String::from_str("\t\tif ::std::option::Option::is_some(&self.");
    r.append(c.ident.as_str());
    r.append(") {\n\t\t\tpanic!(\"");
    r.append(c.message.as_str());
    r.append("\");\n\t\t};\n");
    r
}

impl CheckMethod {
    /// Writes the impl block holding the generated method as Rust source.
    pub fn render(&self) -> (r: String)
        ensures
            r@ == rendered(*self),
    {
        let mut r = String::from_str("impl");
        r.append(self.impl_generics.as_str());
        r.append(" ");
        r.append(self.struct_name.as_str());
        r.append(self.type_generics.as_str());
        match &self.where_clause {
            Some(w) => {
                r.append(" ");
                r.append(w.as_str());
            },
            None => {},
        }
        r.append(
            " {\n\t/// Checks that every field not marked `ignore_field` is `None`.\n\t/// # Panics\n\t/// When such a field holds a value; the message names the field.\n\tfn check_initial_state(&self) {\n",
        );
        let ghost head = r@;
        assert(head == header_text(*self) + method_open_text());
        let mut i: usize = 0;
        while i < self.checks.len()
            invariant
                i <= self.checks@.len(),
                r@ == head + checks_text(self.checks@.take(i as int)),
            decreases self.checks@.len() - i,
        {
            let piece = render_check(&self.checks[i]);
            r.append(piece.as_str());
            assert(self.checks@.take(i + 1).drop_last() =~= self.checks@.take(i as int));
            i += 1;
        }
        assert(self.checks@.take(i as int) =~= self.checks@);
        r.append("\t}\n}\n");
        r
    }
}

} // verus!
