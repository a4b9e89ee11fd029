use vstd::prelude::*;

verus! {

/// Name of the field-level marker that opts a field out of the check.
pub const IGNORE_FIELD_ATTRIBUTE: &'static str = "ignore_field";

/// One generic parameter of a declaration, kept as opaque syntax.
pub enum GenericParam {
    /// A lifetime parameter such as `'a: 'b`; `bounds` holds `'b`.
    Lifetime { name: String, bounds: Vec<String> },
    /// A type parameter such as `T: Display + ?Sized`; `bounds` holds
    /// `Display` and `?Sized`.
    Type { name: String, bounds: Vec<String> },
    /// A const parameter such as `const N: usize`.
    Const { name: String, ty: String },
}

/// The generic signature of a declaration: its parameters in declaration
/// order and the predicates of its where-clause (none when it has no
/// where-clause).
pub struct Generics {
    pub params: Vec<GenericParam>,
    pub where_predicates: Vec<String>,
}

/// A field of a record with named fields.
pub struct FieldDecl {
    /// The field's identifier.
    pub ident: String,
    /// The first path segment of each attribute attached to the field.
    pub attributes: Vec<String>,
}

/// The fields of a record declaration.
pub enum Fields {
    /// `struct S { a: A, b: B }`, possibly with no field at all.
    Named(Vec<FieldDecl>),
    /// `struct S(A, B);`
    Unnamed,
    /// `struct S;`
    Unit,
}

/// The kind of a declaration.
pub enum Data {
    Struct(Fields),
    Enum,
    Union,
}

/// A parsed type declaration.
pub struct Declaration {
    pub name: String,
    pub generics: Generics,
    pub data: Data,
}

/// A field is excluded when one of its attributes is the marker.
pub open spec fn field_ignored(field: FieldDecl) -> bool {
    exists|i: int|
        0 <= i < field.attributes@.len() && #[trigger] field.attributes@[i]@
            == IGNORE_FIELD_ATTRIBUTE@
}

/// Indices of the checked fields among the first `n` fields, in declaration
/// order.
pub open spec fn checked_upto(fields: Seq<FieldDecl>, n: nat) -> Seq<nat>
    decreases n,
{
    if n == 0 {
        Seq::empty()
    } else {
        let prefix = checked_upto(fields, (n - 1) as nat);
        if field_ignored(fields[n - 1]) {
            prefix
        } else {
            prefix.push((n - 1) as nat)
        }
    }
}

/// Indices of the checked fields, in declaration order.
pub open spec fn checked_fields(fields: Seq<FieldDecl>) -> Seq<nat> {
    checked_upto(fields, fields.len())
}

} // verus!
