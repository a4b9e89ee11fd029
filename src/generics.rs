use vstd::prelude::*;
use crate::declaration::{GenericParam, Generics};

verus! {

/// The text of each string of a sequence.
pub open spec fn texts(v: Seq<String>) -> Seq<Seq<char>> {
    v.map_values(|s: String| s@)
}

/// `items` written one after another with `sep` between two neighbours.
pub open spec fn join(items: Seq<Seq<char>>, sep: Seq<char>) -> Seq<char>
    decreases items.len(),
{
    if items.len() == 0 {
        Seq::empty()
    } else if items.len() == 1 {
        items[0]
    } else {
        join(items.drop_last(), sep) + sep + items.last()
    }
}

/// A parameter name followed by its bounds, if it has any.
pub open spec fn with_bounds(name: Seq<char>, bounds: Seq<Seq<char>>) -> Seq<char> {
    if bounds.len() == 0 {
        name
    } else {
        name + ": "@ + join(bounds, " + "@)
    }
}

/// A parameter as it stands after `impl`: with its bounds.
pub open spec fn bounded_param(p: GenericParam) -> Seq<char> {
    match p {
        GenericParam::Lifetime { name, bounds } => with_bounds(name@, texts(bounds@)),
        GenericParam::Type { name, bounds } => with_bounds(name@, texts(bounds@)),
        GenericParam::Const { name, ty } => "const "@ + name@ + ": "@ + ty@,
    }
}

/// A parameter as it stands after the type's name: bare.
pub open spec fn bare_param(p: GenericParam) -> Seq<char> {
    match p {
        GenericParam::Lifetime { name, .. } => name@,
        GenericParam::Type { name, .. } => name@,
        GenericParam::Const { name, .. } => name@,
    }
}

/// A parameter list in angle brackets; nothing at all when it is empty.
pub open spec fn angled(items: Seq<Seq<char>>) -> Seq<char> {
    if items.len() == 0 {
        Seq::empty()
    } else {
        "<"@ + join(items, ", "@) + ">"@
    }
}

pub open spec fn impl_generics_text(g: Generics) -> Seq<char> {
    angled(g.params@.map_values(|p: GenericParam| bounded_param(p)))
}

pub open spec fn type_generics_text(g: Generics) -> Seq<char> {
    angled(g.params@.map_values(|p: GenericParam| bare_param(p)))
}

/// The where-clause, absent when there is no predicate.
pub open spec fn where_clause_text(g: Generics) -> Option<Seq<char>> {
    if g.where_predicates@.len() == 0 {
        None
    } else {
        Some("where "@ + join(texts(g.where_predicates@), ", "@))
    }
}

/// Writes `items` with `sep` between two neighbours.
pub fn join_strings(items: &Vec<String>, sep: &str) -> (r: String)
    ensures
        r@ == join(texts(items@), sep@),
{
    if items.len() == 0 {
        return String::new();
    }
    let mut r = items[0].clone();
    let mut i: usize = 1;
    assert(texts(items@.take(1)) =~= seq![items@[0]@]);
    while i < items.len()
        invariant
            1 <= i <= items@.len(),
            r@ == join(texts(items@.take(i as int)), sep@),
        decreases items@.len() - i,
    {
        let ghost prefix = texts(items@.take(i as int));
        r.append(sep);
        r.append(items[i].as_str());
        assert(texts(items@.take(i + 1)).drop_last() =~= prefix);
        i += 1;
    }
    assert(items@.take(items@.len() as int) =~= items@);
    r
}

fn bounded_text(name: &String, bounds: &Vec<String>) -> (r: String)
    ensures
        r@ == with_bounds(name@, texts(bounds@)),
{
    let mut r = name.clone();
    if bounds.len() > 0 {
        r.append(": ");
        let joined = join_strings(bounds, " + ");
        r.append(joined.as_str());
    }
    r
}

/// Writes a parameter with its bounds.
pub fn render_bounded(p: &GenericParam) -> (r: String)
    ensures
        r@ == bounded_param(*p),
{
    match p {
        GenericParam::Lifetime { name, bounds } => bounded_text(name, bounds),
        GenericParam::Type { name, bounds } => bounded_text(name, bounds),
        GenericParam::Const { name, ty } => {
            let mut r = String::from_str("const ");
            r.append(name.as_str());
            r.append(": ");
            r.append(ty.as_str());
            r
        },
    }
}

/// Writes a parameter without its bounds.
pub fn render_bare(p: &GenericParam) -> (r: String)
    ensures
        r@ == bare_param(*p),
{
    match p {
        GenericParam::Lifetime { name, .. } => name.clone(),
        GenericParam::Type { name, .. } => name.clone(),
        GenericParam::Const { name, .. } => name.clone(),
    }
}

fn angled_text(items: &Vec<String>) -> (r: String)
    ensures
        r@ == angled(texts(items@)),
{
    if items.len() == 0 {
        return String::new();
    }
    let mut r = String::from_str("<");
    let joined = join_strings(items, ", ");
    r.append(joined.as_str());
    r.append(">");
    r
}

/// The parameters as they stand after `impl`, bounds included.
pub fn impl_generics(g: &Generics) -> (r: String)
    ensures
        r@ == impl_generics_text(*g),
{
    let mut items: Vec<String> = Vec::new();
    let mut i: usize = 0;
    while i < g.params.len()
        invariant
            i <= g.params@.len(),
            items@.len() == i,
            forall|k: int| 0 <= k < i ==> #[trigger] items@[k]@ == bounded_param(g.params@[k]),
        decreases g.params@.len() - i,
    {
        let piece = render_bounded(&g.params[i]);
        items.push(piece);
        i += 1;
    }
    assert(texts(items@) =~= g.params@.map_values(|p: GenericParam| bounded_param(p)));
    angled_text(&items)
}

/// The parameters as they stand after the type's name, bounds left out.
pub fn type_generics(g: &Generics) -> (r: String)
    ensures
        r@ == type_generics_text(*g),
{
    let mut items: Vec<String> = Vec::new();
    let mut i: usize = 0;
    while i < g.params.len()
        invariant
            i <= g.params@.len(),
            items@.len() == i,
            forall|k: int| 0 <= k < i ==> #[trigger] items@[k]@ == bare_param(g.params@[k]),
        decreases g.params@.len() - i,
    {
        let piece = render_bare(&g.params[i]);
        items.push(piece);
        i += 1;
    }
    assert(texts(items@) =~= g.params@.map_values(|p: GenericParam| bare_param(p)));
    angled_text(&items)
}

/// The where-clause, or `None` when the declaration has no predicate.
pub fn where_clause(g: &Generics) -> (r: Option<String>)
    ensures
        match r {
            Some(s) => where_clause_text(*g) == Some(s@),
            None => where_clause_text(*g) is None,
        },
{
    if g.where_predicates.len() == 0 {
        return None;
    }
    let mut r = String::from_str("where ");
    let joined = join_strings(&g.where_predicates, ", ");
    r.append(joined.as_str());
    Some(r)
}

/// Splits the generic signature into the three pieces of an impl header:
/// the parameters with bounds, the bare parameters, and the where-clause.
pub fn split_for_impl(g: &Generics) -> (r: (String, String, Option<String>))
    ensures
        r.0@ == impl_generics_text(*g),
        r.1@ == type_generics_text(*g),
        match r.2 {
            Some(s) => where_clause_text(*g) == Some(s@),
            None => where_clause_text(*g) is None,
        },
{
    (impl_generics(g), type_generics(g), where_clause(g))
}

} // verus!
