use check_initial_state_derive::classify::classify;
use check_initial_state_derive::generics::{join_strings, split_for_impl};
use check_initial_state_derive::select::{is_ignored, select_fields};
use check_initial_state_derive::{
    check_initial_state_derive, CheckMethod, Data, Declaration, DiagnosticKind, DiagnosticSpan,
    FieldDecl, Fields, GenericParam, Generics,
};

fn field(ident: &str, ignored: bool) -> FieldDecl {
    let attributes = if ignored { vec!["ignore_field".to_owned()] } else { vec![] };
    FieldDecl { ident: ident.to_owned(), attributes }
}

fn no_generics() -> Generics {
    Generics { params: vec![], where_predicates: vec![] }
}

fn record(fields: Vec<FieldDecl>) -> Declaration {
    Declaration {
        name: "Struct".to_owned(),
        generics: no_generics(),
        data: Data::Struct(Fields::Named(fields)),
    }
}

fn generate(decl: &Declaration) -> CheckMethod {
    match check_initial_state_derive(decl) {
        Ok(m) => m,
        Err(d) => panic!("{}", d.message()),
    }
}

/// Runs the generated method as the generated code would: a stop panics.
fn check_initial_state(m: &CheckMethod, occupied: &[bool]) {
    if let Err(message) = m.run(&occupied.to_vec()) {
        panic!("{}", message);
    }
}

fn generics_example() -> Declaration {
    Declaration {
        name: "Struct".to_owned(),
        generics: Generics {
            params: vec![
                GenericParam::Lifetime { name: "'a".to_owned(), bounds: vec![] },
                GenericParam::Lifetime { name: "'b".to_owned(), bounds: vec![] },
                GenericParam::Type {
                    name: "T".to_owned(),
                    bounds: vec!["Display".to_owned(), "?Sized".to_owned()],
                },
                GenericParam::Type { name: "E".to_owned(), bounds: vec![] },
            ],
            where_predicates: vec!["E: Debug".to_owned()],
        },
        data: Data::Struct(Fields::Named(vec![
            field("option", false),
            field("option2", false),
            field("_string", true),
            field("_string2", true),
            field("_vector", true),
        ])),
    }
}

#[test]
fn check_generics() {
    let m = generate(&generics_example());
    assert_eq!(m.impl_generics, "<'a, 'b, T: Display + ?Sized, E>");
    assert_eq!(m.type_generics, "<'a, 'b, T, E>");
    assert_eq!(m.where_clause, Some("where E: Debug".to_owned()));
    // option: None, option2: &None, _string: "value", _string2: "other",
    // _vector: vec![Box::new("string")]
    check_initial_state(&m, &[false, false, true, true, true]);
}

#[test]
fn compile_fail() {
    // A field that is not an `Option` and is not marked is still checked: the
    // generated call to `is_some` is what the compiler then rejects.
    let m = generate(&record(vec![field("option", true), field("integer", false)]));
    assert!(m.render().contains("::std::option::Option::is_some(&self.integer)"));
    assert!(!m.render().contains("&self.option)"));

    let named_only =
        "`CheckInitialState` procedural macro is allowed for structs with named fields only";
    let unit_only = "`CheckInitialState` procedural macro is no allowed for unit structs";
    let cases = [
        (Data::Enum, named_only, DiagnosticSpan::Declaration),
        (Data::Union, named_only, DiagnosticSpan::Declaration),
        (Data::Struct(Fields::Unnamed), named_only, DiagnosticSpan::Fields),
        (Data::Struct(Fields::Unit), unit_only, DiagnosticSpan::Declaration),
    ];
    for (data, text, span) in cases {
        let decl = Declaration { name: "Struct".to_owned(), generics: no_generics(), data };
        match check_initial_state_derive(&decl) {
            Ok(_) => panic!("a method was generated"),
            Err(d) => {
                assert_eq!(d.message(), text);
                assert_eq!(d.span, span);
            },
        }
    }
}

#[test]
fn struct_with_annotated_some_option() {
    let m = generate(&record(vec![field("option", false), field("_option2", true)]));
    // option: None, _option2: Some(10)
    check_initial_state(&m, &[false, true]);
}

#[test]
fn struct_with_no_fields() {
    let m = generate(&record(vec![]));
    check_initial_state(&m, &[]);
}

#[test]
fn struct_with_no_optional_fields() {
    let m = generate(&record(vec![field("_string", true), field("_integer", true)]));
    // _string: "string", _integer: 10
    check_initial_state(&m, &[true, true]);
}

#[test]
fn struct_with_not_optional_fields_only_annotated() {
    let m = generate(&record(vec![
        field("option", false),
        field("_other", true),
        field("option2", false),
        field("_other2", true),
    ]));
    // option: None, _other: "other", option2: None, _other2: 10
    check_initial_state(&m, &[false, true, false, true]);
}

#[test]
fn struct_with_optional_fields_only() {
    let m = generate(&record(vec![field("option", false), field("option2", false)]));
    check_initial_state(&m, &[false, false]);
}

#[test]
#[should_panic(expected = "Field `option` has Some value instead of None")]
fn struct_with_some_option_non_annotated() {
    let m = generate(&record(vec![field("_integer", true), field("option", false)]));
    // _integer: 10, option: Some("string")
    check_initial_state(&m, &[true, true]);
}

#[test]
fn builder_example_passes() {
    let m = generate(&record(vec![field("option", false), field("integer", true)]));
    // option: None, integer: 10
    assert_eq!(m.run(&vec![false, true]), Ok(()));
}

#[test]
fn builder_example_with_value_stops() {
    let m = generate(&record(vec![field("option", false), field("integer", true)]));
    // option: Some(10), integer: 10
    assert_eq!(
        m.run(&vec![true, true]),
        Err("Field `option` has Some value instead of None".to_owned())
    );
}

#[test]
fn ignored_option_with_value_passes() {
    let m = generate(&record(vec![field("option", false), field("option2", true)]));
    // option: None, option2: Some(10)
    assert_eq!(m.run(&vec![false, true]), Ok(()));
}

#[test]
fn first_checked_field_wins() {
    let m = generate(&record(vec![
        field("skipped", true),
        field("first", false),
        field("second", false),
    ]));
    assert_eq!(
        m.run(&vec![true, true, true]),
        Err("Field `first` has Some value instead of None".to_owned())
    );
    assert_eq!(
        m.run(&vec![false, false, true]),
        Err("Field `second` has Some value instead of None".to_owned())
    );
}

#[test]
fn all_ignored_fields_pass_whatever_they_hold() {
    let m = generate(&record(vec![field("a", true), field("b", true)]));
    assert!(m.checks.is_empty());
    for occupied in [[false, false], [true, false], [false, true], [true, true]] {
        assert_eq!(m.run(&occupied.to_vec()), Ok(()));
    }
}

#[test]
fn empty_checked_fields_pass() {
    let m = generate(&record(vec![field("a", false), field("b", true), field("c", false)]));
    assert_eq!(m.run(&vec![false, true, false]), Ok(()));
    assert_eq!(m.run(&vec![false, false, false]), Ok(()));
}

#[test]
fn ignored_field_value_does_not_matter() {
    let m = generate(&record(vec![field("a", false), field("b", true)]));
    assert_eq!(m.run(&vec![true, false]), m.run(&vec![true, true]));
    assert_eq!(m.run(&vec![false, false]), m.run(&vec![false, true]));
}

#[test]
fn generics_behave_like_plain_record() {
    let generic = generics_example();
    let mut plain = generics_example();
    plain.generics = no_generics();
    let mg = generate(&generic);
    let mp = generate(&plain);
    assert_eq!(mp.impl_generics, "");
    assert_eq!(mp.type_generics, "");
    assert_eq!(mp.where_clause, None);
    for occupied in [[true, false, true, true, true], [false, true, false, false, false]] {
        assert_eq!(mg.run(&occupied.to_vec()), mp.run(&occupied.to_vec()));
    }
}

#[test]
fn marker_among_other_attributes() {
    let f = FieldDecl {
        ident: "x".to_owned(),
        attributes: vec!["doc".to_owned(), "ignore_field".to_owned()],
    };
    assert!(is_ignored(&f));
    let g = FieldDecl { ident: "y".to_owned(), attributes: vec!["ignore".to_owned()] };
    assert!(!is_ignored(&g));
    let selected = select_fields(&vec![f, g]);
    assert_eq!(selected.len(), 1);
    assert_eq!(selected[0].index, 1);
    assert_eq!(selected[0].ident, "y");
}

#[test]
fn classify_accepts_named_fields_only() {
    let decl = record(vec![field("a", false)]);
    assert_eq!(classify(&decl).map(|f| f.len()), Ok(1));
    let unit = Declaration {
        name: "S".to_owned(),
        generics: no_generics(),
        data: Data::Struct(Fields::Unit),
    };
    assert_eq!(classify(&unit).map(|f| f.len()).map_err(|d| d.kind), Err(DiagnosticKind::UnitStruct));
}

#[test]
fn lifetime_and_const_parameters() {
    let g = Generics {
        params: vec![
            GenericParam::Lifetime { name: "'a".to_owned(), bounds: vec!["'b".to_owned()] },
            GenericParam::Lifetime { name: "'b".to_owned(), bounds: vec![] },
            GenericParam::Const { name: "N".to_owned(), ty: "usize".to_owned() },
        ],
        where_predicates: vec!["[u8; N]: Copy".to_owned(), "'b: 'a".to_owned()],
    };
    let (impl_side, type_side, where_side) = split_for_impl(&g);
    assert_eq!(impl_side, "<'a: 'b, 'b, const N: usize>");
    assert_eq!(type_side, "<'a, 'b, N>");
    assert_eq!(where_side, Some("where [u8; N]: Copy, 'b: 'a".to_owned()));
}

#[test]
fn join_strings_separates_neighbours() {
    assert_eq!(join_strings(&vec![], ", "), "");
    assert_eq!(join_strings(&vec!["a".to_owned()], ", "), "a");
    assert_eq!(join_strings(&vec!["a".to_owned(), "b".to_owned(), "c".to_owned()], " + "), "a + b + c");
}

#[test]
fn rendered_impl_block() {
    let decl = Declaration {
        name: "Builder".to_owned(),
        generics: Generics {
            params: vec![GenericParam::Type { name: "T".to_owned(), bounds: vec![] }],
            where_predicates: vec!["T: Clone".to_owned()],
        },
        data: Data::Struct(Fields::Named(vec![field("option", false), field("integer", true)])),
    };
    let text = generate(&decl).render();
    let expected = "impl<T> Builder<T> where T: Clone {\n\
        \t/// Checks that every field not marked `ignore_field` is `None`.\n\
        \t/// # Panics\n\
        \t/// When such a field holds a value; the message names the field.\n\
        \tfn check_initial_state(&self) {\n\
        \t\tif ::std::option::Option::is_some(&self.option) {\n\
        \t\t\tpanic!(\"Field `option` has Some value instead of None\");\n\
        \t\t};\n\
        \t}\n\
        }\n";
    assert_eq!(text, expected);
}
