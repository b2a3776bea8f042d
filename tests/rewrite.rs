use wasm_bindgen_switch::decl::{
    AttrArg, AttrArgs, Attribute, Decl, Diagnostic, DiagnosticKind, FnArg, ImplItem, Import,
    Method, MethodImport, MethodKind, PathSegment, Ty,
};
use wasm_bindgen_switch::filter::{remove_wasm_bindgen_attrs, retain_non_markers};
use wasm_bindgen_switch::naming::{camel_case_with, count_separators, to_camel_case};
use wasm_bindgen_switch::options::{ConfigArg, SwitchOptions};
use wasm_bindgen_switch::rewrite::{item_as_wasm_bindgen_imports, method_as_wasm_bindgen_import};
use wasm_bindgen_switch::self_ty::replace_self_with_ty;
use wasm_bindgen_switch::switch::{wasm_bindgen_switch, wasm_bindgen_switch_test};

fn s(x: &str) -> String {
    x.to_string()
}

fn attr(path: &str, args: AttrArgs, text: &str) -> Attribute {
    Attribute {
        path: vec![PathSegment { ident: s(path), has_args: false }],
        args,
        text: s(text),
    }
}

fn marker(words: &[&str]) -> Attribute {
    let text = format!("#[wasm_bindgen({})]", words.join(", "));
    attr(
        "wasm_bindgen",
        AttrArgs::List(words.iter().map(|w| AttrArg::Word(s(w))).collect()),
        &text,
    )
}

fn derive_clone() -> Attribute {
    attr("derive", AttrArgs::List(vec![AttrArg::Word(s("Clone"))]), "#[derive(Clone)]")
}

fn path(name: &str) -> Ty {
    Ty::Path { segments: vec![s(name)], lifetimes: vec![], args: vec![] }
}

fn generic(name: &str, args: Vec<Ty>) -> Ty {
    Ty::Path { segments: vec![s(name)], lifetimes: vec![], args }
}

fn reference(mutable: bool, elem: Ty) -> Ty {
    Ty::Ref { lifetime: None, mutable, elem: Box::new(elem) }
}

fn typed(pat: &str, ty: Ty) -> FnArg {
    FnArg::Typed { pat: s(pat), ty }
}

fn recv(reference: bool, mutable: bool) -> FnArg {
    FnArg::Receiver { reference, lifetime: None, mutable }
}

fn method(ident: &str, attrs: Vec<Attribute>, inputs: Vec<FnArg>, output: Option<Ty>) -> Method {
    Method {
        attrs,
        vis: s("pub"),
        ident: s(ident),
        inputs,
        output,
        sig: format!("fn {ident}(..)"),
        body: vec![Decl::Other { text: s("step ()") }],
    }
}

fn options(camel: bool) -> SwitchOptions {
    SwitchOptions { camel_case: camel, other_args: vec![] }
}

fn kinds(ds: &[Diagnostic]) -> Vec<DiagnosticKind> {
    ds.iter().map(|d| d.kind.clone()).collect()
}

fn person_type() -> Decl {
    Decl::Type {
        attrs: vec![derive_clone()],
        vis: s("pub"),
        ident: s("Person"),
        text: s("pub struct Person { first_name: String, last_name: String, age: u32, }"),
    }
}

fn person_impl() -> Decl {
    let string = || path("String");
    let str_ref = || reference(false, path("str"));
    Decl::Impl {
        for_trait: false,
        attrs: vec![],
        self_ty: path("Person"),
        header: s("impl Person"),
        impl_items: vec![
            ImplItem::Method(method(
                "new",
                vec![marker(&["constructor"])],
                vec![typed("first_name", string()), typed("last_name", string()), typed("age", path("u32"))],
                Some(path("Person")),
            )),
            ImplItem::Method(method("age", vec![marker(&["getter"])], vec![recv(true, false)], Some(path("u32")))),
            ImplItem::Method(method("first_name", vec![marker(&["getter"])], vec![recv(true, false)], Some(string()))),
            ImplItem::Method(method("last_name", vec![marker(&["getter"])], vec![recv(true, false)], Some(string()))),
            ImplItem::Method(method("full_name", vec![], vec![recv(true, false)], Some(string()))),
            ImplItem::Method(method(
                "compute_full_name",
                vec![],
                vec![typed("first_name", str_ref()), typed("last_name", str_ref())],
                Some(string()),
            )),
        ],
    }
}

fn module_arg() -> ConfigArg {
    ConfigArg { word: None, text: s("module = \"/tests/person.js\"") }
}

fn camel_arg() -> ConfigArg {
    ConfigArg { word: Some(s("camel_case")), text: s("camel_case") }
}

fn methods_of(import: &Import) -> &Vec<Option<MethodImport>> {
    match import {
        Import::Methods { methods, .. } => methods,
        other => panic!("expected methods, got {other:?}"),
    }
}

#[test]
fn camel_case_of_multi_word_identifiers() {
    assert_eq!(to_camel_case("first_name"), (s("firstName"), false));
    assert_eq!(to_camel_case("compute_full_name"), (s("computeFullName"), false));
    assert_eq!(to_camel_case("trailing_"), (s("trailing"), false));
    assert_eq!(to_camel_case("_lead"), (s("Lead"), false));
}

#[test]
fn camel_case_of_single_word_is_unchanged() {
    assert_eq!(to_camel_case("age"), (s("age"), false));
    assert_eq!(to_camel_case(""), (s(""), false));
}

#[test]
fn camel_case_upper_cases_beyond_ascii() {
    assert_eq!(to_camel_case("x_\u{e9}t\u{e9}"), (s("x\u{c9}t\u{e9}"), false));
    assert_eq!(to_camel_case("x_\u{df}"), (s("xSS"), false));
}

#[test]
fn camel_case_reports_double_separator() {
    assert_eq!(to_camel_case("a__b"), (s("a_b"), true));
    assert_eq!(to_camel_case("a___b"), (s("a_B"), true));
    assert_eq!(to_camel_case("a_b_c"), (s("aBC"), false));
}

#[test]
fn separators_are_counted() {
    assert_eq!(count_separators("a_b__c"), 3);
    assert_eq!(count_separators("abc"), 0);
}

#[test]
fn js_name_only_when_renaming_and_separated() {
    assert_eq!(options(false).make_js_name_attr(&s("full_name")), (None, false));
    assert_eq!(options(true).make_js_name_attr(&s("age")), (None, false));
    assert_eq!(options(true).make_js_name_attr(&s("full_name")), (Some(s("fullName")), false));
    assert_eq!(options(true).make_js_name_attr(&s("a__b")), (Some(s("a_b")), true));
}

#[test]
fn options_take_camel_case_and_pass_the_rest() {
    let parsed = SwitchOptions::parse(vec![camel_arg(), module_arg()]);
    assert!(parsed.camel_case);
    assert_eq!(parsed.other_args, vec![module_arg()]);
    let parsed = SwitchOptions::parse(vec![module_arg()]);
    assert!(!parsed.camel_case);
    assert_eq!(parsed.other_args, vec![module_arg()]);
    let parsed = SwitchOptions::parse(vec![]);
    assert!(!parsed.camel_case);
    assert!(parsed.other_args.is_empty());
}

#[test]
fn markers_are_recognised_by_name() {
    assert!(marker(&["getter"]).is_wasm_bindgen_attr());
    assert!(attr("wasm_bindgen", AttrArgs::Bare, "#[wasm_bindgen]").is_wasm_bindgen_attr());
    assert!(!derive_clone().is_wasm_bindgen_attr());
    let with_args = Attribute {
        path: vec![PathSegment { ident: s("wasm_bindgen"), has_args: true }],
        args: AttrArgs::Bare,
        text: s("#[wasm_bindgen::<T>]"),
    };
    assert!(!with_args.is_wasm_bindgen_attr());
    assert!(marker(&["constructor"]).is_wasm_bindgen_constructor_attr());
    assert!(marker(&["final", "constructor"]).is_wasm_bindgen_constructor_attr());
    assert!(!marker(&["getter"]).is_wasm_bindgen_constructor_attr());
    let other = attr(
        "other",
        AttrArgs::List(vec![AttrArg::Word(s("constructor"))]),
        "#[other(constructor)]",
    );
    assert!(!other.is_wasm_bindgen_constructor_attr());
}

#[test]
fn type_import_keeps_name_visibility_and_attributes() {
    let mut diags = vec![];
    let import = item_as_wasm_bindgen_imports(person_type(), &options(true), None, &mut diags);
    assert_eq!(
        import,
        Import::Type { namespace: None, attrs: vec![derive_clone()], vis: s("pub"), ident: s("Person") }
    );
    assert!(diags.is_empty());
}

#[test]
fn function_import_gets_rename_only_with_separator() {
    let f = |ident: &str| Decl::Function {
        attrs: vec![],
        vis: s("pub"),
        ident: s(ident),
        sig: format!("fn {ident}() -> u32"),
        body: vec![Decl::Other { text: s("1") }],
    };
    let mut diags = vec![];
    let import = item_as_wasm_bindgen_imports(f("do_thing_now"), &options(true), None, &mut diags);
    assert_eq!(
        import,
        Import::Function {
            namespace: None,
            attrs: vec![],
            js_name: Some(s("doThingNow")),
            vis: s("pub"),
            sig: s("fn do_thing_now() -> u32"),
        }
    );
    let import = item_as_wasm_bindgen_imports(f("run"), &options(true), None, &mut diags);
    assert!(matches!(import, Import::Function { js_name: None, .. }));
    let import = item_as_wasm_bindgen_imports(f("do_it"), &options(false), None, &mut diags);
    assert!(matches!(import, Import::Function { js_name: None, .. }));
    assert!(diags.is_empty());
}

#[test]
fn receivers_become_typed_first_parameters() {
    let cases = [
        (recv(true, false), reference(false, path("Counter"))),
        (recv(true, true), reference(true, path("Counter"))),
        (recv(false, false), path("Counter")),
        (recv(false, true), path("Counter")),
    ];
    for (receiver, expected) in cases {
        let mut diags = vec![];
        let m = method("get", vec![], vec![receiver, typed("x", path("u8"))], None);
        let imp = method_as_wasm_bindgen_import(m, &s("Counter"), &options(false), &mut diags);
        assert_eq!(imp.kind, MethodKind::Instance);
        assert_eq!(imp.inputs, vec![typed("_", expected), typed("x", path("u8"))]);
        assert!(diags.is_empty());
    }
}

#[test]
fn static_and_constructor_methods() {
    let mut diags = vec![];
    let none = method("make", vec![], vec![], Some(path("Self")));
    let imp = method_as_wasm_bindgen_import(none, &s("Counter"), &options(false), &mut diags);
    assert_eq!(imp.kind, MethodKind::Static);
    assert_eq!(imp.output, Some(path("Counter")));
    let stat = method("with", vec![], vec![typed("n", path("u8"))], None);
    let imp = method_as_wasm_bindgen_import(stat, &s("Counter"), &options(false), &mut diags);
    assert_eq!(imp.kind, MethodKind::Static);
    let ctor = method("new", vec![marker(&["constructor"])], vec![typed("n", path("u8"))], None);
    let imp = method_as_wasm_bindgen_import(ctor, &s("Counter"), &options(false), &mut diags);
    assert_eq!(imp.kind, MethodKind::Constructor);
    assert!(diags.is_empty());
}

#[test]
fn self_is_replaced_at_every_depth() {
    let before = Ty::Tuple {
        elems: vec![
            generic("Option", vec![generic("Vec", vec![path("Self")])]),
            reference(true, Ty::Slice { elem: Box::new(path("Self")) }),
            path("u32"),
            Ty::Path { segments: vec![s("Self"), s("Item")], lifetimes: vec![], args: vec![] },
        ],
    };
    let after = Ty::Tuple {
        elems: vec![
            generic("Option", vec![generic("Vec", vec![path("Node")])]),
            reference(true, Ty::Slice { elem: Box::new(path("Node")) }),
            path("u32"),
            Ty::Path { segments: vec![s("Self"), s("Item")], lifetimes: vec![], args: vec![] },
        ],
    };
    assert_eq!(replace_self_with_ty(before, &s("Node")), after);
    let other = Ty::Other { text: s("fn(u8)") };
    assert_eq!(replace_self_with_ty(other, &s("Node")), Ty::Other { text: s("fn(u8)") });
}

#[test]
fn self_in_parameters_and_output_is_replaced() {
    let mut diags = vec![];
    let m = method(
        "merge",
        vec![],
        vec![recv(true, false), typed("other", reference(false, path("Self")))],
        Some(generic("Vec", vec![path("Self")])),
    );
    let imp = method_as_wasm_bindgen_import(m, &s("Set"), &options(false), &mut diags);
    assert_eq!(
        imp.inputs,
        vec![typed("_", reference(false, path("Set"))), typed("other", reference(false, path("Set")))]
    );
    assert_eq!(imp.output, Some(generic("Vec", vec![path("Set")])));
}

#[test]
fn filter_removes_markers_only_and_is_idempotent() {
    let kept = retain_non_markers(vec![marker(&["getter"]), derive_clone(), marker(&[])]);
    assert_eq!(kept, vec![derive_clone()]);
    let decl = || Decl::Impl {
        for_trait: false,
        attrs: vec![marker(&[]), derive_clone()],
        self_ty: path("P"),
        header: s("impl P"),
        impl_items: vec![
            ImplItem::Method(method("a", vec![marker(&["getter"]), derive_clone()], vec![], None)),
            ImplItem::Other { text: s("const K: u8 = 1;") },
        ],
    };
    let expected = Decl::Impl {
        for_trait: false,
        attrs: vec![derive_clone()],
        self_ty: path("P"),
        header: s("impl P"),
        impl_items: vec![
            ImplItem::Method(method("a", vec![derive_clone()], vec![], None)),
            ImplItem::Other { text: s("const K: u8 = 1;") },
        ],
    };
    let once = remove_wasm_bindgen_attrs(decl());
    assert_eq!(once, expected);
    let twice = remove_wasm_bindgen_attrs(once);
    assert_eq!(twice, expected);
}

#[test]
fn filter_reaches_module_items_but_not_module_attributes() {
    let decl = Decl::Module {
        attrs: vec![marker(&[])],
        vis: s(""),
        ident: s("m"),
        items: vec![Decl::Const { attrs: vec![marker(&[]), derive_clone()], text: s("const A: u8 = 1;") }],
    };
    let out = remove_wasm_bindgen_attrs(decl);
    assert_eq!(
        out,
        Decl::Module {
            attrs: vec![marker(&[])],
            vis: s(""),
            ident: s("m"),
            items: vec![Decl::Const { attrs: vec![derive_clone()], text: s("const A: u8 = 1;") }],
        }
    );
}

#[test]
fn double_separator_gives_diagnostic_and_output() {
    let mut diags = vec![];
    let f = Decl::Function {
        attrs: vec![],
        vis: s(""),
        ident: s("odd__name"),
        sig: s("fn odd__name()"),
        body: vec![],
    };
    let import = item_as_wasm_bindgen_imports(f, &options(true), None, &mut diags);
    assert!(matches!(import, Import::Function { js_name: Some(ref n), .. } if n == "odd_name"));
    assert_eq!(kinds(&diags), vec![DiagnosticKind::DoubleSeparator]);
    assert_eq!(diags[0].subject, Some(s("odd__name")));
}

#[test]
fn person_end_to_end() {
    let args = || vec![camel_arg(), module_arg()];
    let out = wasm_bindgen_switch(args(), person_type(), person_type());
    assert_eq!(out.block_args, vec![module_arg()]);
    assert!(matches!(out.import, Import::Type { ref ident, .. } if ident == "Person"));
    assert_eq!(out.native, person_type());
    assert!(out.diagnostics.is_empty());

    let out = wasm_bindgen_switch(args(), person_impl(), person_impl());
    assert_eq!(out.block_args, vec![module_arg()]);
    assert!(out.diagnostics.is_empty());
    let methods = methods_of(&out.import);
    let got: Vec<(String, MethodKind, Option<String>)> = methods
        .iter()
        .map(|m| {
            let m = m.as_ref().unwrap();
            (m.ident.clone(), m.kind.clone(), m.js_name.clone())
        })
        .collect();
    assert_eq!(
        got,
        vec![
            (s("new"), MethodKind::Constructor, None),
            (s("age"), MethodKind::Instance, None),
            (s("first_name"), MethodKind::Instance, Some(s("firstName"))),
            (s("last_name"), MethodKind::Instance, Some(s("lastName"))),
            (s("full_name"), MethodKind::Instance, Some(s("fullName"))),
            (s("compute_full_name"), MethodKind::Static, Some(s("computeFullName"))),
        ]
    );
    let first = methods[1].as_ref().unwrap();
    assert_eq!(first.inputs, vec![typed("_", reference(false, path("Person")))]);
    match &out.native {
        Decl::Impl { impl_items, .. } => match &impl_items[0] {
            ImplItem::Method(m) => assert!(m.attrs.is_empty()),
            other => panic!("unexpected {other:?}"),
        },
        other => panic!("unexpected {other:?}"),
    }
}

#[test]
fn module_items_are_namespaced() {
    let decl = || Decl::Module {
        attrs: vec![],
        vis: s("pub"),
        ident: s("shapes"),
        items: vec![
            Decl::Type { attrs: vec![], vis: s("pub"), ident: s("Circle"), text: s("pub struct Circle;") },
            Decl::Other { text: s("use std::fmt;") },
        ],
    };
    let out = wasm_bindgen_switch(vec![], decl(), decl());
    assert_eq!(
        out.import,
        Import::Module {
            attrs: vec![],
            vis: s("pub"),
            ident: s("shapes"),
            items: vec![
                Import::Type { namespace: Some(s("shapes")), attrs: vec![], vis: s("pub"), ident: s("Circle") },
                Import::Empty,
            ],
        }
    );
    assert_eq!(kinds(&out.diagnostics), vec![DiagnosticKind::UnsupportedItem]);
}

#[test]
fn impl_errors_degrade_to_empty_fragments() {
    let mut diags = vec![];
    let bad_path = Decl::Impl {
        for_trait: false,
        attrs: vec![],
        self_ty: Ty::Path { segments: vec![s("a"), s("B")], lifetimes: vec![], args: vec![] },
        header: s("impl a::B"),
        impl_items: vec![],
    };
    assert_eq!(item_as_wasm_bindgen_imports(bad_path, &options(false), None, &mut diags), Import::Empty);
    let generic_self = Decl::Impl {
        for_trait: false,
        attrs: vec![],
        self_ty: generic("Wrap", vec![path("u8")]),
        header: s("impl Wrap<u8>"),
        impl_items: vec![],
    };
    assert_eq!(item_as_wasm_bindgen_imports(generic_self, &options(false), None, &mut diags), Import::Empty);
    let not_path = Decl::Impl {
        for_trait: false,
        attrs: vec![],
        self_ty: reference(false, path("B")),
        header: s("impl &B"),
        impl_items: vec![],
    };
    assert_eq!(item_as_wasm_bindgen_imports(not_path, &options(false), None, &mut diags), Import::Empty);
    assert_eq!(
        kinds(&diags),
        vec![
            DiagnosticKind::ImplTypeNotIdent,
            DiagnosticKind::ImplTypeNotIdent,
            DiagnosticKind::UnsupportedImplType
        ]
    );
}

#[test]
fn non_method_items_and_misplaced_receivers_are_reported() {
    let mut diags = vec![];
    let decl = Decl::Impl {
        for_trait: false,
        attrs: vec![derive_clone()],
        self_ty: path("B"),
        header: s("impl B"),
        impl_items: vec![
            ImplItem::Other { text: s("const K: u8 = 1;") },
            ImplItem::Method(method("m", vec![], vec![typed("x", path("u8")), recv(true, false)], None)),
        ],
    };
    let import = item_as_wasm_bindgen_imports(decl, &options(false), None, &mut diags);
    let methods = methods_of(&import);
    assert_eq!(methods.len(), 2);
    assert!(methods[0].is_none());
    assert_eq!(methods[1].as_ref().unwrap().inputs, vec![typed("x", path("u8")), recv(true, false)]);
    assert_eq!(
        kinds(&diags),
        vec![DiagnosticKind::UnsupportedImplItem, DiagnosticKind::InvalidReceiver]
    );
}

#[test]
fn constants_have_no_import_form() {
    let mut diags = vec![];
    let c = Decl::Const { attrs: vec![], text: s("const A: u8 = 1;") };
    assert_eq!(item_as_wasm_bindgen_imports(c, &options(false), None, &mut diags), Import::Empty);
    assert_eq!(kinds(&diags), vec![DiagnosticKind::UnsupportedItem]);
}

#[test]
fn test_directive_takes_no_arguments() {
    assert_eq!(wasm_bindgen_switch_test(""), Ok(()));
    let err = wasm_bindgen_switch_test("x").unwrap_err();
    assert_eq!(err.kind, DiagnosticKind::ArgumentsNotSupported);
}

#[test]
fn zero_parameter_constructor_is_not_static() {
    let mut diags = vec![];
    let ctor = method("new", vec![marker(&["constructor"])], vec![], Some(path("Self")));
    let imp = method_as_wasm_bindgen_import(ctor, &s("Counter"), &options(false), &mut diags);
    assert_eq!(imp.kind, MethodKind::Constructor);
    assert_eq!(imp.output, Some(path("Counter")));
}

#[test]
fn self_is_replaced_in_arrays_pointers_fn_types_and_lifetime_paths() {
    let cow = |inner: Ty| Ty::Path { segments: vec![s("Cow")], lifetimes: vec![s("'a")], args: vec![inner] };
    let fn_ty = |a: Ty, r: Ty| Ty::BareFn { prefix: s(""), inputs: vec![a], output: Some(Box::new(r)) };
    let before = Ty::Tuple {
        elems: vec![
            Ty::Array { elem: Box::new(path("Self")), len: s("3") },
            Ty::Ptr { mutable: false, elem: Box::new(path("Self")) },
            fn_ty(path("Self"), generic("Option", vec![path("Self")])),
            cow(path("Self")),
        ],
    };
    let after = Ty::Tuple {
        elems: vec![
            Ty::Array { elem: Box::new(path("Node")), len: s("3") },
            Ty::Ptr { mutable: false, elem: Box::new(path("Node")) },
            fn_ty(path("Node"), generic("Option", vec![path("Node")])),
            cow(path("Node")),
        ],
    };
    assert_eq!(replace_self_with_ty(before, &s("Node")), after);
    let with_lifetime = Ty::Path { segments: vec![s("Self")], lifetimes: vec![s("'a")], args: vec![] };
    let kept = Ty::Path { segments: vec![s("Self")], lifetimes: vec![s("'a")], args: vec![] };
    assert_eq!(replace_self_with_ty(with_lifetime, &s("Node")), kept);
}

#[test]
fn filter_reaches_items_in_bodies_and_trait_impls() {
    let inner = || Decl::Const { attrs: vec![marker(&[]), derive_clone()], text: s("const A: u8 = 1;") };
    let f = Decl::Function {
        attrs: vec![marker(&[])],
        vis: s(""),
        ident: s("f"),
        sig: s("fn f()"),
        body: vec![inner(), Decl::Other { text: s("let x = 1;") }],
    };
    let cleaned = || Decl::Const { attrs: vec![derive_clone()], text: s("const A: u8 = 1;") };
    assert_eq!(
        remove_wasm_bindgen_attrs(f),
        Decl::Function {
            attrs: vec![],
            vis: s(""),
            ident: s("f"),
            sig: s("fn f()"),
            body: vec![cleaned(), Decl::Other { text: s("let x = 1;") }],
        }
    );
    let trait_impl = |attrs: Vec<Attribute>, body: Vec<Decl>| Decl::Impl {
        attrs: attrs.clone(),
        for_trait: true,
        self_ty: path("P"),
        header: s("impl Default for P"),
        impl_items: vec![ImplItem::Method(Method {
            attrs,
            vis: s(""),
            ident: s("default"),
            inputs: vec![],
            output: Some(path("Self")),
            sig: s("fn default() -> Self"),
            body,
        })],
    };
    assert_eq!(
        remove_wasm_bindgen_attrs(trait_impl(vec![marker(&[]), derive_clone()], vec![inner()])),
        trait_impl(vec![derive_clone()], vec![cleaned()])
    );
}

#[test]
fn trait_impls_have_no_import_form() {
    let mut diags = vec![];
    let d = Decl::Impl {
        attrs: vec![],
        for_trait: true,
        self_ty: path("P"),
        header: s("impl Default for P"),
        impl_items: vec![],
    };
    assert_eq!(item_as_wasm_bindgen_imports(d, &options(false), None, &mut diags), Import::Empty);
    assert_eq!(kinds(&diags), vec![DiagnosticKind::UnsupportedItem]);
}

#[test]
fn camel_case_with_uses_the_given_upper_case_forms() {
    let uppers = vec![s("A"), s("_"), s("B"), s("C"), s("_"), s("D")];
    assert_eq!(camel_case_with("a_bc_d", &uppers), (s("aBcD"), false));
    let uppers = vec![s("X"), s("_"), s("_"), s("Q")];
    assert_eq!(camel_case_with("x__q", &uppers), (s("x_q"), true));
}
