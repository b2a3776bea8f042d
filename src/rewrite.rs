use vstd::prelude::*;
use crate::decl::{
    Attribute, Decl, Diagnostic, DiagnosticKind, FnArg, ImplItem, Import, Method, MethodImport,
    MethodKind, Ty,
};
use crate::filter::{has_constructor_attr, is_constructor_marker};
use crate::naming::push_char;
use crate::options::{js_name_of, option_text_is, rename_reports_double, SwitchOptions};
use crate::self_ty::{replace_self_with_ty, substituted};

verus! {

broadcast use vstd::std_specs::vec::group_vec_axioms;

/// The pattern of the parameter that a receiver becomes.
pub open spec fn underscore_word() -> Seq<char> {
    seq!['_']
}

/// Whether `t` is the path of the single identifier `name`.
pub open spec fn names_type(t: Ty, name: Seq<char>) -> bool {
    match t {
        Ty::Path { segments, lifetimes, args } => segments@.len() == 1 && segments@[0]@ == name
            && lifetimes@.len() == 0 && args@.len() == 0,
        _ => false,
    }
}

/// `p` is the parameter `_: T`, `_: &'a T` or `_: &'a mut T` that stands for
/// a receiver of the given shape, where `T` is `name`. A receiver taken by
/// value becomes `_: T` whether or not it was `mut`.
pub open spec fn receiver_rewritten(
    reference: bool,
    lifetime: Option<String>,
    mutable: bool,
    p: FnArg,
    name: Seq<char>,
) -> bool {
    match p {
        FnArg::Typed { pat, ty } => pat@ == underscore_word() && if reference {
            match ty {
                Ty::Ref { lifetime: l2, mutable: m2, elem } => l2 == lifetime && m2 == mutable
                    && names_type(*elem, name),
                _ => false,
            }
        } else {
            names_type(ty, name)
        },
        FnArg::Receiver { .. } => false,
    }
}

/// `b` is the parameter `a` with `Self` replaced by `name` in its type; a
/// receiver is kept as it stands.
pub open spec fn arg_substituted(a: FnArg, b: FnArg, name: Seq<char>) -> bool {
    match a {
        FnArg::Typed { pat, ty } => match b {
            FnArg::Typed { pat: p2, ty: t2 } => p2 == pat && substituted(ty, t2, name),
            _ => false,
        },
        FnArg::Receiver { .. } => b == a,
    }
}

/// `b` is the return type `a` with `Self` replaced by `name`.
pub open spec fn output_substituted(a: Option<Ty>, b: Option<Ty>, name: Seq<char>) -> bool {
    match a {
        Some(t) => b is Some && substituted(t, b->0, name),
        None => b is None,
    }
}

/// Whether an attribute of `attrs` asks for a constructor.
pub open spec fn has_constructor(attrs: Seq<Attribute>) -> bool {
    exists|i: int| 0 <= i < attrs.len() && #[trigger] is_constructor_marker(attrs[i])
}

/// How a method is imported: with a receiver first, as an instance method;
/// otherwise (no parameter, or a typed one first) as a constructor where it
/// carries a constructor marker, else as a static method.
pub open spec fn kind_of(m: Method) -> MethodKind {
    if m.inputs@.len() > 0 && m.inputs@[0] is Receiver {
        MethodKind::Instance
    } else if has_constructor(m.attrs@) {
        MethodKind::Constructor
    } else {
        MethodKind::Static
    }
}

/// `r` is the import of method `m` of the type `name`.
pub open spec fn method_imported(m: Method, name: Seq<char>, camel: bool, r: MethodImport) -> bool {
    &&& r.attrs == m.attrs
    &&& r.vis == m.vis
    &&& r.ident == m.ident
    &&& option_text_is(r.js_name, js_name_of(camel, m.ident@))
    &&& r.kind == kind_of(m)
    &&& r.inputs@.len() == m.inputs@.len()
    &&& m.inputs@.len() > 0 ==> match m.inputs@[0] {
        FnArg::Receiver { reference, lifetime, mutable } => receiver_rewritten(
            reference,
            lifetime,
            mutable,
            r.inputs@[0],
            name,
        ),
        FnArg::Typed { .. } => arg_substituted(m.inputs@[0], r.inputs@[0], name),
    }
    &&& forall|i: int|
        1 <= i < m.inputs@.len() ==> arg_substituted(
            #[trigger] m.inputs@[i],
            r.inputs@[i],
            name,
        )
    &&& output_substituted(m.output, r.output, name)
}

/// The identifier that an impl's self type names, where it is a bare one.
pub open spec fn impl_self_name(t: Ty) -> Option<Seq<char>> {
    match t {
        Ty::Path { segments, lifetimes, args } => if segments@.len() == 1 && lifetimes@.len()
            == 0 && args@.len() == 0 {
            Some(segments@[0]@)
        } else {
            None
        },
        _ => None,
    }
}

/// `r` is the import of declaration `d`, with namespace `ns`.
pub open spec fn imported(d: Decl, camel: bool, ns: Option<Seq<char>>, r: Import) -> bool
    decreases d,
{
    match d {
        Decl::Type { attrs, vis, ident, .. } => match r {
            Import::Type { namespace, attrs: a2, vis: v2, ident: i2 } => option_text_is(
                namespace,
                ns,
            ) && a2 == attrs && v2 == vis && i2 == ident,
            _ => false,
        },
        Decl::Module { attrs, vis, ident, items } => match r {
            Import::Module { attrs: a2, vis: v2, ident: i2, items: it2 } => a2 == attrs && v2
                == vis && i2 == ident && it2@.len() == items@.len() && forall|i: int|
                #![trigger items@[i]]
                0 <= i < items@.len() ==> imported(items@[i], camel, Some(ident@), it2@[i]),
            _ => false,
        },
        Decl::Function { attrs, vis, ident, sig, .. } => match r {
            Import::Function { namespace, attrs: a2, js_name, vis: v2, sig: s2 } => option_text_is(
                namespace,
                ns,
            ) && a2 == attrs && option_text_is(js_name, js_name_of(camel, ident@)) && v2 == vis
                && s2 == sig,
            _ => false,
        },
        Decl::Impl { for_trait: true, .. } => r is Empty,
        Decl::Impl { attrs, self_ty, impl_items, .. } => match impl_self_name(self_ty) {
            Some(name) => match r {
                Import::Methods { attrs: a2, self_ty: s2, methods } => a2 == attrs && s2@ == name
                    && methods@.len() == impl_items@.len() && forall|i: int|
                    #![trigger impl_items@[i]]
                    0 <= i < impl_items@.len() ==> match impl_items@[i] {
                        ImplItem::Method(m) => methods@[i] is Some && method_imported(
                            m,
                            name,
                            camel,
                            methods@[i]->0,
                        ),
                        ImplItem::Other { .. } => methods@[i] is None,
                    },
                _ => false,
            },
            None => r is Empty,
        },
        Decl::Const { .. } => r is Empty,
        Decl::Other { .. } => r is Empty,
    }
}

/// The kinds of a sequence of diagnostics.
pub open spec fn kinds(ds: Seq<Diagnostic>) -> Seq<DiagnosticKind> {
    ds.map_values(|d: Diagnostic| d.kind)
}

/// The diagnostic that renaming `name` reports, if any.
pub open spec fn name_diags(camel: bool, name: Seq<char>) -> Seq<DiagnosticKind> {
    if rename_reports_double(camel, name) {
        seq![DiagnosticKind::DoubleSeparator]
    } else {
        Seq::empty()
    }
}

/// One diagnostic for each receiver in `s`.
pub open spec fn receiver_diags(s: Seq<FnArg>) -> Seq<DiagnosticKind>
    decreases s.len(),
{
    if s.len() == 0 {
        Seq::empty()
    } else {
        receiver_diags(s.drop_last()) + match s.last() {
            FnArg::Receiver { .. } => seq![DiagnosticKind::InvalidReceiver],
            FnArg::Typed { .. } => Seq::empty(),
        }
    }
}

/// The diagnostics of importing method `m`: the rename's, then one for each
/// receiver after the first parameter.
pub open spec fn method_diags(m: Method, camel: bool) -> Seq<DiagnosticKind> {
    name_diags(camel, m.ident@) + if m.inputs@.len() == 0 {
        Seq::empty()
    } else {
        receiver_diags(m.inputs@.drop_first())
    }
}

/// The diagnostics of importing the items of an impl, in order.
pub open spec fn impl_items_diags(s: Seq<ImplItem>, camel: bool) -> Seq<DiagnosticKind>
    decreases s.len(),
{
    if s.len() == 0 {
        Seq::empty()
    } else {
        impl_items_diags(s.drop_last(), camel) + match s.last() {
            ImplItem::Method(m) => method_diags(m, camel),
            ImplItem::Other { .. } => seq![DiagnosticKind::UnsupportedImplItem],
        }
    }
}

/// The diagnostics of importing declaration `d`, in order.
pub open spec fn decl_diags(d: Decl, camel: bool) -> Seq<DiagnosticKind>
    decreases d, 1nat,
{
    match d {
        Decl::Type { .. } => Seq::empty(),
        Decl::Module { items, .. } => items_diags(items@, camel, items@.len() as int),
        Decl::Function { ident, .. } => name_diags(camel, ident@),
        Decl::Impl { for_trait: true, .. } => seq![DiagnosticKind::UnsupportedItem],
        Decl::Impl { self_ty, impl_items, .. } => match self_ty {
            Ty::Path { segments, lifetimes, args } => if segments@.len() == 1 && lifetimes@.len()
                == 0 && args@.len() == 0 {
                impl_items_diags(impl_items@, camel)
            } else {
                seq![DiagnosticKind::ImplTypeNotIdent]
            },
            _ => seq![DiagnosticKind::UnsupportedImplType],
        },
        Decl::Const { .. } => seq![DiagnosticKind::UnsupportedItem],
        Decl::Other { .. } => seq![DiagnosticKind::UnsupportedItem],
    }
}

/// The diagnostics of importing the first `n` declarations of `s`, in order.
pub open spec fn items_diags(s: Seq<Decl>, camel: bool, n: int) -> Seq<DiagnosticKind>
    decreases s, 0nat, n,
    when 0 <= n <= s.len()
{
    if n <= 0 {
        Seq::empty()
    } else {
        items_diags(s, camel, n - 1) + decl_diags(s[n - 1], camel)
    }
}

/// Appends a diagnostic of the given kind.
fn report(diags: &mut Vec<Diagnostic>, kind: DiagnosticKind, subject: Option<String>)
    ensures
        kinds(final(diags)@) == kinds(old(diags)@).push(kind),
{
    let ghost before = diags@;
    diags.push(Diagnostic { kind, subject });
    assert(kinds(diags@) =~= kinds(before).push(kind));
}

/// The name that a receiver's type becomes: `_`.
fn underscore() -> (r: String)
    ensures
        r@ == underscore_word(),
{
    let mut s = String::new();
    push_char(&mut s, '_');
    assert(s@ =~= underscore_word());
    s
}

/// The path of the single identifier `name`.
fn type_named(name: &String) -> (r: Ty)
    ensures
        names_type(r, name@),
{
    let mut one: Vec<String> = Vec::new();
    one.push(name.clone());
    Ty::Path { segments: one, lifetimes: Vec::new(), args: Vec::new() }
}

/// Converts a method of the impl of `self_ty` to an import. A receiver
/// becomes an ordinary first parameter of type `self_ty`, and each `Self`
/// in the other parameters and the return type names `self_ty`.
pub fn method_as_wasm_bindgen_import(
    method: Method,
    self_ty: &String,
    options: &SwitchOptions,
    diags: &mut Vec<Diagnostic>,
) -> (r: MethodImport)
    ensures
        method_imported(method, self_ty@, options.camel_case, r),
        kinds(final(diags)@) == kinds(old(diags)@) + method_diags(method, options.camel_case),
{
    let ghost m = method;
    let ghost base = kinds(diags@);
    let (js_name, double) = options.make_js_name_attr(&method.ident);
    if double {
        report(diags, DiagnosticKind::DoubleSeparator, Some(method.ident.clone()));
    }
    assert(kinds(diags@) =~= base + name_diags(options.camel_case, m.ident@));
    let Method { attrs, vis, ident, inputs, output, .. } = method;
    let constructor = has_constructor_attr(&attrs);
    let ghost orig = inputs@;
    let mut rest = inputs;
    let mut new_inputs: Vec<FnArg> = Vec::new();
    let mut kind = if constructor {
        MethodKind::Constructor
    } else {
        MethodKind::Static
    };
    if rest.len() > 0 {
        let first = rest.remove(0);
        assert(first == orig[0]);
        match first {
            FnArg::Receiver { reference, lifetime, mutable } => {
                kind = MethodKind::Instance;
                let ty = if reference {
                    Ty::Ref { lifetime, mutable, elem: Box::new(type_named(self_ty)) }
                } else {
                    type_named(self_ty)
                };
                new_inputs.push(FnArg::Typed { pat: underscore(), ty });
            },
            FnArg::Typed { pat, ty } => {
                let ty = replace_self_with_ty(ty, self_ty);
                new_inputs.push(FnArg::Typed { pat, ty });
            },
        }
        assert(orig.drop_first().subrange(0, 0) =~= Seq::<FnArg>::empty());
    }
    let ghost after_name = kinds(diags@);
    let ghost first_new = if orig.len() > 0 { new_inputs@[0] } else { FnArg::Receiver { reference: false, lifetime: None, mutable: false } };
    while rest.len() > 0
        invariant
            orig == m.inputs@,
            orig.len() > 0 ==> new_inputs@.len() >= 1,
            new_inputs@.len() + rest@.len() == orig.len(),
            rest@ == orig.subrange(new_inputs@.len() as int, orig.len() as int),
            orig.len() > 0 ==> new_inputs@[0] == first_new,
            forall|i: int|
                1 <= i < new_inputs@.len() ==> arg_substituted(
                    #[trigger] orig[i],
                    new_inputs@[i],
                    self_ty@,
                ),
            orig.len() == 0 ==> kinds(diags@) == after_name,
            after_name == base + name_diags(options.camel_case, m.ident@),
            orig.len() > 0 ==> kinds(diags@) == after_name + receiver_diags(
                orig.drop_first().subrange(0, new_inputs@.len() - 1),
            ),
        decreases rest@.len(),
    {
        let ghost k = new_inputs@.len() as int;
        let input = rest.remove(0);
        assert(input == orig[k]);
        assert(orig.drop_first().subrange(0, k).drop_last() =~= orig.drop_first().subrange(
            0,
            k - 1,
        ));
        assert(orig.drop_first().subrange(0, k).last() == input);
        match input {
            FnArg::Typed { pat, ty } => {
                let ty = replace_self_with_ty(ty, self_ty);
                new_inputs.push(FnArg::Typed { pat, ty });
                assert(receiver_diags(orig.drop_first().subrange(0, k)) =~= receiver_diags(
                    orig.drop_first().subrange(0, k - 1),
                ));
            },
            FnArg::Receiver { reference, lifetime, mutable } => {
                report(diags, DiagnosticKind::InvalidReceiver, Some(ident.clone()));
                new_inputs.push(FnArg::Receiver { reference, lifetime, mutable });
            },
        }
    }
    proof {
        if orig.len() > 0 {
            assert(orig.drop_first().subrange(0, new_inputs@.len() - 1) =~= orig.drop_first());
        }
        assert(kinds(diags@) =~= base + method_diags(m, options.camel_case));
    }
    let output = match output {
        Some(t) => Some(replace_self_with_ty(t, self_ty)),
        None => None,
    };
    MethodImport { attrs, kind, js_name, vis, ident, inputs: new_inputs, output }
}

/// Converts the items of the impl of `self_ty` to imports, one entry per
/// item: a method gives its import, any other item a diagnostic and `None`.
fn impl_items_as_imports(
    items: Vec<ImplItem>,
    self_ty: &String,
    options: &SwitchOptions,
    diags: &mut Vec<Diagnostic>,
) -> (r: Vec<Option<MethodImport>>)
    ensures
        r@.len() == items@.len(),
        forall|i: int|
            0 <= i < items@.len() ==> match #[trigger] items@[i] {
                ImplItem::Method(m) => r@[i] is Some && method_imported(
                    m,
                    self_ty@,
                    options.camel_case,
                    r@[i]->0,
                ),
                ImplItem::Other { .. } => r@[i] is None,
            },
        kinds(final(diags)@) == kinds(old(diags)@) + impl_items_diags(items@, options.camel_case),
{
    let ghost orig = items@;
    let ghost base = kinds(diags@);
    let mut rest = items;
    let mut out: Vec<Option<MethodImport>> = Vec::new();
    assert(orig.subrange(0, 0) =~= Seq::<ImplItem>::empty());
    while rest.len() > 0
        invariant
            out@.len() + rest@.len() == orig.len(),
            rest@ == orig.subrange(out@.len() as int, orig.len() as int),
            forall|i: int|
                0 <= i < out@.len() ==> match #[trigger] orig[i] {
                    ImplItem::Method(m) => out@[i] is Some && method_imported(
                        m,
                        self_ty@,
                        options.camel_case,
                        out@[i]->0,
                    ),
                    ImplItem::Other { .. } => out@[i] is None,
                },
            kinds(diags@) == base + impl_items_diags(
                orig.subrange(0, out@.len() as int),
                options.camel_case,
            ),
        decreases rest@.len(),
    {
        let ghost k = out@.len() as int;
        let ghost before = kinds(diags@);
        let item = rest.remove(0);
        assert(item == orig[k]);
        assert(orig.subrange(0, k + 1).drop_last() =~= orig.subrange(0, k));
        assert(orig.subrange(0, k + 1).last() == item);
        match item {
            ImplItem::Method(m) => {
                let imp = method_as_wasm_bindgen_import(m, self_ty, options, diags);
                out.push(Some(imp));
            },
            ImplItem::Other { .. } => {
                report(diags, DiagnosticKind::UnsupportedImplItem, None);
                out.push(None);
            },
        }
        assert(kinds(diags@) =~= base + impl_items_diags(
            orig.subrange(0, k + 1),
            options.camel_case,
        ));
    }
    assert(orig.subrange(0, orig.len() as int) =~= orig);
    out
}

/// Converts each declaration of a module's `items`, in order, with the
/// module's identifier as namespace.
fn items_as_imports(
    items: Vec<Decl>,
    options: &SwitchOptions,
    namespace: &String,
    diags: &mut Vec<Diagnostic>,
    Ghost(outer): Ghost<Decl>,
) -> (r: Vec<Import>)
    requires
        forall|i: int| 0 <= i < items@.len() ==> decreases_to!(outer => #[trigger] items@[i]),
    ensures
        r@.len() == items@.len(),
        forall|i: int|
            0 <= i < items@.len() ==> imported(
                #[trigger] items@[i],
                options.camel_case,
                Some(namespace@),
                r@[i],
            ),
        kinds(final(diags)@) == kinds(old(diags)@) + items_diags(
            items@,
            options.camel_case,
            items@.len() as int,
        ),
    decreases outer, 0nat,
{
    let ghost orig = items@;
    let ghost base = kinds(diags@);
    let mut rest = items;
    let mut out: Vec<Import> = Vec::new();
    while rest.len() > 0
        invariant
            out@.len() + rest@.len() == orig.len(),
            rest@ == orig.subrange(out@.len() as int, orig.len() as int),
            forall|i: int| 0 <= i < orig.len() ==> decreases_to!(outer => #[trigger] orig[i]),
            forall|i: int|
                0 <= i < out@.len() ==> imported(
                    #[trigger] orig[i],
                    options.camel_case,
                    Some(namespace@),
                    out@[i],
                ),
            kinds(diags@) == base + items_diags(orig, options.camel_case, out@.len() as int),
        decreases rest@.len(),
    {
        let ghost k = out@.len() as int;
        let d = rest.remove(0);
        assert(d == orig[k]);
        let imp = item_as_wasm_bindgen_imports(d, options, Some(namespace.clone()), diags);
        out.push(imp);
        assert(kinds(diags@) =~= base + items_diags(orig, options.camel_case, k + 1));
    }
    out
}

/// Converts a declaration to its import: a data type to an opaque type, a
/// function to a function import, a module to a module of imports, and an
/// inherent impl to imports of its methods. A declaration with no import
/// form, or an impl whose self type is not a bare identifier, gives a
/// diagnostic and the empty fragment.
pub fn item_as_wasm_bindgen_imports(
    item: Decl,
    options: &SwitchOptions,
    namespace: Option<String>,
    diags: &mut Vec<Diagnostic>,
) -> (r: Import)
    ensures
        imported(
            item,
            options.camel_case,
            match namespace {
                Some(s) => Some(s@),
                None => None,
            },
            r,
        ),
        kinds(final(diags)@) == kinds(old(diags)@) + decl_diags(item, options.camel_case),
    decreases item, 1nat,
{
    let ghost orig = item;
    let ghost base = kinds(diags@);
    match item {
        Decl::Type { attrs, vis, ident, .. } => {
            assert(kinds(diags@) =~= base + decl_diags(orig, options.camel_case));
            Import::Type { namespace, attrs, vis, ident }
        },
        Decl::Module { attrs, vis, ident, items } => {
            let imps = items_as_imports(items, options, &ident, diags, Ghost(orig));
            Import::Module { attrs, vis, ident, items: imps }
        },
        Decl::Function { attrs, vis, ident, sig, .. } => {
            let (js_name, double) = options.make_js_name_attr(&ident);
            if double {
                report(diags, DiagnosticKind::DoubleSeparator, Some(ident.clone()));
            }
            assert(kinds(diags@) =~= base + decl_diags(orig, options.camel_case));
            Import::Function { namespace, attrs, js_name, vis, sig }
        },
        Decl::Impl { for_trait: true, .. } => {
            report(diags, DiagnosticKind::UnsupportedItem, None);
            assert(kinds(diags@) =~= base + decl_diags(orig, options.camel_case));
            Import::Empty
        },
        Decl::Impl { attrs, self_ty, impl_items, .. } => {
            match self_ty {
                Ty::Path { segments, lifetimes, args } => {
                    if segments.len() != 1 || lifetimes.len() != 0 || args.len() != 0 {
                        report(diags, DiagnosticKind::ImplTypeNotIdent, None);
                        assert(kinds(diags@) =~= base + decl_diags(orig, options.camel_case));
                        return Import::Empty;
                    }
                    let mut segments = segments;
                    let name = segments.remove(0);
                    let methods = impl_items_as_imports(impl_items, &name, options, diags);
                    Import::Methods { attrs, self_ty: name, methods }
                },
                _ => {
                    report(diags, DiagnosticKind::UnsupportedImplType, None);
                    assert(kinds(diags@) =~= base + decl_diags(orig, options.camel_case));
                    Import::Empty
                },
            }
        },
        Decl::Const { .. } => {
            report(diags, DiagnosticKind::UnsupportedItem, None);
            assert(kinds(diags@) =~= base + decl_diags(orig, options.camel_case));
            Import::Empty
        },
        Decl::Other { .. } => {
            report(diags, DiagnosticKind::UnsupportedItem, None);
            assert(kinds(diags@) =~= base + decl_diags(orig, options.camel_case));
            Import::Empty
        },
    }
}

} // verus!
