use vstd::prelude::*;
use crate::decl::{Decl, DiagnosticKind, FnArg, Import, MethodKind};
use crate::naming::{camel_case, has_double_separator, separator_count};
use crate::filter::filtered;
use crate::rewrite::{decl_diags, has_constructor, imported, method_imported};
use crate::self_ty::{lemma_substitution_leaves_no_self, mentions_self, self_word};

verus! {

/// A data type is imported as an opaque type with the same identifier,
/// visibility and attributes, and no body.
pub proof fn lemma_type_import_keeps_name(d: Decl, camel: bool, ns: Option<Seq<char>>, r: Import)
    requires
        d is Type,
        imported(d, camel, ns, r),
    ensures
        r is Type,
        r->Type_ident == d->Type_ident,
        r->Type_vis == d->Type_vis,
        r->Type_attrs == d->Type_attrs,
{
}

/// With renaming on, a function whose identifier holds a separator is given
/// its camel-style name; one without a separator is given none.
pub proof fn lemma_function_rename(d: Decl, ns: Option<Seq<char>>, r: Import)
    requires
        d is Function,
        imported(d, true, ns, r),
    ensures
        r is Function,
        separator_count(d->Function_ident@) > 0 ==> r->Function_js_name is Some
            && r->Function_js_name->0@ == camel_case(d->Function_ident@),
        separator_count(d->Function_ident@) == 0 ==> r->Function_js_name is None,
{
}

/// Each method of an impl whose first parameter is a receiver is imported as
/// an instance method whose first parameter is the impl's type, taken by
/// value, by reference or by mutable reference as the receiver was.
pub proof fn lemma_instance_methods(d: Decl, camel: bool, ns: Option<Seq<char>>, r: Import, i: int)
    requires
        d is Impl,
        imported(d, camel, ns, r),
        r is Methods,
        0 <= i < d->Impl_impl_items@.len(),
        d->Impl_impl_items@[i] is Method,
        d->Impl_impl_items@[i]->Method_0.inputs@.len() > 0,
        d->Impl_impl_items@[i]->Method_0.inputs@[0] is Receiver,
    ensures
        ({
            let m = d->Impl_impl_items@[i]->Method_0;
            let imp = r->Methods_methods@[i]->0;
            let name = r->Methods_self_ty@;
            &&& r->Methods_methods@[i] is Some
            &&& imp.kind == MethodKind::Instance
            &&& imp.inputs@[0] is Typed
            &&& if m.inputs@[0]->Receiver_reference {
                let t = imp.inputs@[0]->Typed_ty;
                &&& t is Ref
                &&& t->Ref_mutable == m.inputs@[0]->Receiver_mutable
                &&& t->Ref_lifetime == m.inputs@[0]->Receiver_lifetime
                &&& *t->Ref_elem is Path
                &&& t->Ref_elem->Path_segments@.len() == 1
                &&& t->Ref_elem->Path_segments@[0]@ == name
            } else {
                let t = imp.inputs@[0]->Typed_ty;
                &&& t is Path
                &&& t->Path_segments@.len() == 1
                &&& t->Path_segments@[0]@ == name
            }
        }),
{
}

/// A method of an impl with no parameter, or with a typed first parameter,
/// is imported as a static method when it carries no constructor marker; with
/// a constructor marker it is imported as a constructor, never as a static
/// method.
pub proof fn lemma_static_methods(d: Decl, camel: bool, ns: Option<Seq<char>>, r: Import, i: int)
    requires
        d is Impl,
        imported(d, camel, ns, r),
        r is Methods,
        0 <= i < d->Impl_impl_items@.len(),
        d->Impl_impl_items@[i] is Method,
    ensures
        ({
            let m = d->Impl_impl_items@[i]->Method_0;
            let imp = r->Methods_methods@[i]->0;
            &&& r->Methods_methods@[i] is Some
            &&& (m.inputs@.len() == 0 || m.inputs@[0] is Typed) && !has_constructor(m.attrs@)
                ==> imp.kind == MethodKind::Static
            &&& (m.inputs@.len() == 0 || m.inputs@[0] is Typed) && has_constructor(m.attrs@)
                ==> imp.kind == MethodKind::Constructor
            &&& has_constructor(m.attrs@) ==> imp.kind != MethodKind::Static
        }),
{
}

/// Whether the type of a parameter mentions `Self`.
pub open spec fn arg_mentions_self(p: FnArg) -> bool {
    match p {
        FnArg::Typed { ty, .. } => mentions_self(ty),
        FnArg::Receiver { .. } => false,
    }
}

/// In the import of a method of an impl whose type is not itself named
/// `Self`, no parameter type and no return type mentions `Self`, at any
/// depth.
pub proof fn lemma_method_import_has_no_self(
    d: Decl,
    camel: bool,
    ns: Option<Seq<char>>,
    r: Import,
    i: int,
)
    requires
        d is Impl,
        imported(d, camel, ns, r),
        r is Methods,
        r->Methods_self_ty@ != self_word(),
        0 <= i < d->Impl_impl_items@.len(),
        d->Impl_impl_items@[i] is Method,
    ensures
        ({
            let imp = r->Methods_methods@[i]->0;
            &&& forall|k: int| 0 <= k < imp.inputs@.len() ==> !arg_mentions_self(#[trigger] imp.inputs@[k])
            &&& imp.output is Some ==> !mentions_self(imp.output->0)
        }),
{
    let x = d->Impl_impl_items@[i];
    let m = x->Method_0;
    let imp = r->Methods_methods@[i]->0;
    let name = r->Methods_self_ty@;
    assert(method_imported(m, name, camel, imp));
    assert forall|k: int| 0 <= k < imp.inputs@.len() implies !arg_mentions_self(
        #[trigger] imp.inputs@[k],
    ) by {
        let a = m.inputs@[k];
        let b = imp.inputs@[k];
        if k == 0 && a is Receiver {
            if b is Typed {
                let t = b->Typed_ty;
                if t is Ref {
                    assert(!mentions_self(*t->Ref_elem));
                }
            }
        } else if a is Typed {
            lemma_substitution_leaves_no_self(a->Typed_ty, b->Typed_ty, name);
        }
    }
    if imp.output is Some {
        lemma_substitution_leaves_no_self(m.output->0, imp.output->0, name);
    }
}

/// With renaming on, a function whose identifier holds two separators next
/// to each other is reported, and still imported.
pub proof fn lemma_double_separator_reported(d: Decl, ns: Option<Seq<char>>, r: Import)
    requires
        d is Function,
        has_double_separator(d->Function_ident@),
        imported(d, true, ns, r),
    ensures
        decl_diags(d, true) == seq![DiagnosticKind::DoubleSeparator],
        r is Function,
        r->Function_js_name is Some,
{
    let s = d->Function_ident@;
    let j = choose|j: int| #![trigger s[j]] 0 <= j && j + 1 < s.len() && s[j] == '_' && s[j + 1] == '_';
    crate::naming::lemma_separator_count_positive(s, j);
}

/// The import and the native copy of one declaration declare the same name:
/// a data type or a module keeps its identifier in both, and a function its
/// signature.
pub proof fn lemma_halves_share_names(d: Decl, camel: bool, imp: Import, native: Decl)
    requires
        imported(d, camel, None, imp),
        filtered(d, native),
    ensures
        d is Type ==> imp is Type && native is Type && imp->Type_ident == native->Type_ident,
        d is Module ==> imp is Module && native is Module && imp->Module_ident
            == native->Module_ident,
        d is Function ==> imp is Function && native is Function && imp->Function_sig
            == native->Function_sig,
{
}

} // verus!
