use vstd::prelude::*;
use crate::decl::{AttrArg, AttrArgs, Attribute, Decl, ImplItem, Method};
use crate::self_ty::same_text;

verus! {

broadcast use vstd::std_specs::vec::group_vec_axioms;

/// The name of the import marker.
pub open spec fn marker_word() -> Seq<char> {
    seq!['w', 'a', 's', 'm', '_', 'b', 'i', 'n', 'd', 'g', 'e', 'n']
}

/// The argument that marks an import as a constructor.
pub open spec fn constructor_word() -> Seq<char> {
    seq!['c', 'o', 'n', 's', 't', 'r', 'u', 'c', 't', 'o', 'r']
}

/// An import-only attribute: its path starts with the plain segment
/// `wasm_bindgen`.
pub open spec fn is_marker(a: Attribute) -> bool {
    a.path@.len() > 0 && !a.path@[0].has_args && a.path@[0].ident@ == marker_word()
}

/// A list argument that is the bare word `constructor`.
pub open spec fn is_constructor_arg(x: AttrArg) -> bool {
    match x {
        AttrArg::Word(w) => w@ == constructor_word(),
        AttrArg::Other(_) => false,
    }
}

/// A marker whose argument list holds the bare word `constructor`.
pub open spec fn is_constructor_marker(a: Attribute) -> bool {
    is_marker(a) && match a.args {
        AttrArgs::List(v) => exists|i: int|
            #![trigger v@[i]]
            0 <= i < v@.len() && is_constructor_arg(v@[i]),
        _ => false,
    }
}

/// `s` without its import-only attributes, in order.
pub open spec fn kept(s: Seq<Attribute>) -> Seq<Attribute>
    decreases s.len(),
{
    if s.len() == 0 {
        Seq::empty()
    } else if is_marker(s.last()) {
        kept(s.drop_last())
    } else {
        kept(s.drop_last()).push(s.last())
    }
}

/// Whether any attribute of `s` is import-only.
pub open spec fn has_marker(s: Seq<Attribute>) -> bool {
    exists|i: int| 0 <= i < s.len() && #[trigger] is_marker(s[i])
}

/// `b` is the method `a` with its import-only attributes removed, and the
/// declarations of its body filtered.
pub open spec fn method_filtered(a: Method, b: Method) -> bool
    decreases a, 1nat,
{
    &&& b.attrs@ == kept(a.attrs@)
    &&& b.vis == a.vis
    &&& b.ident == a.ident
    &&& b.inputs == a.inputs
    &&& b.output == a.output
    &&& b.sig == a.sig
    &&& b.body@.len() == a.body@.len()
    &&& forall|i: int|
        #![trigger a.body@[i]]
        0 <= i < a.body@.len() ==> filtered(a.body@[i], b.body@[i])
}

/// `b` is the impl item `a` with its import-only attributes removed.
pub open spec fn impl_item_filtered(a: ImplItem, b: ImplItem) -> bool
    decreases a, 2nat,
{
    match a {
        ImplItem::Method(m) => match b {
            ImplItem::Method(m2) => method_filtered(m, m2),
            _ => false,
        },
        ImplItem::Other { .. } => b == a,
    }
}

/// `b` is the declaration `a` with the import-only attributes removed from
/// each type, function, constant, impl and method that it holds, in modules
/// and in bodies, and nothing else changed. A module keeps its own
/// attributes; its items are filtered.
pub open spec fn filtered(a: Decl, b: Decl) -> bool
    decreases a, 0nat,
{
    match a {
        Decl::Type { attrs, vis, ident, text } => match b {
            Decl::Type { attrs: a2, vis: v2, ident: i2, text: t2 } => a2@ == kept(attrs@) && v2
                == vis && i2 == ident && t2 == text,
            _ => false,
        },
        Decl::Module { attrs, vis, ident, items } => match b {
            Decl::Module { attrs: a2, vis: v2, ident: i2, items: it2 } => a2 == attrs && v2 == vis
                && i2 == ident && it2@.len() == items@.len() && forall|i: int|
                #![trigger items@[i]]
                0 <= i < items@.len() ==> filtered(items@[i], it2@[i]),
            _ => false,
        },
        Decl::Function { attrs, vis, ident, sig, body } => match b {
            Decl::Function { attrs: a2, vis: v2, ident: i2, sig: s2, body: b2 } => a2@ == kept(
                attrs@,
            ) && v2 == vis && i2 == ident && s2 == sig && b2@.len() == body@.len() && forall|
                i: int,
            |
                #![trigger body@[i]]
                0 <= i < body@.len() ==> filtered(body@[i], b2@[i]),
            _ => false,
        },
        Decl::Const { attrs, text } => match b {
            Decl::Const { attrs: a2, text: t2 } => a2@ == kept(attrs@) && t2 == text,
            _ => false,
        },
        Decl::Impl { attrs, for_trait, self_ty, header, impl_items: items } => match b {
            Decl::Impl { attrs: a2, for_trait: f2, self_ty: s2, header: h2, impl_items: it2 } => a2@
                == kept(attrs@) && f2 == for_trait && s2 == self_ty && h2 == header && it2@.len()
                == items@.len() && forall|i: int|
                #![trigger items@[i]]
                0 <= i < items@.len() ==> impl_item_filtered(items@[i], it2@[i]),
            _ => false,
        },
        Decl::Other { .. } => b == a,
    }
}

impl Attribute {
    /// Whether an attribute is import-only.
    pub fn is_wasm_bindgen_attr(&self) -> (r: bool)
        ensures
            r == is_marker(*self),
    {
        if self.path.len() == 0 || self.path[0].has_args {
            return false;
        }
        let word = "wasm_bindgen";
        proof {
            reveal_strlit("wasm_bindgen");
            assert(word@ =~= marker_word());
        }
        same_text(self.path[0].ident.as_str(), word)
    }

    /// Whether an attribute is an import marker that asks for a constructor.
    pub fn is_wasm_bindgen_constructor_attr(&self) -> (r: bool)
        ensures
            r == is_constructor_marker(*self),
    {
        if !self.is_wasm_bindgen_attr() {
            return false;
        }
        let word = "constructor";
        proof {
            reveal_strlit("constructor");
            assert(word@ =~= constructor_word());
        }
        match &self.args {
            AttrArgs::List(v) => {
                let mut i: usize = 0;
                while i < v.len()
                    invariant
                        i <= v@.len(),
                        word@ == constructor_word(),
                        self.args == AttrArgs::List(*v),
                        is_marker(*self),
                        forall|k: int| 0 <= k < i ==> !is_constructor_arg(#[trigger] v@[k]),
                    decreases v@.len() - i,
                {
                    match &v[i] {
                        AttrArg::Word(w) => {
                            if same_text(w.as_str(), word) {
                                assert(is_constructor_arg(v@[i as int]));
                                assert(self.args->List_0 == *v);
                                assert(is_constructor_marker(*self));
                                return true;
                            }
                        },
                        AttrArg::Other(_) => {},
                    }
                    i = i + 1;
                }
                false
            },
            _ => false,
        }
    }
}

/// Whether any attribute of `attrs` asks for a constructor.
pub fn has_constructor_attr(attrs: &Vec<Attribute>) -> (r: bool)
    ensures
        r == exists|i: int| 0 <= i < attrs@.len() && #[trigger] is_constructor_marker(attrs@[i]),
{
    let mut i: usize = 0;
    while i < attrs.len()
        invariant
            i <= attrs@.len(),
            forall|k: int| 0 <= k < i ==> !is_constructor_marker(#[trigger] attrs@[k]),
        decreases attrs@.len() - i,
    {
        if attrs[i].is_wasm_bindgen_constructor_attr() {
            return true;
        }
        i = i + 1;
    }
    false
}

/// Keeps the attributes that are not import-only, in order.
pub fn retain_non_markers(attrs: Vec<Attribute>) -> (r: Vec<Attribute>)
    ensures
        r@ == kept(attrs@),
{
    let ghost orig = attrs@;
    let mut rest = attrs;
    let mut out: Vec<Attribute> = Vec::new();
    while rest.len() > 0
        invariant
            out@ == kept(orig.subrange(0, orig.len() - rest@.len())),
            rest@ == orig.subrange(orig.len() - rest@.len(), orig.len() as int),
            rest@.len() <= orig.len(),
        decreases rest@.len(),
    {
        let ghost done = orig.len() - rest@.len();
        let a = rest.remove(0);
        assert(orig.subrange(0, done + 1).drop_last() =~= orig.subrange(0, done));
        assert(orig.subrange(0, done + 1).last() == a);
        if !a.is_wasm_bindgen_attr() {
            out.push(a);
        }
        assert(rest@ =~= orig.subrange(orig.len() - rest@.len(), orig.len() as int));
    }
    assert(orig.subrange(0, orig.len() as int) =~= orig);
    out
}

/// Removes the import-only attributes of a method, and filters its body.
fn filter_method(m: Method, Ghost(outer): Ghost<Decl>) -> (r: Method)
    requires
        forall|i: int| 0 <= i < m.body@.len() ==> decreases_to!(outer => #[trigger] m.body@[i]),
    ensures
        method_filtered(m, r),
    decreases outer, 1nat,
{
    let Method { attrs, vis, ident, inputs, output, sig, body } = m;
    let body = filter_all(body, Ghost(outer));
    Method { attrs: retain_non_markers(attrs), vis, ident, inputs, output, sig, body }
}

/// Removes the import-only attributes of each method of an impl, in order.
fn filter_impl_items(items: Vec<ImplItem>, Ghost(outer): Ghost<Decl>) -> (r: Vec<ImplItem>)
    requires
        forall|i: int| 0 <= i < items@.len() ==> decreases_to!(outer => #[trigger] items@[i]),
    ensures
        r@.len() == items@.len(),
        forall|i: int| 0 <= i < items@.len() ==> impl_item_filtered(#[trigger] items@[i], r@[i]),
    decreases outer, 2nat,
{
    let ghost orig = items@;
    let mut rest = items;
    let mut out: Vec<ImplItem> = Vec::new();
    while rest.len() > 0
        invariant
            out@.len() + rest@.len() == orig.len(),
            rest@ == orig.subrange(out@.len() as int, orig.len() as int),
            forall|i: int| 0 <= i < orig.len() ==> decreases_to!(outer => #[trigger] orig[i]),
            forall|i: int| 0 <= i < out@.len() ==> impl_item_filtered(#[trigger] orig[i], out@[i]),
        decreases rest@.len(),
    {
        let item = rest.remove(0);
        assert(item == orig[out@.len() as int]);
        let new_item = match item {
            ImplItem::Method(m) => {
                proof {
                    assert forall|i: int| 0 <= i < m.body@.len() implies decreases_to!(
                        outer => #[trigger] m.body@[i]
                    ) by {
                        assert(decreases_to!(item => m.body@[i]));
                    }
                }
                ImplItem::Method(filter_method(m, Ghost(outer)))
            },
            ImplItem::Other { text } => ImplItem::Other { text },
        };
        out.push(new_item);
    }
    out
}

/// Filters each declaration of `items`, in order.
fn filter_all(items: Vec<Decl>, Ghost(outer): Ghost<Decl>) -> (r: Vec<Decl>)
    requires
        forall|i: int| 0 <= i < items@.len() ==> decreases_to!(outer => #[trigger] items@[i]),
    ensures
        r@.len() == items@.len(),
        forall|i: int| 0 <= i < items@.len() ==> filtered(#[trigger] items@[i], r@[i]),
    decreases outer, 0nat,
{
    let ghost orig = items@;
    let mut rest = items;
    let mut out: Vec<Decl> = Vec::new();
    while rest.len() > 0
        invariant
            out@.len() + rest@.len() == orig.len(),
            rest@ == orig.subrange(out@.len() as int, orig.len() as int),
            forall|i: int| 0 <= i < orig.len() ==> decreases_to!(outer => #[trigger] orig[i]),
            forall|i: int| 0 <= i < out@.len() ==> filtered(#[trigger] orig[i], out@[i]),
        decreases rest@.len(),
    {
        let d = rest.remove(0);
        assert(d == orig[out@.len() as int]);
        out.push(remove_wasm_bindgen_attrs(d));
    }
    out
}

/// The native copy of a declaration: every import-only attribute of its
/// types, functions, constants, impls and methods removed, in modules and in
/// bodies, and nothing else changed.
pub fn remove_wasm_bindgen_attrs(item: Decl) -> (r: Decl)
    ensures
        filtered(item, r),
    decreases item, 3nat,
{
    let ghost orig = item;
    match item {
        Decl::Type { attrs, vis, ident, text } => Decl::Type {
            attrs: retain_non_markers(attrs),
            vis,
            ident,
            text,
        },
        Decl::Module { attrs, vis, ident, items } => {
            let items = filter_all(items, Ghost(orig));
            Decl::Module { attrs, vis, ident, items }
        },
        Decl::Function { attrs, vis, ident, sig, body } => {
            let body = filter_all(body, Ghost(orig));
            Decl::Function { attrs: retain_non_markers(attrs), vis, ident, sig, body }
        },
        Decl::Const { attrs, text } => Decl::Const { attrs: retain_non_markers(attrs), text },
        Decl::Impl { attrs, for_trait, self_ty, header, impl_items } => {
            let impl_items = filter_impl_items(impl_items, Ghost(orig));
            Decl::Impl { attrs: retain_non_markers(attrs), for_trait, self_ty, header, impl_items }
        },
        Decl::Other { text } => Decl::Other { text },
    }
}

/// What `kept` leaves holds no import-only attribute.
pub proof fn lemma_kept_has_no_marker(s: Seq<Attribute>)
    ensures
        !has_marker(kept(s)),
        kept(s).len() <= s.len(),
    decreases s.len(),
{
    if s.len() > 0 {
        lemma_kept_has_no_marker(s.drop_last());
        let k = kept(s.drop_last());
        if !is_marker(s.last()) {
            assert forall|i: int| 0 <= i < k.push(s.last()).len() implies !is_marker(
                #[trigger] k.push(s.last())[i],
            ) by {
                if i < k.len() {
                    assert(k.push(s.last())[i] == k[i]);
                }
            }
        }
    }
}

/// A sequence without import-only attributes is its own `kept`.
pub proof fn lemma_kept_unchanged(s: Seq<Attribute>)
    requires
        !has_marker(s),
    ensures
        kept(s) == s,
    decreases s.len(),
{
    if s.len() > 0 {
        assert(!is_marker(s[s.len() - 1]));
        assert(!has_marker(s.drop_last())) by {
            assert forall|i: int| 0 <= i < s.drop_last().len() implies !is_marker(
                #[trigger] s.drop_last()[i],
            ) by {
                assert(s.drop_last()[i] == s[i]);
            }
        }
        lemma_kept_unchanged(s.drop_last());
        assert(s.drop_last().push(s.last()) =~= s);
    }
}

/// Filtering attribute lists is idempotent.
pub proof fn lemma_kept_idempotent(s: Seq<Attribute>)
    ensures
        kept(kept(s)) == kept(s),
{
    lemma_kept_has_no_marker(s);
    lemma_kept_unchanged(kept(s));
}

/// The native copy is a fixed point of the filter: filtering an already
/// filtered declaration keeps it as it is.
pub proof fn lemma_filter_idempotent(a: Decl, b: Decl)
    requires
        filtered(a, b),
    ensures
        filtered(b, b),
    decreases a,
{
    match a {
        Decl::Type { attrs, .. } => lemma_kept_idempotent(attrs@),
        Decl::Module { items, .. } => {
            let it2 = b->Module_items;
            assert forall|i: int| 0 <= i < it2@.len() implies filtered(
                #[trigger] it2@[i],
                it2@[i],
            ) by {
                lemma_filter_idempotent(items@[i], it2@[i]);
            }
        },
        Decl::Function { attrs, body, .. } => {
            lemma_kept_idempotent(attrs@);
            let b2 = b->Function_body;
            assert forall|i: int| 0 <= i < b2@.len() implies filtered(#[trigger] b2@[i], b2@[i]) by {
                lemma_filter_idempotent(body@[i], b2@[i]);
            }
        },
        Decl::Const { attrs, .. } => lemma_kept_idempotent(attrs@),
        Decl::Impl { attrs, impl_items, .. } => {
            lemma_kept_idempotent(attrs@);
            let it2 = b->Impl_impl_items;
            assert forall|i: int| 0 <= i < it2@.len() implies impl_item_filtered(
                #[trigger] it2@[i],
                it2@[i],
            ) by {
                if let ImplItem::Method(m) = impl_items@[i] {
                    let m2 = it2@[i]->Method_0;
                    assert(impl_item_filtered(impl_items@[i], it2@[i]));
                    assert(method_filtered(m, m2));
                    lemma_kept_idempotent(m.attrs@);
                    assert forall|j: int| 0 <= j < m2.body@.len() implies filtered(
                        #[trigger] m2.body@[j],
                        m2.body@[j],
                    ) by {
                        assert(decreases_to!(a => m.body@[j]));
                        lemma_filter_idempotent(m.body@[j], m2.body@[j]);
                    }
                    assert(method_filtered(m2, m2));
                } else {
                    assert(impl_item_filtered(impl_items@[i], it2@[i]));
                }
            }
        },
        Decl::Other { .. } => {},
    }
}

/// Filtering twice gives a filtered copy of the original declaration, just
/// as filtering once does.
pub proof fn lemma_filter_twice(a: Decl, b: Decl, c: Decl)
    requires
        filtered(a, b),
        filtered(b, c),
    ensures
        filtered(a, c),
    decreases a,
{
    match a {
        Decl::Type { attrs, .. } => lemma_kept_idempotent(attrs@),
        Decl::Module { items, .. } => {
            let (it2, it3) = (b->Module_items, c->Module_items);
            assert forall|i: int| 0 <= i < items@.len() implies filtered(
                #[trigger] items@[i],
                it3@[i],
            ) by {
                lemma_filter_twice(items@[i], it2@[i], it3@[i]);
            }
        },
        Decl::Function { attrs, body, .. } => {
            lemma_kept_idempotent(attrs@);
            let (b2, b3) = (b->Function_body, c->Function_body);
            assert forall|i: int| 0 <= i < body@.len() implies filtered(#[trigger] body@[i], b3@[i]) by {
                lemma_filter_twice(body@[i], b2@[i], b3@[i]);
            }
        },
        Decl::Const { attrs, .. } => lemma_kept_idempotent(attrs@),
        Decl::Impl { attrs, impl_items, .. } => {
            lemma_kept_idempotent(attrs@);
            let (it2, it3) = (b->Impl_impl_items, c->Impl_impl_items);
            assert forall|i: int| 0 <= i < impl_items@.len() implies impl_item_filtered(
                #[trigger] impl_items@[i],
                it3@[i],
            ) by {
                if let ImplItem::Method(m) = impl_items@[i] {
                    let (m2, m3) = (it2@[i]->Method_0, it3@[i]->Method_0);
                    assert(impl_item_filtered(impl_items@[i], it2@[i]));
                    assert(method_filtered(m, m2));
                    assert(impl_item_filtered(it2@[i], it3@[i]));
                    assert(method_filtered(m2, m3));
                    lemma_kept_idempotent(m.attrs@);
                    assert forall|j: int| 0 <= j < m.body@.len() implies filtered(
                        #[trigger] m.body@[j],
                        m3.body@[j],
                    ) by {
                        assert(decreases_to!(a => m.body@[j]));
                        lemma_filter_twice(m.body@[j], m2.body@[j], m3.body@[j]);
                    }
                    assert(method_filtered(m, m3));
                } else {
                    assert(impl_item_filtered(impl_items@[i], it2@[i]));
                    assert(impl_item_filtered(it2@[i], it3@[i]));
                }
            }
        },
        Decl::Other { .. } => {},
    }
}

/// No import-only attribute stands on any type, function, constant, impl or
/// method that the filter reaches in `d`.
pub open spec fn markers_cleared(d: Decl) -> bool
    decreases d,
{
    match d {
        Decl::Type { attrs, .. } => !has_marker(attrs@),
        Decl::Module { items, .. } => forall|i: int|
            #![trigger items@[i]]
            0 <= i < items@.len() ==> markers_cleared(items@[i]),
        Decl::Function { attrs, body, .. } => !has_marker(attrs@) && forall|i: int|
            #![trigger body@[i]]
            0 <= i < body@.len() ==> markers_cleared(body@[i]),
        Decl::Const { attrs, .. } => !has_marker(attrs@),
        Decl::Impl { attrs, impl_items, .. } => !has_marker(attrs@) && forall|i: int|
            #![trigger impl_items@[i]]
            0 <= i < impl_items@.len() ==> match impl_items@[i] {
                ImplItem::Method(m) => !has_marker(m.attrs@) && forall|j: int|
                    #![trigger m.body@[j]]
                    0 <= j < m.body@.len() ==> markers_cleared(m.body@[j]),
                ImplItem::Other { .. } => true,
            },
        Decl::Other { .. } => true,
    }
}

/// The filter leaves no import-only attribute on what it reaches.
pub proof fn lemma_filter_clears_markers(a: Decl, b: Decl)
    requires
        filtered(a, b),
    ensures
        markers_cleared(b),
    decreases a,
{
    match a {
        Decl::Type { attrs, .. } => lemma_kept_has_no_marker(attrs@),
        Decl::Module { items, .. } => {
            let it2 = b->Module_items;
            assert forall|i: int| 0 <= i < it2@.len() implies markers_cleared(#[trigger] it2@[i]) by {
                lemma_filter_clears_markers(items@[i], it2@[i]);
            }
        },
        Decl::Function { attrs, body, .. } => {
            lemma_kept_has_no_marker(attrs@);
            let b2 = b->Function_body;
            assert forall|i: int| 0 <= i < b2@.len() implies markers_cleared(#[trigger] b2@[i]) by {
                lemma_filter_clears_markers(body@[i], b2@[i]);
            }
        },
        Decl::Const { attrs, .. } => lemma_kept_has_no_marker(attrs@),
        Decl::Impl { attrs, impl_items, .. } => {
            lemma_kept_has_no_marker(attrs@);
            let it2 = b->Impl_impl_items;
            assert forall|i: int| 0 <= i < it2@.len() implies match #[trigger] it2@[i] {
                ImplItem::Method(m) => !has_marker(m.attrs@) && forall|j: int|
                    #![trigger m.body@[j]]
                    0 <= j < m.body@.len() ==> markers_cleared(m.body@[j]),
                ImplItem::Other { .. } => true,
            } by {
                if let ImplItem::Method(m) = impl_items@[i] {
                    let m2 = it2@[i]->Method_0;
                    assert(impl_item_filtered(impl_items@[i], it2@[i]));
                    assert(method_filtered(m, m2));
                    lemma_kept_has_no_marker(m.attrs@);
                    assert forall|j: int| 0 <= j < m2.body@.len() implies markers_cleared(
                        #[trigger] m2.body@[j],
                    ) by {
                        assert(decreases_to!(a => m.body@[j]));
                        lemma_filter_clears_markers(m.body@[j], m2.body@[j]);
                    }
                } else {
                    assert(impl_item_filtered(impl_items@[i], it2@[i]));
                }
            }
        },
        Decl::Other { .. } => {},
    }
}

} // verus!
