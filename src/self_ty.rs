use vstd::prelude::*;
use crate::decl::Ty;

verus! {

broadcast use vstd::std_specs::vec::group_vec_axioms;

/// The placeholder that names the implementing type inside an impl.
pub open spec fn self_word() -> Seq<char> {
    seq!['S', 'e', 'l', 'f']
}

/// Whether a path is the bare placeholder `Self`.
pub open spec fn is_self_path(segments: Seq<String>, lifetimes: Seq<String>, args: Seq<Ty>) -> bool {
    segments.len() == 1 && segments[0]@ == self_word() && lifetimes.len() == 0 && args.len() == 0
}

/// Whether the placeholder occurs anywhere in `t`, outside the source text
/// of `Other` types and array lengths.
pub open spec fn mentions_self(t: Ty) -> bool
    decreases t,
{
    match t {
        Ty::Path { segments, lifetimes, args } => is_self_path(segments@, lifetimes@, args@)
            || exists|i: int| #![trigger args@[i]] 0 <= i < args@.len() && mentions_self(args@[i]),
        Ty::Ref { elem, .. } => mentions_self(*elem),
        Ty::Ptr { elem, .. } => mentions_self(*elem),
        Ty::Slice { elem } => mentions_self(*elem),
        Ty::Array { elem, .. } => mentions_self(*elem),
        Ty::Tuple { elems } => exists|i: int|
            #![trigger elems@[i]]
            0 <= i < elems@.len() && mentions_self(elems@[i]),
        Ty::BareFn { inputs, output, .. } => (exists|i: int|
            #![trigger inputs@[i]]
            0 <= i < inputs@.len() && mentions_self(inputs@[i])) || match output {
            Some(o) => mentions_self(*o),
            None => false,
        },
        Ty::Other { .. } => false,
    }
}

/// `b` is `a` with every occurrence of the placeholder replaced by the path
/// of the single identifier `name`, at any depth, and nothing else changed.
pub open spec fn substituted(a: Ty, b: Ty, name: Seq<char>) -> bool
    decreases a,
{
    match a {
        Ty::Path { segments, lifetimes, args } => match b {
            Ty::Path { segments: s2, lifetimes: l2, args: a2 } => if is_self_path(
                segments@,
                lifetimes@,
                args@,
            ) {
                s2@.len() == 1 && s2@[0]@ == name && l2@.len() == 0 && a2@.len() == 0
            } else {
                s2 == segments && l2 == lifetimes && a2@.len() == args@.len() && forall|i: int|
                    #![trigger args@[i]]
                    0 <= i < args@.len() ==> substituted(args@[i], a2@[i], name)
            },
            _ => false,
        },
        Ty::Ref { lifetime, mutable, elem } => match b {
            Ty::Ref { lifetime: l2, mutable: m2, elem: e2 } => l2 == lifetime && m2 == mutable
                && substituted(*elem, *e2, name),
            _ => false,
        },
        Ty::Ptr { mutable, elem } => match b {
            Ty::Ptr { mutable: m2, elem: e2 } => m2 == mutable && substituted(*elem, *e2, name),
            _ => false,
        },
        Ty::Slice { elem } => match b {
            Ty::Slice { elem: e2 } => substituted(*elem, *e2, name),
            _ => false,
        },
        Ty::Array { elem, len } => match b {
            Ty::Array { elem: e2, len: n2 } => n2 == len && substituted(*elem, *e2, name),
            _ => false,
        },
        Ty::Tuple { elems } => match b {
            Ty::Tuple { elems: e2 } => e2@.len() == elems@.len() && forall|i: int|
                #![trigger elems@[i]]
                0 <= i < elems@.len() ==> substituted(elems@[i], e2@[i], name),
            _ => false,
        },
        Ty::BareFn { prefix, inputs, output } => match b {
            Ty::BareFn { prefix: p2, inputs: i2, output: o2 } => p2 == prefix && i2@.len()
                == inputs@.len() && (forall|i: int|
                #![trigger inputs@[i]]
                0 <= i < inputs@.len() ==> substituted(inputs@[i], i2@[i], name)) && match output {
                Some(o) => o2 is Some && substituted(*o, *o2->0, name),
                None => o2 is None,
            },
            _ => false,
        },
        Ty::Other { .. } => b == a,
    }
}

/// Whether `s` and `w` hold the same characters.
pub fn same_text(s: &str, w: &str) -> (r: bool)
    ensures
        r == (s@ == w@),
{
    let n = s.unicode_len();
    let m = w.unicode_len();
    if n != m {
        return false;
    }
    let mut i: usize = 0;
    while i < n
        invariant
            n == s@.len(),
            m == w@.len(),
            n == m,
            i <= n,
            forall|k: int| 0 <= k < i ==> s@[k] == w@[k],
        decreases n - i,
    {
        if s.get_char(i) != w.get_char(i) {
            return false;
        }
        i = i + 1;
    }
    assert(s@ =~= w@);
    true
}

/// Whether a path is the bare placeholder `Self`.
pub fn is_self(segments: &Vec<String>, lifetimes: &Vec<String>, args: &Vec<Ty>) -> (r: bool)
    ensures
        r == is_self_path(segments@, lifetimes@, args@),
{
    if segments.len() != 1 || lifetimes.len() != 0 || args.len() != 0 {
        return false;
    }
    let word = "Self";
    proof {
        reveal_strlit("Self");
        assert(word@ =~= self_word());
    }
    same_text(segments[0].as_str(), word)
}

/// Replaces each type of `ts`, in order, as `replace_self_with_ty` does.
fn replace_self_in_all(ts: Vec<Ty>, name: &String, Ghost(outer): Ghost<Ty>) -> (r: Vec<Ty>)
    requires
        forall|i: int| 0 <= i < ts@.len() ==> decreases_to!(outer => #[trigger] ts@[i]),
    ensures
        r@.len() == ts@.len(),
        forall|i: int| 0 <= i < ts@.len() ==> substituted(#[trigger] ts@[i], r@[i], name@),
    decreases outer, 0nat,
{
    let ghost orig = ts@;
    let mut rest = ts;
    let mut out: Vec<Ty> = Vec::new();
    while rest.len() > 0
        invariant
            out@.len() + rest@.len() == orig.len(),
            rest@ == orig.subrange(out@.len() as int, orig.len() as int),
            forall|i: int| 0 <= i < orig.len() ==> decreases_to!(outer => #[trigger] orig[i]),
            forall|i: int| 0 <= i < out@.len() ==> substituted(#[trigger] orig[i], out@[i], name@),
        decreases rest@.len(),
    {
        let t = rest.remove(0);
        assert(t == orig[out@.len() as int]);
        let u = replace_self_with_ty(t, name);
        out.push(u);
    }
    out
}

/// Rewrites `ty` so that each occurrence of `Self`, at any depth, names the
/// type `name` instead.
pub fn replace_self_with_ty(ty: Ty, name: &String) -> (r: Ty)
    ensures
        substituted(ty, r, name@),
    decreases ty, 1nat,
{
    let ghost orig = ty;
    match ty {
        Ty::Path { segments, lifetimes, args } => {
            if is_self(&segments, &lifetimes, &args) {
                let mut one: Vec<String> = Vec::new();
                one.push(name.clone());
                Ty::Path { segments: one, lifetimes: Vec::new(), args: Vec::new() }
            } else {
                let new_args = replace_self_in_all(args, name, Ghost(orig));
                Ty::Path { segments, lifetimes, args: new_args }
            }
        },
        Ty::Ref { lifetime, mutable, elem } => {
            let e = replace_self_with_ty(*elem, name);
            Ty::Ref { lifetime, mutable, elem: Box::new(e) }
        },
        Ty::Ptr { mutable, elem } => {
            let e = replace_self_with_ty(*elem, name);
            Ty::Ptr { mutable, elem: Box::new(e) }
        },
        Ty::Slice { elem } => {
            let e = replace_self_with_ty(*elem, name);
            Ty::Slice { elem: Box::new(e) }
        },
        Ty::Array { elem, len } => {
            let e = replace_self_with_ty(*elem, name);
            Ty::Array { elem: Box::new(e), len }
        },
        Ty::Tuple { elems } => {
            let new_elems = replace_self_in_all(elems, name, Ghost(orig));
            Ty::Tuple { elems: new_elems }
        },
        Ty::BareFn { prefix, inputs, output } => {
            let new_inputs = replace_self_in_all(inputs, name, Ghost(orig));
            let new_output = match output {
                Some(o) => Some(Box::new(replace_self_with_ty(*o, name))),
                None => None,
            };
            Ty::BareFn { prefix, inputs: new_inputs, output: new_output }
        },
        Ty::Other { text } => Ty::Other { text },
    }
}

/// After substitution by an identifier other than the placeholder itself, no
/// placeholder is left anywhere in the type.
pub proof fn lemma_substitution_leaves_no_self(a: Ty, b: Ty, name: Seq<char>)
    requires
        substituted(a, b, name),
        name != self_word(),
    ensures
        !mentions_self(b),
    decreases a,
{
    match a {
        Ty::Path { segments, lifetimes, args } => {
            if !is_self_path(segments@, lifetimes@, args@) {
                let a2 = b->Path_args;
                assert forall|i: int| 0 <= i < a2@.len() implies !mentions_self(#[trigger] a2@[i]) by {
                    lemma_substitution_leaves_no_self(args@[i], a2@[i], name);
                }
            }
        },
        Ty::Ref { elem, .. } => {
            lemma_substitution_leaves_no_self(*elem, *b->Ref_elem, name);
        },
        Ty::Ptr { elem, .. } => {
            lemma_substitution_leaves_no_self(*elem, *b->Ptr_elem, name);
        },
        Ty::Slice { elem } => {
            lemma_substitution_leaves_no_self(*elem, *b->Slice_elem, name);
        },
        Ty::Array { elem, .. } => {
            lemma_substitution_leaves_no_self(*elem, *b->Array_elem, name);
        },
        Ty::Tuple { elems } => {
            let e2 = b->Tuple_elems;
            assert forall|i: int| 0 <= i < e2@.len() implies !mentions_self(#[trigger] e2@[i]) by {
                lemma_substitution_leaves_no_self(elems@[i], e2@[i], name);
            }
        },
        Ty::BareFn { inputs, output, .. } => {
            let i2 = b->BareFn_inputs;
            assert forall|i: int| 0 <= i < i2@.len() implies !mentions_self(#[trigger] i2@[i]) by {
                lemma_substitution_leaves_no_self(inputs@[i], i2@[i], name);
            }
            if let Some(o) = output {
                lemma_substitution_leaves_no_self(*o, *b->BareFn_output->0, name);
            }
        },
        Ty::Other { .. } => {},
    }
}

} // verus!
