use vstd::prelude::*;
use crate::naming::{camel_case, has_double_separator, separator_count, to_camel_case, count_separators};
use crate::self_ty::same_text;

verus! {

broadcast use vstd::std_specs::vec::group_vec_axioms;

/// One comma-separated entry of the configuration arguments. `word` is set
/// where the entry is a bare identifier; `text` is the entry as source text.
#[derive(Clone, Debug, PartialEq, Eq)]
pub struct ConfigArg {
    pub word: Option<String>,
    pub text: String,
}

/// The parsed configuration of one rewrite.
#[derive(Clone, Debug, PartialEq, Eq)]
pub struct SwitchOptions {
    /// Whether imported names are given a camel-style JavaScript name.
    pub camel_case: bool,
    /// The other entries, handed on to the import block's attribute.
    pub other_args: Vec<ConfigArg>,
}

/// The bare word that asks for camel-style names.
pub open spec fn camel_case_word() -> Seq<char> {
    seq!['c', 'a', 'm', 'e', 'l', '_', 'c', 'a', 's', 'e']
}

/// Whether an entry is the bare word `camel_case`.
pub open spec fn is_camel_case_arg(a: ConfigArg) -> bool {
    a.word is Some && a.word->0@ == camel_case_word()
}

/// The entries of `s` other than `camel_case`, in order.
pub open spec fn passed_through(s: Seq<ConfigArg>) -> Seq<ConfigArg>
    decreases s.len(),
{
    if s.len() == 0 {
        Seq::empty()
    } else if is_camel_case_arg(s.last()) {
        passed_through(s.drop_last())
    } else {
        passed_through(s.drop_last()).push(s.last())
    }
}

/// The rename that an identifier gets: none where renaming is off or the
/// identifier holds no separator, else its camel-style form.
pub open spec fn js_name_of(camel: bool, name: Seq<char>) -> Option<Seq<char>> {
    if camel && separator_count(name) > 0 {
        Some(camel_case(name))
    } else {
        None
    }
}

/// Whether renaming `name` reports two separators next to each other.
pub open spec fn rename_reports_double(camel: bool, name: Seq<char>) -> bool {
    camel && separator_count(name) > 0 && has_double_separator(name)
}

/// Whether `r` holds the string `s` exactly where `s` is given.
pub open spec fn option_text_is(r: Option<String>, s: Option<Seq<char>>) -> bool {
    match s {
        Some(t) => r is Some && r->0@ == t,
        None => r is None,
    }
}

/// Whether an entry is the bare word `camel_case`.
fn is_camel_case_entry(a: &ConfigArg) -> (r: bool)
    ensures
        r == is_camel_case_arg(*a),
{
    let word = "camel_case";
    proof {
        reveal_strlit("camel_case");
        assert(word@ =~= camel_case_word());
    }
    match &a.word {
        Some(w) => same_text(w.as_str(), word),
        None => false,
    }
}

impl SwitchOptions {
    /// Reads the configuration entries: the bare word `camel_case` turns
    /// renaming on; every other entry is handed on as it stands, in order.
    pub fn parse(args: Vec<ConfigArg>) -> (r: SwitchOptions)
        ensures
            r.camel_case == exists|i: int|
                0 <= i < args@.len() && #[trigger] is_camel_case_arg(args@[i]),
            r.other_args@ == passed_through(args@),
    {
        let ghost orig = args@;
        let mut rest = args;
        let mut camel = false;
        let mut others: Vec<ConfigArg> = Vec::new();
        while rest.len() > 0
            invariant
                rest@.len() <= orig.len(),
                others@ == passed_through(orig.subrange(0, orig.len() - rest@.len())),
                rest@ == orig.subrange(orig.len() - rest@.len(), orig.len() as int),
                camel == exists|i: int|
                    0 <= i < orig.len() - rest@.len() && #[trigger] is_camel_case_arg(orig[i]),
            decreases rest@.len(),
        {
            let ghost done = orig.len() - rest@.len();
            let a = rest.remove(0);
            assert(orig.subrange(0, done + 1).drop_last() =~= orig.subrange(0, done));
            assert(orig.subrange(0, done + 1).last() == a);
            assert(orig[done] == a);
            if is_camel_case_entry(&a) {
                camel = true;
            } else {
                others.push(a);
            }
            assert(rest@ =~= orig.subrange(orig.len() - rest@.len(), orig.len() as int));
        }
        assert(orig.subrange(0, orig.len() as int) =~= orig);
        SwitchOptions { camel_case: camel, other_args: others }
    }

    /// The JavaScript name to give the import of `name`, if any, and whether
    /// two separators stand next to each other in it (the conversion goes on
    /// all the same).
    pub fn make_js_name_attr(&self, name: &String) -> (r: (Option<String>, bool))
        ensures
            option_text_is(r.0, js_name_of(self.camel_case, name@)),
            r.1 == rename_reports_double(self.camel_case, name@),
    {
        if !self.camel_case {
            return (None, false);
        }
        let underscores = count_separators(name.as_str());
        if underscores == 0 {
            return (None, false);
        }
        let (camel, double) = to_camel_case(name.as_str());
        (Some(camel), double)
    }
}

} // verus!
