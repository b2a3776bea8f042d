use vstd::prelude::*;

verus! {

/// The character that separates words in a snake-style identifier.
pub open spec fn is_separator(c: char) -> bool {
    c == '_'
}

/// Number of separators in `s`.
pub open spec fn separator_count(s: Seq<char>) -> nat
    decreases s.len(),
{
    if s.len() == 0 {
        0
    } else {
        separator_count(s.drop_last()) + if is_separator(s.last()) {
            1nat
        } else {
            0nat
        }
    }
}

/// The characters that `char::to_uppercase` yields for `c`.
pub uninterp spec fn upper_of(c: char) -> Seq<char>;

/// Camel-style form of `s`, read left to right, where `ups[i]` is the
/// upper-case form of `s[i]`; `pending` says that the character before `s`
/// was a separator, so the first character of `s` is upper-cased. Separators
/// that start a word are dropped.
pub open spec fn camel_with(s: Seq<char>, ups: Seq<Seq<char>>, pending: bool) -> Seq<char>
    decreases s.len(),
{
    if s.len() == 0 {
        Seq::empty()
    } else if pending {
        ups[0] + camel_with(s.drop_first(), ups.drop_first(), false)
    } else if is_separator(s[0]) {
        camel_with(s.drop_first(), ups.drop_first(), true)
    } else {
        seq![s[0]] + camel_with(s.drop_first(), ups.drop_first(), false)
    }
}

/// The upper-case form of each character of `s`.
pub open spec fn uppers_of(s: Seq<char>) -> Seq<Seq<char>> {
    Seq::new(s.len(), |i: int| upper_of(s[i]))
}

/// Camel-style form of a snake-style identifier: each separator is removed and
/// the character after it is upper-cased.
pub open spec fn camel_case(s: Seq<char>) -> Seq<char> {
    camel_with(s, uppers_of(s), false)
}

/// Whether two separators stand next to each other in `s`.
pub open spec fn has_double_separator(s: Seq<char>) -> bool {
    exists|j: int| #![trigger s[j]] 0 <= j && j + 1 < s.len() && is_separator(s[j]) && is_separator(s[j + 1])
}

/// Relies on `char::to_uppercase`: the characters of the upper-case mapping of
/// `c`, which depend on `c` alone.
#[verifier::external_body]
fn uppercase(c: char) -> (r: String)
    ensures
        r@ == upper_of(c),
{
    c.to_uppercase().collect::<String>()
}

/// Relies on `String::push`: appends one character.
#[verifier::external_body]
pub(crate) fn push_char(s: &mut String, c: char)
    ensures
        final(s)@ == old(s)@.push(c),
{
    s.push(c)
}

/// Counts the separators of an identifier.
pub fn count_separators(s: &str) -> (r: usize)
    ensures
        r as nat == separator_count(s@),
{
    let n = s.unicode_len();
    let mut i: usize = 0;
    let mut count: usize = 0;
    while i < n
        invariant
            n == s@.len(),
            i <= n,
            count as nat == separator_count(s@.subrange(0, i as int)),
            count <= i,
        decreases n - i,
    {
        let c = s.get_char(i);
        proof {
            assert(s@.subrange(0, i + 1).drop_last() =~= s@.subrange(0, i as int));
        }
        if c == '_' {
            count = count + 1;
        }
        i = i + 1;
    }
    assert(s@.subrange(0, n as int) =~= s@);
    count
}

/// Converts a snake-style identifier to camel style, where `uppers[i]` is
/// the upper-case form to use for the `i`-th character of `name`. The second
/// part of the result says whether two separators stand next to each other in
/// `name`; the conversion then goes on, and upper-cases the second separator.
pub fn camel_case_with(name: &str, uppers: &Vec<String>) -> (r: (String, bool))
    requires
        uppers@.len() == name@.len(),
    ensures
        r.0@ == camel_with(name@, uppers@.map_values(|u: String| u@), false),
        r.1 == has_double_separator(name@),
{
    let n = name.unicode_len();
    let ghost s = name@;
    let ghost ups = uppers@.map_values(|u: String| u@);
    let mut out = String::new();
    let mut pending = false;
    let mut found = false;
    let mut i: usize = 0;
    assert(s.subrange(0, n as int) =~= s);
    assert(ups.subrange(0, n as int) =~= ups);
    assert(out@ + camel_with(s, ups, false) =~= camel_with(s, ups, false));
    while i < n
        invariant
            n == s.len(),
            s == name@,
            ups == uppers@.map_values(|u: String| u@),
            ups.len() == n,
            i <= n,
            out@ + camel_with(s.subrange(i as int, n as int), ups.subrange(i as int, n as int), pending)
                == camel_with(s, ups, false),
            pending ==> i > 0 && is_separator(s[i - 1]),
            (i > 0 && is_separator(s[i - 1]) && !pending) ==> found,
            found == exists|j: int| #![trigger s[j]] 0 <= j && j + 1 < i && is_separator(s[j]) && is_separator(s[j + 1]),
        decreases n - i,
    {
        let c = name.get_char(i);
        assert(s.subrange(i as int, n as int).drop_first() =~= s.subrange(i + 1, n as int));
        assert(ups.subrange(i as int, n as int).drop_first() =~= ups.subrange(i + 1, n as int));
        if pending {
            if c == '_' {
                assert(is_separator(s[i - 1]) && is_separator(s[(i - 1) + 1]));
                found = true;
            }
            out.append(uppers[i].as_str());
            pending = false;
            assert(out@ + camel_with(s.subrange(i + 1, n as int), ups.subrange(i + 1, n as int), pending)
                =~= camel_with(s, ups, false));
        } else if c == '_' {
            pending = true;
        } else {
            push_char(&mut out, c);
            assert(out@ + camel_with(s.subrange(i + 1, n as int), ups.subrange(i + 1, n as int), pending)
                =~= camel_with(s, ups, false));
        }
        i = i + 1;
    }
    assert(s.subrange(n as int, n as int) =~= Seq::<char>::empty());
    assert(out@ =~= camel_with(s, ups, false));
    (out, found)
}

/// Converts a snake-style identifier to camel style. The second part of the
/// result says whether two separators stand next to each other in `name`;
/// the conversion then goes on, and upper-cases the second separator.
pub fn to_camel_case(name: &str) -> (r: (String, bool))
    ensures
        r.0@ == camel_case(name@),
        r.1 == has_double_separator(name@),
{
    let n = name.unicode_len();
    let mut uppers: Vec<String> = Vec::new();
    let mut i: usize = 0;
    while i < n
        invariant
            n == name@.len(),
            i <= n,
            uppers@.len() == i,
            forall|k: int| 0 <= k < i ==> (#[trigger] uppers@[k])@ == upper_of(name@[k]),
        decreases n - i,
    {
        uppers.push(uppercase(name.get_char(i)));
        i = i + 1;
    }
    let r = camel_case_with(name, &uppers);
    assert(uppers@.map_values(|u: String| u@) =~= uppers_of(name@));
    r
}

/// An identifier with a separator at position `j` has a positive
/// separator count.
pub proof fn lemma_separator_count_positive(s: Seq<char>, j: int)
    requires
        0 <= j < s.len(),
        is_separator(s[j]),
    ensures
        separator_count(s) > 0,
    decreases s.len(),
{
    if j < s.len() - 1 {
        assert(s.drop_last()[j] == s[j]);
        lemma_separator_count_positive(s.drop_last(), j);
    }
}

} // verus!
