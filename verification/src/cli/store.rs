//! Where profiles are kept: the file name that holds a profile, which files
//! of the profile directory are profiles, and the order they are listed in.
use vstd::prelude::*;

use crate::cli::args::texts;
use crate::cli::profile::{profile_name, validate_profile_name, ProfileNameError};
use crate::text::{chars_of, push_chars, string_from_chars};

verus! {

broadcast use vstd::seq_lib::group_to_multiset_ensures;

/// The extension of a profile file, with its dot.
pub open spec fn json_suffix() -> Seq<char> {
    seq!['.', 'j', 's', 'o', 'n']
}

/// The profile name a file name stands for: the stem of a file with the
/// extension `json` (a file named only `.json` has no extension).
pub open spec fn json_stem(file_name: Seq<char>) -> Option<Seq<char>> {
    if file_name.len() > 5 && file_name.subrange(file_name.len() - 5, file_name.len() as int)
        == json_suffix() {
        Some(file_name.subrange(0, file_name.len() - 5))
    } else {
        None
    }
}

/// The profile names among file names `names`, in order.
pub open spec fn json_stems(names: Seq<Seq<char>>) -> Seq<Seq<char>>
    decreases names.len(),
{
    if names.len() == 0 {
        Seq::empty()
    } else {
        let prev = json_stems(names.drop_last());
        match json_stem(names.last()) {
            Some(s) => prev.push(s),
            None => prev,
        }
    }
}

/// The profile name that file name `file_name` stands for, if it is a
/// profile file.
pub fn json_profile_stem(file_name: &str) -> (r: Option<String>)
    ensures
        r matches Some(s) ==> json_stem(file_name@) == Some(s@),
        r is None ==> json_stem(file_name@) is None,
{
    let c = chars_of(file_name);
    let n = c.len();
    if n <= 5 {
        return None;
    }
    if c[n - 5] == '.' && c[n - 4] == 'j' && c[n - 3] == 's' && c[n - 2] == 'o' && c[n - 1] == 'n' {
        assert(c@.subrange(n - 5, n as int) =~= json_suffix());
        let mut stem: Vec<char> = Vec::new();
        let mut i: usize = 0;
        while i < n - 5
            invariant
                i <= n - 5,
                n == c@.len(),
                stem@ == c@.subrange(0, i as int),
            decreases n - 5 - i,
        {
            stem.push(c[i]);
            assert(stem@ =~= c@.subrange(0, i + 1));
            i = i + 1;
        }
        Some(string_from_chars(&stem))
    } else {
        assert(c@.subrange(n - 5, n as int) != json_suffix()) by {
            let t = c@.subrange(n - 5, n as int);
            if t == json_suffix() {
                assert(t[0] == c@[n - 5]);
                assert(t[1] == c@[n - 4]);
                assert(t[2] == c@[n - 3]);
                assert(t[3] == c@[n - 2]);
                assert(t[4] == c@[n - 1]);
            }
        }
        None
    }
}

/// The file name that holds profile `name`: the name as validated, then
/// `.json`.
pub open spec fn profile_file(name: Seq<char>) -> Result<Seq<char>, ProfileNameError> {
    match profile_name(name) {
        Ok(n) => Ok(n + json_suffix()),
        Err(e) => Err(e),
    }
}

/// The file name that holds profile `name`, or why the name is refused.
pub fn profile_file_name(name: &str) -> (r: Result<String, ProfileNameError>)
    ensures
        match (r, profile_file(name@)) {
            (Ok(f), Ok(g)) => f@ == g,
            (Err(e), Err(f)) => e == f,
            _ => false,
        },
{
    match validate_profile_name(name) {
        Ok(safe) => {
            let mut v = chars_of(safe.as_str());
            v.push('.');
            v.push('j');
            v.push('s');
            v.push('o');
            v.push('n');
            assert(v@ =~= safe@ + json_suffix());
            Ok(string_from_chars(&v))
        },
        Err(e) => Err(e),
    }
}

/// Whether `a` comes before `b` or equals it, comparing character by
/// character by code point, a prefix first (the order of `str`).
pub open spec fn lex_le(a: Seq<char>, b: Seq<char>) -> bool
    decreases a.len(),
{
    if a.len() == 0 {
        true
    } else if b.len() == 0 {
        false
    } else if a[0] != b[0] {
        (a[0] as u32) < (b[0] as u32)
    } else {
        lex_le(a.drop_first(), b.drop_first())
    }
}

/// Of two texts, one comes first.
pub proof fn lemma_lex_total(a: Seq<char>, b: Seq<char>)
    ensures
        lex_le(a, b) || lex_le(b, a),
    decreases a.len(),
{
    if a.len() > 0 && b.len() > 0 {
        if a[0] == b[0] {
            lemma_lex_total(a.drop_first(), b.drop_first());
        } else if (a[0] as u32) == (b[0] as u32) {
            vstd::utf8::char_u32_cast(a[0], a[0] as u32);
            vstd::utf8::char_u32_cast(b[0], b[0] as u32);
        }
    }
}

/// The order is transitive.
pub proof fn lemma_lex_trans(a: Seq<char>, b: Seq<char>, c: Seq<char>)
    requires
        lex_le(a, b),
        lex_le(b, c),
    ensures
        lex_le(a, c),
    decreases a.len(),
{
    if a.len() > 0 && b.len() > 0 && c.len() > 0 && a[0] == b[0] && b[0] == c[0] {
        lemma_lex_trans(a.drop_first(), b.drop_first(), c.drop_first());
    }
}

/// Whether `a` comes before `b` or equals it.
pub fn str_le(a: &str, b: &str) -> (r: bool)
    ensures
        r == lex_le(a@, b@),
{
    let va = chars_of(a);
    let vb = chars_of(b);
    let mut i: usize = 0;
    assert(va@.skip(0) =~= va@);
    assert(vb@.skip(0) =~= vb@);
    while i < va.len() && i < vb.len()
        invariant
            va@ == a@,
            vb@ == b@,
            i <= va@.len(),
            i <= vb@.len(),
            lex_le(va@, vb@) == lex_le(va@.skip(i as int), vb@.skip(i as int)),
        decreases va@.len() - i,
    {
        if va[i] != vb[i] {
            assert(va@.skip(i as int)[0] == va@[i as int]);
            assert(vb@.skip(i as int)[0] == vb@[i as int]);
            return (va[i] as u32) < (vb[i] as u32);
        }
        assert(va@.skip(i as int).drop_first() =~= va@.skip(i + 1));
        assert(vb@.skip(i as int).drop_first() =~= vb@.skip(i + 1));
        i = i + 1;
    }
    i == va.len()
}

/// Every text comes before or equals the ones after it.
pub open spec fn sorted_texts(s: Seq<Seq<char>>) -> bool {
    forall|i: int, j: int| 0 <= i < j < s.len() ==> lex_le(#[trigger] s[i], #[trigger] s[j])
}

/// Insert `x` into the sorted `v` after every text that comes before or
/// equals it.
fn insert_sorted(v: &mut Vec<String>, x: String)
    requires
        sorted_texts(texts(old(v)@)),
    ensures
        sorted_texts(texts(final(v)@)),
        texts(final(v)@).to_multiset() == texts(old(v)@).to_multiset().insert(x@),
{
    let ghost before = texts(v@);
    let mut p: usize = 0;
    while p < v.len()
        invariant
            p <= v@.len(),
            before == texts(v@),
            forall|k: int| 0 <= k < p ==> lex_le(#[trigger] before[k], x@),
        ensures
            p <= v@.len(),
            forall|k: int| 0 <= k < p ==> lex_le(#[trigger] before[k], x@),
            p < v@.len() ==> !lex_le(before[p as int], x@),
        decreases v@.len() - p,
    {
        if !str_le(v[p].as_str(), x.as_str()) {
            break;
        }
        p = p + 1;
    }
    let ghost xs = x@;
    proof {
        if p < before.len() {
            assert(!lex_le(before[p as int], xs));
            lemma_lex_total(before[p as int], xs);
        }
    }
    v.insert(p, x);
    let ghost after = texts(v@);
    assert(after =~= before.insert(p as int, xs));
    assert forall|i: int, j: int| 0 <= i < j < after.len() implies lex_le(
        #[trigger] after[i],
        #[trigger] after[j],
    ) by {
        if j < p {
            assert(after[i] == before[i] && after[j] == before[j]);
        } else if j == p {
            assert(after[i] == before[i]);
        } else if i == p {
            assert(after[j] == before[j - 1]);
            if j - 1 > p {
                lemma_lex_trans(xs, before[p as int], before[j - 1]);
            }
        } else if i < p {
            assert(after[i] == before[i] && after[j] == before[j - 1]);
        } else {
            assert(after[i] == before[i - 1] && after[j] == before[j - 1]);
        }
    }
}

/// The names of the saved profiles among the file names of the profile
/// directory: the stems of the `json` files, in order by `str`'s order.
pub fn profile_names(file_names: &Vec<String>) -> (r: Vec<String>)
    ensures
        sorted_texts(texts(r@)),
        texts(r@).to_multiset() == json_stems(texts(file_names@)).to_multiset(),
{
    let mut names: Vec<String> = Vec::new();
    let mut i: usize = 0;
    while i < file_names.len()
        invariant
            i <= file_names@.len(),
            sorted_texts(texts(names@)),
            texts(names@).to_multiset() == json_stems(texts(file_names@.take(i as int))).to_multiset(),
        decreases file_names@.len() - i,
    {
        assert(texts(file_names@.take(i + 1)).drop_last() =~= texts(file_names@.take(i as int)));
        match json_profile_stem(file_names[i].as_str()) {
            Some(stem) => {
                insert_sorted(&mut names, stem);
            },
            None => {},
        }
        i = i + 1;
    }
    assert(file_names@.take(file_names@.len() as int) =~= file_names@);
    names
}

/// A saved profile is listed under its name: the file that holds profile
/// `name` stands for the validated name.
pub proof fn lemma_profile_file_listed(name: Seq<char>)
    ensures
        profile_file(name) matches Ok(f) ==> profile_name(name) matches Ok(n) && json_stem(f) == Some(n),
{
    match profile_name(name) {
        Ok(n) => {
            let f = n + json_suffix();
            assert(vstd::utf8::encode_utf8(n).len() > 0);
            if n.len() == 0 {
                assert(n =~= Seq::<char>::empty());
                assert(vstd::utf8::encode_utf8(n) =~= Seq::<u8>::empty()) by {
                    reveal_with_fuel(vstd::utf8::encode_utf8, 1);
                }
            }
            assert(f.subrange(f.len() - 5, f.len() as int) =~= json_suffix());
            assert(f.subrange(0, f.len() - 5) =~= n);
        },
        Err(_) => {},
    }
}

} // verus!
