//! Command-argument templates: substitutes named placeholder tokens such as
//! `{image}` and `{ovmf}` with runtime values inside an ordered argument
//! list, leaving everything else unchanged. Pure string work, no side
//! effects.

use vstd::prelude::*;
use vstd::string::*;

verus! {

/// The pattern `pat` occurs in `s` starting at position `i`.
pub open spec fn match_at(s: Seq<char>, pat: Seq<char>, i: int) -> bool {
    &&& 0 <= i
    &&& i + pat.len() <= s.len()
    &&& s.subrange(i, i + pat.len()) == pat
}

/// The pattern occurs somewhere in `s`.
pub open spec fn occurs(s: Seq<char>, pat: Seq<char>) -> bool {
    exists|i: int| match_at(s, pat, i)
}

/// Every occurrence of `pat` in `s`, taken leftmost-first and without
/// overlap, replaced by `val`. An empty pattern replaces nothing.
pub open spec fn replace_all(s: Seq<char>, pat: Seq<char>, val: Seq<char>) -> Seq<char>
    decreases s.len(),
{
    if pat.len() == 0 || s.len() < pat.len() {
        s
    } else if s.subrange(0, pat.len() as int) == pat {
        val + replace_all(s.subrange(pat.len() as int, s.len() as int), pat, val)
    } else {
        seq![s[0]] + replace_all(s.subrange(1, s.len() as int), pat, val)
    }
}

/// Relies on String::push: appends exactly the given character.
#[verifier::external_body]
fn push_char(s: &mut String, c: char)
    ensures
        final(s)@ == old(s)@.push(c),
{
    s.push(c)
}

/// Whether `pat` occurs in `s` at position `i`, checked character by
/// character.
pub fn matches_at(s: &str, pat: &str, i: usize) -> (r: bool)
    requires
        i + pat@.len() <= s@.len(),
    ensures
        r == match_at(s@, pat@, i as int),
{
    let slen = s.unicode_len();
    let plen = pat.unicode_len();
    let mut j: usize = 0;
    while j < plen
        invariant
            j <= plen,
            slen == s@.len(),
            plen == pat@.len(),
            i + plen <= slen,
            forall|k: int| 0 <= k < j ==> s@[i + k] == pat@[k],
        decreases plen - j,
    {
        if s.get_char(i + j) != pat.get_char(j) {
            proof {
                if match_at(s@, pat@, i as int) {
                    assert(s@.subrange(i as int, i + plen)[j as int] == s@[i + j]);
                }
            }
            return false;
        }
        j += 1;
    }
    proof {
        assert(s@.subrange(i as int, i + plen) =~= pat@);
    }
    true
}

/// Unfolds `replace_all` on the suffix of `s` from `i` when the pattern
/// matches there.
proof fn lemma_replace_all_suffix_match(s: Seq<char>, pat: Seq<char>, val: Seq<char>, i: int)
    requires
        pat.len() >= 1,
        match_at(s, pat, i),
    ensures
        replace_all(s.subrange(i, s.len() as int), pat, val) == val + replace_all(
            s.subrange(i + pat.len(), s.len() as int),
            pat,
            val,
        ),
{
    let t = s.subrange(i, s.len() as int);
    assert(t.subrange(0, pat.len() as int) =~= s.subrange(i, i + pat.len()));
    assert(t.subrange(pat.len() as int, t.len() as int) =~= s.subrange(
        i + pat.len(),
        s.len() as int,
    ));
}

/// Unfolds `replace_all` on the suffix of `s` from `i` when the pattern
/// does not match there: the head character passes through unchanged.
proof fn lemma_replace_all_suffix_skip(s: Seq<char>, pat: Seq<char>, val: Seq<char>, i: int)
    requires
        pat.len() >= 1,
        0 <= i < s.len(),
        !match_at(s, pat, i),
    ensures
        replace_all(s.subrange(i, s.len() as int), pat, val) == seq![s[i]] + replace_all(
            s.subrange(i + 1, s.len() as int),
            pat,
            val,
        ),
{
    let t = s.subrange(i, s.len() as int);
    let u = s.subrange(i + 1, s.len() as int);
    assert(t.subrange(1, t.len() as int) =~= u);
    if t.len() < pat.len() {
        assert(replace_all(t, pat, val) == t);
        assert(u.len() < pat.len());
        assert(replace_all(u, pat, val) == u);
        assert(t =~= seq![s[i]] + u);
    } else {
        assert(t.subrange(0, pat.len() as int) =~= s.subrange(i, i + pat.len()));
        assert(t.subrange(0, pat.len() as int) != pat);
    }
}

/// Every occurrence of the pattern in `s`, leftmost first and without
/// overlap, replaced by `val`; all other characters pass through unchanged.
pub fn substitute(s: &str, pat: &str, val: &str) -> (r: String)
    ensures
        r@ == replace_all(s@, pat@, val@),
{
    let slen = s.unicode_len();
    let plen = pat.unicode_len();
    if plen == 0 {
        return s.to_owned();
    }
    let mut out = String::new();
    let mut i: usize = 0;
    proof {
        assert(s@.subrange(0, slen as int) =~= s@);
        assert(out@ + replace_all(s@, pat@, val@) =~= replace_all(s@, pat@, val@));
    }
    while i < slen
        invariant
            i <= slen,
            slen == s@.len(),
            plen == pat@.len(),
            plen >= 1,
            replace_all(s@, pat@, val@) == out@ + replace_all(
                s@.subrange(i as int, slen as int),
                pat@,
                val@,
            ),
        decreases slen - i,
    {
        let ghost out_before: Seq<char> = out@;
        if plen <= slen - i && matches_at(s, pat, i) {
            out.append(val);
            proof {
                lemma_replace_all_suffix_match(s@, pat@, val@, i as int);
                assert(out@ + replace_all(s@.subrange(i + plen, slen as int), pat@, val@)
                    =~= out_before + replace_all(s@.subrange(i as int, slen as int), pat@, val@));
            }
            i += plen;
        } else {
            let c = s.get_char(i);
            push_char(&mut out, c);
            proof {
                lemma_replace_all_suffix_skip(s@, pat@, val@, i as int);
                assert(out@ + replace_all(s@.subrange(i + 1, slen as int), pat@, val@)
                    =~= out_before + replace_all(s@.subrange(i as int, slen as int), pat@, val@));
            }
            i += 1;
        }
    }
    proof {
        assert(s@.subrange(slen as int, slen as int) =~= Seq::<char>::empty());
    }
    out
}

/// A match one position further into `s` is a match in the tail of `s`.
proof fn lemma_match_at_shift(s: Seq<char>, pat: Seq<char>, i: int)
    requires
        s.len() >= 1,
        0 <= i,
    ensures
        match_at(s, pat, i + 1) <==> match_at(s.subrange(1, s.len() as int), pat, i),
{
    let t = s.subrange(1, s.len() as int);
    if i + 1 + pat.len() <= s.len() {
        assert(s.subrange(i + 1, i + 1 + pat.len()) =~= t.subrange(i, i + pat.len()));
    }
}

/// A string in which the pattern does not occur is left entirely unchanged
/// by replacement.
pub proof fn lemma_replace_all_absent(s: Seq<char>, pat: Seq<char>, val: Seq<char>)
    requires
        !occurs(s, pat),
    ensures
        replace_all(s, pat, val) == s,
    decreases s.len(),
{
    if pat.len() == 0 {
        assert(s.subrange(0, 0) =~= pat);
        assert(match_at(s, pat, 0));
    } else if s.len() < pat.len() {
    } else {
        assert(!match_at(s, pat, 0));
        let t = s.subrange(1, s.len() as int);
        assert(!occurs(t, pat)) by {
            if occurs(t, pat) {
                let i = choose|i: int| match_at(t, pat, i);
                lemma_match_at_shift(s, pat, i);
                assert(match_at(s, pat, i + 1));
            }
        }
        lemma_replace_all_absent(t, pat, val);
        assert(seq![s[0]] + t =~= s);
    }
}

/// Replacement rewrites the leftmost occurrence first: if the pattern's
/// first occurrence in `s` starts at `j`, the result is the unchanged
/// prefix before `j`, then the substituted value, then the replacement of
/// the rest of the string after that occurrence. Applied repeatedly this
/// accounts for every occurrence, with all other characters unchanged.
pub proof fn lemma_replace_all_leftmost(s: Seq<char>, pat: Seq<char>, val: Seq<char>, j: int)
    requires
        pat.len() >= 1,
        match_at(s, pat, j),
        forall|i: int| 0 <= i < j ==> !match_at(s, pat, i),
    ensures
        replace_all(s, pat, val) == s.subrange(0, j) + val + replace_all(
            s.subrange(j + pat.len(), s.len() as int),
            pat,
            val,
        ),
    decreases j,
{
    if j == 0 {
        assert(s.subrange(0, pat.len() as int) =~= pat);
        assert(s.subrange(0, 0) + val =~= val);
    } else {
        assert(!match_at(s, pat, 0));
        assert(s.subrange(0, pat.len() as int) != pat) by {
            if s.subrange(0, pat.len() as int) == pat {
                assert(match_at(s, pat, 0));
            }
        }
        let t = s.subrange(1, s.len() as int);
        lemma_match_at_shift(s, pat, j - 1);
        assert(forall|i: int| 0 <= i < j - 1 ==> !match_at(t, pat, i)) by {
            assert forall|i: int| 0 <= i < j - 1 implies !match_at(t, pat, i) by {
                lemma_match_at_shift(s, pat, i);
            }
        }
        lemma_replace_all_leftmost(t, pat, val, j - 1);
        assert(t.subrange(j - 1 + pat.len(), t.len() as int) =~= s.subrange(
            j + pat.len(),
            s.len() as int,
        ));
        assert(seq![s[0]] + (t.subrange(0, j - 1) + val + replace_all(
            s.subrange(j + pat.len(), s.len() as int),
            pat,
            val,
        )) =~= s.subrange(0, j) + val + replace_all(
            s.subrange(j + pat.len(), s.len() as int),
            pat,
            val,
        ));
    }
}

/// One placeholder binding after the other applied to an argument, in the
/// order the bindings are listed.
pub open spec fn spec_apply_bindings(
    arg: Seq<char>,
    bindings: Seq<(Seq<char>, Seq<char>)>,
) -> Seq<char>
    decreases bindings.len(),
{
    if bindings.len() == 0 {
        arg
    } else {
        spec_apply_bindings(replace_all(arg, bindings[0].0, bindings[0].1), bindings.drop_first())
    }
}

/// An argument in which no binding's placeholder occurs passes through
/// rendering entirely unchanged.
pub proof fn lemma_apply_bindings_absent(arg: Seq<char>, bindings: Seq<(Seq<char>, Seq<char>)>)
    requires
        forall|i: int| 0 <= i < bindings.len() ==> !occurs(arg, #[trigger] bindings[i].0),
    ensures
        spec_apply_bindings(arg, bindings) == arg,
    decreases bindings.len(),
{
    if bindings.len() > 0 {
        assert(!occurs(arg, bindings[0].0));
        lemma_replace_all_absent(arg, bindings[0].0, bindings[0].1);
        assert(forall|i: int|
            0 <= i < bindings.drop_first().len() ==> !occurs(
                arg,
                #[trigger] bindings.drop_first()[i].0,
            ));
        lemma_apply_bindings_absent(arg, bindings.drop_first());
    }
}

/// Substitutes each binding's placeholder with its value throughout the
/// argument, applying the bindings in order.
pub fn apply_bindings(arg: &str, bindings: &Vec<(String, String)>) -> (r: String)
    ensures
        r@ == spec_apply_bindings(arg@, bindings.deep_view()),
{
    let ghost bv: Seq<(Seq<char>, Seq<char>)> = bindings.deep_view();
    let mut r = arg.to_owned();
    let mut i: usize = 0;
    proof {
        assert(bv.subrange(0, bv.len() as int) =~= bv);
    }
    while i < bindings.len()
        invariant
            i <= bindings.len(),
            bv == bindings.deep_view(),
            bv.len() == bindings.len(),
            spec_apply_bindings(arg@, bv) == spec_apply_bindings(
                r@,
                bv.subrange(i as int, bv.len() as int),
            ),
        decreases bindings.len() - i,
    {
        let binding = &bindings[i];
        r = substitute(r.as_str(), binding.0.as_str(), binding.1.as_str());
        proof {
            assert(bv.subrange(i as int, bv.len() as int).drop_first() =~= bv.subrange(
                i + 1,
                bv.len() as int,
            ));
            assert(bv.subrange(i as int, bv.len() as int)[0] == (binding.0@, binding.1@));
        }
        i += 1;
    }
    proof {
        assert(bv.subrange(bv.len() as int, bv.len() as int) =~= Seq::<(
            Seq<char>,
            Seq<char>,
        )>::empty());
    }
    r
}

/// An ordered list of argument strings, some containing placeholder tokens.
/// Rendering substitutes every occurrence of every bound placeholder,
/// preserving the order of the arguments.
pub struct CommandTemplate {
    pub args: Vec<String>,
}

impl CommandTemplate {
    /// What rendering returns: each argument with all bindings applied.
    pub open spec fn spec_render(
        args: Seq<Seq<char>>,
        bindings: Seq<(Seq<char>, Seq<char>)>,
    ) -> Seq<Seq<char>> {
        args.map_values(|a: Seq<char>| spec_apply_bindings(a, bindings))
    }

    pub fn new(args: Vec<String>) -> (t: CommandTemplate)
        ensures
            t.args == args,
    {
        CommandTemplate { args }
    }

    /// Renders the argument list: every occurrence of every bound
    /// placeholder is replaced with its value, the order of the arguments
    /// is kept, and arguments without placeholders pass through unchanged.
    pub fn render(&self, bindings: &Vec<(String, String)>) -> (r: Vec<String>)
        ensures
            r.deep_view() == Self::spec_render(self.args.deep_view(), bindings.deep_view()),
    {
        render_args(&self.args, bindings)
    }
}

/// Renders an argument list as a `CommandTemplate` over it would.
pub fn render_args(args: &Vec<String>, bindings: &Vec<(String, String)>) -> (r: Vec<String>)
    ensures
        r.deep_view() == CommandTemplate::spec_render(args.deep_view(), bindings.deep_view()),
{
    let mut r: Vec<String> = Vec::new();
    let mut i: usize = 0;
    while i < args.len()
        invariant
            i <= args.len(),
            args.deep_view().len() == args.len(),
            r.deep_view() =~= CommandTemplate::spec_render(
                args.deep_view().subrange(0, i as int),
                bindings.deep_view(),
            ),
        decreases args.len() - i,
    {
        let ghost dv_before: Seq<Seq<char>> = r.deep_view();
        let rendered = apply_bindings(args[i].as_str(), bindings);
        r.push(rendered);
        proof {
            assert(r.deep_view() =~= dv_before.push(rendered@));
            assert(args.deep_view()[i as int] == args[i as int]@);
            assert(r.deep_view() =~= CommandTemplate::spec_render(
                args.deep_view().subrange(0, i + 1),
                bindings.deep_view(),
            ));
        }
        i += 1;
    }
    proof {
        assert(args.deep_view().subrange(0, args.deep_view().len() as int) =~= args.deep_view());
    }
    r
}

} // verus!
