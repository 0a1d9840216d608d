use vstd::prelude::*;

verus! {

/// A character that may stand anywhere in an identifier without change.
pub open spec fn is_word_char(c: char) -> bool {
    ('a' <= c && c <= 'z') || ('A' <= c && c <= 'Z') || ('0' <= c && c <= '9') || c == '$'
}

/// A character that may begin an identifier as it is.
pub open spec fn is_lead_char(c: char) -> bool {
    ('a' <= c && c <= 'z') || ('A' <= c && c <= 'Z') || c == '$' || c == '_'
}

/// `s` with each maximal run of non-word characters replaced by one `_`: a
/// non-word character is dropped when another follows it, else it becomes `_`.
pub open spec fn collapse_runs(s: Seq<char>) -> Seq<char>
    decreases s.len(),
{
    if s.len() == 0 {
        s
    } else if is_word_char(s[0]) {
        seq![s[0]] + collapse_runs(s.drop_first())
    } else if s.len() > 1 && !is_word_char(s[1]) {
        collapse_runs(s.drop_first())
    } else {
        seq!['_'] + collapse_runs(s.drop_first())
    }
}

/// `s` with a `_` put in front when its first character cannot begin an identifier.
pub open spec fn guard_lead(s: Seq<char>) -> Seq<char> {
    if s.len() > 0 && !is_lead_char(s[0]) {
        seq!['_'] + s
    } else {
        s
    }
}

/// The identifier made of `s`: a `_` put before a first character outside
/// `[a-zA-Z$_]`, then each run of characters outside `[a-zA-Z0-9$]` replaced by one `_`.
pub open spec fn identifier_of(s: Seq<char>) -> Seq<char> {
    collapse_runs(guard_lead(s))
}

/// A well-formed identifier: non-empty, not led by a digit, and made of word
/// characters and single `_` separators.
pub open spec fn is_identifier(s: Seq<char>) -> bool {
    &&& s.len() > 0
    &&& is_lead_char(s[0])
    &&& is_collapsed(s)
}

/// Every character is a word character or `_`, and no two non-word characters
/// stand side by side.
pub open spec fn is_collapsed(s: Seq<char>) -> bool {
    &&& forall|i: int| 0 <= i < s.len() ==> (is_word_char(#[trigger] s[i]) || s[i] == '_')
    &&& forall|i: int|
        0 <= i < s.len() - 1 && !is_word_char(#[trigger] s[i]) ==> is_word_char(s[i + 1])
}

/// What `sanitize_identifier` returns for `s`.
pub open spec fn sanitized(s: Seq<char>) -> Seq<char> {
    if identifier_of(s).len() == 0 {
        seq!['_']
    } else {
        identifier_of(s)
    }
}

fn word_char(c: char) -> (r: bool)
    ensures
        r == is_word_char(c),
{
    ('a' <= c && c <= 'z') || ('A' <= c && c <= 'Z') || ('0' <= c && c <= '9') || c == '$'
}

fn lead_char(c: char) -> (r: bool)
    ensures
        r == is_lead_char(c),
{
    ('a' <= c && c <= 'z') || ('A' <= c && c <= 'Z') || c == '$' || c == '_'
}

/// Computes `identifier_of(v)`; empty text stays empty.
pub fn to_identifier(v: &str) -> (r: String)
    ensures
        r@ == identifier_of(v@),
{
    let n = v.unicode_len();
    let mut out = String::new();
    proof {
        reveal_strlit("_");
    }
    if n > 0 {
        let c0 = v.get_char(0);
        if !lead_char(c0) && word_char(c0) {
            out.append("_");
        }
        if !lead_char(c0) {
            assert(guard_lead(v@).drop_first() =~= v@);
        }
    }
    assert(v@.subrange(0, n as int) =~= v@);
    let mut i: usize = 0;
    while i < n
        invariant
            n == v@.len(),
            i <= n,
            identifier_of(v@) == out@ + collapse_runs(v@.subrange(i as int, n as int)),
        decreases n - i,
    {
        let c = v.get_char(i);
        let ghost rest = v@.subrange(i as int, n as int);
        assert(rest.drop_first() =~= v@.subrange(i + 1, n as int));
        assert(rest[0] == c);
        let ghost before = out@;
        if word_char(c) {
            let piece = v.substring_char(i, i + 1);
            assert(piece@ =~= seq![c]);
            out.append(piece);
            assert(before + (seq![c] + collapse_runs(rest.drop_first())) =~= out@ + collapse_runs(
                rest.drop_first(),
            ));
        } else if i + 1 < n && !word_char(v.get_char(i + 1)) {
            assert(rest[1] == v@[i + 1]);
        } else {
            if i + 1 < n {
                assert(rest[1] == v@[i + 1]);
            }
            proof {
                reveal_strlit("_");
            }
            out.append("_");
            assert(before + (seq!['_'] + collapse_runs(rest.drop_first())) =~= out@ + collapse_runs(
                rest.drop_first(),
            ));
        }
        i = i + 1;
    }
    assert(v@.subrange(n as int, n as int) =~= Seq::<char>::empty());
    assert(out@ + Seq::<char>::empty() =~= out@);
    out
}

/// Turns any text into a valid identifier, the same one for text that already is one.
pub fn sanitize_identifier(v: &str) -> (r: String)
    ensures
        r@ == sanitized(v@),
        is_identifier(r@),
{
    let id = to_identifier(v);
    proof {
        lemma_identifier_of_is_identifier(v@);
    }
    if id.as_str().unicode_len() == 0 {
        proof {
            lemma_underscore_is_identifier();
            reveal_strlit("_");
        }
        String::from_str("_")
    } else {
        id
    }
}

proof fn lemma_underscore_is_identifier()
    ensures
        is_identifier(seq!['_']),
        sanitized(seq!['_']) == seq!['_'],
{
    let s = seq!['_'];
    assert(s.drop_first() =~= Seq::<char>::empty());
    assert(collapse_runs(Seq::<char>::empty()) == Seq::<char>::empty());
    assert(identifier_of(s) =~= s);
}

proof fn lemma_collapse_runs_shape(s: Seq<char>)
    ensures
        is_collapsed(collapse_runs(s)),
        s.len() == 0 <==> collapse_runs(s).len() == 0,
        s.len() > 0 && is_word_char(s[0]) ==> collapse_runs(s)[0] == s[0],
        s.len() > 0 && !is_word_char(s[0]) ==> collapse_runs(s)[0] == '_',
    decreases s.len(),
{
    if s.len() > 0 {
        let rest = s.drop_first();
        lemma_collapse_runs_shape(rest);
        let t = collapse_runs(rest);
        let c = collapse_runs(s);
        if is_word_char(s[0]) || !(s.len() > 1 && !is_word_char(s[1])) {
            let h = if is_word_char(s[0]) { s[0] } else { '_' };
            assert(c == seq![h] + t);
            if rest.len() > 0 {
                assert(rest[0] == s[1]);
            }
            assert forall|i: int| 0 <= i < c.len() implies (is_word_char(#[trigger] c[i]) || c[i] == '_') by {
                if i > 0 {
                    assert(c[i] == t[i - 1]);
                }
            }
            assert forall|i: int|
                0 <= i < c.len() - 1 && !is_word_char(#[trigger] c[i]) implies is_word_char(c[i + 1]) by {
                if i > 0 {
                    assert(c[i] == t[i - 1]);
                }
                assert(c[i + 1] == t[i]);
            }
        } else {
            assert(rest[0] == s[1]);
        }
    }
}

proof fn lemma_identifier_of_is_identifier(s: Seq<char>)
    ensures
        identifier_of(s).len() > 0 ==> is_identifier(identifier_of(s)),
{
    let g = guard_lead(s);
    lemma_collapse_runs_shape(g);
    if g.len() > 0 {
        assert(is_lead_char(g[0]));
    }
}

/// A string that is already collapsed comes out of `collapse_runs` unchanged.
proof fn lemma_collapse_runs_fixed(s: Seq<char>)
    requires
        is_collapsed(s),
    ensures
        collapse_runs(s) == s,
    decreases s.len(),
{
    if s.len() > 0 {
        let rest = s.drop_first();
        assert(is_collapsed(rest)) by {
            assert forall|i: int| 0 <= i < rest.len() implies (is_word_char(#[trigger] rest[i]) || rest[i] == '_') by {
                assert(rest[i] == s[i + 1]);
            }
            assert forall|i: int|
                0 <= i < rest.len() - 1 && !is_word_char(#[trigger] rest[i]) implies is_word_char(rest[i + 1]) by {
                assert(rest[i] == s[i + 1]);
                assert(rest[i + 1] == s[i + 2]);
            }
        }
        lemma_collapse_runs_fixed(rest);
        if !is_word_char(s[0]) {
            assert(s[0] == '_');
            if s.len() > 1 {
                assert(is_word_char(s[1]));
            }
        }
        assert(collapse_runs(s) =~= s);
    }
}

/// Sanitizing is idempotent, and its result is always a well-formed identifier.
pub proof fn lemma_sanitize_idempotent(s: Seq<char>)
    ensures
        sanitized(sanitized(s)) == sanitized(s),
        is_identifier(sanitized(s)),
{
    lemma_identifier_of_is_identifier(s);
    lemma_underscore_is_identifier();
    let t = sanitized(s);
    assert(is_identifier(t));
    assert(guard_lead(t) == t);
    lemma_collapse_runs_fixed(t);
    assert(identifier_of(t) == t);
}

} // verus!
