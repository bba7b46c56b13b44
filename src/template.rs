use vstd::prelude::*;

verus! {

/// The token of a harness template that stands for the target's name.
pub const TARGET_PLACEHOLDER: &'static str = "###TARGET###";

/// `tok` occurs in `s` at position `i`.
pub open spec fn occurs_at(s: Seq<char>, tok: Seq<char>, i: int) -> bool {
    0 <= i && i + tok.len() <= s.len() && s.subrange(i, i + tok.len()) == tok
}

/// `s` with every occurrence of `tok` replaced by `rep`, scanning from the
/// left, where occurrences do not overlap.
pub open spec fn replaced(s: Seq<char>, tok: Seq<char>, rep: Seq<char>) -> Seq<char>
    decreases s.len(),
{
    if tok.len() == 0 || s.len() < tok.len() {
        s
    } else if s.take(tok.len() as int) == tok {
        rep + replaced(s.skip(tok.len() as int), tok, rep)
    } else {
        seq![s[0]] + replaced(s.skip(1), tok, rep)
    }
}

/// Characters before the first occurrence pass through unchanged.
proof fn lemma_peel(s: Seq<char>, tok: Seq<char>, rep: Seq<char>, k: int)
    requires
        tok.len() > 0,
        0 <= k <= s.len(),
        forall|i: int| 0 <= i < k ==> !#[trigger] occurs_at(s, tok, i),
    ensures
        replaced(s, tok, rep) == s.take(k) + replaced(s.skip(k), tok, rep),
    decreases k,
{
    if k == 0 {
        assert(s.take(0) + s.skip(0) =~= s);
        assert(s.skip(0) =~= s);
        assert(s.take(0) + replaced(s, tok, rep) =~= replaced(s, tok, rep));
    } else {
        lemma_peel(s, tok, rep, k - 1);
        let t = s.skip(k - 1);
        assert(t.skip(1) =~= s.skip(k));
        assert(s.take(k - 1).push(s[k - 1]) =~= s.take(k));
        if t.len() < tok.len() {
            assert(s.take(k - 1) + t =~= s.take(k) + s.skip(k));
        } else {
            assert(t.take(tok.len() as int) =~= s.subrange(k - 1, k - 1 + tok.len()));
            assert(!occurs_at(s, tok, k - 1));
            assert(s.take(k - 1) + (seq![s[k - 1]] + replaced(s.skip(k), tok, rep))
                =~= s.take(k) + replaced(s.skip(k), tok, rep));
        }
    }
}

/// A text in which the token does not occur is left as it is.
pub proof fn lemma_replace_absent(s: Seq<char>, tok: Seq<char>, rep: Seq<char>)
    requires
        tok.len() > 0,
        forall|i: int| !#[trigger] occurs_at(s, tok, i),
    ensures
        replaced(s, tok, rep) == s,
{
    lemma_peel(s, tok, rep, s.len() as int);
    assert(s.take(s.len() as int) =~= s);
    assert(s.skip(s.len() as int).len() == 0);
    assert(s.skip(s.len() as int) + Seq::<char>::empty() =~= Seq::<char>::empty());
    assert(s + Seq::<char>::empty() =~= s);
}

/// A text in which the token occurs exactly once, after `pre`, becomes the
/// text with that one occurrence replaced and nothing else changed.
pub proof fn lemma_replace_single(pre: Seq<char>, tok: Seq<char>, post: Seq<char>, rep: Seq<char>)
    requires
        tok.len() > 0,
        forall|i: int| i != pre.len() ==> !#[trigger] occurs_at(pre + tok + post, tok, i),
    ensures
        replaced(pre + tok + post, tok, rep) == pre + rep + post,
{
    let s = pre + tok + post;
    let n = pre.len() as int;
    lemma_peel(s, tok, rep, n);
    assert(s.take(n) =~= pre);
    let t = s.skip(n);
    assert(t.take(tok.len() as int) =~= tok);
    assert(t.skip(tok.len() as int) =~= post);
    assert forall|i: int| !#[trigger] occurs_at(post, tok, i) by {
        if occurs_at(post, tok, i) {
            let j = n + tok.len() + i;
            assert(s.subrange(j, j + tok.len()) =~= post.subrange(i, i + tok.len()));
            assert(occurs_at(s, tok, j));
        }
    }
    lemma_replace_absent(post, tok, rep);
}

/// Whether `tok` occurs in `text` at position `i`.
fn occurs_at_exec(text: &str, n: usize, tok: &str, m: usize, i: usize) -> (r: bool)
    requires
        n == text@.len(),
        m == tok@.len(),
        i + m <= n,
    ensures
        r == occurs_at(text@, tok@, i as int),
{
    let mut j: usize = 0;
    while j < m
        invariant
            j <= m,
            i + m <= n,
            n == text@.len(),
            m == tok@.len(),
            forall|q: int| 0 <= q < j ==> text@[i + q] == tok@[q],
        decreases m - j,
    {
        if text.get_char(i + j) != tok.get_char(j) {
            assert(text@.subrange(i as int, i + m)[j as int] != tok@[j as int]);
            return false;
        }
        j = j + 1;
    }
    assert(text@.subrange(i as int, i + m) =~= tok@);
    true
}

/// `text` with every occurrence of `token` replaced by `value`.
pub fn replace_token(text: &str, token: &str, value: &str) -> (r: String)
    requires
        token@.len() > 0,
    ensures
        r@ == replaced(text@, token@, value@),
{
    let n = text.unicode_len();
    let m = token.unicode_len();
    let mut out = String::new();
    let mut start: usize = 0;
    let mut i: usize = 0;
    proof {
        assert(text@.skip(0) =~= text@);
        assert(out@ + text@.subrange(0, 0) =~= Seq::<char>::empty());
        assert(Seq::<char>::empty() + replaced(text@, token@, value@) =~= replaced(text@, token@, value@));
    }
    while m <= n - i
        invariant
            n == text@.len(),
            m == token@.len(),
            m > 0,
            start <= i <= n,
            out@ + text@.subrange(start as int, i as int) + replaced(text@.skip(i as int), token@, value@)
                == replaced(text@, token@, value@),
        decreases n - i,
    {
        let t = Ghost(text@.skip(i as int));
        proof {
            assert(t@.take(m as int) =~= text@.subrange(i as int, i + m));
        }
        if occurs_at_exec(text, n, token, m, i) {
            out.append(text.substring_char(start, i));
            out.append(value);
            proof {
                assert(t@.skip(m as int) =~= text@.skip(i + m));
                assert(text@.subrange(i + m, i + m) =~= Seq::<char>::empty());
                assert(out@ + text@.subrange(i + m, i + m) =~= out@);
            }
            i = i + m;
            start = i;
        } else {
            proof {
                assert(t@.skip(1) =~= text@.skip(i + 1));
                assert(text@.subrange(start as int, i as int).push(text@[i as int])
                    =~= text@.subrange(start as int, i + 1));
                assert(out@ + text@.subrange(start as int, i as int) + (seq![t@[0]] + replaced(t@.skip(1), token@, value@))
                    =~= out@ + text@.subrange(start as int, i + 1) + replaced(text@.skip(i + 1), token@, value@));
            }
            i = i + 1;
        }
    }
    proof {
        assert(text@.subrange(start as int, i as int) + text@.skip(i as int) =~= text@.skip(start as int));
    }
    out.append(text.substring_char(start, n));
    proof {
        assert(text@.subrange(start as int, n as int) =~= text@.skip(start as int));
    }
    out
}

/// The harness source for a target: the template with every occurrence of
/// the placeholder replaced by the target's name.
pub fn render_template(template: &str, target_name: &str) -> (r: String)
    ensures
        r@ == replaced(template@, TARGET_PLACEHOLDER@, target_name@),
{
    proof {
        reveal_strlit("###TARGET###");
    }
    replace_token(template, TARGET_PLACEHOLDER, target_name)
}

} // verus!
