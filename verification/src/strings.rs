//! String helpers.

use vstd::prelude::*;
use vstd::string::*;

verus! {

/// Length of `s` once every trailing line feed has been removed.
pub open spec fn trimmed_len(s: Seq<char>) -> nat
    decreases s.len(),
{
    if s.len() > 0 && s.last() == '\n' {
        trimmed_len(s.drop_last())
    } else {
        s.len()
    }
}

/// `s` without its trailing line feeds, followed by exactly one line feed.
pub open spec fn with_single_newline(s: Seq<char>) -> Seq<char> {
    s.subrange(0, trimmed_len(s) as int).push('\n')
}

/// The trimmed length never exceeds the length, and the character before it
/// (if any) is not a line feed.
pub proof fn lemma_trimmed_len(s: Seq<char>)
    ensures
        trimmed_len(s) <= s.len(),
        trimmed_len(s) > 0 ==> s[trimmed_len(s) - 1] != '\n',
        forall|i: int| trimmed_len(s) <= i < s.len() ==> s[i] == '\n',
    decreases s.len(),
{
    if s.len() > 0 && s.last() == '\n' {
        let front = s.drop_last();
        lemma_trimmed_len(front);
        assert forall|i: int| trimmed_len(s) <= i < s.len() implies s[i] == '\n' by {
            if i < front.len() {
                assert(front[i] == s[i]);
            }
        }
    }
}

/// Normalising twice is the same as normalising once.
pub proof fn lemma_single_newline_idempotent(s: Seq<char>)
    ensures
        with_single_newline(with_single_newline(s)) == with_single_newline(s),
{
    lemma_trimmed_len(s);
    let body = s.subrange(0, trimmed_len(s) as int);
    let once = body.push('\n');
    assert(once.drop_last() =~= body);
    assert(trimmed_len(body) == body.len());
    assert(trimmed_len(once) == body.len());
    assert(once.subrange(0, body.len() as int) =~= body);
}

/// Returns `s` ending in exactly one line feed: one is added where none
/// stands at the end, and all but one are removed where several do.
pub fn adjust_single_ending_newline(s: String) -> (r: String)
    ensures
        r@ == with_single_newline(s@),
{
    let n: usize = s.as_str().unicode_len();
    let mut k: usize = n;
    proof {
        assert(s@.subrange(0, n as int) =~= s@);
    }
    while k > 0 && s.as_str().get_char(k - 1) == '\n'
        invariant
            k <= n,
            n == s@.len(),
            trimmed_len(s@) == trimmed_len(s@.subrange(0, k as int)),
        decreases k,
    {
        proof {
            let cur = s@.subrange(0, k as int);
            assert(cur.last() == '\n');
            assert(cur.drop_last() =~= s@.subrange(0, k - 1));
        }
        k = k - 1;
    }
    proof {
        reveal_strlit("\n");
        let cur = s@.subrange(0, k as int);
        assert(trimmed_len(cur) == k);
        assert("\n"@ =~= seq!['\n']);
    }
    if n - k == 1 {
        proof {
            assert(s@ =~= s@.subrange(0, k as int).push('\n'));
        }
        return s;
    }
    let mut r = String::from_str(s.as_str().substring_char(0, k));
    r.append("\n");
    proof {
        assert(r@ =~= s@.subrange(0, k as int).push('\n'));
    }
    r
}

} // verus!
