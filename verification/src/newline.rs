//! The two line-ending transforms and their laws.
//!
//! Both transforms are blind, left-to-right, non-overlapping literal
//! substitutions on character sequences: the reader replaces every CR LF
//! pair by a single LF, the writer prefixes every LF — even one already
//! preceded by a CR — with a CR.

use vstd::prelude::*;

verus! {

/// The text after replacing every CR LF pair by a single LF, scanning
/// left to right, non-overlapping; lone CRs and lone LFs pass through.
pub open spec fn crlf_to_lf(s: Seq<char>) -> Seq<char>
    decreases s.len(),
{
    if s.len() == 0 {
        Seq::empty()
    } else if s.len() >= 2 && s[0] == '\r' && s[1] == '\n' {
        seq!['\n'] + crlf_to_lf(s.skip(2))
    } else {
        seq![s[0]] + crlf_to_lf(s.skip(1))
    }
}

/// The text after putting a CR before every LF. The substitution is
/// blind: an LF that already closes a CR LF pair gains a second CR.
pub open spec fn lf_to_crlf(s: Seq<char>) -> Seq<char>
    decreases s.len(),
{
    if s.len() == 0 {
        Seq::empty()
    } else if s[0] == '\n' {
        seq!['\r', '\n'] + lf_to_crlf(s.skip(1))
    } else {
        seq![s[0]] + lf_to_crlf(s.skip(1))
    }
}

/// What the reader emits for clipboard text `s`.
pub open spec fn reader_text_transform(s: Seq<char>, normalize: bool) -> Seq<char> {
    if normalize {
        crlf_to_lf(s)
    } else {
        s
    }
}

/// What the writer stores for decoded input text `s`.
pub open spec fn writer_text_transform(s: Seq<char>, normalize: bool) -> Seq<char> {
    if normalize {
        lf_to_crlf(s)
    } else {
        s
    }
}

/// Some CR LF pair occurs in `s`.
pub open spec fn has_crlf(s: Seq<char>) -> bool {
    exists|i: int| 0 <= i && i + 1 < s.len() && #[trigger] s[i] == '\r' && s[i + 1] == '\n'
}

/// Some LF in `s` is not immediately preceded by a CR.
pub open spec fn has_lone_lf(s: Seq<char>) -> bool {
    exists|i: int| 0 <= i < s.len() && #[trigger] s[i] == '\n' && (i == 0 || s[i - 1] != '\r')
}

/// Somewhere in `s` a CR stands immediately before a CR LF pair.
pub open spec fn has_cr_before_crlf(s: Seq<char>) -> bool {
    exists|i: int|
        0 <= i && i + 2 < s.len() && #[trigger] s[i] == '\r' && s[i + 1] == '\r' && s[i + 2]
            == '\n'
}

/// CR LF removal leaves text without any CR LF pair unchanged: the
/// normalizing reader is a no-op where there is nothing to normalize.
pub proof fn lemma_crlf_to_lf_noop(s: Seq<char>)
    requires
        !has_crlf(s),
    ensures
        crlf_to_lf(s) == s,
        reader_text_transform(s, true) == s,
    decreases s.len(),
{
    if s.len() == 0 {
        assert(crlf_to_lf(s) =~= s);
    } else {
        if s.len() >= 2 && s[0] == '\r' && s[1] == '\n' {
            assert(has_crlf(s));
            assert(false);
        }
        assert forall|j: int|
            !(0 <= j && j + 1 < s.skip(1).len() && #[trigger] s.skip(1)[j] == '\r' && s.skip(1)[j
                + 1] == '\n') by {
            if 0 <= j && j + 1 < s.skip(1).len() && s.skip(1)[j] == '\r' && s.skip(1)[j + 1]
                == '\n' {
                assert(s[j + 1] == '\r' && s[j + 2] == '\n');
                assert(has_crlf(s));
            }
        }
        lemma_crlf_to_lf_noop(s.skip(1));
        assert(seq![s[0]] + s.skip(1) =~= s);
    }
}

/// The reader without normalization is the identity.
pub proof fn lemma_reader_identity_without_normalize(s: Seq<char>)
    ensures
        reader_text_transform(s, false) == s,
{
}

/// The writer without normalization is the identity; in particular it
/// leaves text without a lone LF untouched.
pub proof fn lemma_writer_identity_without_normalize(s: Seq<char>)
    requires
        !has_lone_lf(s),
    ensures
        writer_text_transform(s, false) == s,
{
}

/// The first character of the transformed text: an LF where the text
/// opens with a CR LF pair, else the text's own first character.
proof fn lemma_crlf_to_lf_first(s: Seq<char>)
    requires
        s.len() > 0,
    ensures
        crlf_to_lf(s).len() > 0,
        s.len() >= 2 && s[0] == '\r' && s[1] == '\n' ==> crlf_to_lf(s)[0] == '\n',
        !(s.len() >= 2 && s[0] == '\r' && s[1] == '\n') ==> crlf_to_lf(s)[0] == s[0],
{
}

/// CR LF removal creates no CR LF pair of its own as long as no CR
/// stands immediately before a CR LF pair in the input.
proof fn lemma_no_new_crlf(s: Seq<char>)
    requires
        !has_cr_before_crlf(s),
    ensures
        !has_crlf(crlf_to_lf(s)),
    decreases s.len(),
{
    if s.len() == 0 {
        return ;
    }
    let pair_head = s.len() >= 2 && s[0] == '\r' && s[1] == '\n';
    let tail = if pair_head {
        s.skip(2)
    } else {
        s.skip(1)
    };
    let head: Seq<char> = if pair_head {
        seq!['\n']
    } else {
        seq![s[0]]
    };
    assert(crlf_to_lf(s) == head + crlf_to_lf(tail));
    assert forall|j: int|
        !(0 <= j && j + 2 < tail.len() && #[trigger] tail[j] == '\r' && tail[j + 1] == '\r'
            && tail[j + 2] == '\n') by {
        let d: int = if pair_head {
            2
        } else {
            1
        };
        if 0 <= j && j + 2 < tail.len() && tail[j] == '\r' && tail[j + 1] == '\r' && tail[j + 2]
            == '\n' {
            assert(s[j + d] == '\r' && s[j + d + 1] == '\r' && s[j + d + 2] == '\n');
            assert(has_cr_before_crlf(s));
        }
    }
    lemma_no_new_crlf(tail);
    let res = crlf_to_lf(s);
    if has_crlf(res) {
        let i = choose|i: int|
            0 <= i && i + 1 < res.len() && #[trigger] res[i] == '\r' && res[i + 1] == '\n';
        if i == 0 {
            if pair_head {
                assert(res[0] == '\n');
                assert(false);
            } else {
                assert(res[0] == s[0]);
                assert(s[0] == '\r');
                assert(res[1] == crlf_to_lf(tail)[0]);
                assert(tail.len() > 0) by {
                    assert(crlf_to_lf(tail).len() + 1 == res.len());
                }
                lemma_crlf_to_lf_first(tail);
                if tail.len() >= 2 && tail[0] == '\r' && tail[1] == '\n' {
                    assert(s[1] == '\r' && s[2] == '\n');
                    assert(has_cr_before_crlf(s));
                    assert(false);
                } else {
                    assert(res[1] == tail[0]);
                    assert(s[1] == '\n');
                    assert(false);
                }
            }
        } else {
            assert(res[i] == crlf_to_lf(tail)[i - 1]);
            assert(res[i + 1] == crlf_to_lf(tail)[i]);
            assert(has_crlf(crlf_to_lf(tail)));
            assert(false);
        }
    }
}

/// Applying CR LF removal twice equals applying it once: the
/// normalizing reader is idempotent. The proviso is needed: on text
/// holding a CR immediately before a CR LF pair the first pass itself
/// leaves a fresh CR LF pair behind.
pub proof fn lemma_crlf_to_lf_idempotent(s: Seq<char>)
    requires
        !has_cr_before_crlf(s),
    ensures
        crlf_to_lf(crlf_to_lf(s)) == crlf_to_lf(s),
        reader_text_transform(reader_text_transform(s, true), true) == reader_text_transform(
            s,
            true,
        ),
{
    lemma_no_new_crlf(s);
    lemma_crlf_to_lf_noop(crlf_to_lf(s));
}

/// Replace every CR LF pair in `v` by a single LF, left to right.
pub fn replace_crlf_with_lf(v: &Vec<char>) -> (out: Vec<char>)
    ensures
        out@ == crlf_to_lf(v@),
{
    let mut out: Vec<char> = Vec::new();
    let mut i: usize = 0;
    proof {
        assert(v@.skip(0) =~= v@);
        assert(out@ + crlf_to_lf(v@) =~= crlf_to_lf(v@));
    }
    while i < v.len()
        invariant
            i <= v.len(),
            crlf_to_lf(v@) == out@ + crlf_to_lf(v@.skip(i as int)),
        decreases v.len() - i,
    {
        if v[i] == '\r' && i + 1 < v.len() && v[i + 1] == '\n' {
            out.push('\n');
            proof {
                assert(v@.skip(i as int).skip(2) =~= v@.skip(i as int + 2));
                assert(out@ + crlf_to_lf(v@.skip(i as int + 2)) =~= crlf_to_lf(v@));
            }
            i = i + 2;
        } else {
            out.push(v[i]);
            proof {
                assert(v@.skip(i as int).skip(1) =~= v@.skip(i as int + 1));
                assert(out@ + crlf_to_lf(v@.skip(i as int + 1)) =~= crlf_to_lf(v@));
            }
            i = i + 1;
        }
    }
    proof {
        assert(v@.skip(v@.len() as int) =~= Seq::<char>::empty());
        assert(out@ =~= crlf_to_lf(v@));
    }
    out
}

/// Put a CR before every LF in `v`, blindly (see `lf_to_crlf`).
pub fn naive_lf_to_crlf(v: &Vec<char>) -> (out: Vec<char>)
    ensures
        out@ == lf_to_crlf(v@),
{
    let mut out: Vec<char> = Vec::new();
    let mut i: usize = 0;
    proof {
        assert(v@.skip(0) =~= v@);
        assert(out@ + lf_to_crlf(v@) =~= lf_to_crlf(v@));
    }
    while i < v.len()
        invariant
            i <= v.len(),
            lf_to_crlf(v@) == out@ + lf_to_crlf(v@.skip(i as int)),
        decreases v.len() - i,
    {
        if v[i] == '\n' {
            out.push('\r');
            out.push('\n');
        } else {
            out.push(v[i]);
        }
        proof {
            assert(v@.skip(i as int).skip(1) =~= v@.skip(i as int + 1));
            assert(out@ + lf_to_crlf(v@.skip(i as int + 1)) =~= lf_to_crlf(v@));
        }
        i = i + 1;
    }
    proof {
        assert(v@.skip(v@.len() as int) =~= Seq::<char>::empty());
        assert(out@ =~= lf_to_crlf(v@));
    }
    out
}

} // verus!
