use vstd::prelude::*;

use crate::ascii::{ci_equal, eq_ignore_ascii_case};

verus! {

/// The shell-style tokenization of `s`: `None` on erroneous quoting, else the
/// sequence of words. The result depends on the input characters alone.
pub uninterp spec fn splits_of(s: Seq<char>) -> Option<Seq<Seq<char>>>;

/// Relies on shlex::split: quoting-aware word splitting, `None` on erroneous
/// input such as an unclosed quote.
#[verifier::external_body]
pub(crate) fn split_args(s: &str) -> (r: Option<Vec<String>>)
    ensures
        r is Some <==> splits_of(s@) is Some,
        r matches Some(v) ==> splits_of(s@) == Some(v.deep_view()),
{
    shlex::split(s)
}

/// No `'@'` occurs in `t`.
pub open spec fn has_no_at(t: Seq<char>) -> bool {
    forall|j: int| 0 <= j < t.len() ==> t[j] != '@'
}

/// `t` holds exactly one `'@'`, at position `p`.
pub open spec fn single_at(t: Seq<char>, p: int) -> bool {
    0 <= p < t.len() && t[p] == '@' && (forall|j: int|
        0 <= j < t.len() && j != p ==> t[j] != '@')
}

/// A mention suffix is accepted when it names the live bot identity or the
/// fixed fallback alias, case-insensitively.
pub open spec fn mention_match(suffix: Seq<char>, bot: Seq<char>) -> bool {
    ci_equal(suffix, bot) || ci_equal(suffix, "bolide"@)
}

/// Mention normalization of the first token. A token without `'@'` passes
/// through unchanged. A token of the shape `name@suffix`, with exactly one
/// `'@'` and both sides non-empty, becomes `name` when the suffix matches the
/// bot; any other shape, and any suffix that matches neither the bot nor the
/// fallback alias, is rejected.
pub open spec fn normalize_token(t: Seq<char>, bot: Seq<char>) -> Option<Seq<char>> {
    if has_no_at(t) {
        Some(t)
    } else if exists|p: int| single_at(t, p) {
        let p = choose|p: int| single_at(t, p);
        if 0 < p < t.len() - 1 && mention_match(t.skip(p + 1), bot) {
            Some(t.take(p))
        } else {
            None
        }
    } else {
        None
    }
}

/// Applies `normalize_token` to one token.
pub fn normalize_first_token(token: &str, bot: &str) -> (r: Option<String>)
    ensures
        match r {
            Some(t) => normalize_token(token@, bot@) == Some(t@),
            None => normalize_token(token@, bot@) is None,
        },
{
    let len = token.unicode_len();
    let mut i: usize = 0;
    let mut count: usize = 0;
    let mut first: usize = 0;
    while i < len
        invariant
            i <= len,
            len == token@.len(),
            count == 0 ==> forall|j: int| 0 <= j < i ==> token@[j] != '@',
            count == 1 ==> first < i && token@[first as int] == '@' && (forall|j: int|
                0 <= j < i && j != first ==> token@[j] != '@'),
            count >= 2 ==> exists|j1: int, j2: int|
                0 <= j1 < j2 < i && token@[j1] == '@' && token@[j2] == '@',
            count < 2 ==> count <= i,
        decreases len - i,
    {
        if token.get_char(i) == '@' {
            if count == 0 {
                first = i;
            }
            if count < 2 {
                count = count + 1;
            }
        }
        i = i + 1;
    }
    if count == 0 {
        proof {
            assert(has_no_at(token@));
        }
        Some(String::from_str(token))
    } else if count == 1 {
        proof {
            assert(single_at(token@, first as int));
            let p = choose|p: int| single_at(token@, p);
            assert(token@[p] == '@');
            assert(p == first as int);
        }
        if 0 < first && first < len - 1 {
            let suffix = token.substring_char(first + 1, len);
            proof {
                assert(suffix@ =~= token@.skip(first + 1));
            }
            if eq_ignore_ascii_case(suffix, bot) || eq_ignore_ascii_case(suffix, "bolide") {
                let name = token.substring_char(0, first);
                proof {
                    assert(name@ =~= token@.take(first as int));
                }
                Some(name.to_owned())
            } else {
                None
            }
        } else {
            None
        }
    } else {
        proof {
            let (j1, j2) = choose|j1: int, j2: int|
                0 <= j1 < j2 < token@.len() && token@[j1] == '@' && token@[j2] == '@';
            assert(!has_no_at(token@));
            assert forall|p: int| !single_at(token@, p) by {
                if single_at(token@, p) {
                    assert(token@[j1] != '@' || j1 == p);
                    assert(token@[j2] != '@' || j2 == p);
                }
            }
        }
        None
    }
}

/// The invocation derived from the text after the command prefix: the
/// tokenization of the body, with the first token mention-normalized; `None`
/// when tokenization fails, yields no token, or the mention is rejected.
pub open spec fn spec_invocation(body: Seq<char>, bot: Seq<char>) -> Option<Seq<Seq<char>>> {
    match splits_of(body) {
        Option::None => Option::None,
        Option::Some(toks) => if toks.len() == 0 {
            Option::None
        } else {
            match normalize_token(toks[0], bot) {
                Option::None => Option::None,
                Option::Some(t0) => Option::Some(toks.update(0, t0)),
            }
        },
    }
}

/// Tokenizes a command body and normalizes a mention-qualified first token,
/// exactly as `spec_invocation` describes.
pub fn extract_invocation(body: &str, bot: &str) -> (r: Option<Vec<String>>)
    ensures
        match r {
            Some(args) => spec_invocation(body@, bot@) == Some(args.deep_view()) && args@.len()
                > 0,
            None => spec_invocation(body@, bot@) is None,
        },
{
    match split_args(body) {
        None => None,
        Some(mut toks) => {
            if toks.len() == 0 {
                return None;
            }
            let ghost toks0 = toks.deep_view();
            match normalize_first_token(toks[0].as_str(), bot) {
                None => None,
                Some(t0) => {
                    toks.set(0, t0);
                    proof {
                        assert(toks.deep_view() =~~= toks0.update(0, toks@[0]@));
                    }
                    Some(toks)
                },
            }
        },
    }
}

} // verus!
