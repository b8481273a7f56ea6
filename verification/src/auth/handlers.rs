//! Request-level helpers of the account API.

use vstd::prelude::*;
use vstd::string::*;

verus! {

/// The query parameters of a sign-in provider's callback.
#[derive(Debug, Clone)]
pub struct OAuthCallbackQuery {
    pub code: String,
    pub state: String,
}

/// The shape of a plausible email address: exactly one `@`, a nonempty
/// local part, and a nonempty domain that contains a dot and neither
/// starts nor ends with one.
pub open spec fn spec_email_shape(s: Seq<char>) -> bool {
    exists|p: int|
        #![trigger s[p]]
        {
            &&& 0 < p
            &&& p + 1 < s.len()
            &&& s[p] == '@'
            &&& (forall|q: int| 0 <= q < s.len() && q != p ==> s[q] != '@')
            &&& (exists|d: int| p < d < s.len() && s[d] == '.')
            &&& s[p + 1] != '.'
            &&& s[s.len() - 1] != '.'
        }
}

/// Whether a string is a plausible email address: the shape above, in
/// at most 254 bytes.
pub fn is_valid_email(email: &str) -> (r: bool)
    ensures
        r == (spec_email_shape(email@) && email.spec_bytes().len() <= 254),
{
    let blen = email.as_bytes().len();
    let len = email.unicode_len();
    let mut at_pos: usize = 0;
    let mut at_count: usize = 0;
    let ghost mut a1: int = 0;
    let ghost mut a2: int = 0;
    let mut i: usize = 0;
    while i < len
        invariant
            len == email@.len(),
            i <= len,
            at_count <= i,
            at_count == 0 ==> forall|j: int| 0 <= j < i ==> email@[j] != '@',
            at_count == 1 ==> at_pos < i && email@[at_pos as int] == '@' && (forall|j: int|
                0 <= j < i && j != at_pos ==> email@[j] != '@'),
            at_count >= 2 ==> 0 <= a1 < i && 0 <= a2 < i && a1 != a2 && email@[a1] == '@'
                && email@[a2] == '@',
        decreases len - i,
    {
        if email.get_char(i) == '@' {
            if at_count == 0 {
                at_pos = i;
            } else if at_count == 1 {
                proof {
                    a1 = at_pos as int;
                    a2 = i as int;
                }
            }
            at_count = at_count + 1;
        }
        i = i + 1;
    }
    if at_count != 1 {
        proof {
            if at_count == 0 {
                assert(!spec_email_shape(email@)) by {
                    if spec_email_shape(email@) {
                        let p = choose|p: int|
                            #![trigger email@[p]]
                            {
                                &&& 0 < p
                                &&& p + 1 < email@.len()
                                &&& email@[p] == '@'
                                &&& (forall|q: int|
                                    0 <= q < email@.len() && q != p ==> email@[q] != '@')
                                &&& (exists|d: int| p < d < email@.len() && email@[d] == '.')
                                &&& email@[p + 1] != '.'
                                &&& email@[email@.len() - 1] != '.'
                            };
                        assert(email@[p] != '@');
                    }
                }
            } else {
                assert(!spec_email_shape(email@)) by {
                    if spec_email_shape(email@) {
                        let p = choose|p: int|
                            #![trigger email@[p]]
                            {
                                &&& 0 < p
                                &&& p + 1 < email@.len()
                                &&& email@[p] == '@'
                                &&& (forall|q: int|
                                    0 <= q < email@.len() && q != p ==> email@[q] != '@')
                                &&& (exists|d: int| p < d < email@.len() && email@[d] == '.')
                                &&& email@[p + 1] != '.'
                                &&& email@[email@.len() - 1] != '.'
                            };
                        if a1 != p {
                            assert(email@[a1] != '@');
                        } else {
                            assert(email@[a2] != '@');
                        }
                    }
                }
            }
        }
        return false;
    }
    // at_pos is the one position of '@'
    if at_pos == 0 || at_pos + 1 >= len {
        proof {
            lemma_shape_at_unique_at(email@, at_pos as int);
        }
        return false;
    }
    if email.get_char(at_pos + 1) == '.' || email.get_char(len - 1) == '.' {
        proof {
            lemma_shape_at_unique_at(email@, at_pos as int);
        }
        return false;
    }
    let mut has_dot = false;
    let mut d: usize = at_pos + 1;
    while d < len
        invariant
            len == email@.len(),
            at_pos + 1 <= d <= len,
            has_dot == (exists|j: int| at_pos < j < d && email@[j] == '.'),
        decreases len - d,
    {
        if email.get_char(d) == '.' {
            has_dot = true;
        }
        d = d + 1;
    }
    if !has_dot {
        proof {
            lemma_shape_at_unique_at(email@, at_pos as int);
        }
        return false;
    }
    proof {
        lemma_shape_at_unique_at(email@, at_pos as int);
    }
    blen <= 254
}

/// Where `p` is the only `@` in `s`, the email shape holds exactly when
/// the remaining conditions hold at `p`.
proof fn lemma_shape_at_unique_at(s: Seq<char>, p: int)
    requires
        0 <= p < s.len(),
        s[p] == '@',
        forall|q: int| 0 <= q < s.len() && q != p ==> s[q] != '@',
    ensures
        spec_email_shape(s) == (0 < p && p + 1 < s.len() && (exists|d: int|
            p < d < s.len() && s[d] == '.') && s[p + 1] != '.' && s[s.len() - 1] != '.'),
{
    if spec_email_shape(s) {
        let w = choose|w: int|
            #![trigger s[w]]
            {
                &&& 0 < w
                &&& w + 1 < s.len()
                &&& s[w] == '@'
                &&& (forall|q: int| 0 <= q < s.len() && q != w ==> s[q] != '@')
                &&& (exists|d: int| w < d < s.len() && s[d] == '.')
                &&& s[w + 1] != '.'
                &&& s[s.len() - 1] != '.'
            };
        assert(w == p);
    }
    if 0 < p && p + 1 < s.len() && (exists|d: int| p < d < s.len() && s[d] == '.') && s[p + 1]
        != '.' && s[s.len() - 1] != '.' {
        assert(s[p] == '@');
        assert(spec_email_shape(s));
    }
}

} // verus!
