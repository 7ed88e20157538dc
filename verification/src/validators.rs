//! Email shape validation: `local-part@domain-with-dot`, the final domain
//! label two to four letters. Intentionally permissive, not RFC-complete.
//!
//! The shape is stated declaratively by [`is_email_spec`] and the checker
//! [`is_email`] is proved to decide exactly that predicate.
//!
//! The alphabet is deliberately ASCII: every admitted character class
//! below contains ASCII characters only, so an address with a character
//! beyond ASCII is rejected. A Unicode-aware word class has no exact
//! statement here, and an unstated class would leave the proof saying
//! less than it seems to; the ASCII grammar is what is stated and what
//! is proved.

use vstd::prelude::*;

verus! {

/// A word character: an ASCII letter, a digit, or an underscore — and
/// nothing beyond ASCII, by design.
pub open spec fn is_word_char(c: char) -> bool {
    ('a' <= c && c <= 'z') || ('A' <= c && c <= 'Z') || ('0' <= c && c <= '9') || c == '_'
}

/// A character the local part admits.
pub open spec fn is_local_char(c: char) -> bool {
    is_word_char(c) || c == '.' || c == '-'
}

/// A character a domain label admits.
pub open spec fn is_label_char(c: char) -> bool {
    is_word_char(c) || c == '-'
}

/// An ASCII letter.
pub open spec fn is_alpha(c: char) -> bool {
    ('a' <= c && c <= 'z') || ('A' <= c && c <= 'Z')
}

/// Everything after position `p` is a letter, and there are two to four
/// such letters: `s[p..]` closes the domain with `.` + final label.
pub open spec fn final_label_ok(s: Seq<char>, p: int) -> bool {
    let n = s.len() as int;
    &&& 2 <= n - p - 1 <= 4
    &&& (forall|j: int| p < j < n ==> is_alpha(#[trigger] s[j]))
}

/// `s[b..]` is a well-formed domain: one or more nonempty labels over
/// label characters, each followed by a dot, closed by a final label of
/// two to four letters.
pub open spec fn domain_ok(s: Seq<char>, b: int) -> bool {
    let n = s.len() as int;
    &&& b < n
    &&& (forall|j: int| b <= j < n ==> is_label_char(#[trigger] s[j]) || s[j] == '.')
    &&& s[b] != '.'
    &&& (forall|j: int| b < j < n && #[trigger] s[j] == '.' ==> s[j - 1] != '.')
    &&& (exists|p: int| b <= p < n && #[trigger] s[p] == '.' && final_label_ok(s, p))
}

/// `s` splits at position `i` into a nonempty local part, an `@`, and a
/// well-formed domain.
pub open spec fn at_split(s: Seq<char>, i: int) -> bool {
    &&& 0 < i < s.len()
    &&& s[i] == '@'
    &&& (forall|j: int| 0 <= j < i ==> is_local_char(#[trigger] s[j]))
    &&& domain_ok(s, i + 1)
}

/// The email shape: some position splits the string into local part,
/// `@`, and domain.
pub open spec fn is_email_spec(s: Seq<char>) -> bool {
    exists|i: int| #[trigger] at_split(s, i)
}

/// A string with exactly one `@` has the email shape exactly when it
/// splits there: no other position can, since neither side of a valid
/// split may contain a second `@`.
proof fn lemma_split_unique(s: Seq<char>, f: int)
    requires
        0 <= f < s.len(),
        s[f] == '@',
        forall|j: int| 0 <= j < s.len() && j != f ==> s[j] != '@',
    ensures
        is_email_spec(s) <==> at_split(s, f),
{
    if is_email_spec(s) {
        let i = choose|i: int| at_split(s, i);
        assert(s[i] == '@');
        assert(at_split(s, f));
    }
}

/// Any valid closing dot of a domain is its last dot: nothing after a
/// closing dot may be a dot, letters only.
proof fn lemma_closing_dot_is_last(s: Seq<char>, b: int, last_dot: int)
    requires
        0 <= b <= last_dot < s.len(),
        s[last_dot] == '.',
        forall|j: int| last_dot < j < s.len() ==> s[j] != '.',
    ensures
        forall|p: int| b <= p < s.len() && #[trigger] s[p] == '.' && final_label_ok(s, p)
            ==> p == last_dot,
{
    assert forall|p: int|
        b <= p < s.len() && #[trigger] s[p] == '.' && final_label_ok(s, p) implies p == last_dot by {
        if p < last_dot {
            assert(is_alpha(s[last_dot]));
            assert(false);
        }
        if p > last_dot {
            assert(s[p] != '.');
            assert(false);
        }
    }
}

/// A word character, executably.
fn word_char(c: char) -> (r: bool)
    ensures
        r == is_word_char(c),
{
    ('a' <= c && c <= 'z') || ('A' <= c && c <= 'Z') || ('0' <= c && c <= '9') || c == '_'
}

/// A local-part character, executably.
fn local_char(c: char) -> (r: bool)
    ensures
        r == is_local_char(c),
{
    word_char(c) || c == '.' || c == '-'
}

/// A label character, executably.
fn label_char(c: char) -> (r: bool)
    ensures
        r == is_label_char(c),
{
    word_char(c) || c == '-'
}

/// A letter, executably.
fn alpha_char(c: char) -> (r: bool)
    ensures
        r == is_alpha(c),
{
    ('a' <= c && c <= 'z') || ('A' <= c && c <= 'Z')
}

/// Decide whether `email` has the permissive address shape
/// `local-part@domain-with-dot` with a final label of two to four
/// letters, over the ASCII alphabet: an address with a character beyond
/// ASCII is rejected, a deliberate restriction of this validator.
pub fn is_email(email: &str) -> (r: bool)
    ensures
        r == is_email_spec(email@),
{
    let n = email.unicode_len();

    // Locate the first `@`, and a second one if there is any.
    let mut first: usize = n;
    let mut second: usize = n;
    let mut i: usize = 0;
    while i < n
        invariant
            i <= n,
            n == email@.len(),
            first <= n,
            second <= n,
            first == n ==> second == n && (forall|j: int| 0 <= j < i ==> email@[j] != '@'),
            first < n ==> first < i && email@[first as int] == '@'
                && (forall|j: int| 0 <= j < first ==> email@[j] != '@'),
            second == n ==> (forall|j: int| 0 <= j < i && j != first ==> email@[j] != '@'),
            second < n ==> first < second < i && email@[second as int] == '@',
        decreases n - i,
    {
        if email.get_char(i) == '@' {
            if first == n {
                first = i;
            } else if second == n {
                second = i;
            }
        }
        i += 1;
    }

    if first == n {
        // No `@` anywhere: no position can split the string.
        proof {
            if is_email_spec(email@) {
                let k = choose|k: int| at_split(email@, k);
                assert(email@[k] == '@');
                assert(false);
            }
        }
        return false;
    }

    if second < n {
        // Two `@`: whichever position a split chose, the other `@` would
        // sit in its local part or its domain, and neither admits `@`.
        proof {
            if is_email_spec(email@) {
                let k = choose|k: int| at_split(email@, k);
                assert(email@[k] == '@');
                let other: int = if k == second as int { first as int } else { second as int };
                assert(email@[other] == '@');
                if other < k {
                    assert(is_local_char(email@[other]));
                    assert(false);
                } else {
                    assert(is_label_char(email@[other]) || email@[other] == '.');
                    assert(false);
                }
            }
        }
        return false;
    }

    let f = first;
    proof {
        lemma_split_unique(email@, f as int);
    }

    if f == 0 {
        // Empty local part.
        return false;
    }

    // Local part: every character before the `@` must be admissible.
    let mut i: usize = 0;
    while i < f
        invariant
            i <= f < n,
            n == email@.len(),
            is_email_spec(email@) <==> at_split(email@, f as int),
            forall|j: int| 0 <= j < i ==> is_local_char(#[trigger] email@[j]),
        decreases f - i,
    {
        if !local_char(email.get_char(i)) {
            return false;
        }
        i += 1;
    }

    // Domain: scan for admissible characters, empty labels, and the
    // last dot.
    let b = f + 1;
    if b >= n {
        return false;
    }
    if email.get_char(b) == '.' {
        return false;
    }

    let mut last_dot: usize = n;
    let mut i: usize = b;
    while i < n
        invariant
            b <= i <= n,
            b == f + 1,
            f < n,
            n == email@.len(),
            is_email_spec(email@) <==> at_split(email@, f as int),
            last_dot <= n,
            forall|j: int| b <= j < i ==> is_label_char(#[trigger] email@[j]) || email@[j] == '.',
            last_dot == n ==> (forall|j: int| b <= j < i ==> email@[j] != '.'),
            last_dot < n ==> b <= last_dot < i && email@[last_dot as int] == '.'
                && (forall|j: int| last_dot < j < i ==> email@[j] != '.'),
            forall|j: int| b < j < i && #[trigger] email@[j] == '.' ==> email@[j - 1] != '.',
        decreases n - i,
    {
        let c = email.get_char(i);
        if c == '.' {
            if i > b && email.get_char(i - 1) == '.' {
                // Empty label.
                return false;
            }
            last_dot = i;
        } else if !label_char(c) {
            return false;
        }
        i += 1;
    }

    if last_dot == n {
        // No dot in the domain.
        proof {
            if domain_ok(email@, b as int) {
                let p = choose|p: int|
                    b <= p < email@.len() && #[trigger] email@[p] == '.'
                        && final_label_ok(email@, p);
                assert(email@[p] == '.');
                assert(false);
            }
        }
        return false;
    }

    proof {
        lemma_closing_dot_is_last(email@, b as int, last_dot as int);
    }

    // Final label: two to four letters after the last dot.
    let tail = n - last_dot - 1;
    if tail < 2 || tail > 4 {
        proof {
            if domain_ok(email@, b as int) {
                let p = choose|p: int|
                    b <= p < email@.len() && #[trigger] email@[p] == '.'
                        && final_label_ok(email@, p);
                assert(p == last_dot as int);
                assert(false);
            }
        }
        return false;
    }

    let mut i: usize = last_dot + 1;
    while i < n
        invariant
            last_dot < i <= n,
            last_dot < n,
            b <= last_dot,
            b == f + 1,
            0 < f < n,
            n == email@.len(),
            is_email_spec(email@) <==> at_split(email@, f as int),
            forall|p: int| b <= p < email@.len() && #[trigger] email@[p] == '.'
                && final_label_ok(email@, p) ==> p == last_dot as int,
            forall|j: int| last_dot < j < i ==> is_alpha(#[trigger] email@[j]),
        decreases n - i,
    {
        if !alpha_char(email.get_char(i)) {
            proof {
                if domain_ok(email@, b as int) {
                    let p = choose|p: int|
                        b <= p < email@.len() && #[trigger] email@[p] == '.'
                            && final_label_ok(email@, p);
                    assert(p == last_dot as int);
                    assert(is_alpha(email@[i as int]));
                    assert(false);
                }
            }
            return false;
        }
        i += 1;
    }

    // Everything checked: the string splits at `f`.
    proof {
        assert(final_label_ok(email@, last_dot as int));
        assert(domain_ok(email@, b as int));
        assert(at_split(email@, f as int));
    }
    true
}

} // verus!
