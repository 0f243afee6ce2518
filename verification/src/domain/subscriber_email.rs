//! Subscriber email addresses.
//!
//! The accepted grammar is the mailbox form `local@domain`:
//!
//! * `local` is 1 to 64 characters, each an ASCII letter, a digit or one of
//!   ``. ! # $ % & ' * + / = ? ^ _ ` { | } ~ -``;
//! * `domain` is 1 to 255 characters and is made of labels joined by dots;
//!   a label is 1 to 63 ASCII letters, digits and hyphens, and neither
//!   begins nor ends with a hyphen.
//!
//! Quoted local parts and address literals are not accepted.

use crate::domain::ValidationError;
use crate::text::{char_is_ascii_alphanumeric, chars_of, is_ascii_alphanumeric, sub_chars};
use vstd::prelude::*;

verus! {

pub const MAX_LOCAL_PART: usize = 64;

pub const MAX_DOMAIN: usize = 255;

pub const MAX_LABEL: usize = 63;

/// The characters of a local part.
pub open spec fn is_local_char(c: char) -> bool {
    ||| is_ascii_alphanumeric(c)
    ||| c == '.'
    ||| c == '!'
    ||| c == '#'
    ||| c == '$'
    ||| c == '%'
    ||| c == '&'
    ||| c == '\''
    ||| c == '*'
    ||| c == '+'
    ||| c == '/'
    ||| c == '='
    ||| c == '?'
    ||| c == '^'
    ||| c == '_'
    ||| c == '`'
    ||| c == '{'
    ||| c == '|'
    ||| c == '}'
    ||| c == '~'
    ||| c == '-'
}

/// The characters of a domain: those of its labels, and the dot between them.
pub open spec fn is_domain_char(c: char) -> bool {
    is_ascii_alphanumeric(c) || c == '-' || c == '.'
}

pub open spec fn is_local_part(local: Seq<char>) -> bool {
    &&& 1 <= local.len() <= MAX_LOCAL_PART
    &&& forall|i: int| 0 <= i < local.len() ==> is_local_char(#[trigger] local[i])
}

/// Position `i` is the first or the last of its label: it stands at an end
/// of the domain or next to a dot.
pub open spec fn is_label_edge(domain: Seq<char>, i: int) -> bool {
    ||| i == 0
    ||| i == domain.len() - 1
    ||| domain[i - 1] == '.'
    ||| domain[i + 1] == '.'
}

/// Some position in `from..to` holds a dot.
pub open spec fn has_dot(domain: Seq<char>, from: int, to: int) -> bool {
    exists|j: int| from <= j < to && #[trigger] domain[j] == '.'
}

/// A domain is a dot-separated list of labels. That every label edge holds a
/// letter or a digit says that no label is empty and none begins or ends
/// with a hyphen; that every 64 positions in a row hold a dot says that no
/// label is longer than 63.
pub open spec fn is_domain(domain: Seq<char>) -> bool {
    &&& 1 <= domain.len() <= MAX_DOMAIN
    &&& forall|i: int| 0 <= i < domain.len() ==> is_domain_char(#[trigger] domain[i])
    &&& forall|i: int|
        0 <= i < domain.len() && #[trigger] is_label_edge(domain, i) ==> is_ascii_alphanumeric(
            domain[i],
        )
    &&& forall|i: int, j: int|
        0 <= i && j == i + MAX_LABEL + 1 && j <= domain.len() ==> #[trigger] has_dot(domain, i, j)
}

/// `s` splits at position `at` into a local part, `@` and a domain.
pub open spec fn splits_at(s: Seq<char>, at: int) -> bool {
    &&& 0 <= at < s.len()
    &&& s[at] == '@'
    &&& is_local_part(s.subrange(0, at))
    &&& is_domain(s.subrange(at + 1, s.len() as int))
}

pub open spec fn is_valid_email(s: Seq<char>) -> bool {
    exists|at: int| splits_at(s, at)
}

pub fn char_is_local(c: char) -> (local: bool)
    ensures
        local == is_local_char(c),
{
    char_is_ascii_alphanumeric(c) || c == '.' || c == '!' || c == '#' || c == '$' || c == '%' || c
        == '&' || c == '\'' || c == '*' || c == '+' || c == '/' || c == '=' || c == '?' || c == '^'
        || c == '_' || c == '`' || c == '{' || c == '|' || c == '}' || c == '~' || c == '-'
}

pub fn local_part_is_valid(local: &Vec<char>) -> (valid: bool)
    ensures
        valid == is_local_part(local@),
{
    if local.len() < 1 || local.len() > MAX_LOCAL_PART {
        return false;
    }
    let mut i: usize = 0;
    while i < local.len()
        invariant
            i <= local.len(),
            forall|j: int| 0 <= j < i ==> is_local_char(#[trigger] local@[j]),
        decreases local.len() - i,
    {
        if !char_is_local(local[i]) {
            return false;
        }
        i = i + 1;
    }
    true
}

pub fn domain_is_valid(domain: &Vec<char>) -> (valid: bool)
    ensures
        valid == is_domain(domain@),
{
    let len = domain.len();
    if len < 1 || len > MAX_DOMAIN {
        return false;
    }
    let mut i: usize = 0;
    // The number of characters read since the last dot.
    let mut run: usize = 0;
    while i < len
        invariant
            len == domain.len(),
            1 <= len <= MAX_DOMAIN,
            i <= len,
            run <= i,
            run <= MAX_LABEL,
            forall|j: int| 0 <= j < i ==> is_domain_char(#[trigger] domain@[j]),
            forall|j: int|
                0 <= j < i && #[trigger] is_label_edge(domain@, j) ==> is_ascii_alphanumeric(
                    domain@[j],
                ),
            forall|j: int| i - run <= j < i ==> #[trigger] domain@[j] != '.',
            run < i ==> domain@[i - run - 1] == '.',
            forall|a: int, b: int|
                0 <= a && b == a + MAX_LABEL + 1 && b <= i ==> #[trigger] has_dot(domain@, a, b),
        decreases len - i,
    {
        let c = domain[i];
        if !(char_is_ascii_alphanumeric(c) || c == '-' || c == '.') {
            return false;
        }
        let at_edge = i == 0 || i == len - 1 || domain[i - 1] == '.' || domain[i + 1] == '.';
        assert(at_edge == is_label_edge(domain@, i as int));
        if at_edge && !char_is_ascii_alphanumeric(c) {
            return false;
        }
        if c == '.' {
            run = 0;
        } else {
            if run == MAX_LABEL {
                proof {
                    let a = i - MAX_LABEL;
                    let b = i + 1;
                    assert(!has_dot(domain@, a, b));
                }
                return false;
            }
            run = run + 1;
        }
        proof {
            let next = i + 1;
            assert forall|a: int, b: int|
                0 <= a && b == a + MAX_LABEL + 1 && b <= next implies #[trigger] has_dot(
                domain@,
                a,
                b,
            ) by {
                if b == next {
                    let dot = next - run - 1;
                    assert(a <= dot < b);
                    assert(domain@[dot] == '.');
                }
            }
        }
        i = i + 1;
    }
    true
}

/// The email address of a subscriber: a text that passed
/// [`SubscriberEmail::parse`].
#[derive(Debug)]
pub struct SubscriberEmail(String);

impl View for SubscriberEmail {
    type V = Seq<char>;

    closed spec fn view(&self) -> Seq<char> {
        self.0@
    }
}

impl SubscriberEmail {
    #[verifier::type_invariant]
    spec fn well_formed(&self) -> bool {
        is_valid_email(self.0@)
    }

    /// Accepts `s` as an email address, unchanged, exactly when it follows
    /// the mailbox grammar.
    pub fn parse(s: String) -> (parsed: Result<SubscriberEmail, ValidationError>)
        ensures
            match parsed {
                Ok(email) => is_valid_email(s@) && email@ == s@,
                Err(fault) => !is_valid_email(s@) && fault == ValidationError::InvalidEmail,
            },
    {
        let chars = chars_of(s.as_str());
        let len = chars.len();
        let mut at: usize = 0;
        while at < len && chars[at] != '@'
            invariant
                len == chars.len(),
                at <= len,
                forall|j: int| 0 <= j < at ==> #[trigger] chars@[j] != '@',
            decreases len - at,
        {
            at = at + 1;
        }
        if at == len {
            return Err(ValidationError::InvalidEmail);
        }
        let local = sub_chars(&chars, 0, at);
        let domain = sub_chars(&chars, at + 1, len);
        let valid = local_part_is_valid(&local) && domain_is_valid(&domain);
        proof {
            // The first `@` is the only place where an address can split:
            // a later one would leave an `@` in the local part.
            assert forall|other: int| splits_at(s@, other) implies other == at by {
                if other > at {
                    assert(s@.subrange(0, other)[at as int] == '@');
                }
            }
            if valid {
                assert(splits_at(s@, at as int));
            }
        }
        if valid {
            Ok(SubscriberEmail(s))
        } else {
            Err(ValidationError::InvalidEmail)
        }
    }

    /// The text of the address. Whatever address a program holds, its text
    /// follows the mailbox grammar.
    pub fn as_ref(&self) -> (text: &str)
        ensures
            text@ == self@,
            is_valid_email(text@),
    {
        proof {
            use_type_invariant(self);
        }
        self.0.as_str()
    }
}

impl Clone for SubscriberEmail {
    fn clone(&self) -> (copy: Self)
        ensures
            copy@ == self@,
    {
        proof {
            use_type_invariant(self);
        }
        SubscriberEmail(self.0.clone())
    }
}

impl PartialEq for SubscriberEmail {
    fn eq(&self, other: &Self) -> (equal: bool) {
        self.0 == other.0
    }
}

impl vstd::std_specs::cmp::PartialEqSpecImpl for SubscriberEmail {
    open spec fn obeys_eq_spec() -> bool {
        true
    }

    open spec fn eq_spec(&self, other: &Self) -> bool {
        self@ == other@
    }
}

/// A text without `@` is no email address.
pub proof fn lemma_email_needs_at_sign(s: Seq<char>)
    requires
        forall|i: int| 0 <= i < s.len() ==> #[trigger] s[i] != '@',
    ensures
        !is_valid_email(s),
{
}

} // verus!
