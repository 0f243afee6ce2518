//! Subscriber names.

use crate::domain::ValidationError;
use crate::text::{blank, chars_of, is_blank};
use unicode_segmentation::UnicodeSegmentation;
use vstd::prelude::*;

verus! {

/// The longest name accepted, in grapheme clusters.
pub const MAX_NAME_GRAPHEMES: usize = 256;

/// The number of extended grapheme clusters of a text, as Unicode's rules
/// for text segmentation (UAX #29) delimit them.
pub uninterp spec fn grapheme_count(s: Seq<char>) -> nat;

/// Calls `UnicodeSegmentation::graphemes` with `is_extended` set and counts
/// what the iterator yields. The contract gives that count its name and
/// claims nothing else of it.
#[verifier::external_body]
fn count_graphemes(s: &str) -> (count: usize)
    ensures
        count == grapheme_count(s@),
{
    s.graphemes(true).count()
}

/// The characters that no name may hold: `/ ( ) " < > \ { }`.
pub open spec fn is_forbidden_in_name(c: char) -> bool {
    c == '/' || c == '(' || c == ')' || c == '"' || c == '<' || c == '>' || c == '\\' || c == '{'
        || c == '}'
}

pub open spec fn has_forbidden_char(s: Seq<char>) -> bool {
    exists|i: int| 0 <= i < s.len() && is_forbidden_in_name(#[trigger] s[i])
}

/// The rule that `s` breaks as a name, if any. Where it breaks several, the
/// first of blank, too long, forbidden character is reported.
pub open spec fn name_fault(s: Seq<char>) -> Option<ValidationError> {
    if is_blank(s) {
        Some(ValidationError::EmptyName)
    } else if grapheme_count(s) > MAX_NAME_GRAPHEMES {
        Some(ValidationError::NameTooLong)
    } else if has_forbidden_char(s) {
        Some(ValidationError::ForbiddenCharacter)
    } else {
        None
    }
}

/// A name is valid when it is not blank, has at most 256 grapheme clusters
/// and holds no forbidden character.
pub open spec fn is_valid_name(s: Seq<char>) -> bool {
    name_fault(s) is None
}

pub fn char_is_forbidden_in_name(c: char) -> (forbidden: bool)
    ensures
        forbidden == is_forbidden_in_name(c),
{
    c == '/' || c == '(' || c == ')' || c == '"' || c == '<' || c == '>' || c == '\\' || c == '{'
        || c == '}'
}

fn contains_forbidden_char(chars: &Vec<char>) -> (found: bool)
    ensures
        found == has_forbidden_char(chars@),
{
    let mut i: usize = 0;
    while i < chars.len()
        invariant
            i <= chars.len(),
            forall|j: int| 0 <= j < i ==> !is_forbidden_in_name(#[trigger] chars@[j]),
        decreases chars.len() - i,
    {
        if char_is_forbidden_in_name(chars[i]) {
            return true;
        }
        i = i + 1;
    }
    false
}

/// The name of a subscriber: a text that passed [`SubscriberName::parse`].
#[derive(Debug)]
pub struct SubscriberName(String);

impl View for SubscriberName {
    type V = Seq<char>;

    closed spec fn view(&self) -> Seq<char> {
        self.0@
    }
}

impl SubscriberName {
    #[verifier::type_invariant]
    spec fn well_formed(&self) -> bool {
        is_valid_name(self.0@)
    }

    /// Accepts `s` as a name, unchanged, or says which rule it breaks.
    pub fn parse(s: String) -> (parsed: Result<SubscriberName, ValidationError>)
        ensures
            match parsed {
                Ok(name) => name_fault(s@) is None && name@ == s@,
                Err(fault) => name_fault(s@) == Some(fault),
            },
    {
        let chars = chars_of(s.as_str());
        if blank(&chars) {
            return Err(ValidationError::EmptyName);
        }
        if count_graphemes(s.as_str()) > MAX_NAME_GRAPHEMES {
            return Err(ValidationError::NameTooLong);
        }
        if contains_forbidden_char(&chars) {
            return Err(ValidationError::ForbiddenCharacter);
        }
        Ok(SubscriberName(s))
    }

    /// The text of the name. Whatever name a program holds, its text is valid.
    pub fn as_ref(&self) -> (text: &str)
        ensures
            text@ == self@,
            is_valid_name(text@),
    {
        proof {
            use_type_invariant(self);
        }
        self.0.as_str()
    }
}

impl Clone for SubscriberName {
    fn clone(&self) -> (copy: Self)
        ensures
            copy@ == self@,
    {
        proof {
            use_type_invariant(self);
        }
        SubscriberName(self.0.clone())
    }
}

/// Every text that is not blank, has at most 256 grapheme clusters and holds
/// no forbidden character is a valid name: parsing accepts it and the name
/// hands the same text back.
pub proof fn lemma_well_formed_text_is_a_valid_name(s: Seq<char>)
    requires
        !is_blank(s),
        grapheme_count(s) <= 256,
        forall|i: int| 0 <= i < s.len() ==> !is_forbidden_in_name(#[trigger] s[i]),
    ensures
        is_valid_name(s),
        name_fault(s) is None,
{
}

/// A text that holds a forbidden character is never a valid name: parsing
/// refuses it.
pub proof fn lemma_forbidden_char_invalidates_name(s: Seq<char>, i: int)
    requires
        0 <= i < s.len(),
        is_forbidden_in_name(s[i]),
    ensures
        !is_valid_name(s),
        name_fault(s) is Some,
{
    if !is_blank(s) && grapheme_count(s) <= MAX_NAME_GRAPHEMES {
        assert(has_forbidden_char(s));
    }
}

} // verus!
