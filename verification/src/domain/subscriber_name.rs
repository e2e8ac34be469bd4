//! A subscriber's name, checked before it is stored.
use unicode_segmentation::UnicodeSegmentation;
use vstd::prelude::*;

use crate::text::{is_blank, is_white_space, str_is_blank, white_space_is_the_unicode_property};

verus! {

/// The most grapheme clusters a name may hold.
pub const MAX_NAME_GRAPHEMES: usize = 256;

/// The number of extended grapheme clusters of a text, as
/// `unicode_segmentation` splits it.
pub uninterp spec fn extended_grapheme_count(s: Seq<char>) -> nat;

/// Calls `UnicodeSegmentation::graphemes(s, true).count()`. The contract
/// names the count and states that no cluster is empty, so that there are
/// never more clusters than characters.
#[verifier::external_body]
fn count_graphemes(s: &str) -> (n: usize)
    ensures
        n == extended_grapheme_count(s@),
        n <= s@.len(),
{
    s.graphemes(true).count()
}

/// The characters that may not appear in a name.
pub open spec fn is_forbidden_char(c: char) -> bool {
    ||| c == '/'
    ||| c == '('
    ||| c == ')'
    ||| c == '"'
    ||| c == '<'
    ||| c == '>'
    ||| c == '\\'
    ||| c == '{'
    ||| c == '}'
}

pub open spec fn has_forbidden_char(s: Seq<char>) -> bool {
    exists|i: int| 0 <= i < s.len() && #[trigger] is_forbidden_char(s[i])
}

/// A name is valid when it is not blank, holds at most
/// `MAX_NAME_GRAPHEMES` grapheme clusters and no forbidden character.
pub open spec fn is_valid_name(s: Seq<char>, graphemes: nat) -> bool {
    &&& !is_blank(s)
    &&& graphemes <= MAX_NAME_GRAPHEMES
    &&& !has_forbidden_char(s)
}

/// The message with which an invalid name is refused.
pub open spec fn name_error(s: Seq<char>) -> Seq<char> {
    s + " is not a valid subscriber name"@
}

fn char_is_forbidden(c: char) -> (b: bool)
    ensures
        b == is_forbidden_char(c),
{
    c == '/' || c == '(' || c == ')' || c == '"' || c == '<' || c == '>' || c == '\\' || c == '{'
        || c == '}'
}

fn contains_forbidden_char(s: &str) -> (b: bool)
    ensures
        b == has_forbidden_char(s@),
{
    for c in it: s.chars()
        invariant
            it.seq() == s@,
            forall|j: int| 0 <= j < it.index() ==> !#[trigger] is_forbidden_char(s@[j]),
    {
        if char_is_forbidden(c) {
            assert(is_forbidden_char(s@[it.index() as int]));
            return true;
        }
    }
    false
}

/// Calls `String::as_mut_str`: the borrowed text is the string's, and what
/// is written through it is what the string holds afterwards.
#[verifier::external_body]
fn string_as_mut_str(s: &mut String) -> (r: &mut str)
    ensures
        r@ == old(s)@,
        final(s)@ == final(r)@,
{
    s.as_mut_str()
}

/// A name that passed the checks of `SubscriberName::parse`.
#[derive(Debug)]
pub struct SubscriberName(String);

impl View for SubscriberName {
    type V = Seq<char>;

    closed spec fn view(&self) -> Seq<char> {
        self.0@
    }
}

impl SubscriberName {
    /// Checks `s` as a name, given the number of its grapheme clusters.
    pub fn parse_counted(s: &str, graphemes: usize) -> (r: Result<SubscriberName, String>)
        ensures
            match r {
                Ok(name) => is_valid_name(s@, graphemes as nat) && name@ == s@,
                Err(e) => !is_valid_name(s@, graphemes as nat) && e@ == name_error(s@),
            },
    {
        let is_empty_or_whitespace = str_is_blank(s);
        let is_too_long = graphemes > MAX_NAME_GRAPHEMES;
        let contains_forbidden_characters = contains_forbidden_char(s);
        if is_empty_or_whitespace || is_too_long || contains_forbidden_characters {
            let mut msg = String::from_str(s);
            msg.append(" is not a valid subscriber name");
            Err(msg)
        } else {
            Ok(SubscriberName(String::from_str(s)))
        }
    }

    /// Checks `s` as a name: it is refused when it is empty or white space
    /// only, longer than `MAX_NAME_GRAPHEMES` grapheme clusters, or holds a
    /// forbidden character.
    pub fn parse(s: &str) -> (r: Result<SubscriberName, String>)
        ensures
            match r {
                Ok(name) => is_valid_name(s@, extended_grapheme_count(s@)) && name@ == s@,
                Err(e) => !is_valid_name(s@, extended_grapheme_count(s@)) && e@ == name_error(s@),
            },
            s@.len() <= MAX_NAME_GRAPHEMES && !is_blank(s@) && !has_forbidden_char(s@) ==> r is Ok,
    {
        let graphemes = count_graphemes(s);
        Self::parse_counted(s, graphemes)
    }

    pub fn inner(self) -> (s: String)
        ensures
            s@ == self@,
    {
        self.0
    }

    /// The name's text, to be changed in place.
    pub fn inner_mut(&mut self) -> (s: &mut str)
        ensures
            s@ == old(self)@,
            final(self)@ == final(s)@,
    {
        string_as_mut_str(&mut self.0)
    }

    /// The name as text, as its `Display` writes it.
    pub fn to_string(&self) -> (s: String)
        ensures
            s@ == self@,
    {
        self.0.clone()
    }

    pub fn inner_ref(&self) -> (s: &str)
        ensures
            s@ == self@,
    {
        self.0.as_str()
    }
}

/// A name is accepted exactly when it holds a character outside the
/// Unicode `White_Space` property, at most 256 grapheme clusters, and none
/// of the characters `/ ( ) " < > \ { }`; every other character is allowed.
pub proof fn valid_names_are_exactly(s: Seq<char>, graphemes: nat)
    ensures
        is_valid_name(s, graphemes) ==> exists|i: int|
            #![trigger s[i]]
            0 <= i < s.len() && {
                let u = s[i] as u32;
                !(9 <= u <= 13 || u == 32 || u == 133 || u == 160 || u == 5760 || (8192 <= u
                    <= 8202) || u == 8232 || u == 8233 || u == 8239 || u == 8287 || u == 12288)
            },
        is_valid_name(s, graphemes) ==> graphemes <= 256,
        is_valid_name(s, graphemes) ==> forall|i: int|
            #![trigger s[i]]
            0 <= i < s.len() ==> {
                let c = s[i];
                c != '/' && c != '(' && c != ')' && c != '"' && c != '<' && c != '>' && c != '\\'
                    && c != '{' && c != '}'
            },
        ({
            &&& exists|i: int|
                #![trigger s[i]]
                0 <= i < s.len() && {
                    let u = s[i] as u32;
                    !(9 <= u <= 13 || u == 32 || u == 133 || u == 160 || u == 5760 || (8192 <= u
                        <= 8202) || u == 8232 || u == 8233 || u == 8239 || u == 8287 || u == 12288)
                }
            &&& graphemes <= 256
            &&& forall|i: int|
                #![trigger s[i]]
                0 <= i < s.len() ==> {
                    let c = s[i];
                    c != '/' && c != '(' && c != ')' && c != '"' && c != '<' && c != '>' && c
                        != '\\' && c != '{' && c != '}'
                }
        }) ==> is_valid_name(s, graphemes),
{
    if !is_blank(s) {
        assert(exists|i: int| 0 <= i < s.len() && !#[trigger] is_white_space(s[i]));
        let i = choose|i: int| 0 <= i < s.len() && !#[trigger] is_white_space(s[i]);
        white_space_is_the_unicode_property(s[i]);
        let u = s[i] as u32;
        assert(!(9 <= u <= 13 || u == 32 || u == 133 || u == 160 || u == 5760 || (8192 <= u
            <= 8202) || u == 8232 || u == 8233 || u == 8239 || u == 8287 || u == 12288));
    }
    assert forall|i: int| #![trigger s[i]] 0 <= i < s.len() && is_white_space(s[i]) implies {
        let u = s[i] as u32;
        9 <= u <= 13 || u == 32 || u == 133 || u == 160 || u == 5760 || (8192 <= u <= 8202) || u
            == 8232 || u == 8233 || u == 8239 || u == 8287 || u == 12288
    } by {
        white_space_is_the_unicode_property(s[i]);
    }
    assert forall|i: int| #![trigger s[i]] 0 <= i < s.len() && !has_forbidden_char(s) implies !is_forbidden_char(s[i]) by {
        if is_forbidden_char(s[i]) {
            assert(has_forbidden_char(s));
        }
    }
}

/// Whether a character is forbidden does not depend on anything but the
/// character: exactly `/ ( ) " < > \ { }` are.
pub proof fn forbidden_characters_are_the_listed_ones(c: char)
    ensures
        is_forbidden_char(c) <==> (c as u32 == 47 || c as u32 == 40 || c as u32 == 41 || c as u32
            == 34 || c as u32 == 60 || c as u32 == 62 || c as u32 == 92 || c as u32 == 123 || c as u32
            == 125),
{
}

/// The refusal message is the name followed by
/// ` is not a valid subscriber name`.
pub proof fn name_error_names_the_name(s: Seq<char>)
    ensures
        name_error(s).len() == s.len() + 31,
        name_error(s).subrange(0, s.len() as int) == s,
        name_error(s).subrange(s.len() as int, s.len() + 31int) == " is not a valid subscriber name"@,
{
    reveal_strlit(" is not a valid subscriber name");
    assert(name_error(s).subrange(0, s.len() as int) =~= s);
    assert(name_error(s).subrange(s.len() as int, s.len() + 31int) =~= " is not a valid subscriber name"@);
}

/// An empty name is refused.
pub proof fn empty_name_is_refused(graphemes: nat)
    ensures
        !is_valid_name(Seq::<char>::empty(), graphemes),
{
}

/// A name of white space only is refused.
pub proof fn blank_name_is_refused(s: Seq<char>, graphemes: nat)
    requires
        is_blank(s),
    ensures
        !is_valid_name(s, graphemes),
{
}

/// A name holding a forbidden character anywhere is refused.
pub proof fn forbidden_char_is_refused(s: Seq<char>, graphemes: nat, i: int)
    requires
        0 <= i < s.len(),
        is_forbidden_char(s[i]),
    ensures
        !is_valid_name(s, graphemes),
{
}

/// A name of more than `MAX_NAME_GRAPHEMES` grapheme clusters is refused.
pub proof fn long_name_is_refused(s: Seq<char>, graphemes: nat)
    requires
        graphemes > MAX_NAME_GRAPHEMES,
    ensures
        !is_valid_name(s, graphemes),
{
}

impl AsRef<str> for SubscriberName {
    fn as_ref(&self) -> (s: &str)
        ensures
            s@ == self@,
    {
        self.0.as_str()
    }
}

} // verus!
