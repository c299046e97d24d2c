//! The validated subscriber identity: names and email addresses are built
//! only through parse functions whose contracts pin down exactly which raw
//! inputs are accepted and what the accepted value holds.

use vstd::prelude::*;
use vstd::string::StrSliceExecFns;

use crate::text::{
    drop_leading_ws, is_ws, lemma_trim_spec_ends, lemma_trim_spec_keeps, trim, trim_spec,
};

verus! {

/// Why a raw identity input was rejected.
#[derive(Clone, PartialEq, Eq, Debug)]
pub enum ValidationError {
    /// The name was empty, or whitespace only, after trimming.
    Empty,
    /// The trimmed name exceeds the grapheme-length bound.
    TooLong,
    /// The trimmed name contains a character from the forbidden set.
    ForbiddenCharacter,
    /// The string is not a syntactically valid email address; carries the
    /// offending input for diagnostics.
    InvalidEmail(String),
}

/// The longest accepted name, counted in extended grapheme clusters.
pub const MAX_NAME_GRAPHEMES: usize = 256;

/// The characters that a subscriber name may never contain.
pub open spec fn is_forbidden_char(c: char) -> bool {
    c == '/' || c == '(' || c == ')' || c == '"' || c == '<' || c == '>' || c == '\\' || c == '{'
        || c == '}'
}

/// Decides membership in the forbidden-character set.
pub fn forbidden_char(c: char) -> (r: bool)
    ensures
        r == is_forbidden_char(c),
{
    c == '/' || c == '(' || c == ')' || c == '"' || c == '<' || c == '>' || c == '\\' || c == '{'
        || c == '}'
}

/// The number of extended grapheme clusters of a string; a function of the
/// characters alone.
pub uninterp spec fn grapheme_count(s: Seq<char>) -> nat;

/// Relies on `unicode_segmentation::UnicodeSegmentation::graphemes` (and
/// `Iterator::count`) to count the extended grapheme clusters of a string;
/// the segmentation depends on the characters alone.
#[verifier::external_body]
fn count_graphemes(s: &str) -> (r: usize)
    ensures
        r as nat == grapheme_count(s@),
{
    unicode_segmentation::UnicodeSegmentation::graphemes(s, true).count()
}

/// Whether a string passes the HTML5-style email syntax check; a function of
/// the characters alone.
pub uninterp spec fn email_valid(s: Seq<char>) -> bool;

/// Relies on `validator::ValidateEmail::validate_email`: the verdict depends
/// on the characters alone, and the listed shapes are always rejected — the
/// empty string, a string without `@`, a string whose local part (before the
/// last `@`) is empty or itself holds `@`, and a string whose domain part
/// (after the last `@`) is empty.
#[verifier::external_body]
fn check_email_syntax(s: &str) -> (r: bool)
    ensures
        r == email_valid(s@),
        s@.len() == 0 ==> !r,
        !s@.contains('@') ==> !r,
        s@.len() > 0 && s@.first() == '@' ==> !r,
        s@.len() > 0 && s@.last() == '@' ==> !r,
{
    validator::ValidateEmail::validate_email(&s)
}

/// A subscriber name: nonempty after trimming, within the grapheme bound,
/// and free of forbidden characters.
#[derive(Clone, Debug)]
pub struct SubscriberName {
    inner: String,
}

/// A subscriber email address: a string that passed the syntax check.
#[derive(Clone, Debug)]
pub struct SubscriberEmail {
    inner: String,
}

/// A validated subscriber identity; both fields are already parsed, so
/// putting them together cannot fail.
#[derive(Debug)]
pub struct NewSubscriber {
    pub email: SubscriberEmail,
    pub name: SubscriberName,
}

impl View for SubscriberName {
    type V = Seq<char>;

    closed spec fn view(&self) -> Seq<char> {
        self.inner@
    }
}

impl View for SubscriberEmail {
    type V = Seq<char>;

    closed spec fn view(&self) -> Seq<char> {
        self.inner@
    }
}

/// The invariant that every constructed `SubscriberName` satisfies.
pub open spec fn valid_name(s: Seq<char>) -> bool {
    &&& s.len() > 0
    &&& grapheme_count(s) <= MAX_NAME_GRAPHEMES
    &&& forall|i: int| 0 <= i < s.len() ==> !is_forbidden_char(s[i])
    &&& !is_ws(s.first())
    &&& !is_ws(s.last())
}

/// What `SubscriberName::parse` decides on a raw input, as a function of the
/// input's characters: the first failing check wins, in the order empty, too
/// long, forbidden character.
pub open spec fn parse_name_spec(s: Seq<char>) -> Result<Seq<char>, ValidationError> {
    let t = trim_spec(s);
    if t.len() == 0 {
        Err(ValidationError::Empty)
    } else if grapheme_count(t) > MAX_NAME_GRAPHEMES {
        Err(ValidationError::TooLong)
    } else if exists|i: int| 0 <= i < t.len() && is_forbidden_char(t[i]) {
        Err(ValidationError::ForbiddenCharacter)
    } else {
        Ok(t)
    }
}

impl SubscriberName {
    /// Validates a raw name: trims whitespace from both ends, then rejects
    /// the empty result, a result of more than `MAX_NAME_GRAPHEMES` grapheme
    /// clusters, and a result holding a forbidden character, in that order.
    pub fn parse(name: &str) -> (r: Result<SubscriberName, ValidationError>)
        ensures
            r matches Ok(n) ==> parse_name_spec(name@) == Ok::<Seq<char>, ValidationError>(n@)
                && valid_name(n@),
            r matches Err(e) ==> parse_name_spec(name@) == Err::<Seq<char>, ValidationError>(e),
    {
        let trimmed = trim(name);
        proof {
            lemma_trim_spec_ends(name@);
        }
        if trimmed.is_empty() {
            return Err(ValidationError::Empty);
        }
        if count_graphemes(trimmed) > MAX_NAME_GRAPHEMES {
            return Err(ValidationError::TooLong);
        }
        let n = trimmed.unicode_len();
        let mut i: usize = 0;
        while i < n
            invariant
                n == trimmed@.len(),
                i <= n,
                trimmed@ == trim_spec(name@),
                trimmed@.len() > 0,
                grapheme_count(trimmed@) <= MAX_NAME_GRAPHEMES,
                !is_ws(trimmed@.first()),
                !is_ws(trimmed@.last()),
                forall|j: int| 0 <= j < i ==> !is_forbidden_char(trimmed@[j]),
            decreases n - i,
        {
            if forbidden_char(trimmed.get_char(i)) {
                proof {
                    assert(0 <= i < trimmed@.len() && is_forbidden_char(trimmed@[i as int]));
                }
                return Err(ValidationError::ForbiddenCharacter);
            }
            i += 1;
        }
        Ok(SubscriberName { inner: trimmed.to_owned() })
    }

    /// The validated name as a string slice.
    pub fn as_ref(&self) -> (r: &str)
        ensures
            r@ == self@,
    {
        self.inner.as_str()
    }
}

impl SubscriberEmail {
    /// Validates a raw email address against the syntax check; an accepted
    /// value wraps the input unchanged, a rejected one is handed back inside
    /// the error.
    pub fn parse(email: &str) -> (r: Result<SubscriberEmail, ValidationError>)
        ensures
            r is Ok <==> email_valid(email@),
            r matches Ok(e) ==> e@ == email@,
            r matches Err(e) ==> e matches ValidationError::InvalidEmail(m) && m@ == email@,
            email@.len() == 0 ==> r is Err,
            !email@.contains('@') ==> r is Err,
            email@.len() > 0 && email@.first() == '@' ==> r is Err,
            email@.len() > 0 && email@.last() == '@' ==> r is Err,
    {
        if check_email_syntax(email) {
            Ok(SubscriberEmail { inner: email.to_owned() })
        } else {
            Err(ValidationError::InvalidEmail(email.to_owned()))
        }
    }

    /// The validated address as a string slice; returns exactly the string
    /// that `parse` accepted.
    pub fn as_ref(&self) -> (r: &str)
        ensures
            r@ == self@,
    {
        self.inner.as_str()
    }
}

/// A raw input consisting only of whitespace trims to nothing and is
/// rejected as `Empty`.
pub proof fn lemma_whitespace_only_name_rejected(s: Seq<char>)
    requires
        forall|i: int| 0 <= i < s.len() ==> is_ws(s[i]),
    ensures
        parse_name_spec(s) == Err::<Seq<char>, ValidationError>(ValidationError::Empty),
{
    lemma_all_ws_trims_empty(s);
}

proof fn lemma_all_ws_trims_empty(s: Seq<char>)
    requires
        forall|i: int| 0 <= i < s.len() ==> is_ws(s[i]),
    ensures
        trim_spec(s).len() == 0,
    decreases s.len(),
{
    if s.len() > 0 {
        assert(is_ws(s.first()));
        assert(forall|i: int| 0 <= i < s.drop_first().len() ==> is_ws(s.drop_first()[i]));
        lemma_all_ws_trims_empty(s.drop_first());
        assert(drop_leading_ws(s) == drop_leading_ws(s.drop_first()));
    }
}

/// A raw input whose trimmed form is nonempty but exceeds the grapheme bound
/// is rejected as `TooLong`.
pub proof fn lemma_overlong_name_rejected(s: Seq<char>)
    ensures
        trim_spec(s).len() > 0 && grapheme_count(trim_spec(s)) > MAX_NAME_GRAPHEMES
            ==> parse_name_spec(s) == Err::<Seq<char>, ValidationError>(ValidationError::TooLong),
{
}

/// A raw input holding a forbidden character is rejected as
/// `ForbiddenCharacter`, unless the grapheme bound already rejected it as
/// `TooLong`.
pub proof fn lemma_forbidden_char_rejected(s: Seq<char>, c: char)
    requires
        is_forbidden_char(c),
        s.contains(c),
        grapheme_count(trim_spec(s)) <= MAX_NAME_GRAPHEMES,
    ensures
        parse_name_spec(s) == Err::<Seq<char>, ValidationError>(
            ValidationError::ForbiddenCharacter,
        ),
{
    assert(!is_ws(c));
    lemma_trim_spec_keeps(s, c);
    let t = trim_spec(s);
    let i = choose|i: int| 0 <= i < t.len() && t[i] == c;
    assert(is_forbidden_char(t[i]));
}

/// A raw input that trims to something nonempty, within the grapheme bound
/// and free of forbidden characters, is accepted, and the accepted name is
/// exactly the trimmed input.
pub proof fn lemma_clean_name_accepted(s: Seq<char>)
    requires
        trim_spec(s).len() > 0,
        grapheme_count(trim_spec(s)) <= MAX_NAME_GRAPHEMES,
        forall|i: int| 0 <= i < trim_spec(s).len() ==> !is_forbidden_char(trim_spec(s)[i]),
    ensures
        parse_name_spec(s) == Ok::<Seq<char>, ValidationError>(trim_spec(s)),
{
}

/// Every name that `parse` can accept satisfies the `valid_name` invariant.
pub proof fn lemma_parsed_name_valid(s: Seq<char>)
    ensures
        parse_name_spec(s) matches Ok(t) ==> valid_name(t),
{
    lemma_trim_spec_ends(s);
}

} // verus!
