//! Domain values of the newsletter service: subscriber names, the runtime
//! environment and newsletter issue metadata.

use unicode_segmentation::UnicodeSegmentation;
use vstd::prelude::*;
use vstd::string::*;

verus! {

/// The number of extended grapheme clusters in a text, as
/// unicode-segmentation counts them.
pub uninterp spec fn grapheme_count(s: Seq<char>) -> nat;

/// Relies on unicode-segmentation's `graphemes(true)`, counted: the number of
/// extended grapheme clusters of the text, which depends on the text alone.
#[verifier::external_body]
fn count_graphemes(s: &str) -> (r: usize)
    ensures
        r == grapheme_count(s@),
{
    s.graphemes(true).count()
}

/// The longest subscriber name, in grapheme clusters.
pub const MAX_NAME_GRAPHEMES: usize = 256;

/// A character with the Unicode White_Space property.
pub open spec fn is_white_space(c: char) -> bool {
    ('\u{9}' <= c && c <= '\u{d}') || c == ' ' || c == '\u{85}' || c == '\u{a0}' || c == '\u{1680}'
        || ('\u{2000}' <= c && c <= '\u{200a}') || c == '\u{2028}' || c == '\u{2029}' || c
        == '\u{202f}' || c == '\u{205f}' || c == '\u{3000}'
}

fn white_space(c: char) -> (r: bool)
    ensures
        r == is_white_space(c),
{
    ('\u{9}' <= c && c <= '\u{d}') || c == ' ' || c == '\u{85}' || c == '\u{a0}' || c == '\u{1680}'
        || ('\u{2000}' <= c && c <= '\u{200a}') || c == '\u{2028}' || c == '\u{2029}' || c
        == '\u{202f}' || c == '\u{205f}' || c == '\u{3000}'
}

/// A character that a subscriber name may not hold.
pub open spec fn is_forbidden_name_char(c: char) -> bool {
    c == '/' || c == '(' || c == ')' || c == '"' || c == '<' || c == '>' || c == '\\' || c == '{'
        || c == '}'
}

fn forbidden_name_char(c: char) -> (r: bool)
    ensures
        r == is_forbidden_name_char(c),
{
    c == '/' || c == '(' || c == ')' || c == '"' || c == '<' || c == '>' || c == '\\' || c == '{'
        || c == '}'
}

/// Empty, or white space only.
pub open spec fn is_blank(s: Seq<char>) -> bool {
    forall|i: int| 0 <= i < s.len() ==> is_white_space(#[trigger] s[i])
}

/// Holds a forbidden character.
pub open spec fn has_forbidden_char(s: Seq<char>) -> bool {
    exists|i: int| 0 <= i < s.len() && is_forbidden_name_char(#[trigger] s[i])
}

/// A valid subscriber name with `graphemes` grapheme clusters: not blank, at
/// most `MAX_NAME_GRAPHEMES` clusters long, and free of forbidden characters.
pub open spec fn valid_name(s: Seq<char>, graphemes: nat) -> bool {
    !is_blank(s) && graphemes <= MAX_NAME_GRAPHEMES && !has_forbidden_char(s)
}

/// The message that rejects the name `s`.
pub open spec fn invalid_name_message(s: Seq<char>) -> Seq<char> {
    s + " is not a valid subscriber name"@
}

fn blank(s: &str) -> (r: bool)
    ensures
        r == is_blank(s@),
{
    let n = s.unicode_len();
    let mut i: usize = 0;
    while i < n
        invariant
            n == s@.len(),
            i <= n,
            forall|j: int| 0 <= j < i ==> is_white_space(#[trigger] s@[j]),
        decreases n - i,
    {
        if !white_space(s.get_char(i)) {
            return false;
        }
        i = i + 1;
    }
    true
}

fn forbidden_char(s: &str) -> (r: bool)
    ensures
        r == has_forbidden_char(s@),
{
    let n = s.unicode_len();
    let mut i: usize = 0;
    while i < n
        invariant
            n == s@.len(),
            i <= n,
            forall|j: int| 0 <= j < i ==> !is_forbidden_name_char(#[trigger] s@[j]),
        decreases n - i,
    {
        if forbidden_name_char(s.get_char(i)) {
            return true;
        }
        i = i + 1;
    }
    false
}

/// The name of a subscriber, known to be valid.
#[derive(Debug)]
pub struct SubscriberName(String);

impl View for SubscriberName {
    type V = Seq<char>;

    closed spec fn view(&self) -> Seq<char> {
        self.0@
    }
}

impl SubscriberName {
    /// Accepts `s` as a subscriber name unless it is blank, longer than
    /// `MAX_NAME_GRAPHEMES` grapheme clusters, or holds one of
    /// `/ ( ) " < > \ { }`.
    pub fn parse(s: String) -> (r: Result<SubscriberName, String>)
        ensures
            match r {
                Ok(name) => valid_name(s@, grapheme_count(s@)) && name@ == s@,
                Err(msg) => !valid_name(s@, grapheme_count(s@)) && msg@ == invalid_name_message(s@),
            },
    {
        let graphemes = count_graphemes(s.as_str());
        SubscriberName::parse_counted(s, graphemes)
    }

    /// `parse`, given the number of grapheme clusters in `s`.
    pub fn parse_counted(s: String, graphemes: usize) -> (r: Result<SubscriberName, String>)
        ensures
            match r {
                Ok(name) => valid_name(s@, graphemes as nat) && name@ == s@,
                Err(msg) => !valid_name(s@, graphemes as nat) && msg@ == invalid_name_message(s@),
            },
    {
        let is_empty_or_whitespace = blank(s.as_str());
        let is_too_long = graphemes > MAX_NAME_GRAPHEMES;
        let contains_forbidden_characters = forbidden_char(s.as_str());
        if is_empty_or_whitespace || is_too_long || contains_forbidden_characters {
            Err(s.concat(" is not a valid subscriber name"))
        } else {
            Ok(SubscriberName(s))
        }
    }

    /// The name as text.
    pub fn inner(&self) -> (r: &str)
        ensures
            r@ == self@,
    {
        self.0.as_str()
    }
}

/// The environment the service runs in.
#[derive(Clone, Copy, Debug, PartialEq, Eq, Structural)]
pub enum Environment {
    Local,
    Production,
}

/// The lower-case form of a text, as `str::to_lowercase` gives it.
pub uninterp spec fn lower_of(s: Seq<char>) -> Seq<char>;

/// Relies on `str::to_lowercase`: the lower-case mapping of each character,
/// which depends on the text alone.
#[verifier::external_body]
fn lowercase(s: &str) -> (r: String)
    ensures
        r@ == lower_of(s@),
{
    s.to_lowercase()
}

/// The environment that a lower-case name selects.
pub open spec fn environment_named(name: Seq<char>) -> Option<Environment> {
    if name == "local"@ {
        Some(Environment::Local)
    } else if name == "production"@ {
        Some(Environment::Production)
    } else {
        None
    }
}

/// The message that rejects the environment name `name`.
pub open spec fn unknown_environment_message(name: Seq<char>) -> Seq<char> {
    name + " is not a support environment. Use either local or production"@
}

impl Environment {
    /// The name of the environment.
    pub fn as_str(&self) -> (r: &'static str)
        ensures
            r@ == match self {
                Environment::Local => "local"@,
                Environment::Production => "production"@,
            },
    {
        match self {
            Environment::Local => "local",
            Environment::Production => "production",
        }
    }

    /// The environment named `value`, in any letter case.
    pub fn parse(value: &str) -> (r: Result<Environment, String>)
        ensures
            match environment_named(lower_of(value@)) {
                Some(e) => r == Ok::<Environment, String>(e),
                None => r is Err && r->Err_0@ == unknown_environment_message(lower_of(value@)),
            },
    {
        let lower = lowercase(value);
        Environment::from_lowercase(lower.as_str())
    }

    /// The environment named `name`, already in lower case.
    pub fn from_lowercase(name: &str) -> (r: Result<Environment, String>)
        ensures
            match environment_named(name@) {
                Some(e) => r == Ok::<Environment, String>(e),
                None => r is Err && r->Err_0@ == unknown_environment_message(name@),
            },
    {
        let n = String::from_str(name);
        if n == String::from_str("local") {
            Ok(Environment::Local)
        } else if n == String::from_str("production") {
            Ok(Environment::Production)
        } else {
            Err(n.concat(" is not a support environment. Use either local or production"))
        }
    }
}

/// The metadata of a newsletter issue.
#[derive(Clone, Debug)]
pub struct NewsletterMetadata {
    pub issue_title: String,
    pub text_content: String,
    pub html_content: String,
}

impl NewsletterMetadata {
    /// Metadata holding copies of the three texts.
    pub fn new(issue_title: &str, text_content: &str, html_content: &str) -> (r: NewsletterMetadata)
        ensures
            r.issue_title@ == issue_title@,
            r.text_content@ == text_content@,
            r.html_content@ == html_content@,
    {
        NewsletterMetadata {
            issue_title: String::from_str(issue_title),
            text_content: String::from_str(text_content),
            html_content: String::from_str(html_content),
        }
    }
}

/// The query parameters of the subscription confirmation link.
#[derive(Clone, Debug)]
pub struct Parameters {
    pub subscription_token: String,
}

/// The base URL under which the service is reachable, used to build links.
#[derive(Clone, Debug)]
pub struct ApplicationBaseUrl(pub String);

} // verus!
