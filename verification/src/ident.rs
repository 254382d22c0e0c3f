//! Typed identifiers and labels, parsed from host-supplied strings.
//!
//! Every required configuration field that is "typed" must parse against the
//! identifier grammar below; label values use a looser printable grammar.
//! A parsed value keeps the exact string it was parsed from, so rendering it
//! back always returns the original input.

use vstd::prelude::*;
use vstd::string::StrSliceExecFns;

verus! {

/// A character allowed anywhere in an identifier: a lower-case ASCII letter,
/// an ASCII digit, or a hyphen.
pub open spec fn identifier_char(c: char) -> bool {
    ('a' <= c && c <= 'z') || ('0' <= c && c <= '9') || c == '-'
}

/// A character allowed at the start of an identifier: a hyphen may not lead.
pub open spec fn identifier_start(c: char) -> bool {
    ('a' <= c && c <= 'z') || ('0' <= c && c <= '9')
}

/// The identifier grammar shared by the access-key, account, project,
/// profile and label-name fields: non-empty, begins with a letter or digit,
/// and holds only lower-case letters, digits and hyphens.
pub open spec fn valid_identifier(s: Seq<char>) -> bool {
    &&& s.len() >= 1
    &&& identifier_start(s[0])
    &&& forall|i: int| 0 <= i < s.len() ==> identifier_char(#[trigger] s[i])
}

/// A character allowed in a label value: printable ASCII, space included.
pub open spec fn label_value_char(c: char) -> bool {
    ' ' <= c && c <= '~'
}

/// The label-value grammar: non-empty printable ASCII.
pub open spec fn valid_label_value(s: Seq<char>) -> bool {
    &&& s.len() >= 1
    &&& forall|i: int| 0 <= i < s.len() ==> label_value_char(#[trigger] s[i])
}

/// Why a string failed to parse.
#[derive(Clone, Copy, Debug, PartialEq, Eq, Structural)]
pub enum ParseError {
    /// The string does not satisfy the identifier grammar.
    NotAnIdentifier,
    /// The string does not satisfy the label-value grammar.
    NotALabelValue,
}

/// Decides the identifier grammar.
fn check_identifier(s: &str) -> (b: bool)
    ensures
        b == valid_identifier(s@),
{
    let n = s.unicode_len();
    if n == 0 {
        return false;
    }
    let first = s.get_char(0);
    if !(('a' <= first && first <= 'z') || ('0' <= first && first <= '9')) {
        return false;
    }
    let mut i: usize = 1;
    while i < n
        invariant
            1 <= i <= n,
            n == s@.len(),
            identifier_start(s@[0]),
            forall|j: int| 0 <= j < i ==> identifier_char(#[trigger] s@[j]),
        decreases n - i,
    {
        let c = s.get_char(i);
        if !(('a' <= c && c <= 'z') || ('0' <= c && c <= '9') || c == '-') {
            return false;
        }
        i += 1;
    }
    true
}

/// Decides the label-value grammar.
fn check_label_value(s: &str) -> (b: bool)
    ensures
        b == valid_label_value(s@),
{
    let n = s.unicode_len();
    if n == 0 {
        return false;
    }
    let mut i: usize = 0;
    while i < n
        invariant
            0 <= i <= n,
            1 <= n == s@.len(),
            forall|j: int| 0 <= j < i ==> label_value_char(#[trigger] s@[j]),
        decreases n - i,
    {
        let c = s.get_char(i);
        if !(' ' <= c && c <= '~') {
            return false;
        }
        i += 1;
    }
    true
}

/// A parsed access-key identifier; holds the exact string it was parsed from.
#[derive(Clone, Debug)]
pub struct AccessKeyId {
    text: String,
}

impl View for AccessKeyId {
    type V = Seq<char>;

    closed spec fn view(&self) -> Seq<char> {
        self.text@
    }
}

impl AccessKeyId {
    /// The value satisfies the identifier grammar.
    pub open spec fn valid(self) -> bool {
        valid_identifier(self@)
    }

    /// Parses `s` against the identifier grammar, keeping the input verbatim.
    pub fn parse(s: &str) -> (r: Result<AccessKeyId, ParseError>)
        ensures
            r is Ok <==> valid_identifier(s@),
            r matches Ok(id) ==> id@ == s@,
            r matches Err(e) ==> e == ParseError::NotAnIdentifier,
    {
        if check_identifier(s) {
            Ok(AccessKeyId { text: s.to_owned() })
        } else {
            Err(ParseError::NotAnIdentifier)
        }
    }

    /// Renders the identifier back to the exact string it was parsed from.
    pub fn as_str(&self) -> (r: &str)
        ensures
            r@ == self@,
    {
        self.text.as_str()
    }
}

/// A parsed account name; holds the exact string it was parsed from.
#[derive(Clone, Debug)]
pub struct AccountName {
    text: String,
}

impl View for AccountName {
    type V = Seq<char>;

    closed spec fn view(&self) -> Seq<char> {
        self.text@
    }
}

impl AccountName {
    /// The value satisfies the identifier grammar.
    pub open spec fn valid(self) -> bool {
        valid_identifier(self@)
    }

    /// Parses `s` against the identifier grammar, keeping the input verbatim.
    pub fn parse(s: &str) -> (r: Result<AccountName, ParseError>)
        ensures
            r is Ok <==> valid_identifier(s@),
            r matches Ok(id) ==> id@ == s@,
            r matches Err(e) ==> e == ParseError::NotAnIdentifier,
    {
        if check_identifier(s) {
            Ok(AccountName { text: s.to_owned() })
        } else {
            Err(ParseError::NotAnIdentifier)
        }
    }

    /// Renders the account name back to the exact string it was parsed from.
    pub fn as_str(&self) -> (r: &str)
        ensures
            r@ == self@,
    {
        self.text.as_str()
    }
}

/// A parsed project name; holds the exact string it was parsed from.
#[derive(Clone, Debug)]
pub struct ProjectName {
    text: String,
}

impl View for ProjectName {
    type V = Seq<char>;

    closed spec fn view(&self) -> Seq<char> {
        self.text@
    }
}

impl ProjectName {
    /// The value satisfies the identifier grammar.
    pub open spec fn valid(self) -> bool {
        valid_identifier(self@)
    }

    /// Parses `s` against the identifier grammar, keeping the input verbatim.
    pub fn parse(s: &str) -> (r: Result<ProjectName, ParseError>)
        ensures
            r is Ok <==> valid_identifier(s@),
            r matches Ok(id) ==> id@ == s@,
            r matches Err(e) ==> e == ParseError::NotAnIdentifier,
    {
        if check_identifier(s) {
            Ok(ProjectName { text: s.to_owned() })
        } else {
            Err(ParseError::NotAnIdentifier)
        }
    }

    /// Renders the project name back to the exact string it was parsed from.
    pub fn as_str(&self) -> (r: &str)
        ensures
            r@ == self@,
    {
        self.text.as_str()
    }
}

/// A parsed profile name; holds the exact string it was parsed from.
#[derive(Clone, Debug)]
pub struct ProfileName {
    text: String,
}

impl View for ProfileName {
    type V = Seq<char>;

    closed spec fn view(&self) -> Seq<char> {
        self.text@
    }
}

impl ProfileName {
    /// The value satisfies the identifier grammar.
    pub open spec fn valid(self) -> bool {
        valid_identifier(self@)
    }

    /// Parses `s` against the identifier grammar, keeping the input verbatim.
    pub fn parse(s: &str) -> (r: Result<ProfileName, ParseError>)
        ensures
            r is Ok <==> valid_identifier(s@),
            r matches Ok(id) ==> id@ == s@,
            r matches Err(e) ==> e == ParseError::NotAnIdentifier,
    {
        if check_identifier(s) {
            Ok(ProfileName { text: s.to_owned() })
        } else {
            Err(ParseError::NotAnIdentifier)
        }
    }

    /// Renders the profile name back to the exact string it was parsed from.
    pub fn as_str(&self) -> (r: &str)
        ensures
            r@ == self@,
    {
        self.text.as_str()
    }
}

/// A parsed label name; holds the exact string it was parsed from.
#[derive(Clone, Debug)]
pub struct LabelName {
    text: String,
}

impl View for LabelName {
    type V = Seq<char>;

    closed spec fn view(&self) -> Seq<char> {
        self.text@
    }
}

impl LabelName {
    /// The value satisfies the identifier grammar.
    pub open spec fn valid(self) -> bool {
        valid_identifier(self@)
    }

    /// Parses `s` against the identifier grammar, keeping the input verbatim.
    pub fn parse(s: &str) -> (r: Result<LabelName, ParseError>)
        ensures
            r is Ok <==> valid_identifier(s@),
            r matches Ok(id) ==> id@ == s@,
            r matches Err(e) ==> e == ParseError::NotAnIdentifier,
    {
        if check_identifier(s) {
            Ok(LabelName { text: s.to_owned() })
        } else {
            Err(ParseError::NotAnIdentifier)
        }
    }

    /// Renders the label name back to the exact string it was parsed from.
    pub fn as_str(&self) -> (r: &str)
        ensures
            r@ == self@,
    {
        self.text.as_str()
    }

    /// Two label names are the same key exactly when their texts are equal.
    pub fn same_name(&self, other: &LabelName) -> (r: bool)
        ensures
            r == (self@ == other@),
    {
        self.text == other.text
    }
}

/// A parsed label value; holds the exact string it was parsed from.
#[derive(Clone, Debug)]
pub struct LabelValue {
    text: String,
}

impl View for LabelValue {
    type V = Seq<char>;

    closed spec fn view(&self) -> Seq<char> {
        self.text@
    }
}

impl LabelValue {
    /// The value satisfies the label-value grammar.
    pub open spec fn valid(self) -> bool {
        valid_label_value(self@)
    }

    /// Parses `s` against the label-value grammar, keeping the input verbatim.
    pub fn parse(s: &str) -> (r: Result<LabelValue, ParseError>)
        ensures
            r is Ok <==> valid_label_value(s@),
            r matches Ok(v) ==> v@ == s@,
            r matches Err(e) ==> e == ParseError::NotALabelValue,
    {
        if check_label_value(s) {
            Ok(LabelValue { text: s.to_owned() })
        } else {
            Err(ParseError::NotALabelValue)
        }
    }

    /// Renders the label value back to the exact string it was parsed from.
    pub fn as_str(&self) -> (r: &str)
        ensures
            r@ == self@,
    {
        self.text.as_str()
    }
}

} // verus!
