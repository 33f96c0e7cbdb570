//! Match conditions: which objects a filter, a name override or a
//! permanently hidden item applies to, judged by the values of their
//! properties.
use vstd::prelude::*;

verus! {

#[verifier::external_type_specification]
#[verifier::external_body]
pub struct ExRegex(regex::Regex);

#[verifier::external_type_specification]
#[verifier::external_body]
pub struct ExRegexError(regex::Error);

/// Trusted: `regex::Regex::clone` returns a handle to the same compiled
/// expression. Nothing is stated of the result.
pub assume_specification[ <regex::Regex as Clone>::clone ](re: &regex::Regex) -> regex::Regex;

/// The pattern is a regular expression that compiles.
pub uninterp spec fn regex_compiles(pattern: Seq<char>) -> bool;

/// The regular expression `pattern` matches somewhere in `haystack`.
pub uninterp spec fn regex_matches(pattern: Seq<char>, haystack: Seq<char>) -> bool;

/// Compiles `pattern`.
///
/// Trusted: calls `regex::Regex::new`, which builds a regex with the
/// default limits and fails exactly on patterns it cannot compile. The
/// contract only names that verdict (`regex_compiles`), a function of the
/// pattern alone.
#[verifier::external_body]
fn regex_new(pattern: &str) -> (r: Result<regex::Regex, regex::Error>)
    ensures
        r is Ok <==> regex_compiles(pattern@),
{
    regex::Regex::new(pattern)
}

/// A compiled regular expression together with the pattern it was
/// compiled from. `RegexPattern::new` is its only constructor, so the
/// two always agree.
#[derive(Debug, Clone)]
pub struct RegexPattern {
    source: String,
    compiled: regex::Regex,
}

impl View for RegexPattern {
    type V = Seq<char>;

    closed spec fn view(&self) -> Seq<char> {
        self.source@
    }
}

/// Whether the regular expression matches somewhere in `haystack`.
///
/// Trusted: calls `regex::Regex::is_match` on the compiled expression,
/// which `RegexPattern::new` built from `p`'s own pattern. The contract
/// only names the verdict (`regex_matches`), a function of the pattern
/// and the haystack alone.
#[verifier::external_body]
fn regex_is_match(p: &RegexPattern, haystack: &str) -> (b: bool)
    ensures
        b == regex_matches(p@, haystack@),
{
    p.compiled.is_match(haystack)
}

impl RegexPattern {
    /// Compiles `pattern`, keeping its text.
    pub fn new(pattern: &str) -> (r: Result<RegexPattern, regex::Error>)
        ensures
            r is Ok <==> regex_compiles(pattern@),
            r matches Ok(p) ==> p@ == pattern@,
    {
        match regex_new(pattern) {
            Ok(compiled) => Ok(RegexPattern { source: pattern.to_owned(), compiled }),
            Err(e) => Err(e),
        }
    }

    /// The pattern the expression was compiled from.
    pub fn as_str(&self) -> (s: &str)
        ensures
            s@ == self@,
    {
        self.source.as_str()
    }
}

/// A condition on one property value.
#[derive(Debug, Clone)]
pub enum MatchValue {
    Literal(String),
    NegatedLiteral(String),
    Regex(RegexPattern),
    NegatedRegex(RegexPattern),
    Null,
    NotNull,
}

impl std::str::FromStr for MatchValue {
    type Err = MatchValueError;

    /// See `MatchValue::from_str`.
    fn from_str(s: &str) -> (r: Result<MatchValue, MatchValueError>)
        ensures
            r is Ok <==> parse_ok(s@),
            r matches Ok(v) ==> v@ == parse_view(s@),
    {
        MatchValue::from_str(s)
    }
}

impl PartialEq for MatchValue {
    /// Two conditions are equal when they are of the same kind over the
    /// same text; regular expressions compare by their patterns.
    fn eq(&self, other: &Self) -> (r: bool) {
        match (self, other) {
            (MatchValue::Literal(a), MatchValue::Literal(b)) => *a == *b,
            (MatchValue::NegatedLiteral(a), MatchValue::NegatedLiteral(b)) => *a == *b,
            (MatchValue::Regex(a), MatchValue::Regex(b)) => a.source == b.source,
            (MatchValue::NegatedRegex(a), MatchValue::NegatedRegex(b)) => a.source == b.source,
            (MatchValue::Null, MatchValue::Null) => true,
            (MatchValue::NotNull, MatchValue::NotNull) => true,
            _ => false,
        }
    }
}

impl vstd::std_specs::cmp::PartialEqSpecImpl for MatchValue {
    open spec fn obeys_eq_spec() -> bool {
        true
    }

    open spec fn eq_spec(&self, other: &Self) -> bool {
        self@ == other@
    }
}

/// What a `MatchValue` holds: strings as sequences of characters, and a
/// regular expression as its pattern.
pub enum MatchValueView {
    Literal(Seq<char>),
    NegatedLiteral(Seq<char>),
    Regex(Seq<char>),
    NegatedRegex(Seq<char>),
    Null,
    NotNull,
}

impl View for MatchValue {
    type V = MatchValueView;

    open spec fn view(&self) -> MatchValueView {
        match self {
            MatchValue::Literal(s) => MatchValueView::Literal(s@),
            MatchValue::NegatedLiteral(s) => MatchValueView::NegatedLiteral(s@),
            MatchValue::Regex(p) => MatchValueView::Regex(p@),
            MatchValue::NegatedRegex(p) => MatchValueView::NegatedRegex(p@),
            MatchValue::Null => MatchValueView::Null,
            MatchValue::NotNull => MatchValueView::NotNull,
        }
    }
}

/// The text `null`.
pub open spec fn null_text() -> Seq<char> {
    seq!['n', 'u', 'l', 'l']
}

/// The text `"null"`, quotes included.
pub open spec fn quoted_null_text() -> Seq<char> {
    seq!['"', 'n', 'u', 'l', 'l', '"']
}

/// The condition a configured string describes: `null`/`!null` test for a
/// missing/present value, `"null"`/`!"null"` for the literal text `null`,
/// a leading `~` (or `!~`) introduces a (negated) regular expression, a
/// leading `!` a negated literal, and anything else is a literal.
pub open spec fn parse_view(s: Seq<char>) -> MatchValueView {
    if s == null_text() {
        MatchValueView::Null
    } else if s == seq!['!'] + null_text() {
        MatchValueView::NotNull
    } else if s == quoted_null_text() {
        MatchValueView::Literal(null_text())
    } else if s == seq!['!'] + quoted_null_text() {
        MatchValueView::NegatedLiteral(null_text())
    } else if s.len() >= 2 && s[0] == '!' && s[1] == '~' {
        MatchValueView::NegatedRegex(s.skip(2))
    } else if s.len() >= 1 && s[0] == '~' {
        MatchValueView::Regex(s.skip(1))
    } else if s.len() >= 1 && s[0] == '!' {
        MatchValueView::NegatedLiteral(s.skip(1))
    } else {
        MatchValueView::Literal(s)
    }
}

/// Parsing `s` succeeds: any regular expression it introduces compiles.
pub open spec fn parse_ok(s: Seq<char>) -> bool {
    match parse_view(s) {
        MatchValueView::Regex(p) => regex_compiles(p),
        MatchValueView::NegatedRegex(p) => regex_compiles(p),
        _ => true,
    }
}

/// The text a condition is written back as. The literal `null` is quoted
/// so that it is not read back as the `Null` condition; other literals are
/// written as they are.
pub open spec fn display_view(v: MatchValueView) -> Seq<char> {
    match v {
        MatchValueView::Null => null_text(),
        MatchValueView::NotNull => seq!['!'] + null_text(),
        MatchValueView::Literal(s) => if s == null_text() {
            quoted_null_text()
        } else {
            s
        },
        MatchValueView::NegatedLiteral(s) => if s == null_text() {
            seq!['!'] + quoted_null_text()
        } else {
            seq!['!'] + s
        },
        MatchValueView::Regex(p) => seq!['~'] + p,
        MatchValueView::NegatedRegex(p) => seq!['!', '~'] + p,
    }
}

/// Whether the condition holds of a property value (`None` when the
/// property is missing).
pub open spec fn matches_view(v: MatchValueView, value: Option<Seq<char>>) -> bool {
    match v {
        MatchValueView::Null => value is None,
        MatchValueView::NotNull => value is Some,
        MatchValueView::Literal(expected) => value == Some(expected),
        MatchValueView::NegatedLiteral(expected) => value != Some(expected),
        MatchValueView::Regex(p) => value matches Some(s) && regex_matches(p, s),
        MatchValueView::NegatedRegex(p) => !(value matches Some(s) && regex_matches(p, s)),
    }
}

/// The condition that holds exactly where `v` does not.
pub open spec fn negated_view(v: MatchValueView) -> MatchValueView {
    match v {
        MatchValueView::Null => MatchValueView::NotNull,
        MatchValueView::NotNull => MatchValueView::Null,
        MatchValueView::Literal(s) => MatchValueView::NegatedLiteral(s),
        MatchValueView::NegatedLiteral(s) => MatchValueView::Literal(s),
        MatchValueView::Regex(p) => MatchValueView::NegatedRegex(p),
        MatchValueView::NegatedRegex(p) => MatchValueView::Regex(p),
    }
}

/// Writing a parsed condition back gives exactly the text it was parsed
/// from.
pub proof fn lemma_display_parse_round_trip(s: Seq<char>)
    ensures
        display_view(parse_view(s)) == s,
{
    if s.len() >= 2 && s[0] == '!' && s[1] == '~' {
        assert(seq!['!', '~'] + s.skip(2) =~= s);
    } else if s.len() >= 1 && s[0] == '~' {
        assert(seq!['~'] + s.skip(1) =~= s);
    } else if s.len() >= 1 && s[0] == '!' {
        assert(seq!['!'] + s.skip(1) =~= s);
        if s.skip(1) == null_text() {
            assert(s =~= seq!['!'] + null_text());
        }
    }
}

/// The conditions whose written text reads back as themselves: every
/// condition but a literal that starts with `!` or `~`, a negated literal
/// that starts with `~`, and a literal or negated literal of the quoted
/// text `"null"` - the text has no way to escape those.
pub open spec fn writable(v: MatchValueView) -> bool {
    match v {
        MatchValueView::Literal(s) => s != quoted_null_text() && (s.len() == 0 || (s[0] != '!'
            && s[0] != '~')),
        MatchValueView::NegatedLiteral(s) => s != quoted_null_text() && (s.len() == 0 || s[0]
            != '~'),
        _ => true,
    }
}

/// Reading a written condition back gives the same condition, for every
/// condition the text can express.
pub proof fn lemma_parse_display_round_trip(v: MatchValueView)
    requires
        writable(v),
    ensures
        parse_view(display_view(v)) == v,
{
    reveal_strlit("null");
    let t = display_view(v);
    match v {
        MatchValueView::Literal(s) => {
            if s != null_text() {
                assert(t == s);
                if s.len() > 0 {
                    assert(s[0] != '!');
                }
            }
        },
        MatchValueView::NegatedLiteral(s) => {
            if s != null_text() {
                assert(t[0] == '!');
                assert(t.skip(1) =~= s);
                if t == seq!['!'] + null_text() {
                    assert(s =~= null_text());
                }
                if t == seq!['!'] + quoted_null_text() {
                    assert(s =~= quoted_null_text());
                }
                if t.len() >= 2 {
                    assert(t[1] == s[0]);
                }
            }
        },
        MatchValueView::Regex(p) => {
            assert(t.skip(1) =~= p);
            assert(t[0] == '~');
        },
        MatchValueView::NegatedRegex(p) => {
            assert(t.skip(2) =~= p);
            assert(t[0] == '!' && t[1] == '~');
        },
        _ => {},
    }
}

/// Each negated condition holds exactly where its plain counterpart does
/// not.
pub proof fn lemma_negation_complements(v: MatchValueView, value: Option<Seq<char>>)
    ensures
        matches_view(negated_view(v), value) == !matches_view(v, value),
        negated_view(negated_view(v)) == v,
{
}

/// Why a configured condition is refused.
#[derive(Debug)]
pub enum MatchValueError {
    /// The regular expression does not compile.
    InvalidRegex(regex::Error),
}

/// `a` and `b` hold the same characters.
fn same_text(a: &str, b: &str) -> (r: bool)
    ensures
        r == (a@ == b@),
{
    a.to_owned() == b.to_owned()
}

impl MatchValue {
    /// Parses a configured condition - see `parse_view`. Fails exactly
    /// when it introduces a regular expression that does not compile.
    pub fn from_str(s: &str) -> (r: Result<MatchValue, MatchValueError>)
        ensures
            r is Ok <==> parse_ok(s@),
            r matches Ok(v) ==> v@ == parse_view(s@),
    {
        proof {
            reveal_strlit("null");
            reveal_strlit("!null");
            reveal_strlit("\"null\"");
            reveal_strlit("!\"null\"");
            assert("null"@ =~= null_text());
            assert("!null"@ =~= seq!['!'] + null_text());
            assert("\"null\""@ =~= quoted_null_text());
            assert("!\"null\""@ =~= seq!['!'] + quoted_null_text());
        }
        if same_text(s, "null") {
            return Ok(MatchValue::Null);
        }
        if same_text(s, "!null") {
            return Ok(MatchValue::NotNull);
        }
        if same_text(s, "\"null\"") {
            return Ok(MatchValue::Literal("null".to_owned()));
        }
        if same_text(s, "!\"null\"") {
            return Ok(MatchValue::NegatedLiteral("null".to_owned()));
        }
        let len = s.unicode_len();
        if len >= 2 && s.get_char(0) == '!' && s.get_char(1) == '~' {
            return match RegexPattern::new(s.substring_char(2, len)) {
                Ok(p) => Ok(MatchValue::NegatedRegex(p)),
                Err(e) => Err(MatchValueError::InvalidRegex(e)),
            };
        }
        if len >= 1 && s.get_char(0) == '~' {
            return match RegexPattern::new(s.substring_char(1, len)) {
                Ok(p) => Ok(MatchValue::Regex(p)),
                Err(e) => Err(MatchValueError::InvalidRegex(e)),
            };
        }
        if len >= 1 && s.get_char(0) == '!' {
            return Ok(MatchValue::NegatedLiteral(s.substring_char(1, len).to_owned()));
        }
        Ok(MatchValue::Literal(s.to_owned()))
    }

    /// The text the condition is written back as - see `display_view`.
    pub fn to_text(&self) -> (t: String)
        ensures
            t@ == display_view(self@),
    {
        proof {
            reveal_strlit("null");
            reveal_strlit("!null");
            reveal_strlit("\"null\"");
            reveal_strlit("!\"null\"");
            reveal_strlit("!");
            reveal_strlit("~");
            reveal_strlit("!~");
            assert("null"@ =~= null_text());
            assert("!null"@ =~= seq!['!'] + null_text());
            assert("\"null\""@ =~= quoted_null_text());
            assert("!\"null\""@ =~= seq!['!'] + quoted_null_text());
            assert("!"@ =~= seq!['!']);
            assert("~"@ =~= seq!['~']);
            assert("!~"@ =~= seq!['!', '~']);
        }
        match self {
            MatchValue::Null => "null".to_owned(),
            MatchValue::NotNull => "!null".to_owned(),
            MatchValue::Literal(s) => {
                if same_text(s.as_str(), "null") {
                    "\"null\"".to_owned()
                } else {
                    s.clone()
                }
            },
            MatchValue::NegatedLiteral(s) => {
                if same_text(s.as_str(), "null") {
                    "!\"null\"".to_owned()
                } else {
                    "!".to_owned().concat(s.as_str())
                }
            },
            MatchValue::Regex(p) => "~".to_owned().concat(p.as_str()),
            MatchValue::NegatedRegex(p) => "!~".to_owned().concat(p.as_str()),
        }
    }

    /// Whether the condition holds of a property value (`None` when the
    /// property is missing).
    pub fn matches(&self, value: Option<&str>) -> (b: bool)
        ensures
            b == matches_view(
                self@,
                match value {
                    Some(s) => Some(s@),
                    None => None,
                },
            ),
    {
        match self {
            MatchValue::Null => value.is_none(),
            MatchValue::NotNull => value.is_some(),
            MatchValue::Literal(expected) => match value {
                Some(v) => same_text(v, expected.as_str()),
                None => false,
            },
            MatchValue::NegatedLiteral(expected) => match value {
                Some(v) => !same_text(v, expected.as_str()),
                None => true,
            },
            MatchValue::Regex(p) => match value {
                Some(v) => regex_is_match(p, v),
                None => false,
            },
            MatchValue::NegatedRegex(p) => match value {
                Some(v) => !regex_is_match(p, v),
                None => true,
            },
        }
    }
}

/// Conditions on several properties, all of which must hold. Each entry
/// pairs a property key (as written in the configuration, such as
/// `node.name` or `device:device.name`) with the condition on its value.
#[derive(Debug, Clone)]
pub struct MatchCondition(pub Vec<(String, MatchValue)>);

impl MatchCondition {
    /// Whether every condition holds, given the value each entry's
    /// property resolved to (`resolved[i]` for entry `i`, `None` when the
    /// property is missing).
    pub fn matches(&self, resolved: &Vec<Option<String>>) -> (b: bool)
        requires
            resolved@.len() == self.0@.len(),
        ensures
            b == forall|i: int|
                0 <= i < self.0@.len() ==> matches_view(
                    #[trigger] self.0@[i].1@,
                    match resolved@[i] {
                        Some(s) => Some(s@),
                        None => None,
                    },
                ),
    {
        let mut i: usize = 0;
        while i < self.0.len()
            invariant
                resolved@.len() == self.0@.len(),
                i <= self.0@.len(),
                forall|j: int|
                    0 <= j < i ==> matches_view(
                        #[trigger] self.0@[j].1@,
                        match resolved@[j] {
                            Some(s) => Some(s@),
                            None => None,
                        },
                    ),
            decreases self.0.len() - i,
        {
            let value = match &resolved[i] {
                Some(s) => Some(s.as_str()),
                None => None,
            };
            if !self.0[i].1.matches(value) {
                return false;
            }
            i += 1;
        }
        true
    }

    /// Builds a matcher against a node's exact `node.name` - used to
    /// durably identify a node for hide-items persistence.
    pub fn from_node_name(name: &str) -> (c: MatchCondition)
        ensures
            c.0@.len() == 1,
            c.0@[0].0@ == "node.name"@,
            c.0@[0].1@ == MatchValueView::Literal(name@),
    {
        MatchCondition(vec![("node.name".to_owned(), MatchValue::Literal(name.to_owned()))])
    }
}

} // verus!
