//! The text patterns of the engine and how a line is held against them.
use vstd::prelude::*;
use crate::text::{contains_text, lowercase, occurs_in, to_lowercase};

verus! {

/// An IPv4 address in dotted-quad form, standing as a word of its own.
pub const IP_PATTERN: &'static str = r"\b(?:\d{1,3}\.){3}\d{1,3}\b";

/// What `Regex::is_match` answers for a pattern and a text: none where the
/// pattern is not a valid regular expression.
pub uninterp spec fn regex_is_match(pattern: Seq<char>, haystack: Seq<char>) -> Option<bool>;

/// The text of the match that `Regex::find` returns for a pattern and a
/// text: none where the pattern is not a valid regular expression, and
/// inside that, none where the text holds no match.
pub uninterp spec fn regex_find(pattern: Seq<char>, haystack: Seq<char>) -> Option<
    Option<Seq<char>>,
>;

/// The characters of what a search found.
pub open spec fn found_view(found: Option<Option<String>>) -> Option<Option<Seq<char>>> {
    match found {
        Some(Some(text)) => Some(Some(text@)),
        Some(None) => Some(None),
        None => None,
    }
}

/// Compiles `pattern` with `Regex::new` and asks `Regex::is_match` whether
/// `haystack` holds a match.  The answer depends on the two texts alone.
#[verifier::external_body]
pub(crate) fn pattern_is_match(pattern: &str, haystack: &str) -> (answer: Option<bool>)
    ensures
        answer == regex_is_match(pattern@, haystack@),
{
    match regex::Regex::new(pattern) {
        Ok(re) => Some(re.is_match(haystack)),
        Err(_) => None,
    }
}

/// Compiles `pattern` with `Regex::new` and returns the text of the match
/// that `Regex::find` gives for `haystack`.  The result depends on the two
/// texts alone, and a match is a part of the text that was searched.
#[verifier::external_body]
pub(crate) fn pattern_find(pattern: &str, haystack: &str) -> (found: Option<Option<String>>)
    ensures
        found_view(found) == regex_find(pattern@, haystack@),
        found matches Some(Some(text)) ==> occurs_in(haystack@, text@),
{
    match regex::Regex::new(pattern) {
        Ok(re) => match re.find(haystack) {
            Some(m) => Some(Some(m.as_str().to_string())),
            None => Some(None),
        },
        Err(_) => None,
    }
}

/// The IPv4 address that `extract_ip_from_line` finds in a line.
pub open spec fn extracted_ip(line: Seq<char>) -> Option<Seq<char>> {
    match regex_find(IP_PATTERN@, line) {
        Some(found) => found,
        None => None,
    }
}

/// How many patterns mark a failed SSH authentication.
pub const FAILED_AUTH_PATTERNS: usize = 3;

/// The `i`-th pattern of a failed SSH authentication.
pub open spec fn failed_auth_pattern_spec(i: int) -> Seq<char> {
    if i == 0 {
        r"Failed password for .* from (\d+\.\d+\.\d+\.\d+)"@
    } else if i == 1 {
        r"Invalid user .* from (\d+\.\d+\.\d+\.\d+)"@
    } else {
        r"authentication failure.*rhost=(\d+\.\d+\.\d+\.\d+)"@
    }
}

/// The `i`-th pattern of a failed SSH authentication.
pub fn failed_auth_pattern(i: usize) -> (pattern: &'static str)
    requires
        i < FAILED_AUTH_PATTERNS,
    ensures
        pattern@ == failed_auth_pattern_spec(i as int),
{
    if i == 0 {
        r"Failed password for .* from (\d+\.\d+\.\d+\.\d+)"
    } else if i == 1 {
        r"Invalid user .* from (\d+\.\d+\.\d+\.\d+)"
    } else {
        r"authentication failure.*rhost=(\d+\.\d+\.\d+\.\d+)"
    }
}

/// One of the patterns of a failed SSH authentication, from the `from`-th
/// on, matches the line.
pub open spec fn failed_auth_from(line: Seq<char>, from: int) -> bool
    decreases FAILED_AUTH_PATTERNS - from,
{
    if from < 0 || from >= FAILED_AUTH_PATTERNS {
        false
    } else {
        regex_is_match(failed_auth_pattern_spec(from), line) == Some(true) || failed_auth_from(
            line,
            from + 1,
        )
    }
}

/// The line reports a failed SSH authentication.
pub open spec fn is_failed_auth(line: Seq<char>) -> bool {
    failed_auth_from(line, 0)
}

/// Whether the line reports a failed SSH authentication.
pub fn matches_failed_auth(line: &str) -> (failed: bool)
    ensures
        failed == is_failed_auth(line@),
{
    let mut i: usize = 0;
    while i < FAILED_AUTH_PATTERNS
        invariant
            i <= FAILED_AUTH_PATTERNS,
            is_failed_auth(line@) == failed_auth_from(line@, i as int),
        decreases FAILED_AUTH_PATTERNS - i,
    {
        if let Some(true) = pattern_is_match(failed_auth_pattern(i), line) {
            return true;
        }
        i += 1;
    }
    false
}

/// The line bears the mark of a scan of the SSH port: a peer that sent no
/// identification, or a malformed one.
pub open spec fn is_ssh_scan(line: Seq<char>) -> bool {
    occurs_in(line, "Did not receive identification string"@) || occurs_in(
        line,
        "Bad protocol version identification"@,
    )
}

/// Whether the line bears the mark of a scan of the SSH port.
pub fn matches_ssh_scan(line: &str) -> (scan: bool)
    ensures
        scan == is_ssh_scan(line@),
{
    contains_text(line, "Did not receive identification string") || contains_text(
        line,
        "Bad protocol version identification",
    )
}

/// How many patterns mark enumeration of a web server.
pub const ENUMERATION_PATTERNS: usize = 14;

/// The `i`-th enumeration pattern.
pub open spec fn enumeration_pattern_spec(i: int) -> Seq<char> {
    if i == 0 {
        r"/admin"@
    } else if i == 1 {
        r"/wp-admin"@
    } else if i == 2 {
        r"\.git/"@
    } else if i == 3 {
        r"/backup"@
    } else if i == 4 {
        r"/phpmyadmin"@
    } else if i == 5 {
        r"/server-status"@
    } else if i == 6 {
        r"/cgi-bin/"@
    } else if i == 7 {
        r"robots\.txt"@
    } else if i == 8 {
        r"union.*select"@
    } else if i == 9 {
        r"<script>"@
    } else if i == 10 {
        r"\.\./"@
    } else if i == 11 {
        r"\.env"@
    } else if i == 12 {
        r"/wp-json"@
    } else {
        r"xmlrpc\.php"@
    }
}

/// What the `i`-th enumeration pattern stands for.
pub open spec fn enumeration_description_spec(i: int) -> Seq<char> {
    if i == 0 {
        "Admin access"@
    } else if i == 1 {
        "WordPress admin"@
    } else if i == 2 {
        "Git directory"@
    } else if i == 3 {
        "Backup directory"@
    } else if i == 4 {
        "phpMyAdmin"@
    } else if i == 5 {
        "Apache status"@
    } else if i == 6 {
        "CGI scripts"@
    } else if i == 7 {
        "Robots file"@
    } else if i == 8 {
        "SQL injection"@
    } else if i == 9 {
        "XSS attempt"@
    } else if i == 10 {
        "Directory traversal"@
    } else if i == 11 {
        "Environment file"@
    } else if i == 12 {
        "WordPress API"@
    } else {
        "XML-RPC"@
    }
}

/// The `i`-th enumeration pattern.
pub fn enumeration_pattern(i: usize) -> (pattern: &'static str)
    requires
        i < ENUMERATION_PATTERNS,
    ensures
        pattern@ == enumeration_pattern_spec(i as int),
{
    if i == 0 {
        r"/admin"
    } else if i == 1 {
        r"/wp-admin"
    } else if i == 2 {
        r"\.git/"
    } else if i == 3 {
        r"/backup"
    } else if i == 4 {
        r"/phpmyadmin"
    } else if i == 5 {
        r"/server-status"
    } else if i == 6 {
        r"/cgi-bin/"
    } else if i == 7 {
        r"robots\.txt"
    } else if i == 8 {
        r"union.*select"
    } else if i == 9 {
        r"<script>"
    } else if i == 10 {
        r"\.\./"
    } else if i == 11 {
        r"\.env"
    } else if i == 12 {
        r"/wp-json"
    } else {
        r"xmlrpc\.php"
    }
}

/// What the `i`-th enumeration pattern stands for.
pub fn enumeration_description(i: usize) -> (description: &'static str)
    requires
        i < ENUMERATION_PATTERNS,
    ensures
        description@ == enumeration_description_spec(i as int),
{
    if i == 0 {
        "Admin access"
    } else if i == 1 {
        "WordPress admin"
    } else if i == 2 {
        "Git directory"
    } else if i == 3 {
        "Backup directory"
    } else if i == 4 {
        "phpMyAdmin"
    } else if i == 5 {
        "Apache status"
    } else if i == 6 {
        "CGI scripts"
    } else if i == 7 {
        "Robots file"
    } else if i == 8 {
        "SQL injection"
    } else if i == 9 {
        "XSS attempt"
    } else if i == 10 {
        "Directory traversal"
    } else if i == 11 {
        "Environment file"
    } else if i == 12 {
        "WordPress API"
    } else {
        "XML-RPC"
    }
}

/// The first enumeration pattern, from the `from`-th on, that matches the
/// text; none where none of them does.
pub open spec fn first_enumeration_from(text: Seq<char>, from: int) -> Option<int>
    decreases ENUMERATION_PATTERNS - from,
{
    if from < 0 || from >= ENUMERATION_PATTERNS {
        None
    } else if regex_is_match(enumeration_pattern_spec(from), text) == Some(true) {
        Some(from)
    } else {
        first_enumeration_from(text, from + 1)
    }
}

/// The enumeration pattern that a web log line trips: the first in the
/// table that matches the line in lower case.
pub open spec fn enumeration_hit(line: Seq<char>) -> Option<int> {
    first_enumeration_from(lowercase(line), 0)
}

/// The enumeration pattern that `line` trips, by its place in the table.
pub fn find_enumeration(line: &str) -> (hit: Option<usize>)
    ensures
        match hit {
            Some(i) => i < ENUMERATION_PATTERNS && enumeration_hit(line@) == Some(i as int),
            None => enumeration_hit(line@).is_none(),
        },
{
    let lower = to_lowercase(line);
    let mut i: usize = 0;
    while i < ENUMERATION_PATTERNS
        invariant
            i <= ENUMERATION_PATTERNS,
            lower@ == lowercase(line@),
            enumeration_hit(line@) == first_enumeration_from(lower@, i as int),
        decreases ENUMERATION_PATTERNS - i,
    {
        if let Some(true) = pattern_is_match(enumeration_pattern(i), lower.as_str()) {
            return Some(i);
        }
        i += 1;
    }
    None
}

} // verus!
