use vstd::prelude::*;
use vstd::string::{StrSliceExecFns, StringExecFns};
use crate::text::{ascii_lower_seq, chars_of, eq_ignore_ascii_case};

verus! {

/// The relay's settings, as given on the command line or in the environment.
pub struct Args {
    /// The shared secret itself.
    pub github_secret: Option<String>,
    /// A file that holds the shared secret.
    pub github_secret_file: Option<String>,
    /// The destination base URL.
    pub jenkins_url: String,
    /// The address to listen on.
    pub host: String,
    pub port: u16,
    /// One of trace, debug, info, warn, error, in any ASCII case.
    pub log_level: String,
}

/// How much the relay logs.
#[derive(Debug, Clone, Copy, PartialEq, Eq, Structural)]
pub enum LogLevel {
    Trace,
    Debug,
    Info,
    Warn,
    Error,
}

/// Where the shared secret comes from.
#[derive(Debug, Clone, PartialEq, Eq)]
pub enum SecretSource {
    /// The secret, as given.
    Value(String),
    /// The path of a file whose text, trimmed, is the secret.
    File(String),
}

/// The level that a setting names, once ASCII letters are lowercased.
pub open spec fn level_of(s: Seq<char>) -> Option<LogLevel> {
    let l = ascii_lower_seq(s);
    if l == seq!['t', 'r', 'a', 'c', 'e'] {
        Some(LogLevel::Trace)
    } else if l == seq!['d', 'e', 'b', 'u', 'g'] {
        Some(LogLevel::Debug)
    } else if l == seq!['i', 'n', 'f', 'o'] {
        Some(LogLevel::Info)
    } else if l == seq!['w', 'a', 'r', 'n'] {
        Some(LogLevel::Warn)
    } else if l == seq!['e', 'r', 'r', 'o', 'r'] {
        Some(LogLevel::Error)
    } else {
        None
    }
}

proof fn lemma_lower_word(s: Seq<char>)
    requires
        forall|i: int| 0 <= i < s.len() ==> 'a' <= #[trigger] s[i] && s[i] <= 'z',
    ensures
        ascii_lower_seq(s) == s,
{
    assert(ascii_lower_seq(s) =~= s);
}

impl Args {
    /// The log level that the settings name. Anything but the five level
    /// names is refused with a message that quotes it.
    pub fn get_log_level(&self) -> (r: Result<LogLevel, String>)
        ensures
            level_of(self.log_level@) matches Some(l) ==> r == Ok::<LogLevel, String>(l),
            level_of(self.log_level@) is None ==> (r matches Err(m) && m@ == "Invalid log level '"@
                + self.log_level@ + "'. Valid options are: trace, debug, info, warn, error"@),
    {
        let s = chars_of(self.log_level.as_str());
        let trace = chars_of("trace");
        let debug = chars_of("debug");
        let info = chars_of("info");
        let warn = chars_of("warn");
        let error = chars_of("error");
        proof {
            reveal_strlit("trace");
            reveal_strlit("debug");
            reveal_strlit("info");
            reveal_strlit("warn");
            reveal_strlit("error");
            lemma_lower_word(trace@);
            lemma_lower_word(debug@);
            lemma_lower_word(info@);
            lemma_lower_word(warn@);
            lemma_lower_word(error@);
            assert(trace@ =~= seq!['t', 'r', 'a', 'c', 'e']);
            assert(debug@ =~= seq!['d', 'e', 'b', 'u', 'g']);
            assert(info@ =~= seq!['i', 'n', 'f', 'o']);
            assert(warn@ =~= seq!['w', 'a', 'r', 'n']);
            assert(error@ =~= seq!['e', 'r', 'r', 'o', 'r']);
        }
        if eq_ignore_ascii_case(&s, &trace) {
            Ok(LogLevel::Trace)
        } else if eq_ignore_ascii_case(&s, &debug) {
            Ok(LogLevel::Debug)
        } else if eq_ignore_ascii_case(&s, &info) {
            Ok(LogLevel::Info)
        } else if eq_ignore_ascii_case(&s, &warn) {
            Ok(LogLevel::Warn)
        } else if eq_ignore_ascii_case(&s, &error) {
            Ok(LogLevel::Error)
        } else {
            let mut m = String::from_str("Invalid log level '");
            m.append(self.log_level.as_str());
            m.append("'. Valid options are: trace, debug, info, warn, error");
            Err(m)
        }
    }

    /// Where the shared secret comes from: exactly one of the secret and a
    /// file that holds it must be given.
    pub fn get_github_secret(&self) -> (r: Result<SecretSource, String>)
        ensures
            match (self.github_secret, self.github_secret_file) {
                (Some(s), None) => r matches Ok(SecretSource::Value(v)) && v@ == s@,
                (None, Some(p)) => r matches Ok(SecretSource::File(f)) && f@ == p@,
                (Some(_), Some(_)) => r matches Err(m) && m@
                    == "Only one of --github-secret and --github-secret-file may be provided"@,
                (None, None) => r matches Err(m) && m@
                    == "Either --github-secret or --github-secret-file must be provided"@,
            },
    {
        match (&self.github_secret, &self.github_secret_file) {
            (Some(s), None) => Ok(SecretSource::Value(String::from_str(s.as_str()))),
            (None, Some(p)) => Ok(SecretSource::File(String::from_str(p.as_str()))),
            (Some(_), Some(_)) => Err(
                String::from_str("Only one of --github-secret and --github-secret-file may be provided"),
            ),
            (None, None) => Err(
                String::from_str("Either --github-secret or --github-secret-file must be provided"),
            ),
        }
    }
}

/// Whether `c` has the Unicode White_Space property.
pub open spec fn is_white_space(c: char) -> bool {
    ||| ('\u{9}' <= c && c <= '\u{d}')
    ||| c == ' '
    ||| c == '\u{85}'
    ||| c == '\u{a0}'
    ||| c == '\u{1680}'
    ||| ('\u{2000}' <= c && c <= '\u{200a}')
    ||| c == '\u{2028}'
    ||| c == '\u{2029}'
    ||| c == '\u{202f}'
    ||| c == '\u{205f}'
    ||| c == '\u{3000}'
}

fn white_space(c: char) -> (r: bool)
    ensures
        r == is_white_space(c),
{
    ('\u{9}' <= c && c <= '\u{d}') || c == ' ' || c == '\u{85}' || c == '\u{a0}' || c
        == '\u{1680}' || ('\u{2000}' <= c && c <= '\u{200a}') || c == '\u{2028}' || c
        == '\u{2029}' || c == '\u{202f}' || c == '\u{205f}' || c == '\u{3000}'
}

/// The first position at or after `j` that holds no white space.
pub open spec fn skip_white_from(s: Seq<char>, j: int) -> int
    decreases s.len() - j,
{
    if 0 <= j < s.len() && is_white_space(s[j]) {
        skip_white_from(s, j + 1)
    } else {
        j
    }
}

/// The end of `s[lo..j]` once white space at its end is dropped.
pub open spec fn drop_white_before(s: Seq<char>, lo: int, j: int) -> int
    decreases j - lo,
{
    if lo < j && is_white_space(s[j - 1]) {
        drop_white_before(s, lo, j - 1)
    } else {
        j
    }
}

/// `s` without the white space at its start and at its end.
pub open spec fn trimmed(s: Seq<char>) -> Seq<char> {
    let a = skip_white_from(s, 0);
    s.subrange(a, drop_white_before(s, a, s.len() as int))
}

/// The secret that a secret file holds: its text without the white space
/// (a final newline, for one) around it.
pub fn secret_from_file_text(text: &str) -> (r: String)
    ensures
        r@ == trimmed(text@),
{
    let chars = chars_of(text);
    let n = chars.len();
    let mut a: usize = 0;
    while a < n && white_space(chars[a])
        invariant
            chars@ == text@,
            n == chars@.len(),
            a <= n,
            skip_white_from(text@, a as int) == skip_white_from(text@, 0),
        decreases n - a,
    {
        a = a + 1;
    }
    let mut b: usize = n;
    while b > a && white_space(chars[b - 1])
        invariant
            chars@ == text@,
            n == chars@.len(),
            a <= b <= n,
            skip_white_from(text@, 0) == a,
            drop_white_before(text@, a as int, b as int) == drop_white_before(
                text@,
                a as int,
                n as int,
            ),
        decreases b - a,
    {
        b = b - 1;
    }
    String::from_str(text.substring_char(a, b))
}

} // verus!
