//! The widget's configuration: which players to leave out, and how long
//! titles and subtitles may grow.
use vstd::prelude::*;
use regex::Regex;

verus! {

/// `regex::Regex`, a compiled regular expression, carried as it is.
#[verifier::external_type_specification]
#[verifier::external_body]
pub struct ExRegex(regex::Regex);

/// `regex::Error`, the reason a pattern does not compile.
#[verifier::external_type_specification]
#[verifier::external_body]
pub struct ExRegexError(regex::Error);

/// Whether `regex::Regex::new` compiles this pattern.  The regex crate
/// refuses a pattern that is not valid syntax or whose compiled form would
/// exceed its default size limit; which patterns those are is not stated
/// here.
pub uninterp spec fn regex_compiles(pattern: Seq<char>) -> bool;

/// The pattern that a compiled regex was compiled from, as
/// `regex::Regex::as_str` gives it back.
pub uninterp spec fn regex_source(r: Regex) -> Seq<char>;

/// Calls `regex::Regex::new`.  The contract claims that the call succeeds
/// exactly on the patterns named by `regex_compiles`, which depends on the
/// pattern alone, and that the regex it gives keeps that pattern as its
/// source; nothing is claimed of what the compiled regex matches.
#[verifier::external_body]
fn regex_new(pattern: &str) -> (res: Result<Regex, regex::Error>)
    ensures
        res is Ok <==> regex_compiles(pattern@),
        res matches Ok(r) ==> regex_source(r) == pattern@,
{
    Regex::new(pattern)
}

/// Calls `regex::Regex::as_str`, which gives back the pattern that the
/// regex was compiled from; the contract claims that it is the regex's
/// source.
#[verifier::external_body]
fn regex_as_str(r: &Regex) -> (res: &str)
    ensures
        res@ == regex_source(*r),
{
    r.as_str()
}

/// The pattern that leaves out `playerctld` when no other is configured.
pub open spec fn default_ignored_pattern() -> Seq<char> {
    "\\bplayerctld$"@
}

/// A configuration error.
#[derive(Debug)]
pub enum ConfigError {
    /// The pattern does not compile, for this reason.
    InvalidPattern(regex::Error),
}

/// A compiled regular expression, as read from the configuration.
pub struct DeserialRegex {
    regex: Regex,
}

impl View for DeserialRegex {
    type V = Seq<char>;

    /// The pattern that the regex was compiled from.
    closed spec fn view(&self) -> Seq<char> {
        regex_source(self.regex)
    }
}

impl DeserialRegex {
    /// The compiled regex.
    pub closed spec fn spec_regex(&self) -> Regex {
        self.regex
    }

    /// Compiles a pattern; a pattern that does not compile is refused with
    /// the reason.
    pub fn new(pattern: &str) -> (res: Result<DeserialRegex, ConfigError>)
        ensures
            res is Ok <==> regex_compiles(pattern@),
            res matches Ok(r) ==> r@ == pattern@ && regex_source(r.spec_regex()) == pattern@,
    {
        match regex_new(pattern) {
            Ok(regex) => Ok(DeserialRegex { regex }),
            Err(e) => Err(ConfigError::InvalidPattern(e)),
        }
    }

    /// The compiled regex.
    pub fn regex(&self) -> (res: &Regex)
        ensures
            *res == self.spec_regex(),
            regex_source(*res) == self@,
    {
        &self.regex
    }

    /// The pattern that the regex was compiled from.
    pub fn as_str(&self) -> (res: &str)
        ensures
            res@ == self@,
    {
        regex_as_str(&self.regex)
    }
}

/// The widget's configuration.
pub struct Config {
    ignored_players: DeserialRegex,
    max_title_length: Option<usize>,
    max_subtitle_length: Option<usize>,
}

impl Config {
    /// The players to leave out, as the pattern they match.
    pub closed spec fn spec_ignored_players(&self) -> DeserialRegex {
        self.ignored_players
    }

    /// The configured title limit, if any.
    pub closed spec fn spec_max_title_length(&self) -> Option<usize> {
        self.max_title_length
    }

    /// The configured subtitle limit, if any.
    pub closed spec fn spec_max_subtitle_length(&self) -> Option<usize> {
        self.max_subtitle_length
    }

    /// A configuration from its optional settings.  Without a pattern of
    /// players to leave out, the default pattern (`playerctld` at the end of
    /// a bus name) is compiled, and its failure to compile is reported.
    pub fn new(
        ignored_players: Option<DeserialRegex>,
        max_title_length: Option<usize>,
        max_subtitle_length: Option<usize>,
    ) -> (res: Result<Config, ConfigError>)
        ensures
            res is Ok <==> (ignored_players is Some || regex_compiles(default_ignored_pattern())),
            res matches Ok(c) ==> {
                &&& c.spec_ignored_players()@ == (match ignored_players {
                    Some(r) => r@,
                    None => default_ignored_pattern(),
                })
                &&& ignored_players matches Some(r) ==> c.spec_ignored_players() == r
                &&& regex_source(c.spec_ignored_players().spec_regex()) == (match ignored_players {
                    Some(r) => r@,
                    None => default_ignored_pattern(),
                })
                &&& c.spec_max_title_length() == max_title_length
                &&& c.spec_max_subtitle_length() == max_subtitle_length
            },
    {
        let ignored = match ignored_players {
            Some(r) => r,
            None => {
                match DeserialRegex::new("\\bplayerctld$") {
                    Ok(r) => r,
                    Err(e) => {
                        return Err(e);
                    },
                }
            },
        };
        Ok(Config { ignored_players: ignored, max_title_length, max_subtitle_length })
    }

    /// The regex of the players to leave out: the configured one, or the
    /// one compiled from the default pattern.
    pub fn ignored_players(&self) -> (res: &Regex)
        ensures
            *res == self.spec_ignored_players().spec_regex(),
            regex_source(*res) == self.spec_ignored_players()@,
    {
        self.ignored_players.regex()
    }

    /// The longest title shown, in bytes: as configured, 50 by default.
    pub fn max_title_length(&self) -> (res: usize)
        ensures
            res == (match self.spec_max_title_length() {
                Some(n) => n,
                None => 50,
            }),
    {
        match self.max_title_length {
            Some(n) => n,
            None => 50,
        }
    }

    /// The longest subtitle shown, in bytes: as configured, 50 by default.
    pub fn max_subtitle_length(&self) -> (res: usize)
        ensures
            res == (match self.spec_max_subtitle_length() {
                Some(n) => n,
                None => 50,
            }),
    {
        match self.max_subtitle_length {
            Some(n) => n,
            None => 50,
        }
    }
}

} // verus!
