//! The server's `key=value` configuration: stamping the shutdown banner
//! into it and reading the two fields that the launch depends on.

use vstd::prelude::*;
use vstd::string::*;
use crate::text::{trim, trimmed};

verus! {

/// Why a configuration could not be used.
#[derive(Clone, Copy, Debug, PartialEq, Eq, Structural)]
pub enum ConfigError {
    /// No `level-name=` field was found.
    MissingLevelName,
    /// No `server-version=` field was found.
    MissingServerVersion,
}

/// A configuration after the rewrite, with the fields read from it.
#[derive(Clone, Debug, PartialEq, Eq)]
pub struct ConfigDocument {
    /// The whole text, banner included.
    pub text: String,
    pub level_name: String,
    pub server_version: String,
}

/// The mathematical content of a `ConfigDocument`.
pub struct ConfigContent {
    pub text: Seq<char>,
    pub level_name: Seq<char>,
    pub server_version: Seq<char>,
}

impl View for ConfigDocument {
    type V = ConfigContent;

    open spec fn view(&self) -> ConfigContent {
        ConfigContent {
            text: self.text@,
            level_name: self.level_name@,
            server_version: self.server_version@,
        }
    }
}

/// What `Regex::replace_all` returns for the expression compiled from
/// `pattern`, applied to `text` with the replacement template
/// `replacement`: every non-overlapping match replaced. `None` stands for a
/// pattern that `Regex::new` turns down.
pub uninterp spec fn regex_replace_all(
    pattern: Seq<char>,
    text: Seq<char>,
    replacement: Seq<char>,
) -> Option<Seq<char>>;

/// What the first capture group holds in the leftmost match of the
/// expression compiled from `pattern` in `text`, as `Regex::captures`
/// reports it. `None` stands for no match, a group that took no part in the
/// match, or a pattern that `Regex::new` turns down.
pub uninterp spec fn regex_first_group(pattern: Seq<char>, text: Seq<char>) -> Option<Seq<char>>;

/// Compiles `pattern` with `regex::Regex::new` and calls
/// `Regex::replace_all` on `text`. The contract only gives the result its
/// name; what the regex engine computes is not proved here.
#[verifier::external_body]
fn replace_all(pattern: &str, text: &str, replacement: &str) -> (r: Option<String>)
    ensures
        r.is_some() == regex_replace_all(pattern@, text@, replacement@).is_some(),
        r matches Some(s) ==> regex_replace_all(pattern@, text@, replacement@) == Some(s@),
{
    match regex::Regex::new(pattern) {
        Ok(expression) => Some(expression.replace_all(text, replacement).into_owned()),
        Err(_) => None,
    }
}

/// Compiles `pattern` with `regex::Regex::new`, calls `Regex::captures` on
/// `text` and takes group 1 with `Captures::get`. The contract only gives
/// the result its name.
#[verifier::external_body]
fn first_group(pattern: &str, text: &str) -> (r: Option<String>)
    ensures
        r.is_some() == regex_first_group(pattern@, text@).is_some(),
        r matches Some(s) ==> regex_first_group(pattern@, text@) == Some(s@),
{
    match regex::Regex::new(pattern) {
        Ok(expression) => match expression.captures(text) {
            Some(found) => match found.get(1) {
                Some(group) => Some(group.as_str().to_owned()),
                None => None,
            },
            None => None,
        },
        Err(_) => None,
    }
}

/// The line that carries the banner, up to the scheduled time.
pub open spec fn banner_prefix() -> Seq<char> {
    "motd=\\u00a73Um abrigo em tempos de pandemia...\\u00a7r\\n\\u00a76Shutdown at "@
}

/// The banner line for a shutdown at `scheduled`: two display lines, the
/// second of which names the time.
pub open spec fn banner_spec(scheduled: Seq<char>) -> Seq<char> {
    banner_prefix() + scheduled
}

/// The pattern of the banner field.
pub open spec fn motd_pattern() -> Seq<char> {
    "motd=(.*)"@
}

/// The pattern of the level field.
pub open spec fn level_pattern() -> Seq<char> {
    "level-name=(.*)"@
}

/// The pattern of the version field.
pub open spec fn version_pattern() -> Seq<char> {
    "server-version=(.*)"@
}

/// The document made of a rewritten text and the two fields found in it, or
/// the error for the first field that is missing.
pub open spec fn document_spec(
    text: Seq<char>,
    level_name: Option<Seq<char>>,
    server_version: Option<Seq<char>>,
) -> Result<ConfigContent, ConfigError> {
    match (level_name, server_version) {
        (None, _) => Err(ConfigError::MissingLevelName),
        (Some(_), None) => Err(ConfigError::MissingServerVersion),
        (Some(level), Some(version)) => Ok(
            ConfigContent { text, level_name: level, server_version: version },
        ),
    }
}

/// A field's value as found by `pattern` in `text`, trimmed.
pub open spec fn field_spec(pattern: Seq<char>, text: Seq<char>) -> Option<Seq<char>> {
    match regex_first_group(pattern, text) {
        Some(value) => Some(trimmed(value)),
        None => None,
    }
}

/// The text of `contents` with the banner for `scheduled` in place of every
/// `motd=` field. Where the substitution cannot be made the text stays as it
/// was, stale banner included.
pub open spec fn rewritten_text(contents: Seq<char>, scheduled: Seq<char>) -> Seq<char> {
    match regex_replace_all(motd_pattern(), contents, banner_spec(scheduled)) {
        Some(text) => text,
        None => contents,
    }
}

/// The outcome of stamping the banner for `scheduled` into `contents` and
/// reading the two fields from the result.
pub open spec fn rewrite_spec(contents: Seq<char>, scheduled: Seq<char>) -> Result<
    ConfigContent,
    ConfigError,
> {
    let text = rewritten_text(contents, scheduled);
    document_spec(text, field_spec(level_pattern(), text), field_spec(version_pattern(), text))
}

/// The banner shows the scheduled time: it is the fixed prefix followed by
/// the time's text, whole and unchanged.
pub proof fn lemma_banner_holds_time(scheduled: Seq<char>)
    ensures
        banner_spec(scheduled).len() == banner_prefix().len() + scheduled.len(),
        banner_spec(scheduled).subrange(
            banner_prefix().len() as int,
            banner_spec(scheduled).len() as int,
        ) == scheduled,
        banner_spec(scheduled).subrange(0, banner_prefix().len() as int) == banner_prefix(),
{
    let whole = banner_spec(scheduled);
    let cut = banner_prefix().len() as int;
    assert(whole.subrange(cut, whole.len() as int) =~= scheduled);
    assert(whole.subrange(0, cut) =~= banner_prefix());
}

/// Builds the banner line for a shutdown at `scheduled`.
pub fn banner(scheduled: &str) -> (r: String)
    ensures
        r@ == banner_spec(scheduled@),
{
    let mut line = String::from_str(
        "motd=\\u00a73Um abrigo em tempos de pandemia...\\u00a7r\\n\\u00a76Shutdown at ",
    );
    line.append(scheduled);
    line
}

/// Reads the value of the first field in `text` that `pattern` matches,
/// without the whitespace around it.
pub fn field(pattern: &str, text: &str) -> (r: Option<String>)
    ensures
        r.is_some() == field_spec(pattern@, text@).is_some(),
        r matches Some(value) ==> field_spec(pattern@, text@) == Some(value@),
{
    match first_group(pattern, text) {
        Some(value) => Some(String::from_str(trim(value.as_str()))),
        None => None,
    }
}

/// Puts a rewritten text and the fields found in it together. Fails for
/// the first field that is missing, the level before the version.
pub fn document(text: String, level_name: Option<String>, server_version: Option<String>) -> (r:
    Result<ConfigDocument, ConfigError>)
    ensures
        match r {
            Ok(doc) => document_spec(
                text@,
                match level_name { Some(l) => Some(l@), None => None },
                match server_version { Some(v) => Some(v@), None => None },
            ) == Ok::<ConfigContent, ConfigError>(doc@),
            Err(e) => document_spec(
                text@,
                match level_name { Some(l) => Some(l@), None => None },
                match server_version { Some(v) => Some(v@), None => None },
            ) == Err::<ConfigContent, ConfigError>(e),
        },
{
    match level_name {
        None => Err(ConfigError::MissingLevelName),
        Some(level) => match server_version {
            None => Err(ConfigError::MissingServerVersion),
            Some(version) => Ok(ConfigDocument { text, level_name: level, server_version: version }),
        },
    }
}

/// Replaces the value of every `motd=` field in `contents` by the banner
/// for `scheduled`, then reads the level name and the server version from
/// the result.
pub fn apply_shutdown_banner(contents: &str, scheduled: &str) -> (r: Result<
    ConfigDocument,
    ConfigError,
>)
    ensures
        match r {
            Ok(doc) => rewrite_spec(contents@, scheduled@) == Ok::<ConfigContent, ConfigError>(
                doc@,
            ),
            Err(e) => rewrite_spec(contents@, scheduled@) == Err::<ConfigContent, ConfigError>(e),
        },
{
    let line = banner(scheduled);
    let text = match replace_all("motd=(.*)", contents, line.as_str()) {
        Some(text) => text,
        None => String::from_str(contents),
    };
    let level_name = field("level-name=(.*)", text.as_str());
    let server_version = field("server-version=(.*)", text.as_str());
    document(text, level_name, server_version)
}

/// Where the archive of a server version is kept.
pub fn archive_path(server_version: &str) -> (r: String)
    ensures
        r@ == "./jars/"@ + server_version@ + ".jar"@,
{
    crate::text::join3("./jars/", server_version, ".jar")
}

} // verus!
