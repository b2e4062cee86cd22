//! Version resolution: an explicit tag is held against the version pattern and
//! normalised to carry a leading `v`; the newest release's tag, fetched by the
//! caller, is treated the same way.

use crate::errors::{seen, Failure, FailureModel, ImageConfigError};
use crate::text::{same_text, strip_prefix};
use vstd::prelude::*;

verus! {

/// The marker of a builder that has no version yet.
#[derive(Debug, Clone, Copy, PartialEq, Eq, Structural, Hash, Default)]
pub struct NoVersion;

/// The version a builder was given.
#[derive(Debug, Clone, PartialEq, Eq, Hash)]
pub enum Version {
    /// The newest release, whatever its tag is.
    Latest,
    /// An explicit tag, as it was supplied.
    Tag(String),
}

/// A resolved tag, as it is stored: it carries its leading `v` and the pattern
/// engine accepted it.
#[derive(Debug, PartialEq, Eq, Hash)]
pub struct Tag {
    text: String,
}

impl View for Tag {
    type V = Seq<char>;

    closed spec fn view(&self) -> Seq<char> {
        self.text@
    }
}

/// What a `Version` stands for.
pub enum VersionModel {
    Latest,
    Tag(Seq<char>),
}

impl View for Version {
    type V = VersionModel;

    open spec fn view(&self) -> VersionModel {
        match self {
            Version::Latest => VersionModel::Latest,
            Version::Tag(tag) => VersionModel::Tag(tag@),
        }
    }
}

/// The version pattern, for a tag without its leading `v`: one digit, then two
/// groups of one or two digits, then at most one of the suffixes `-rc.N`,
/// `-beta.N`, `-alpha.N` with `N` of one or two digits.
pub open spec fn pattern_text() -> Seq<char> {
    "^\\d\\.\\d{1,2}\\.\\d{1,2}?(-rc\\.\\d{1,2}|-beta\\.\\d{1,2}|-alpha\\.\\d{1,2}|$)$"@
}

/// What the pattern engine says of `text` under `pattern`: `None` where it
/// does not accept the pattern, else whether the pattern matches somewhere in
/// the text.
pub uninterp spec fn pattern_match(pattern: Seq<char>, text: Seq<char>) -> Option<bool>;

/// `regex::Regex::new` on `pattern`, then `Regex::is_match` of the compiled
/// pattern on `text`. Both depend on their arguments alone; the contract only
/// gives their combined result its name.
#[verifier::external_body]
fn match_pattern(pattern: &str, text: &str) -> (r: Option<bool>)
    ensures
        r == pattern_match(pattern@, text@),
{
    match regex::Regex::new(pattern) {
        Ok(re) => Some(re.is_match(text)),
        Err(_) => None,
    }
}

/// A tag without the one leading `v` it may carry.
pub open spec fn stripped(raw: Seq<char>) -> Seq<char> {
    if "v"@.is_prefix_of(raw) {
        raw.skip("v"@.len() as int)
    } else {
        raw
    }
}

/// A tag with exactly the leading `v` that a stored tag carries.
pub open spec fn normalized(raw: Seq<char>) -> Seq<char> {
    "v"@ + stripped(raw)
}

/// A failure of version resolution about a text.
pub open spec fn version_failure(error: ImageConfigError, subject: Seq<char>) -> Result<
    Seq<char>,
    FailureModel<ImageConfigError>,
> {
    Err(FailureModel { error, subject })
}

/// The stored tag for an explicit tag, given the engine's verdict on the
/// stripped tag. A rejected tag is the subject of its failure; where the
/// engine does not accept the pattern, the pattern is.
pub open spec fn tag_outcome(raw: Seq<char>, matched: Option<bool>) -> Result<
    Seq<char>,
    FailureModel<ImageConfigError>,
> {
    match matched {
        Some(true) => Ok(normalized(raw)),
        Some(false) => version_failure(ImageConfigError::InvalidVersionError, raw),
        None => version_failure(ImageConfigError::CompilationError, pattern_text()),
    }
}

/// The stored tag for the newest release, given what the registry returned and
/// the engine's verdict on it: a tag that is missing, or that does not look
/// like a version, is a failed fetch.
pub open spec fn latest_outcome(fetched: Option<Seq<char>>, matched: Option<bool>) -> Result<
    Seq<char>,
    FailureModel<ImageConfigError>,
> {
    match fetched {
        None => version_failure(ImageConfigError::FetchVersionError, Seq::empty()),
        Some(tag) => match matched {
            Some(true) => Ok(normalized(tag)),
            Some(false) => version_failure(ImageConfigError::FetchVersionError, tag),
            None => version_failure(ImageConfigError::CompilationError, pattern_text()),
        },
    }
}

/// The engine's verdict that decides on `raw`.
pub open spec fn verdict(raw: Seq<char>) -> Option<bool> {
    pattern_match(pattern_text(), stripped(raw))
}

/// The version pattern.
pub fn version_pattern() -> (pattern: &'static str)
    ensures
        pattern@ == pattern_text(),
{
    "^\\d\\.\\d{1,2}\\.\\d{1,2}?(-rc\\.\\d{1,2}|-beta\\.\\d{1,2}|-alpha\\.\\d{1,2}|$)$"
}

/// Strips the one leading `v` that a tag may carry.
pub fn strip_tag(raw: &str) -> (rest: &str)
    ensures
        rest@ == stripped(raw@),
{
    match strip_prefix(raw, "v") {
        Some(rest) => rest,
        None => raw,
    }
}

/// Puts the leading `v` before what `strip_tag` left.
pub fn normalize(raw: &str) -> (tag: String)
    ensures
        tag@ == normalized(raw@),
{
    String::from_str("v").concat(strip_tag(raw))
}

/// Decides on an explicit tag once the engine has given its verdict on the
/// stripped tag: accepted and normalised, or rejected.
pub fn tag_from_match(raw: &str, matched: Option<bool>) -> (r: Result<
    String,
    Failure<ImageConfigError>,
>)
    ensures
        seen(r) == tag_outcome(raw@, matched),
{
    match matched {
        Some(true) => Ok(normalize(raw)),
        Some(false) => Err(Failure::about(ImageConfigError::InvalidVersionError, raw)),
        None => Err(Failure::about(ImageConfigError::CompilationError, version_pattern())),
    }
}

/// Validates and normalises an explicit tag.
pub fn resolve_tag(raw: &str) -> (r: Result<String, Failure<ImageConfigError>>)
    ensures
        seen(r) == resolved_version(VersionModel::Tag(raw@), None),
{
    let matched = match_pattern(version_pattern(), strip_tag(raw));
    tag_from_match(raw, matched)
}

/// Decides on the newest release's tag once the engine has given its verdict
/// on it.
pub fn latest_from_match(fetched: Option<&str>, matched: Option<bool>) -> (r: Result<
    String,
    Failure<ImageConfigError>,
>)
    ensures
        seen(r) == latest_outcome(text_ref(fetched), matched),
{
    match fetched {
        None => Err(Failure { error: ImageConfigError::FetchVersionError, subject: String::new() }),
        Some(tag) => match matched {
            Some(true) => Ok(normalize(tag)),
            Some(false) => Err(Failure::about(ImageConfigError::FetchVersionError, tag)),
            None => Err(Failure::about(ImageConfigError::CompilationError, version_pattern())),
        },
    }
}

/// Validates and normalises what the registry returned as the newest tag;
/// `None` stands for a fetch that failed.
pub fn resolve_latest(fetched: Option<&str>) -> (r: Result<String, Failure<ImageConfigError>>)
    ensures
        seen(r) == resolved_version(VersionModel::Latest, text_ref(fetched)),
{
    match fetched {
        None => Err(Failure { error: ImageConfigError::FetchVersionError, subject: String::new() }),
        Some(tag) => {
            let matched = match_pattern(version_pattern(), strip_tag(tag));
            latest_from_match(fetched, matched)
        },
    }
}

/// Whether a text is a tag as it is stored: it starts with `v`, and the
/// engine accepts what follows the `v`.
pub open spec fn is_stored(tag: Seq<char>) -> bool {
    "v"@.is_prefix_of(tag) && verdict(tag) == Some(true)
}

/// The stored tag of a version, given what the registry returned (`None`:
/// nothing). An explicit tag is resolved without looking at it.
pub open spec fn resolved_version(version: VersionModel, fetched: Option<Seq<char>>) -> Result<
    Seq<char>,
    FailureModel<ImageConfigError>,
> {
    match version {
        VersionModel::Tag(raw) => tag_outcome(raw, verdict(raw)),
        VersionModel::Latest => match fetched {
            Some(tag) => latest_outcome(Some(tag), verdict(tag)),
            None => latest_outcome(None, None),
        },
    }
}

/// An optional string slice, seen as the characters it holds.
pub open spec fn text_ref(o: Option<&str>) -> Option<Seq<char>> {
    match o {
        Some(s) => Some(s@),
        None => None,
    }
}

impl Tag {
    #[verifier::type_invariant]
    spec fn stored(&self) -> bool {
        is_stored(self.text@)
    }

    /// The tag's text. It is never the sentinel `latest`.
    pub fn as_str(&self) -> (text: &str)
        ensures
            text@ == self@,
            is_stored(text@),
            text@ != "latest"@,
    {
        proof {
            use_type_invariant(self);
            stored_is_concrete(self.text@);
        }
        self.text.as_str()
    }
}

impl Version {
    /// The version that a supplied text asks for: `latest` is the sentinel,
    /// anything else an explicit tag.
    pub fn new(tag: &str) -> (version: Version)
        ensures
            version@ == if tag@ == "latest"@ {
                VersionModel::Latest
            } else {
                VersionModel::Tag(tag@)
            },
    {
        if same_text(tag, "latest") {
            Version::Latest
        } else {
            Version::Tag(String::from_str(tag))
        }
    }

    /// Whether resolving this version needs the newest tag from the registry.
    pub fn is_latest(&self) -> (r: bool)
        ensures
            r == (self@ == VersionModel::Latest),
    {
        match self {
            Version::Latest => true,
            Version::Tag(_) => false,
        }
    }

    /// Resolves this version to the tag that is stored. What the registry
    /// returned is read for `Latest` only.
    pub fn resolve(&self, fetched: Option<&str>) -> (r: Result<Tag, Failure<ImageConfigError>>)
        ensures
            seen(r) == resolved_version(self@, text_ref(fetched)),
    {
        let resolved = match self {
            Version::Tag(raw) => resolve_tag(raw.as_str()),
            Version::Latest => resolve_latest(fetched),
        };
        match resolved {
            Ok(text) => {
                proof {
                    resolved_is_stored(self@, text_ref(fetched));
                }
                Ok(Tag { text })
            },
            Err(e) => Err(e),
        }
    }
}

/// A normalised tag starts with `v` and is never the sentinel `latest`.
pub proof fn normalized_is_concrete(raw: Seq<char>)
    ensures
        "v"@.is_prefix_of(normalized(raw)),
        normalized(raw) != "latest"@,
{
    reveal_strlit("v");
    reveal_strlit("latest");
    assert(normalized(raw)[0] == 'v');
    assert("latest"@[0] == 'l');
}

/// A tag that carries its `v` is stored as it is; any other gets one `v` put
/// before it. Normalising twice changes nothing more.
pub proof fn normalized_prefixes_once(raw: Seq<char>)
    ensures
        "v"@.is_prefix_of(raw) ==> normalized(raw) == raw,
        !"v"@.is_prefix_of(raw) ==> normalized(raw) == "v"@ + raw,
        normalized(normalized(raw)) == normalized(raw),
        stripped(normalized(raw)) == stripped(raw),
{
    reveal_strlit("v");
    if "v"@.is_prefix_of(raw) {
        assert(normalized(raw) =~= raw);
    }
    normalized_is_concrete(raw);
    assert(stripped(normalized(raw)) =~= stripped(raw));
    assert(normalized(normalized(raw)) =~= normalized(raw));
}

/// A stored tag is never the sentinel `latest`.
pub proof fn stored_is_concrete(tag: Seq<char>)
    requires
        is_stored(tag),
    ensures
        tag != "latest"@,
        normalized(tag) == tag,
{
    normalized_prefixes_once(tag);
    normalized_is_concrete(tag);
}

/// Whatever is resolved, from an explicit tag or from the registry, is a
/// stored tag: it starts with `v`, the engine accepted it, and it is not
/// `latest`.
pub proof fn resolved_is_stored(version: VersionModel, fetched: Option<Seq<char>>)
    ensures
        match resolved_version(version, fetched) {
            Ok(tag) => is_stored(tag) && tag != "latest"@,
            Err(_) => true,
        },
{
    match resolved_version(version, fetched) {
        Ok(tag) => {
            let raw = match version {
                VersionModel::Tag(raw) => raw,
                VersionModel::Latest => fetched.unwrap(),
            };
            assert(tag == normalized(raw));
            normalized_is_concrete(raw);
            normalized_prefixes_once(raw);
        },
        Err(_) => {},
    }
}

} // verus!
