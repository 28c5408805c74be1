//! Match specs: what a query says of the packages that it matches.

use rattler_conda_types::version_spec::RangeOperator::Greater;
use rattler_conda_types::PackageNameMatcher::{Exact, Glob, Regex};
use rattler_conda_types::VersionSpec::Range;
use rattler_conda_types::{MatchSpec, ParseStrictness};
use vstd::prelude::*;
use vstd::string::*;

use crate::package::{NameModel, PackageName};
use crate::text;
use crate::version;

verus! {

/// What is known of a match spec.
#[derive(Debug)]
pub struct Spec {
    /// The package that it names, where it names exactly one.
    pub name: Option<PackageName>,
    /// Whether it says anything of the version.
    pub has_version: bool,
    /// How it is printed.
    pub printed: String,
}

/// What is known of a match spec, in terms of characters.
pub struct SpecModel {
    pub name: Option<NameModel>,
    pub has_version: bool,
    pub printed: Seq<char>,
}

impl DeepView for Spec {
    type V = SpecModel;

    open spec fn deep_view(&self) -> SpecModel {
        SpecModel {
            name: self.name.deep_view(),
            has_version: self.has_version,
            printed: self.printed@,
        }
    }
}

/// The demand that a version is newer than `version`.
#[derive(Debug, Clone, Copy, PartialEq, Eq)]
pub struct NewerThan<T> {
    pub version: T,
}

impl DeepView for NewerThan<String> {
    type V = NewerThan<Seq<char>>;

    open spec fn deep_view(&self) -> NewerThan<Seq<char>> {
        NewerThan { version: self.version@ }
    }
}

/// A demand that may be there, in terms of characters.
pub open spec fn bound_view(bound: Option<NewerThan<&str>>) -> Option<NewerThan<Seq<char>>> {
    match bound {
        Some(bound) => Some(NewerThan { version: bound.version@ }),
        None => None,
    }
}

/// What reading a match spec gave, or why it could not be read.
pub type Reading = Result<SpecModel, Seq<char>>;

/// What reading a match spec gave, in terms of characters.
pub open spec fn reading_view(reading: Result<Spec, String>) -> Reading {
    match reading {
        Ok(spec) => Ok(spec.deep_view()),
        Err(message) => Err(message@),
    }
}

/// What `rattler_conda_types::MatchSpec::from_str` makes of `text`, when it is
/// lenient, in the current directory `current_dir` and for a user whose home is
/// `home_dir`. With `bound`, the version of the spec is then replaced by that
/// demand.
pub uninterp spec fn spec_reading(
    text: Seq<char>,
    bound: Option<NewerThan<Seq<char>>>,
    current_dir: Option<Seq<u8>>,
    home_dir: Option<Seq<u8>>,
) -> Result<SpecModel, Seq<char>>;

/// Whether no channel can be named in `text`: that takes two colons or the key
/// `channel`.
pub open spec fn names_no_channel(text: Seq<char>) -> bool {
    &&& forall|i: int, j: int|
        0 <= i < j < text.len() ==> !(#[trigger] text[i] == ':' && #[trigger] text[j] == ':')
    &&& !text::contains_text(text, "channel"@)
}

/// Whether a channel in `text` can only be a name, a URL or an absolute path. A
/// relative path starts with dots or a tilde. What starts with a backslash, with
/// two slashes or with a drive that is no ASCII letter may be one too, but two
/// slashes that follow a colon belong to a URL.
pub open spec fn names_no_relative_path(text: Seq<char>) -> bool {
    &&& forall|i: int| 0 <= i < text.len() ==> (#[trigger] text[i] as int) < 128
    &&& !text.contains('\\')
    &&& !text::contains_text(text, ".."@)
    &&& !text::contains_text(text, "./"@)
    &&& !text::contains_text(text, "~/"@)
    &&& forall|at: int| #[trigger]
        text::occurs_at(text, "//"@, at) ==> at > 0 && text[at - 1] == ':'
}

/// Whether `text` reads the same in every directory and for every user.
pub open spec fn is_plain(text: Seq<char>) -> bool {
    names_no_channel(text) || names_no_relative_path(text)
}

/// Whether `reading` is what reading `text` with `bound` gives in this directory
/// and for this user. That the text can be read, and the package that it names,
/// do not depend on the bound.
pub open spec fn is_reading_at(
    text: Seq<char>,
    bound: Option<NewerThan<Seq<char>>>,
    reading: Reading,
    current_dir: Option<Seq<u8>>,
    home_dir: Option<Seq<u8>>,
) -> bool {
    let unbounded = spec_reading(text, None, current_dir, home_dir);
    &&& reading == spec_reading(text, bound, current_dir, home_dir)
    &&& reading is Ok <==> unbounded is Ok
    &&& reading is Ok ==> reading->Ok_0.name == unbounded->Ok_0.name
}

/// Whether `reading` is what reading `text` with `bound` gives in some directory
/// and for some user, and in every directory and for every user where `text` is
/// plain.
pub open spec fn is_reading(
    text: Seq<char>,
    bound: Option<NewerThan<Seq<char>>>,
    reading: Reading,
) -> bool {
    &&& exists|current_dir: Option<Seq<u8>>, home_dir: Option<Seq<u8>>| #[trigger]
        is_reading_at(text, bound, reading, current_dir, home_dir)
    &&& is_plain(text) ==> forall|current_dir: Option<Seq<u8>>, home_dir: Option<Seq<u8>>|
        #[trigger] is_reading_at(text, bound, reading, current_dir, home_dir)
}

/// Reads `text` with the lenient `rattler_conda_types::MatchSpec::from_str` and
/// prints the spec with its `Display`, after `bound`, if there is one, was set
/// as what the spec says of the version.
///
/// The result is a function of the arguments, the current directory and the
/// home of the user. The last two count only where a channel is a relative
/// path, which a plain text cannot hold. Nothing is said of what the two are.
/// Whether the text can be read, and the package that it names, do not depend
/// on `bound`, and a spec with a bound has a version.
#[verifier::external_body]
pub(crate) fn read_spec(text: &str, bound: Option<NewerThan<&str>>) -> (r: Result<Spec, String>)
    requires
        bound matches Some(bound) ==> version::version_error(bound.version@) is None,
    ensures
        is_plain(text@) ==> forall|current_dir: Option<Seq<u8>>, home_dir: Option<Seq<u8>>|
            reading_view(r) == #[trigger] spec_reading(
                text@,
                bound_view(bound),
                current_dir,
                home_dir,
            ),
        is_reading(text@, bound_view(bound), reading_view(r)),
        r is Ok && bound is Some ==> r->Ok_0.has_version,
{
    let mut spec = MatchSpec::from_str(text, ParseStrictness::Lenient).map_err(|e| e.to_string())?;
    if let Some(bound) = bound {
        spec.version = Some(Range(Greater, bound.version.parse().unwrap()));
    }
    let printed = spec.to_string();
    let name = match spec.name {
        Exact(n) => Some(
            PackageName { source: n.as_source().into(), normalized: n.as_normalized().into() },
        ),
        Glob(_) => None,
        Regex(_) => None,
    };
    Ok(Spec { name, has_version: spec.version.is_some(), printed })
}

} // verus!
