//! Conda versions: reading, printing and comparing them.

use std::cmp::Ordering;
use std::str::FromStr;

use vstd::prelude::*;
use vstd::string::*;

verus! {

/// Why `rattler_conda_types::Version::from_str` refuses `text`, or `None` where
/// it reads it as a version.
pub uninterp spec fn version_error(text: Seq<char>) -> Option<Seq<char>>;

/// How `rattler_conda_types::Version` prints the version read from `text`.
pub uninterp spec fn version_display(text: Seq<char>) -> Seq<char>;

/// Whether `==` of `rattler_conda_types::Version` holds between the versions
/// read from `a` and `b`.
pub uninterp spec fn versions_equal(a: Seq<char>, b: Seq<char>) -> bool;

/// How the version read from `a` compares to the one read from `b`: negative
/// where it is older, zero where they rank the same, positive where it is newer.
pub uninterp spec fn version_order(a: Seq<char>, b: Seq<char>) -> int;

/// Reads `text` with `rattler_conda_types::Version::from_str` and returns the
/// text of its error, if any. Nothing more is claimed than that the answer is a
/// function of `text`.
#[verifier::external_body]
fn read_error(text: &str) -> (r: Option<String>)
    ensures
        r.deep_view() == version_error(text@),
{
    match rattler_conda_types::Version::from_str(text) {
        Ok(_) => None,
        Err(err) => Some(err.to_string()),
    }
}

/// Prints the version read from `text` with its `Display`. Nothing more is
/// claimed than that the result is a function of `text`.
#[verifier::external_body]
fn print(text: &str) -> (r: String)
    requires
        version_error(text@) is None,
    ensures
        r@ == version_display(text@),
{
    rattler_conda_types::Version::from_str(text).unwrap().to_string()
}

/// Compares the versions read from `a` and `b` with the `PartialEq` of
/// `rattler_conda_types::Version`. It holds between a version and itself, and
/// versions between which it holds rank the same.
#[verifier::external_body]
fn equal(a: &str, b: &str) -> (r: bool)
    requires
        version_error(a@) is None,
        version_error(b@) is None,
    ensures
        r == versions_equal(a@, b@),
        a@ == b@ ==> r,
        r ==> version_order(a@, b@) == 0,
{
    rattler_conda_types::Version::from_str(a).unwrap() == rattler_conda_types::Version::from_str(
        b,
    ).unwrap()
}

/// Compares the versions read from `a` and `b` with the `Ord` of
/// `rattler_conda_types::Version`, which ranks a version the same as itself.
#[verifier::external_body]
fn order(a: &str, b: &str) -> (r: VersionOrder)
    requires
        version_error(a@) is None,
        version_error(b@) is None,
    ensures
        r == order_of(version_order(a@, b@)),
        a@ == b@ ==> r == VersionOrder::Same,
{
    let left = rattler_conda_types::Version::from_str(a).unwrap();
    let right = rattler_conda_types::Version::from_str(b).unwrap();
    match left.cmp(&right) {
        Ordering::Less => VersionOrder::Older,
        Ordering::Equal => VersionOrder::Same,
        Ordering::Greater => VersionOrder::Newer,
    }
}

/// How one version ranks against another.
#[derive(Debug, Clone, Copy, PartialEq, Eq, Structural)]
pub enum VersionOrder {
    Older,
    Same,
    Newer,
}

/// The rank that the sign of `order` stands for.
pub open spec fn order_of(order: int) -> VersionOrder {
    if order < 0 {
        VersionOrder::Older
    } else if order == 0 {
        VersionOrder::Same
    } else {
        VersionOrder::Newer
    }
}

/// A version, held as the text it was read from.
#[derive(Debug)]
pub struct Version {
    text: String,
}

impl View for Version {
    type V = Seq<char>;

    closed spec fn view(&self) -> Seq<char> {
        self.text@
    }
}

impl DeepView for Version {
    type V = Seq<char>;

    open spec fn deep_view(&self) -> Seq<char> {
        self@
    }
}

impl Version {
    #[verifier::type_invariant]
    spec fn reads(self) -> bool {
        version_error(self.text@) is None
    }

    /// Reads a version. The error is the reader's own message.
    pub fn parse(text: &str) -> (r: Result<Version, String>)
        ensures
            match r {
                Ok(version) => version_error(text@) is None && version@ == text@,
                Err(message) => version_error(text@) == Some(message@),
            },
    {
        match read_error(text) {
            Some(message) => Err(message),
            None => Ok(Version { text: text.to_owned() }),
        }
    }

    /// The text that the version was read from.
    pub fn as_text(&self) -> (r: &str)
        ensures
            r@ == self@,
            version_error(r@) is None,
    {
        proof {
            use_type_invariant(self);
        }
        self.text.as_str()
    }

    /// The version as it is shown to users.
    pub fn to_text(&self) -> (r: String)
        ensures
            r@ == version_display(self@),
    {
        proof {
            use_type_invariant(self);
        }
        print(self.text.as_str())
    }

    /// Whether both are the same version, however they were written.
    pub fn same_as(&self, other: &Version) -> (r: bool)
        ensures
            r == versions_equal(self@, other@),
            self@ == other@ ==> r,
            r ==> version_order(self@, other@) == 0,
    {
        proof {
            use_type_invariant(self);
            use_type_invariant(other);
        }
        equal(self.text.as_str(), other.text.as_str())
    }

    /// How this version ranks against `other`.
    pub fn compare(&self, other: &Version) -> (r: VersionOrder)
        ensures
            r == order_of(version_order(self@, other@)),
            self@ == other@ ==> r == VersionOrder::Same,
    {
        proof {
            use_type_invariant(self);
            use_type_invariant(other);
        }
        order(self.text.as_str(), other.text.as_str())
    }
}

impl Clone for Version {
    fn clone(&self) -> (r: Version)
        ensures
            r@ == self@,
    {
        proof {
            use_type_invariant(self);
        }
        Version { text: self.text.clone() }
    }
}

} // verus!
