//! The report on source packages that were not built.

use vstd::prelude::*;
use vstd::string::*;

use crate::errors;
use crate::errors::{format_dependencies, SourceBuildError};
use crate::package::PackageName;
use crate::text;

verus! {

/// One source package that could not be built, with the message and hint
/// that apply to it.
#[derive(Debug, Clone)]
pub struct SourceBuildFailure {
    pub package: PackageName,
    pub manifest_source: String,
    pub error: SourceBuildError,
    pub help: Option<String>,
}

impl SourceBuildFailure {
    /// What the failure prints.
    pub open spec fn text(self) -> Seq<char> {
        "failed to build '"@ + self.package.source@ + "' from '"@ + self.manifest_source@ + "'"@
    }

    /// What the failure prints.
    pub fn message(&self) -> (r: String)
        ensures
            r@ == self.text(),
    {
        let mut printed = "failed to build '".to_owned();
        printed.append(self.package.as_source());
        printed.append("' from '");
        printed.append(self.manifest_source.as_str());
        printed.append("'");
        printed
    }

    /// The dependencies whose failure is the only reason this package was
    /// not built.
    pub open spec fn dependencies(self) -> Option<Seq<PackageName>> {
        match self.error {
            SourceBuildError::DependencyFailed { dependencies, .. } => Some(dependencies@),
            _ => None,
        }
    }

    /// The dependencies whose failure is the only reason this package was
    /// not built.
    pub fn failed_dependencies(&self) -> (r: Option<&Vec<PackageName>>)
        ensures
            match r {
                Some(dependencies) => self.dependencies() == Some(dependencies@),
                None => self.dependencies() is None,
            },
    {
        match &self.error {
            SourceBuildError::DependencyFailed { dependencies, .. } => Some(dependencies),
            _ => None,
        }
    }
}

/// Every source package that failed while building a set of them together.
/// Holding the first failure apart from the rest keeps the collection
/// non-empty by construction.
#[derive(Debug, Clone)]
pub struct SourceBuildFailures {
    first: SourceBuildFailure,
    rest: Vec<SourceBuildFailure>,
}

impl View for SourceBuildFailures {
    type V = Seq<SourceBuildFailure>;

    closed spec fn view(&self) -> Seq<SourceBuildFailure> {
        seq![self.first] + self.rest@
    }
}

/// The failures in `all` that are a package's own.
pub open spec fn own_failures(all: Seq<SourceBuildFailure>) -> Seq<SourceBuildFailure> {
    all.filter(|failure: SourceBuildFailure| failure.dependencies() is None)
}

/// The packages in `all` that were not built because of others, each with
/// these others.
pub open spec fn left_unbuilt(all: Seq<SourceBuildFailure>) -> Seq<
    (PackageName, Seq<PackageName>),
> {
    all.filter(|failure: SourceBuildFailure| failure.dependencies() is Some).map_values(
        |failure: SourceBuildFailure| (failure.package, failure.dependencies()->0),
    )
}

/// The failures that `failures` refers to.
pub open spec fn referred(failures: Seq<&SourceBuildFailure>) -> Seq<SourceBuildFailure> {
    failures.map_values(|failure: &SourceBuildFailure| *failure)
}

/// The packages and dependencies that `skipped` refers to.
pub open spec fn referred_skips(skipped: Seq<(&PackageName, &Vec<PackageName>)>) -> Seq<
    (PackageName, Seq<PackageName>),
> {
    skipped.map_values(|skip: (&PackageName, &Vec<PackageName>)| (*skip.0, skip.1@))
}

pub(crate) proof fn filter_of_longer(all: Seq<SourceBuildFailure>, i: int)
    requires
        0 <= i < all.len(),
    ensures
        own_failures(all.take(i + 1)) == if all[i].dependencies() is None {
            own_failures(all.take(i)).push(all[i])
        } else {
            own_failures(all.take(i))
        },
        left_unbuilt(all.take(i + 1)) == if all[i].dependencies() is Some {
            left_unbuilt(all.take(i)).push((all[i].package, all[i].dependencies()->0))
        } else {
            left_unbuilt(all.take(i))
        },
{
    reveal(Seq::filter);
    assert(all.take(i + 1).drop_last() =~= all.take(i));
    assert(all.take(i + 1).last() == all[i]);
    if all[i].dependencies() is Some {
        assert(left_unbuilt(all.take(i + 1)) =~= left_unbuilt(all.take(i)).push(
            (all[i].package, all[i].dependencies()->0),
        ));
    }
}

impl SourceBuildFailures {
    pub fn new(first: SourceBuildFailure, rest: Vec<SourceBuildFailure>) -> (r: Self)
        ensures
            r@ == seq![first] + rest@,
    {
        SourceBuildFailures { first, rest }
    }

    /// `None` when `failures` is empty and there is nothing to report.
    pub fn from_vec(failures: Vec<SourceBuildFailure>) -> (r: Option<Self>)
        ensures
            match r {
                Some(all) => all@ == failures@,
                None => failures@.len() == 0,
            },
    {
        if failures.len() == 0 {
            return None;
        }
        let mut rest = failures;
        let first = rest.remove(0);
        assert(seq![first] + rest@ =~= failures@);
        Some(SourceBuildFailures::new(first, rest))
    }

    /// All failures, in their order.
    pub fn all(&self) -> (r: Vec<&SourceBuildFailure>)
        ensures
            referred(r@) == self@,
    {
        let mut out: Vec<&SourceBuildFailure> = vec![&self.first];
        let mut i: usize = 0;
        while i < self.rest.len()
            invariant
                i <= self.rest.len(),
                out.len() == i + 1,
                *out@[0] == self.first,
                forall|j: int| 0 <= j < i ==> *(#[trigger] out@[j + 1]) == self.rest@[j],
            decreases self.rest.len() - i,
        {
            out.push(&self.rest[i]);
            i += 1;
        }
        assert forall|j: int| 0 <= j < self@.len() implies *(#[trigger] out@[j]) == self@[j] by {
            if j > 0 {
                assert(*out@[(j - 1) + 1] == self.rest@[j - 1]);
            }
        }
        assert(referred(out@) =~= self@);
        out
    }

    /// Packages that failed on their own account.
    pub fn failed(&self) -> (r: Vec<&SourceBuildFailure>)
        ensures
            referred(r@) == own_failures(self@),
    {
        let all = self.all();
        let mut out: Vec<&SourceBuildFailure> = Vec::new();
        let mut i: usize = 0;
        proof {
            reveal(Seq::filter);
            assert(referred(out@) =~= own_failures(self@.take(0)));
        }
        while i < all.len()
            invariant
                i <= all.len(),
                referred(all@) == self@,
                referred(out@) == own_failures(self@.take(i as int)),
            decreases all.len() - i,
        {
            assert(referred(all@)[i as int] == *all@[i as int]);
            proof {
                filter_of_longer(self@, i as int);
            }
            let ghost before = out@;
            if all[i].failed_dependencies().is_none() {
                out.push(all[i]);
                assert(referred(out@) =~= referred(before).push(self@[i as int]));
            }
            i += 1;
        }
        assert(self@.take(i as int) =~= self@);
        out
    }

    /// Packages left unbuilt because something they depend on failed.
    pub fn skipped(&self) -> (r: Vec<(&PackageName, &Vec<PackageName>)>)
        ensures
            referred_skips(r@) == left_unbuilt(self@),
    {
        let all = self.all();
        let mut out: Vec<(&PackageName, &Vec<PackageName>)> = Vec::new();
        let mut i: usize = 0;
        proof {
            reveal(Seq::filter);
            assert(referred_skips(out@) =~= left_unbuilt(self@.take(0)));
        }
        while i < all.len()
            invariant
                i <= all.len(),
                referred(all@) == self@,
                referred_skips(out@) == left_unbuilt(self@.take(i as int)),
            decreases all.len() - i,
        {
            assert(referred(all@)[i as int] == *all@[i as int]);
            proof {
                filter_of_longer(self@, i as int);
            }
            let ghost before = out@;
            match all[i].failed_dependencies() {
                Some(dependencies) => {
                    out.push((&all[i].package, dependencies));
                    assert(referred_skips(out@) =~= referred_skips(before).push(
                        (self@[i as int].package, dependencies@),
                    ));
                },
                None => {},
            }
            i += 1;
        }
        assert(self@.take(i as int) =~= self@);
        out
    }

    /// What the failures print: how many packages failed, and how many were
    /// skipped.
    pub fn message(&self) -> (r: String)
        ensures
            r@ == summary(own_failures(self@).len(), left_unbuilt(self@).len()),
    {
        let failures = self.failed();
        let skips = self.skipped();
        let failed: usize = failures.len();
        let skipped: usize = skips.len();
        assert(referred(failures@).len() == failed);
        assert(referred_skips(skips@).len() == skipped);
        let mut printed;
        if failed == 0 {
            printed = text::decimal(skipped);
            printed.append(" source ");
            printed.append(plural_packages(skipped));
            printed.append(" skipped because their dependencies failed to build");
            return printed;
        }
        printed = text::decimal(failed);
        printed.append(" source ");
        printed.append(plural_packages(failed));
        printed.append(" failed to build");
        if skipped > 0 {
            printed.append(", ");
            printed.append(text::decimal(skipped).as_str());
            printed.append(" skipped");
        }
        printed
    }

    /// The failures that a report shows one by one: those that are a package's
    /// own.
    pub fn related(&self) -> (r: Option<Vec<&SourceBuildFailure>>)
        ensures
            r is Some,
            referred(r->0@) == own_failures(self@),
    {
        Some(self.failed())
    }

    /// One line for each package that was skipped, or nothing where none was.
    pub fn help(&self) -> (r: Option<String>)
        ensures
            match r {
                Some(lines) => left_unbuilt(self@).len() > 0 && lines@ == skip_lines(
                    left_unbuilt(self@),
                ),
                None => left_unbuilt(self@).len() == 0,
            },
    {
        let skipped = self.skipped();
        assert(referred_skips(skipped@).len() == skipped.len());
        let mut lines: Vec<String> = Vec::new();
        let mut i: usize = 0;
        while i < skipped.len()
            invariant
                i <= skipped.len(),
                lines.len() == i,
                forall|j: int|
                    0 <= j < i ==> (#[trigger] lines@[j])@ == skip_line(
                        referred_skips(skipped@)[j],
                    ),
            decreases skipped.len() - i,
        {
            let (package, dependencies) = skipped[i];
            let mut line = "skipped ".to_owned();
            line.append(package.as_source());
            line.append(": depends on failed ");
            line.append(format_dependencies(dependencies).as_str());
            assert(line@ == skip_line(referred_skips(skipped@)[i as int]));
            lines.push(line);
            i += 1;
        }
        if lines.len() == 0 {
            return None;
        }
        assert(text::views(lines@) =~= left_unbuilt(self@).map_values(
            |skip: (PackageName, Seq<PackageName>)| skip_line(skip),
        ));
        Some(text::join(&lines, "\n"))
    }
}

/// The line on a package that was skipped.
pub open spec fn skip_line(skip: (PackageName, Seq<PackageName>)) -> Seq<char> {
    "skipped "@ + skip.0.source@ + ": depends on failed "@ + errors::dependencies_text(skip.1)
}

/// The lines on packages that were skipped.
pub open spec fn skip_lines(skipped: Seq<(PackageName, Seq<PackageName>)>) -> Seq<char> {
    text::joined(
        skipped.map_values(|skip: (PackageName, Seq<PackageName>)| skip_line(skip)),
        "\n"@,
    )
}

/// The summary of `failed` packages that failed and `skipped` that were
/// skipped.
pub open spec fn summary(failed: nat, skipped: nat) -> Seq<char> {
    if failed == 0 {
        text::decimal_text(skipped) + " source "@ + packages_text(skipped)
            + " skipped because their dependencies failed to build"@
    } else {
        let head = text::decimal_text(failed) + " source "@ + packages_text(failed)
            + " failed to build"@;
        if skipped > 0 {
            head + ", "@ + text::decimal_text(skipped) + " skipped"@
        } else {
            head
        }
    }
}

/// The noun for `count` packages.
pub open spec fn packages_text(count: nat) -> Seq<char> {
    if count == 1 {
        "package"@
    } else {
        "packages"@
    }
}

/// The noun for `count` packages.
pub fn plural_packages(count: usize) -> (r: &'static str)
    ensures
        r@ == packages_text(count as nat),
{
    if count == 1 {
        "package"
    } else {
        "packages"
    }
}

/// There is at least one failure to report.
pub proof fn there_is_a_failure(failures: SourceBuildFailures)
    ensures
        failures@.len() > 0,
{
}

/// Each failure is either a package's own or counted as skipped, and never
/// both: the two numbers of the summary add up to all failures.
pub proof fn failed_and_skipped_are_all(all: Seq<SourceBuildFailure>)
    ensures
        own_failures(all).len() + left_unbuilt(all).len() == all.len(),
        forall|i: int|
            0 <= i < all.len() ==> (own_failures(all).contains(#[trigger] all[i])
                <==> all[i].dependencies() is None),
    decreases all.len(),
{
    reveal(Seq::filter);
    if all.len() > 0 {
        let n = all.len() - 1;
        failed_and_skipped_are_all(all.drop_last());
        filter_of_longer(all, n);
        assert(all.take(n) =~= all.drop_last());
        assert(all.take(n + 1) =~= all);
    }
    broadcast use vstd::seq_lib::group_filter_ensures;

}

/// A report gives a help text exactly if some package was skipped, and shows
/// failures one by one exactly if some package failed on its own account: the
/// two are never both absent.
pub proof fn every_failure_is_reported(failures: SourceBuildFailures)
    ensures
        own_failures(failures@).len() > 0 || left_unbuilt(failures@).len() > 0,
{
    failed_and_skipped_are_all(failures@);
}

} // verus!
