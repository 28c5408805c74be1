//! What holds of errors: what they tell, where they stem from, and what is kept
//! of them when they become other errors.

use vstd::prelude::*;

use vstd::std_specs::convert::FromSpec;

use crate::errors;
use crate::errors::{
    BackendSourceBuildError, BuildBackendMetadataError, DependenciesError,
    DevSourceMetadataError, DiscoveryError, GatewayError, GlobSetError, InstantiateBackendError,
    InvalidPackageNameError, MissingChannelError, PackageNotProvidedError, ParseChannelError,
    PinCompatibleError, SolveCondaEnvironmentError, SolveError, SolvePixiEnvironmentError,
    SourceBuildError, SourceCheckoutError, SourceMetadataError, SourceRecordError,
    SpecConversionError,
};
use crate::failures;
use crate::failures::SourceBuildFailure;
use crate::package;
use crate::package::PackageName;
use crate::text;
use crate::text_laws;

verus! {

/// `name` between single quotes.
pub open spec fn quoted(name: Seq<char>) -> Seq<char> {
    "'"@ + name + "'"@
}

/// `name` between backquotes.
pub open spec fn backquoted(name: Seq<char>) -> Seq<char> {
    "`"@ + name + "`"@
}

proof fn stands_in(whole: Seq<char>, head: Seq<char>, part: Seq<char>, tail: Seq<char>)
    requires
        whole == head + part + tail,
    ensures
        text::contains_text(whole, part),
{
    text_laws::ends_stand_in_the_text(head, part, tail);
}

proof fn quoted_stands_in(whole: Seq<char>, head: Seq<char>, name: Seq<char>, tail: Seq<char>)
    requires
        whole == head + name + tail,
        head.len() > 0,
        head.last() == '\'',
        tail.len() > 0,
        tail[0] == '\'',
    ensures
        text::contains_text(whole, quoted(name)),
{
    reveal_strlit("'");
    assert(whole =~= head.drop_last() + quoted(name) + tail.skip(1));
    stands_in(whole, head.drop_last(), quoted(name), tail.skip(1));
}

proof fn ends_with(whole: Seq<char>, head: Seq<char>, tail: Seq<char>)
    requires
        whole == head + tail,
    ensures
        tail.is_suffix_of(whole),
{
    assert(whole.subrange(whole.len() - tail.len(), whole.len() as int) =~= tail);
}

/// Dependencies are listed one after the other by their names as they were
/// written, each in backquotes, with nothing else between them than commas.
pub proof fn dependencies_are_listed(dependencies: Seq<PackageName>, i: int)
    requires
        0 <= i < dependencies.len(),
    ensures
        ({
            let listed = errors::dependencies_text(dependencies);
            let names = Seq::new(
                dependencies.len(),
                |k: int| backquoted(dependencies[k].source@),
            );
            &&& text::occurs_at(
                listed,
                backquoted(dependencies[i].source@),
                text_laws::offset(names, 2, i),
            )
            &&& i < dependencies.len() - 1 ==> text::occurs_at(
                listed,
                ", "@,
                text_laws::offset(names, 2, i) + dependencies[i].source@.len() + 2,
            )
            &&& listed.len() == text_laws::offset(names, 2, dependencies.len() as int) - 2
            &&& text::contains_text(listed, backquoted(dependencies[i].source@))
        }),
{
    reveal_strlit(", ");
    reveal_strlit("`");
    let names = Seq::new(dependencies.len(), |k: int| backquoted(dependencies[k].source@));
    assert(names =~= dependencies.map_values(|name: PackageName| "`"@ + name.source@ + "`"@));
    text_laws::joining_keeps_each_part(names, ", "@, i);
    assert(", "@.len() == 2);
}

/// Variants are listed one after the other, each as its key, an equals sign and
/// its value. Where there are none, that is said.
pub proof fn variants_are_listed(entries: Seq<(Seq<char>, Seq<char>)>, i: int)
    ensures
        entries.len() == 0 ==> package::variants_text(entries) == "none"@,
        0 <= i < entries.len() ==> {
            let listed = package::variants_text(entries);
            let pairs = Seq::new(entries.len(), |k: int| entries[k].0 + "="@ + entries[k].1);
            &&& text::occurs_at(
                listed,
                entries[i].0 + "="@ + entries[i].1,
                text_laws::offset(pairs, 2, i),
            )
            &&& listed.len() == text_laws::offset(pairs, 2, entries.len() as int) - 2
        },
{
    reveal_strlit(", ");
    if 0 <= i < entries.len() {
        let pairs = Seq::new(entries.len(), |k: int| entries[k].0 + "="@ + entries[k].1);
        assert(pairs =~= entries.map_values(
            |entry: (Seq<char>, Seq<char>)| package::variant_text(entry),
        ));
        text_laws::joining_keeps_each_part(pairs, ", "@, i);
        assert(", "@.len() == 2);
    }
}

/// A build error tells what it is about, or passes on what the error behind it
/// says. Build and host environments are told apart.
pub proof fn a_build_error_tells_what_it_is_about(error: SourceBuildError)
    ensures
        error matches SourceBuildError::SourceCheckout(inner) ==> error.text() == inner.message@,
        error matches SourceBuildError::CreateWorkDirectory(inner) ==> error.text()
            == inner.message@,
        error matches SourceBuildError::Discovery(inner) ==> error.text() == inner.text(),
        error matches SourceBuildError::PinCompatibleError(inner) ==> error.text()
            == inner.message@,
        error matches SourceBuildError::BackendBuildError(inner) ==> error.text()
            == inner.message@,
        error matches SourceBuildError::GlobSet(inner) ==> error.text() == inner.message@,
        error is InstallBuildEnvironment ==> error.text()
            == "failed to install the build environment"@,
        error is InstallHostEnvironment ==> error.text()
            == "failed to install the host environment"@,
        error is CreateBuildEnvironmentDirectory ==> error.text()
            == "failed to create the build environment directory"@,
        error is Initialize ==> error.text() == "could not initialize the build-backend"@,
        error is InvalidPackageName ==> error.text()
            == "backend returned a dependency on an invalid package name"@,
        error is ReadIndexJson ==> error.text()
            == "failed to read metadata from the output package"@,
        error is ConvertSubdir ==> error.text() == "the package does not contain a valid subdir"@,
        error matches SourceBuildError::MissingOutput { name, variants } ==> {
            &&& text::contains_text(error.text(), quoted(name@))
            &&& text::contains_text(error.text(), package::variants_text(variants@))
        },
        error matches SourceBuildError::MissingOutputFile(path) ==> text::contains_text(
            error.text(),
            path@,
        ),
        error matches SourceBuildError::UnresolvedPinSubpackage(name) ==> text::contains_text(
            error.text(),
            quoted(name.normalized@),
        ),
        error matches SourceBuildError::RunExportsExtraction(environment, _)
            ==> text::contains_text(error.text(), environment@ + " environment"@),
        error matches SourceBuildError::CalculateSha256(path, _) ==> path@.is_suffix_of(
            error.text(),
        ),
        error matches SourceBuildError::DependencyFailed { dependencies, .. }
            ==> text::contains_text(
            error.text(),
            errors::dependencies_text(dependencies@) + " failed to build"@,
        ),
{
    let told = error.text();
    match error {
        SourceBuildError::MissingOutput { name, variants } => {
            reveal_strlit("The build backend does not provide an output matching '");
            reveal_strlit("' with variants: ");
            let head = "The build backend does not provide an output matching '"@;
            let listed = package::variants_text(variants@);
            let tail = "' with variants: "@ + listed + "."@;
            assert(told =~= head + name@ + tail);
            quoted_stands_in(told, head, name@, tail);
            stands_in(told, head + name@ + "' with variants: "@, listed, "."@);
        },
        SourceBuildError::MissingOutputFile(path) => {
            stands_in(
                told,
                "The build backend returned a path for the build package ("@,
                path@,
                "), but the path does not exist."@,
            );
        },
        SourceBuildError::UnresolvedPinSubpackage(name) => {
            reveal_strlit("the build backend returned an unresolved `pin-subpackage` spec for '");
            reveal_strlit("'");
            quoted_stands_in(
                told,
                "the build backend returned an unresolved `pin-subpackage` spec for '"@,
                name.normalized@,
                "'"@,
            );
        },
        SourceBuildError::RunExportsExtraction(environment, _) => {
            let head = "failed to amend run exports for "@;
            let part = environment@ + " environment"@;
            assert(told =~= head + part + Seq::empty());
            stands_in(told, head, part, Seq::empty());
        },
        SourceBuildError::CalculateSha256(path, _) => {
            ends_with(told, "failed to calculate sha256 hash of "@, path@);
        },
        SourceBuildError::DependencyFailed { dependencies, .. } => {
            let part = errors::dependencies_text(dependencies@) + " failed to build"@;
            assert(told =~= "not built: "@ + part + Seq::empty());
            stands_in(told, "not built: "@, part, Seq::empty());
        },
        _ => {},
    }
}

/// A record error tells what it is about, or passes on what the error behind it
/// says.
pub proof fn a_record_error_tells_what_it_is_about(error: SourceRecordError)
    ensures
        error matches SourceRecordError::BuildBackendMetadata(inner) ==> error.text()
            == inner.text(),
        error matches SourceRecordError::SpecConversionError(inner) ==> error.text()
            == inner.message@,
        error matches SourceRecordError::InvalidPackageName(inner) ==> error.text()
            == inner.message@,
        error matches SourceRecordError::PinCompatibleError(inner) ==> error.text()
            == inner.message@,
        error matches SourceRecordError::PackageNotProvided(inner) ==> error.text()
            == inner.message@,
        error matches SourceRecordError::SourceCheckout(inner) ==> error.text() == inner.message@,
        error is Cycle ==> error.text()
            == "the dependencies of some packages in the environment form a cycle"@,
        error matches SourceRecordError::RunExportsExtraction(environment, _)
            ==> text::contains_text(error.text(), environment@ + " environment"@),
        error matches SourceRecordError::SolveBuildEnvironment { package, .. } ==> {
            &&& text::contains_text(error.text(), "build environment"@)
            &&& text::contains_text(error.text(), quoted(package.source@))
        },
        error matches SourceRecordError::SolveHostEnvironment { package, .. } ==> {
            &&& text::contains_text(error.text(), "host environment"@)
            &&& text::contains_text(error.text(), quoted(package.source@))
        },
        error matches SourceRecordError::UnresolvedPinSubpackage(name) ==> text::contains_text(
            error.text(),
            quoted(name.normalized@),
        ),
        error matches SourceRecordError::DuplicateSourceDependency { package, source1, source2 }
            ==> {
            &&& text::contains_text(error.text(), package.source@)
            &&& text::contains_text(error.text(), "("@ + source1@ + " and "@ + source2@ + ")"@)
        },
        error matches SourceRecordError::NoMatchingVariant { package, manifest_path, available }
            ==> {
            &&& text::contains_text(error.text(), quoted(package@))
            &&& text::contains_text(error.text(), quoted(manifest_path@))
            &&& available@.is_suffix_of(error.text())
        },
{
    let told = error.text();
    reveal_strlit("'");
    match error {
        SourceRecordError::RunExportsExtraction(environment, _) => {
            let head = "failed to amend run exports for "@;
            let part = environment@ + " environment"@;
            assert(told =~= head + part + Seq::empty());
            stands_in(told, head, part, Seq::empty());
        },
        SourceRecordError::SolveBuildEnvironment { package, .. } => {
            reveal_strlit("failed to solve the build environment for package '");
            reveal_strlit("build environment");
            let head = "failed to solve the build environment for package '"@;
            quoted_stands_in(told, head, package.source@, "'"@);
            let rest = head.skip(37) + package.source@ + "'"@;
            assert(told =~= head.take(20) + "build environment"@ + rest);
            stands_in(told, head.take(20), "build environment"@, rest);
        },
        SourceRecordError::SolveHostEnvironment { package, .. } => {
            reveal_strlit("failed to solve the host environment for package '");
            reveal_strlit("host environment");
            let head = "failed to solve the host environment for package '"@;
            quoted_stands_in(told, head, package.source@, "'"@);
            let rest = head.skip(36) + package.source@ + "'"@;
            assert(told =~= head.take(20) + "host environment"@ + rest);
            stands_in(told, head.take(20), "host environment"@, rest);
        },
        SourceRecordError::UnresolvedPinSubpackage(name) => {
            reveal_strlit("the build backend returned an unresolved `pin-subpackage` spec for '");
            quoted_stands_in(
                told,
                "the build backend returned an unresolved `pin-subpackage` spec for '"@,
                name.normalized@,
                "'"@,
            );
        },
        SourceRecordError::DuplicateSourceDependency { package, source1, source2 } => {
            reveal_strlit(" but for different sources (");
            reveal_strlit("(");
            let first = "found two source dependencies for "@;
            let middle = " but for different sources ("@;
            let rest = middle + source1@ + " and "@ + source2@ + ")"@;
            assert(told =~= first + package.source@ + rest);
            stands_in(told, first, package.source@, rest);
            let head = first + package.source@ + middle.drop_last();
            let part = "("@ + source1@ + " and "@ + source2@ + ")"@;
            assert(told =~= head + part + Seq::empty());
            stands_in(told, head, part, Seq::empty());
        },
        SourceRecordError::NoMatchingVariant { package, manifest_path, available } => {
            reveal_strlit("no output with matching variants found for package '");
            reveal_strlit("' at '");
            reveal_strlit("', available outputs: ");
            let first = "no output with matching variants found for package '"@;
            let rest = "' at '"@ + manifest_path@ + "', available outputs: "@ + available@;
            assert(told =~= first + package@ + rest);
            quoted_stands_in(told, first, package@, rest);
            let head = first + package@ + "' at '"@;
            let tail = "', available outputs: "@ + available@;
            assert(told =~= head + manifest_path@ + tail);
            quoted_stands_in(told, head, manifest_path@, tail);
            assert(told =~= (head + manifest_path@ + "', available outputs: "@) + available@);
            ends_with(told, head + manifest_path@ + "', available outputs: "@, available@);
        },
        _ => {},
    }
}

/// A metadata error says what the error behind it says.
pub proof fn a_metadata_error_says_what_is_behind_it(error: SourceMetadataError)
    ensures
        error matches SourceMetadataError::BuildBackendMetadata(inner) ==> error.text()
            == inner.text(),
        error matches SourceMetadataError::SourceRecord(inner) ==> error.text() == inner.text(),
        error matches SourceMetadataError::PackageNotProvided(inner) ==> error.text()
            == inner.message@,
        error matches SourceMetadataError::SourceCheckout(inner) ==> error.text()
            == inner.message@,
{
}

/// A solve error tells what it is about, or passes on what the error behind it
/// says. A source package that could not be resolved is named with its place.
pub proof fn a_solve_error_tells_what_it_is_about(error: SolvePixiEnvironmentError)
    ensures
        error matches SolvePixiEnvironmentError::QueryError(inner) ==> error.text()
            == inner.message@,
        error matches SolvePixiEnvironmentError::SpecConversionError(inner) ==> error.text()
            == inner.message@,
        error matches SolvePixiEnvironmentError::ParseChannelError(inner) ==> error.text()
            == inner.message@,
        error matches SolvePixiEnvironmentError::DevSourceMetadataError(inner) ==> error.text()
            == inner.message@,
        error matches SolvePixiEnvironmentError::SourceCheckoutError(inner) ==> error.text()
            == inner.message@,
        error matches SolvePixiEnvironmentError::SourceMetadata(inner) ==> error.text()
            == inner.text(),
        error is SolveError ==> error.text() == "failed to solve the environment"@,
        error is CacheIndexError ==> error.text() == "failed to read the package cache"@,
        error matches SolvePixiEnvironmentError::Cycle(cycle) ==> cycle.message@.is_suffix_of(
            error.text(),
        ),
        error matches SolvePixiEnvironmentError::MissingChannel(missing) ==> {
            &&& text::contains_text(error.text(), quoted(missing.package@))
            &&& text::contains_text(error.text(), quoted(missing.channel@))
        },
        error matches SolvePixiEnvironmentError::ResolveSourcePackage { name, source, .. } ==> {
            &&& text::contains_text(error.text(), quoted(name.source@))
            &&& text::contains_text(error.text(), quoted(source@))
        },
{
    let told = error.text();
    match error {
        SolvePixiEnvironmentError::Cycle(cycle) => {
            ends_with(told, "detected a cyclic dependency:\n\n"@, cycle.message@);
        },
        SolvePixiEnvironmentError::MissingChannel(missing) => {
            a_missing_channel_is_named(missing);
        },
        SolvePixiEnvironmentError::ResolveSourcePackage { name, source, .. } => {
            reveal_strlit("failed to resolve source package '");
            reveal_strlit("' (at '");
            reveal_strlit("')");
            let first = "failed to resolve source package '"@;
            let rest = "' (at '"@ + source@ + "')"@;
            assert(told =~= first + name.source@ + rest);
            quoted_stands_in(told, first, name.source@, rest);
            quoted_stands_in(told, first + name.source@ + "' (at '"@, source@, "')"@);
        },
        _ => {},
    }
}

/// A missing channel is named together with the package that asks for it.
pub proof fn a_missing_channel_is_named(error: MissingChannelError)
    ensures
        text::contains_text(error.text(), quoted(error.package@)),
        text::contains_text(error.text(), quoted(error.channel@)),
{
    reveal_strlit("Package '");
    reveal_strlit("' requested unavailable channel '");
    reveal_strlit("'");
    let told = error.text();
    let middle = "' requested unavailable channel '"@;
    let rest = middle + error.channel@ + "'"@;
    assert(told =~= "Package '"@ + error.package@ + rest);
    quoted_stands_in(told, "Package '"@, error.package@, rest);
    quoted_stands_in(told, "Package '"@ + error.package@ + middle, error.channel@, "'"@);
}

/// A backend error stems from a discovery failure exactly if discovery itself
/// failed, for the backend or for what it takes to start it.
pub proof fn a_backend_error_stems_from_discovery(
    error: BuildBackendMetadataError,
    discovery: DiscoveryError,
)
    ensures
        error.discovery() == Some(discovery) <==> {
            ||| error matches BuildBackendMetadataError::Discovery { error: inner, .. } && inner
                == discovery
            ||| error matches BuildBackendMetadataError::Initialize {
                error: InstantiateBackendError::Discovery { error: inner, .. },
                ..
            } && inner == discovery
        },
        error.discovery() is None ==> !(error is Discovery),
{
}

/// What a discovery or backend error prints is the message that it came with.
pub proof fn printed_messages_are_kept(
    discovery: DiscoveryError,
    backend: BuildBackendMetadataError,
)
    ensures
        discovery matches DiscoveryError::FailedToDiscover { message, .. } ==> discovery.text()
            == message@,
        discovery matches DiscoveryError::Other { message } ==> discovery.text() == message@,
        backend matches BuildBackendMetadataError::Discovery { message, .. } ==> backend.text()
            == message@,
        backend matches BuildBackendMetadataError::Initialize { message, .. } ==> backend.text()
            == message@,
        backend matches BuildBackendMetadataError::Other { message } ==> backend.text()
            == message@,
{
}

/// Every other error stems from a discovery failure exactly if the error behind
/// it does: that of a backend, of a record, of a nested build or host
/// environment, or of a source under development.
pub proof fn other_errors_stem_from_what_is_behind_them(
    metadata: SourceMetadataError,
    record: SourceRecordError,
    solve: SolvePixiEnvironmentError,
)
    ensures
        metadata.discovery() == match metadata {
            SourceMetadataError::BuildBackendMetadata(inner) => inner.discovery(),
            SourceMetadataError::SourceRecord(inner) => inner.discovery(),
            SourceMetadataError::PackageNotProvided(_) => None,
            SourceMetadataError::SourceCheckout(_) => None,
        },
        record matches SourceRecordError::BuildBackendMetadata(inner) ==> record.discovery()
            == inner.discovery(),
        record matches SourceRecordError::SolveBuildEnvironment { error, .. }
            ==> record.discovery() == error.discovery(),
        record matches SourceRecordError::SolveHostEnvironment { error, .. }
            ==> record.discovery() == error.discovery(),
        record.discovery() is Some ==> record is BuildBackendMetadata
            || record is SolveBuildEnvironment || record is SolveHostEnvironment,
        solve matches SolvePixiEnvironmentError::SourceMetadata(inner) ==> solve.discovery()
            == inner.discovery(),
        solve matches SolvePixiEnvironmentError::DevSourceMetadataError(inner)
            ==> solve.discovery() == inner.discovery,
        solve matches SolvePixiEnvironmentError::ResolveSourcePackage { error, .. }
            ==> solve.discovery() == error.discovery(),
        solve.discovery() is Some ==> solve is SourceMetadata || solve is DevSourceMetadataError
            || solve is ResolveSourcePackage,
{
}

/// An error that becomes a build error says the same as before, or is kept
/// behind what the build error says.
pub proof fn build_errors_keep_what_they_come_from(
    checkout: SourceCheckoutError,
    discovery: DiscoveryError,
    pin: PinCompatibleError,
    backend: BackendSourceBuildError,
    globs: GlobSetError,
    name: InvalidPackageNameError,
    dependencies: DependenciesError,
)
    ensures
        ({
            let from_checkout: SourceBuildError = FromSpec::from_spec(checkout);
            let from_discovery: SourceBuildError = FromSpec::from_spec(discovery);
            let from_pin: SourceBuildError = FromSpec::from_spec(pin);
            let from_backend: SourceBuildError = FromSpec::from_spec(backend);
            let from_globs: SourceBuildError = FromSpec::from_spec(globs);
            let from_name: SourceBuildError = FromSpec::from_spec(name);
            let from_dependencies: SourceBuildError = FromSpec::from_spec(dependencies);
            &&& from_checkout.text() == checkout.message@
            &&& from_discovery.text() == discovery.text()
            &&& from_pin.text() == pin.message@
            &&& from_backend.text() == backend.message@
            &&& from_globs.text() == globs.message@
            &&& from_name matches SourceBuildError::InvalidPackageName(kept) && kept == name
            &&& dependencies matches DependenciesError::PinCompatibleError(inner)
                ==> from_dependencies.text() == inner.message@
            &&& dependencies matches DependenciesError::InvalidPackageName(inner) ==> (
            from_dependencies matches SourceBuildError::InvalidPackageName(kept) && kept == inner)
            &&& dependencies matches DependenciesError::UnresolvedPinSubpackage(inner) ==> (
            from_dependencies matches SourceBuildError::UnresolvedPinSubpackage(kept) && kept
                == inner)
        }),
{
}

/// An error that becomes a metadata or record error says the same as before, and
/// stems from the same discovery failure.
pub proof fn metadata_errors_keep_what_they_come_from(
    backend: BuildBackendMetadataError,
    record: SourceRecordError,
    provided: PackageNotProvidedError,
    checkout: SourceCheckoutError,
    conversion: SpecConversionError,
    name: InvalidPackageNameError,
    pin: PinCompatibleError,
    dependencies: DependenciesError,
)
    ensures
        ({
            let a: SourceMetadataError = FromSpec::from_spec(backend);
            let b: SourceMetadataError = FromSpec::from_spec(record);
            let c: SourceMetadataError = FromSpec::from_spec(provided);
            let d: SourceMetadataError = FromSpec::from_spec(checkout);
            &&& a.text() == backend.text() && a.discovery() == backend.discovery()
            &&& b.text() == record.text() && b.discovery() == record.discovery()
            &&& c.text() == provided.message@ && c.discovery() is None
            &&& d.text() == checkout.message@ && d.discovery() is None
        }),
        ({
            let a: SourceRecordError = FromSpec::from_spec(backend);
            let b: SourceRecordError = FromSpec::from_spec(conversion);
            let c: SourceRecordError = FromSpec::from_spec(name);
            let d: SourceRecordError = FromSpec::from_spec(pin);
            let e: SourceRecordError = FromSpec::from_spec(provided);
            let f: SourceRecordError = FromSpec::from_spec(checkout);
            &&& a.text() == backend.text() && a.discovery() == backend.discovery()
            &&& b.text() == conversion.message@ && b.discovery() is None
            &&& c.text() == name.message@ && c.discovery() is None
            &&& d.text() == pin.message@ && d.discovery() is None
            &&& e.text() == provided.message@ && e.discovery() is None
            &&& f.text() == checkout.message@ && f.discovery() is None
        }),
        ({
            let a: SourceRecordError = FromSpec::from_spec(dependencies);
            &&& dependencies matches DependenciesError::InvalidPackageName(inner) ==> a.text()
                == inner.message@
            &&& dependencies matches DependenciesError::PinCompatibleError(inner) ==> a.text()
                == inner.message@
            &&& dependencies matches DependenciesError::UnresolvedPinSubpackage(inner) ==> (
            a matches SourceRecordError::UnresolvedPinSubpackage(kept) && kept == inner)
        }),
{
    other_errors_stem_from_what_is_behind_them(
        SourceMetadataError::BuildBackendMetadata(backend),
        SourceRecordError::BuildBackendMetadata(backend),
        SolvePixiEnvironmentError::SourceCheckoutError(checkout),
    );
    other_errors_stem_from_what_is_behind_them(
        SourceMetadataError::SourceRecord(record),
        record,
        SolvePixiEnvironmentError::SourceCheckoutError(checkout),
    );
}

/// An error that becomes a solve error says the same as before, or is kept behind
/// what the solve error says, and stems from the same discovery failure. A cycle
/// is shown as one.
pub proof fn solve_errors_keep_what_they_come_from(
    gateway: GatewayError,
    unsolved: SolveError,
    conversion: SpecConversionError,
    channel: ParseChannelError,
    dev: DevSourceMetadataError,
    metadata: SourceMetadataError,
    conda: SolveCondaEnvironmentError,
)
    ensures
        ({
            let a: SolvePixiEnvironmentError = FromSpec::from_spec(gateway);
            let b: SolvePixiEnvironmentError = FromSpec::from_spec(unsolved);
            let c: SolvePixiEnvironmentError = FromSpec::from_spec(conversion);
            let d: SolvePixiEnvironmentError = FromSpec::from_spec(channel);
            let e: SolvePixiEnvironmentError = FromSpec::from_spec(dev);
            let f: SolvePixiEnvironmentError = FromSpec::from_spec(metadata);
            let g: SolvePixiEnvironmentError = FromSpec::from_spec(conda);
            &&& a.text() == gateway.message@
            &&& b matches SolvePixiEnvironmentError::SolveError(kept) && kept == unsolved
            &&& c.text() == conversion.message@
            &&& d.text() == channel.message@
            &&& e.text() == dev.message@ && e.discovery() == dev.discovery
            &&& !(f is Cycle) ==> f.text() == metadata.text()
            &&& metadata matches SourceMetadataError::SourceRecord(
                SourceRecordError::Cycle(cycle),
            ) ==> cycle.message@.is_suffix_of(f.text())
            &&& f is Cycle ==> (metadata matches SourceMetadataError::SourceRecord(
                SourceRecordError::Cycle(_),
            ))
            &&& conda matches SolveCondaEnvironmentError::Gateway(inner) ==> g.text()
                == inner.message@
            &&& conda matches SolveCondaEnvironmentError::SpecConversionError(inner) ==> g.text()
                == inner.message@
            &&& conda matches SolveCondaEnvironmentError::SolveError(inner) ==> (
            g matches SolvePixiEnvironmentError::SolveError(kept) && kept == inner)
        }),
{
    if let SourceMetadataError::SourceRecord(SourceRecordError::Cycle(cycle)) = metadata {
        a_solve_error_tells_what_it_is_about(SolvePixiEnvironmentError::Cycle(cycle));
    }
}

/// A failure names the package as it was written, and where its manifest is.
pub proof fn a_failure_names_package_and_manifest(failure: SourceBuildFailure)
    ensures
        text::contains_text(failure.text(), quoted(failure.package.source@)),
        text::contains_text(failure.text(), quoted(failure.manifest_source@)),
{
    reveal_strlit("failed to build '");
    reveal_strlit("' from '");
    reveal_strlit("'");
    let told = failure.text();
    let rest = "' from '"@ + failure.manifest_source@ + "'"@;
    assert(told =~= "failed to build '"@ + failure.package.source@ + rest);
    quoted_stands_in(told, "failed to build '"@, failure.package.source@, rest);
    quoted_stands_in(
        told,
        "failed to build '"@ + failure.package.source@ + "' from '"@,
        failure.manifest_source@,
        "'"@,
    );
}

/// Failures are sorted out one by one, in their order: one that is due to failed
/// dependencies alone is left unbuilt on account of these, and any other is the
/// package's own.
pub proof fn failures_are_sorted_out_in_order(
    all: Seq<SourceBuildFailure>,
    failure: SourceBuildFailure,
)
    ensures
        ({
            let own = failures::own_failures(all);
            let left = failures::left_unbuilt(all);
            let own_after = failures::own_failures(all.push(failure));
            let left_after = failures::left_unbuilt(all.push(failure));
            match failure.error {
                SourceBuildError::DependencyFailed { dependencies, .. } => {
                    &&& own_after == own
                    &&& left_after == left.push((failure.package, dependencies@))
                },
                _ => {
                    &&& own_after == own.push(failure)
                    &&& left_after == left
                },
            }
        }),
        failures::own_failures(Seq::empty()).len() == 0,
        failures::left_unbuilt(Seq::empty()).len() == 0,
{
    let longer = all.push(failure);
    failures::filter_of_longer(longer, all.len() as int);
    assert(longer.take(all.len() as int) =~= all);
    assert(longer.take(all.len() as int + 1) =~= longer);
    reveal(Seq::filter);
}

/// The summary counts the packages that failed first, and then those that were
/// skipped, if any. Where none failed on its own account, it counts those that
/// were skipped. One package is spoken of in the singular.
pub proof fn the_summary_counts_both(failed: nat, skipped: nat)
    ensures
        ({
            let told = failures::summary(failed, skipped);
            let count = if failed > 0 {
                failed
            } else {
                skipped
            };
            let noun = if count == 1 {
                " source package "@
            } else {
                " source packages "@
            };
            &&& (text::decimal_text(count) + noun).is_prefix_of(told)
            &&& failed > 0 ==> (text::decimal_text(count) + noun
                + "failed to build"@).is_prefix_of(told)
            &&& failed > 0 && skipped > 0 ==> (", "@ + text::decimal_text(skipped)
                + " skipped"@).is_suffix_of(told)
            &&& failed > 0 && skipped == 0 ==> "failed to build"@.is_suffix_of(told)
            &&& failed == 0 ==> "skipped because their dependencies failed to build"@.is_suffix_of(
                told,
            )
        }),
{
    reveal_strlit(" source package ");
    reveal_strlit(" source packages ");
    reveal_strlit(" source ");
    reveal_strlit("package");
    reveal_strlit("packages");
    reveal_strlit(" failed to build");
    reveal_strlit("failed to build");
    reveal_strlit(" skipped because their dependencies failed to build");
    reveal_strlit("skipped because their dependencies failed to build");
    let told = failures::summary(failed, skipped);
    let count = if failed > 0 {
        failed
    } else {
        skipped
    };
    let noun = if count == 1 {
        " source package "@
    } else {
        " source packages "@
    };
    let number = text::decimal_text(count);
    let start = number + noun;
    assert(told.subrange(0, start.len() as int) =~= start);
    if failed > 0 {
        let more = start + "failed to build"@;
        assert(told.subrange(0, more.len() as int) =~= more);
        if skipped > 0 {
            let end = ", "@ + text::decimal_text(skipped) + " skipped"@;
            assert(told =~= more + end);
            ends_with(told, more, end);
        } else {
            assert(told =~= start + "failed to build"@);
            ends_with(told, start, "failed to build"@);
        }
    } else {
        let end = "skipped because their dependencies failed to build"@;
        assert(told =~= start + end);
        ends_with(told, start, end);
    }
}

/// Each package that was skipped has a line of its own, in order, which names it
/// and the dependencies that failed.
pub proof fn skipped_packages_have_their_lines(
    skipped: Seq<(PackageName, Seq<PackageName>)>,
    i: int,
)
    requires
        0 <= i < skipped.len(),
    ensures
        ({
            let lines = Seq::new(
                skipped.len(),
                |k: int|
                    "skipped "@ + skipped[k].0.source@ + ": depends on failed "@
                        + errors::dependencies_text(skipped[k].1),
            );
            &&& text::occurs_at(
                failures::skip_lines(skipped),
                lines[i],
                text_laws::offset(lines, 1, i),
            )
            &&& i < skipped.len() - 1 ==> text::occurs_at(
                failures::skip_lines(skipped),
                "\n"@,
                text_laws::offset(lines, 1, i) + lines[i].len(),
            )
            &&& failures::skip_lines(skipped).len() == text_laws::offset(
                lines,
                1,
                skipped.len() as int,
            ) - 1
        }),
{
    reveal_strlit("\n");
    let lines = Seq::new(
        skipped.len(),
        |k: int|
            "skipped "@ + skipped[k].0.source@ + ": depends on failed "@
                + errors::dependencies_text(skipped[k].1),
    );
    assert(lines =~= skipped.map_values(
        |skip: (PackageName, Seq<PackageName>)| failures::skip_line(skip),
    ));
    text_laws::joining_keeps_each_part(lines, "\n"@, i);
    assert("\n"@.len() == 1);
}

} // verus!
