//! How an error becomes the error of the step that it stopped.

use vstd::prelude::*;

use crate::errors::{
    BackendSourceBuildError, BuildBackendMetadataError, DependenciesError,
    DevSourceMetadataError, DiscoveryError, GatewayError, GlobSetError, InvalidPackageNameError,
    PackageNotProvidedError, ParseChannelError, PinCompatibleError, SolveCondaEnvironmentError,
    SolveError, SolvePixiEnvironmentError, SourceBuildError, SourceCheckoutError,
    SourceMetadataError, SourceRecordError, SpecConversionError,
};

verus! {

impl From<SourceCheckoutError> for SourceBuildError {
    fn from(error: SourceCheckoutError) -> (r: SourceBuildError) {
        SourceBuildError::SourceCheckout(error)
    }
}

impl vstd::std_specs::convert::FromSpecImpl<SourceCheckoutError> for SourceBuildError {
    open spec fn obeys_from_spec() -> bool {
        true
    }

    open spec fn from_spec(error: SourceCheckoutError) -> SourceBuildError {
        SourceBuildError::SourceCheckout(error)
    }
}

impl From<DiscoveryError> for SourceBuildError {
    fn from(error: DiscoveryError) -> (r: SourceBuildError) {
        SourceBuildError::Discovery(error)
    }
}

impl vstd::std_specs::convert::FromSpecImpl<DiscoveryError> for SourceBuildError {
    open spec fn obeys_from_spec() -> bool {
        true
    }

    open spec fn from_spec(error: DiscoveryError) -> SourceBuildError {
        SourceBuildError::Discovery(error)
    }
}

impl From<InvalidPackageNameError> for SourceBuildError {
    fn from(error: InvalidPackageNameError) -> (r: SourceBuildError) {
        SourceBuildError::InvalidPackageName(error)
    }
}

impl vstd::std_specs::convert::FromSpecImpl<InvalidPackageNameError> for SourceBuildError {
    open spec fn obeys_from_spec() -> bool {
        true
    }

    open spec fn from_spec(error: InvalidPackageNameError) -> SourceBuildError {
        SourceBuildError::InvalidPackageName(error)
    }
}

impl From<PinCompatibleError> for SourceBuildError {
    fn from(error: PinCompatibleError) -> (r: SourceBuildError) {
        SourceBuildError::PinCompatibleError(error)
    }
}

impl vstd::std_specs::convert::FromSpecImpl<PinCompatibleError> for SourceBuildError {
    open spec fn obeys_from_spec() -> bool {
        true
    }

    open spec fn from_spec(error: PinCompatibleError) -> SourceBuildError {
        SourceBuildError::PinCompatibleError(error)
    }
}

impl From<BackendSourceBuildError> for SourceBuildError {
    fn from(error: BackendSourceBuildError) -> (r: SourceBuildError) {
        SourceBuildError::BackendBuildError(error)
    }
}

impl vstd::std_specs::convert::FromSpecImpl<BackendSourceBuildError> for SourceBuildError {
    open spec fn obeys_from_spec() -> bool {
        true
    }

    open spec fn from_spec(error: BackendSourceBuildError) -> SourceBuildError {
        SourceBuildError::BackendBuildError(error)
    }
}

impl From<GlobSetError> for SourceBuildError {
    fn from(error: GlobSetError) -> (r: SourceBuildError) {
        SourceBuildError::GlobSet(error)
    }
}

impl vstd::std_specs::convert::FromSpecImpl<GlobSetError> for SourceBuildError {
    open spec fn obeys_from_spec() -> bool {
        true
    }

    open spec fn from_spec(error: GlobSetError) -> SourceBuildError {
        SourceBuildError::GlobSet(error)
    }
}

impl From<DependenciesError> for SourceBuildError {
    fn from(error: DependenciesError) -> (r: SourceBuildError) {
        match error {
            DependenciesError::InvalidPackageName(error) =>
                SourceBuildError::InvalidPackageName(error),
            DependenciesError::PinCompatibleError(error) =>
                SourceBuildError::PinCompatibleError(error),
            DependenciesError::UnresolvedPinSubpackage(name) =>
                SourceBuildError::UnresolvedPinSubpackage(name),
        }
    }
}

impl vstd::std_specs::convert::FromSpecImpl<DependenciesError> for SourceBuildError {
    open spec fn obeys_from_spec() -> bool {
        true
    }

    open spec fn from_spec(error: DependenciesError) -> SourceBuildError {
        match error {
            DependenciesError::InvalidPackageName(error) =>
                SourceBuildError::InvalidPackageName(error),
            DependenciesError::PinCompatibleError(error) =>
                SourceBuildError::PinCompatibleError(error),
            DependenciesError::UnresolvedPinSubpackage(name) =>
                SourceBuildError::UnresolvedPinSubpackage(name),
        }
    }
}

impl From<BuildBackendMetadataError> for SourceMetadataError {
    fn from(error: BuildBackendMetadataError) -> (r: SourceMetadataError) {
        SourceMetadataError::BuildBackendMetadata(error)
    }
}

impl vstd::std_specs::convert::FromSpecImpl<BuildBackendMetadataError> for SourceMetadataError {
    open spec fn obeys_from_spec() -> bool {
        true
    }

    open spec fn from_spec(error: BuildBackendMetadataError) -> SourceMetadataError {
        SourceMetadataError::BuildBackendMetadata(error)
    }
}

impl From<SourceRecordError> for SourceMetadataError {
    fn from(error: SourceRecordError) -> (r: SourceMetadataError) {
        SourceMetadataError::SourceRecord(error)
    }
}

impl vstd::std_specs::convert::FromSpecImpl<SourceRecordError> for SourceMetadataError {
    open spec fn obeys_from_spec() -> bool {
        true
    }

    open spec fn from_spec(error: SourceRecordError) -> SourceMetadataError {
        SourceMetadataError::SourceRecord(error)
    }
}

impl From<PackageNotProvidedError> for SourceMetadataError {
    fn from(error: PackageNotProvidedError) -> (r: SourceMetadataError) {
        SourceMetadataError::PackageNotProvided(error)
    }
}

impl vstd::std_specs::convert::FromSpecImpl<PackageNotProvidedError> for SourceMetadataError {
    open spec fn obeys_from_spec() -> bool {
        true
    }

    open spec fn from_spec(error: PackageNotProvidedError) -> SourceMetadataError {
        SourceMetadataError::PackageNotProvided(error)
    }
}

impl From<SourceCheckoutError> for SourceMetadataError {
    fn from(error: SourceCheckoutError) -> (r: SourceMetadataError) {
        SourceMetadataError::SourceCheckout(error)
    }
}

impl vstd::std_specs::convert::FromSpecImpl<SourceCheckoutError> for SourceMetadataError {
    open spec fn obeys_from_spec() -> bool {
        true
    }

    open spec fn from_spec(error: SourceCheckoutError) -> SourceMetadataError {
        SourceMetadataError::SourceCheckout(error)
    }
}

impl From<BuildBackendMetadataError> for SourceRecordError {
    fn from(error: BuildBackendMetadataError) -> (r: SourceRecordError) {
        SourceRecordError::BuildBackendMetadata(error)
    }
}

impl vstd::std_specs::convert::FromSpecImpl<BuildBackendMetadataError> for SourceRecordError {
    open spec fn obeys_from_spec() -> bool {
        true
    }

    open spec fn from_spec(error: BuildBackendMetadataError) -> SourceRecordError {
        SourceRecordError::BuildBackendMetadata(error)
    }
}

impl From<SpecConversionError> for SourceRecordError {
    fn from(error: SpecConversionError) -> (r: SourceRecordError) {
        SourceRecordError::SpecConversionError(error)
    }
}

impl vstd::std_specs::convert::FromSpecImpl<SpecConversionError> for SourceRecordError {
    open spec fn obeys_from_spec() -> bool {
        true
    }

    open spec fn from_spec(error: SpecConversionError) -> SourceRecordError {
        SourceRecordError::SpecConversionError(error)
    }
}

impl From<InvalidPackageNameError> for SourceRecordError {
    fn from(error: InvalidPackageNameError) -> (r: SourceRecordError) {
        SourceRecordError::InvalidPackageName(error)
    }
}

impl vstd::std_specs::convert::FromSpecImpl<InvalidPackageNameError> for SourceRecordError {
    open spec fn obeys_from_spec() -> bool {
        true
    }

    open spec fn from_spec(error: InvalidPackageNameError) -> SourceRecordError {
        SourceRecordError::InvalidPackageName(error)
    }
}

impl From<PinCompatibleError> for SourceRecordError {
    fn from(error: PinCompatibleError) -> (r: SourceRecordError) {
        SourceRecordError::PinCompatibleError(error)
    }
}

impl vstd::std_specs::convert::FromSpecImpl<PinCompatibleError> for SourceRecordError {
    open spec fn obeys_from_spec() -> bool {
        true
    }

    open spec fn from_spec(error: PinCompatibleError) -> SourceRecordError {
        SourceRecordError::PinCompatibleError(error)
    }
}

impl From<PackageNotProvidedError> for SourceRecordError {
    fn from(error: PackageNotProvidedError) -> (r: SourceRecordError) {
        SourceRecordError::PackageNotProvided(error)
    }
}

impl vstd::std_specs::convert::FromSpecImpl<PackageNotProvidedError> for SourceRecordError {
    open spec fn obeys_from_spec() -> bool {
        true
    }

    open spec fn from_spec(error: PackageNotProvidedError) -> SourceRecordError {
        SourceRecordError::PackageNotProvided(error)
    }
}

impl From<SourceCheckoutError> for SourceRecordError {
    fn from(error: SourceCheckoutError) -> (r: SourceRecordError) {
        SourceRecordError::SourceCheckout(error)
    }
}

impl vstd::std_specs::convert::FromSpecImpl<SourceCheckoutError> for SourceRecordError {
    open spec fn obeys_from_spec() -> bool {
        true
    }

    open spec fn from_spec(error: SourceCheckoutError) -> SourceRecordError {
        SourceRecordError::SourceCheckout(error)
    }
}

impl From<DependenciesError> for SourceRecordError {
    fn from(error: DependenciesError) -> (r: SourceRecordError) {
        match error {
            DependenciesError::InvalidPackageName(error) =>
                SourceRecordError::InvalidPackageName(error),
            DependenciesError::PinCompatibleError(error) =>
                SourceRecordError::PinCompatibleError(error),
            DependenciesError::UnresolvedPinSubpackage(name) =>
                SourceRecordError::UnresolvedPinSubpackage(name),
        }
    }
}

impl vstd::std_specs::convert::FromSpecImpl<DependenciesError> for SourceRecordError {
    open spec fn obeys_from_spec() -> bool {
        true
    }

    open spec fn from_spec(error: DependenciesError) -> SourceRecordError {
        match error {
            DependenciesError::InvalidPackageName(error) =>
                SourceRecordError::InvalidPackageName(error),
            DependenciesError::PinCompatibleError(error) =>
                SourceRecordError::PinCompatibleError(error),
            DependenciesError::UnresolvedPinSubpackage(name) =>
                SourceRecordError::UnresolvedPinSubpackage(name),
        }
    }
}

impl From<GatewayError> for SolvePixiEnvironmentError {
    fn from(error: GatewayError) -> (r: SolvePixiEnvironmentError) {
        SolvePixiEnvironmentError::QueryError(error)
    }
}

impl vstd::std_specs::convert::FromSpecImpl<GatewayError> for SolvePixiEnvironmentError {
    open spec fn obeys_from_spec() -> bool {
        true
    }

    open spec fn from_spec(error: GatewayError) -> SolvePixiEnvironmentError {
        SolvePixiEnvironmentError::QueryError(error)
    }
}

impl From<SolveError> for SolvePixiEnvironmentError {
    fn from(error: SolveError) -> (r: SolvePixiEnvironmentError) {
        SolvePixiEnvironmentError::SolveError(error)
    }
}

impl vstd::std_specs::convert::FromSpecImpl<SolveError> for SolvePixiEnvironmentError {
    open spec fn obeys_from_spec() -> bool {
        true
    }

    open spec fn from_spec(error: SolveError) -> SolvePixiEnvironmentError {
        SolvePixiEnvironmentError::SolveError(error)
    }
}

impl From<SpecConversionError> for SolvePixiEnvironmentError {
    fn from(error: SpecConversionError) -> (r: SolvePixiEnvironmentError) {
        SolvePixiEnvironmentError::SpecConversionError(error)
    }
}

impl vstd::std_specs::convert::FromSpecImpl<SpecConversionError> for SolvePixiEnvironmentError {
    open spec fn obeys_from_spec() -> bool {
        true
    }

    open spec fn from_spec(error: SpecConversionError) -> SolvePixiEnvironmentError {
        SolvePixiEnvironmentError::SpecConversionError(error)
    }
}

impl From<ParseChannelError> for SolvePixiEnvironmentError {
    fn from(error: ParseChannelError) -> (r: SolvePixiEnvironmentError) {
        SolvePixiEnvironmentError::ParseChannelError(error)
    }
}

impl vstd::std_specs::convert::FromSpecImpl<ParseChannelError> for SolvePixiEnvironmentError {
    open spec fn obeys_from_spec() -> bool {
        true
    }

    open spec fn from_spec(error: ParseChannelError) -> SolvePixiEnvironmentError {
        SolvePixiEnvironmentError::ParseChannelError(error)
    }
}

impl From<DevSourceMetadataError> for SolvePixiEnvironmentError {
    fn from(error: DevSourceMetadataError) -> (r: SolvePixiEnvironmentError) {
        SolvePixiEnvironmentError::DevSourceMetadataError(error)
    }
}

impl vstd::std_specs::convert::FromSpecImpl<DevSourceMetadataError> for SolvePixiEnvironmentError {
    open spec fn obeys_from_spec() -> bool {
        true
    }

    open spec fn from_spec(error: DevSourceMetadataError) -> SolvePixiEnvironmentError {
        SolvePixiEnvironmentError::DevSourceMetadataError(error)
    }
}

/// A cycle that the record of a source package ran into stays a cycle.
impl From<SourceMetadataError> for SolvePixiEnvironmentError {
    fn from(error: SourceMetadataError) -> (r: SolvePixiEnvironmentError) {
        match error {
            SourceMetadataError::SourceRecord(SourceRecordError::Cycle(cycle)) =>
                SolvePixiEnvironmentError::Cycle(cycle),
            other => SolvePixiEnvironmentError::SourceMetadata(other),
        }
    }
}

impl vstd::std_specs::convert::FromSpecImpl<SourceMetadataError> for SolvePixiEnvironmentError {
    open spec fn obeys_from_spec() -> bool {
        true
    }

    open spec fn from_spec(error: SourceMetadataError) -> SolvePixiEnvironmentError {
        match error {
            SourceMetadataError::SourceRecord(SourceRecordError::Cycle(cycle)) =>
                SolvePixiEnvironmentError::Cycle(cycle),
            other => SolvePixiEnvironmentError::SourceMetadata(other),
        }
    }
}

impl From<SolveCondaEnvironmentError> for SolvePixiEnvironmentError {
    fn from(error: SolveCondaEnvironmentError) -> (r: SolvePixiEnvironmentError) {
        match error {
            SolveCondaEnvironmentError::SolveError(error) =>
                SolvePixiEnvironmentError::SolveError(error),
            SolveCondaEnvironmentError::SpecConversionError(error) =>
                SolvePixiEnvironmentError::SpecConversionError(error),
            SolveCondaEnvironmentError::Gateway(error) =>
                SolvePixiEnvironmentError::QueryError(error),
        }
    }
}

impl vstd::std_specs::convert::FromSpecImpl<SolveCondaEnvironmentError> for SolvePixiEnvironmentError {
    open spec fn obeys_from_spec() -> bool {
        true
    }

    open spec fn from_spec(error: SolveCondaEnvironmentError) -> SolvePixiEnvironmentError {
        match error {
            SolveCondaEnvironmentError::SolveError(error) =>
                SolvePixiEnvironmentError::SolveError(error),
            SolveCondaEnvironmentError::SpecConversionError(error) =>
                SolvePixiEnvironmentError::SpecConversionError(error),
            SolveCondaEnvironmentError::Gateway(error) =>
                SolvePixiEnvironmentError::QueryError(error),
        }
    }
}

/// What a metadata error becomes as a solve error.
pub open spec fn as_solve_error(error: SourceMetadataError) -> SolvePixiEnvironmentError {
    vstd::std_specs::convert::FromSpec::from_spec(error)
}

/// A metadata error that becomes a solve error stems from the same discovery
/// failure as before, and shows as a cycle exactly if it was one.
pub proof fn a_metadata_error_keeps_its_identity(error: SourceMetadataError)
    ensures
        as_solve_error(error).discovery() == error.discovery(),
        as_solve_error(error) is Cycle <==> (error is SourceRecord && error->SourceRecord_0 is Cycle),
{
    match error {
        SourceMetadataError::SourceRecord(record) => {
            assert(error.discovery() == record.discovery());
        },
        _ => {},
    }
}

} // verus!
