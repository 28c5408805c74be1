//! What goes wrong when environments are solved and source packages are built.
//!
//! An error that arises elsewhere is held with the text that it prints.

use vstd::prelude::*;
use vstd::string::*;

use crate::package;
use crate::package::{format_variants, PackageName, Variants};
use crate::text;

verus! {

/// Checking out a source failed.
#[derive(Debug)]
pub struct SourceCheckoutError {
    pub message: String,
}

impl Clone for SourceCheckoutError {
    fn clone(&self) -> (r: SourceCheckoutError)
        ensures
            r == *self,
    {
        SourceCheckoutError { message: self.message.clone() }
    }
}

/// An operation on a file or directory failed.
#[derive(Debug)]
pub struct IoError {
    pub message: String,
}

impl Clone for IoError {
    fn clone(&self) -> (r: IoError)
        ensures
            r == *self,
    {
        IoError { message: self.message.clone() }
    }
}

/// Installing an environment failed.
#[derive(Debug)]
pub struct InstallPixiEnvironmentError {
    pub message: String,
}

impl Clone for InstallPixiEnvironmentError {
    fn clone(&self) -> (r: InstallPixiEnvironmentError)
        ensures
            r == *self,
    {
        InstallPixiEnvironmentError { message: self.message.clone() }
    }
}

/// A text is not the name of a package.
#[derive(Debug)]
pub struct InvalidPackageNameError {
    pub message: String,
}

impl Clone for InvalidPackageNameError {
    fn clone(&self) -> (r: InvalidPackageNameError)
        ensures
            r == *self,
    {
        InvalidPackageNameError { message: self.message.clone() }
    }
}

/// A `pin-compatible` spec could not be resolved.
#[derive(Debug)]
pub struct PinCompatibleError {
    pub message: String,
}

impl Clone for PinCompatibleError {
    fn clone(&self) -> (r: PinCompatibleError)
        ensures
            r == *self,
    {
        PinCompatibleError { message: self.message.clone() }
    }
}

/// The build backend failed to build a package.
#[derive(Debug)]
pub struct BackendSourceBuildError {
    pub message: String,
}

impl Clone for BackendSourceBuildError {
    fn clone(&self) -> (r: BackendSourceBuildError)
        ensures
            r == *self,
    {
        BackendSourceBuildError { message: self.message.clone() }
    }
}

/// The run exports of a package could not be extracted.
#[derive(Debug)]
pub struct RunExportExtractorError {
    pub message: String,
}

impl Clone for RunExportExtractorError {
    fn clone(&self) -> (r: RunExportExtractorError)
        ensures
            r == *self,
    {
        RunExportExtractorError { message: self.message.clone() }
    }
}

/// A package could not be extracted.
#[derive(Debug)]
pub struct ExtractError {
    pub message: String,
}

impl Clone for ExtractError {
    fn clone(&self) -> (r: ExtractError)
        ensures
            r == *self,
    {
        ExtractError { message: self.message.clone() }
    }
}

/// A subdirectory of a channel is not valid.
#[derive(Debug)]
pub struct ConvertSubdirError {
    pub message: String,
}

impl Clone for ConvertSubdirError {
    fn clone(&self) -> (r: ConvertSubdirError)
        ensures
            r == *self,
    {
        ConvertSubdirError { message: self.message.clone() }
    }
}

/// A set of globs could not be matched.
#[derive(Debug)]
pub struct GlobSetError {
    pub message: String,
}

impl Clone for GlobSetError {
    fn clone(&self) -> (r: GlobSetError)
        ensures
            r == *self,
    {
        GlobSetError { message: self.message.clone() }
    }
}

/// A source does not provide the package that is asked of it.
#[derive(Debug)]
pub struct PackageNotProvidedError {
    pub message: String,
}

impl Clone for PackageNotProvidedError {
    fn clone(&self) -> (r: PackageNotProvidedError)
        ensures
            r == *self,
    {
        PackageNotProvidedError { message: self.message.clone() }
    }
}

/// A spec could not be converted.
#[derive(Debug)]
pub struct SpecConversionError {
    pub message: String,
}

impl Clone for SpecConversionError {
    fn clone(&self) -> (r: SpecConversionError)
        ensures
            r == *self,
    {
        SpecConversionError { message: self.message.clone() }
    }
}

/// The records of a channel could not be queried.
#[derive(Debug)]
pub struct GatewayError {
    pub message: String,
}

impl Clone for GatewayError {
    fn clone(&self) -> (r: GatewayError)
        ensures
            r == *self,
    {
        GatewayError { message: self.message.clone() }
    }
}

/// The solver found no solution.
#[derive(Debug)]
pub struct SolveError {
    pub message: String,
}

impl Clone for SolveError {
    fn clone(&self) -> (r: SolveError)
        ensures
            r == *self,
    {
        SolveError { message: self.message.clone() }
    }
}

/// A text does not name a channel.
#[derive(Debug)]
pub struct ParseChannelError {
    pub message: String,
}

impl Clone for ParseChannelError {
    fn clone(&self) -> (r: ParseChannelError)
        ensures
            r == *self,
    {
        ParseChannelError { message: self.message.clone() }
    }
}

/// A cycle in the dependencies of packages.
#[derive(Debug)]
pub struct Cycle {
    pub message: String,
}

impl Clone for Cycle {
    fn clone(&self) -> (r: Cycle)
        ensures
            r == *self,
    {
        Cycle { message: self.message.clone() }
    }
}

/// No build backend could be found for a source.
#[derive(Debug)]
pub enum DiscoveryError {
    FailedToDiscover { path: String, help: String, message: String },
    Other { message: String },
}

impl Clone for DiscoveryError {
    fn clone(&self) -> (r: DiscoveryError)
        ensures
            r == *self,
    {
        match self {
            DiscoveryError::FailedToDiscover { path, help, message } =>
                DiscoveryError::FailedToDiscover {
                    path: path.clone(),
                    help: help.clone(),
                    message: message.clone(),
                },
            DiscoveryError::Other { message } => DiscoveryError::Other {
                message: message.clone(),
            },
        }
    }
}

impl DiscoveryError {
    /// What the error prints.
    pub open spec fn text(self) -> Seq<char> {
        match self {
            DiscoveryError::FailedToDiscover { message, .. } => message@,
            DiscoveryError::Other { message } => message@,
        }
    }

    /// What the error prints.
    pub fn message(&self) -> (r: String)
        ensures
            r@ == self.text(),
    {
        match self {
            DiscoveryError::FailedToDiscover { message, .. } => message.clone(),
            DiscoveryError::Other { message } => message.clone(),
        }
    }
}

/// A build backend could not be started.
#[derive(Debug)]
pub enum InstantiateBackendError {
    Discovery { error: DiscoveryError, message: String },
    Other { message: String },
}

impl Clone for InstantiateBackendError {
    fn clone(&self) -> (r: InstantiateBackendError)
        ensures
            r == *self,
    {
        match self {
            InstantiateBackendError::Discovery { error, message } =>
                InstantiateBackendError::Discovery {
                    error: error.clone(),
                    message: message.clone(),
                },
            InstantiateBackendError::Other { message } => InstantiateBackendError::Other {
                message: message.clone(),
            },
        }
    }
}

impl InstantiateBackendError {
    /// The discovery failure behind the error.
    pub open spec fn discovery(self) -> Option<DiscoveryError> {
        match self {
            InstantiateBackendError::Discovery { error, .. } => Some(error),
            InstantiateBackendError::Other { .. } => None,
        }
    }

    /// Returns the backend discovery failure this error stems from, if any.
    pub fn discovery_error(&self) -> (r: Option<&DiscoveryError>)
        ensures
            found(r) == self.discovery(),
    {
        match self {
            InstantiateBackendError::Discovery { error, .. } => Some(error),
            InstantiateBackendError::Other { .. } => None,
        }
    }
}

/// The metadata of a build backend could not be had.
#[derive(Debug)]
#[allow(inconsistent_fields)]
pub enum BuildBackendMetadataError {
    Discovery { error: DiscoveryError, message: String },
    Initialize { error: InstantiateBackendError, message: String },
    Other { message: String },
}

impl Clone for BuildBackendMetadataError {
    fn clone(&self) -> (r: BuildBackendMetadataError)
        ensures
            r == *self,
    {
        match self {
            BuildBackendMetadataError::Discovery { error, message } =>
                BuildBackendMetadataError::Discovery {
                    error: error.clone(),
                    message: message.clone(),
                },
            BuildBackendMetadataError::Initialize { error, message } =>
                BuildBackendMetadataError::Initialize {
                    error: error.clone(),
                    message: message.clone(),
                },
            BuildBackendMetadataError::Other { message } => BuildBackendMetadataError::Other {
                message: message.clone(),
            },
        }
    }
}

impl BuildBackendMetadataError {
    /// The discovery failure behind the error.
    pub open spec fn discovery(self) -> Option<DiscoveryError> {
        match self {
            BuildBackendMetadataError::Discovery { error, .. } => Some(error),
            BuildBackendMetadataError::Initialize { error, .. } => error.discovery(),
            BuildBackendMetadataError::Other { .. } => None,
        }
    }

    /// Returns the backend discovery failure this error stems from, if any.
    pub fn discovery_error(&self) -> (r: Option<&DiscoveryError>)
        ensures
            found(r) == self.discovery(),
    {
        match self {
            BuildBackendMetadataError::Discovery { error, .. } => Some(error),
            BuildBackendMetadataError::Initialize { error, .. } => error.discovery_error(),
            BuildBackendMetadataError::Other { .. } => None,
        }
    }

    /// What the error prints.
    pub open spec fn text(self) -> Seq<char> {
        match self {
            BuildBackendMetadataError::Discovery { message, .. } => message@,
            BuildBackendMetadataError::Initialize { message, .. } => message@,
            BuildBackendMetadataError::Other { message } => message@,
        }
    }

    /// What the error prints.
    pub fn message(&self) -> (r: String)
        ensures
            r@ == self.text(),
    {
        match self {
            BuildBackendMetadataError::Discovery { message, .. } => message.clone(),
            BuildBackendMetadataError::Initialize { message, .. } => message.clone(),
            BuildBackendMetadataError::Other { message } => message.clone(),
        }
    }
}

/// The metadata of a source under development could not be had.
#[derive(Debug)]
pub struct DevSourceMetadataError {
    pub message: String,
    pub discovery: Option<DiscoveryError>,
}

impl Clone for DevSourceMetadataError {
    fn clone(&self) -> (r: DevSourceMetadataError)
        ensures
            r == *self,
    {
        DevSourceMetadataError {
            message: self.message.clone(),
            discovery: match &self.discovery {
                Some(error) => Some(error.clone()),
                None => None,
            },
        }
    }
}

impl DevSourceMetadataError {
    /// Returns the backend discovery failure this error stems from, if any.
    pub fn discovery_error(&self) -> (r: Option<&DiscoveryError>)
        ensures
            found(r) == self.discovery,
    {
        match &self.discovery {
            Some(error) => Some(error),
            None => None,
        }
    }
}

/// What a reference to a discovery failure refers to.
pub open spec fn found(error: Option<&DiscoveryError>) -> Option<DiscoveryError> {
    match error {
        Some(error) => Some(*error),
        None => None,
    }
}

/// The dependencies that a build backend gave cannot be used.
#[derive(Debug, Clone)]
pub enum DependenciesError {
    InvalidPackageName(InvalidPackageNameError),
    PinCompatibleError(PinCompatibleError),
    UnresolvedPinSubpackage(PackageName),
}

/// The conda packages of an environment could not be solved.
#[derive(Debug, Clone)]
pub enum SolveCondaEnvironmentError {
    SolveError(SolveError),
    SpecConversionError(SpecConversionError),
    Gateway(GatewayError),
}

/// A source package could not be built.
#[derive(Debug, Clone)]
pub enum SourceBuildError {
    SourceCheckout(SourceCheckoutError),
    CreateWorkDirectory(IoError),
    Discovery(DiscoveryError),
    Initialize(InstantiateBackendError),
    CreateBuildEnvironmentDirectory(IoError),
    InstallBuildEnvironment(InstallPixiEnvironmentError),
    InstallHostEnvironment(InstallPixiEnvironmentError),
    MissingOutput { name: String, variants: Variants },
    MissingOutputFile(String),
    InvalidPackageName(InvalidPackageNameError),
    PinCompatibleError(PinCompatibleError),
    UnresolvedPinSubpackage(PackageName),
    BackendBuildError(BackendSourceBuildError),
    RunExportsExtraction(String, RunExportExtractorError),
    ReadIndexJson(ExtractError),
    CalculateSha256(String, IoError),
    ConvertSubdir(ConvertSubdirError),
    GlobSet(GlobSetError),
    DependencyFailed { package: PackageName, dependencies: Vec<PackageName> },
}

impl SourceBuildError {
    /// What the error prints.
    pub open spec fn text(self) -> Seq<char> {
        match self {
            SourceBuildError::SourceCheckout(error) => error.message@,
            SourceBuildError::CreateWorkDirectory(error) => error.message@,
            SourceBuildError::Discovery(error) => error.text(),
            SourceBuildError::Initialize(_) => "could not initialize the build-backend"@,
            SourceBuildError::CreateBuildEnvironmentDirectory(_) =>
                "failed to create the build environment directory"@,
            SourceBuildError::InstallBuildEnvironment(_) =>
                "failed to install the build environment"@,
            SourceBuildError::InstallHostEnvironment(_) =>
                "failed to install the host environment"@,
            SourceBuildError::MissingOutput { name, variants } =>
                "The build backend does not provide an output matching '"@ + name@
                    + "' with variants: "@ + package::variants_text(variants@) + "."@,
            SourceBuildError::MissingOutputFile(path) =>
                "The build backend returned a path for the build package ("@ + path@
                    + "), but the path does not exist."@,
            SourceBuildError::InvalidPackageName(_) =>
                "backend returned a dependency on an invalid package name"@,
            SourceBuildError::PinCompatibleError(error) => error.message@,
            SourceBuildError::UnresolvedPinSubpackage(name) =>
                "the build backend returned an unresolved `pin-subpackage` spec for '"@
                    + name.normalized@ + "'"@,
            SourceBuildError::BackendBuildError(error) => error.message@,
            SourceBuildError::RunExportsExtraction(environment, _) =>
                "failed to amend run exports for "@ + environment@ + " environment"@,
            SourceBuildError::ReadIndexJson(_) =>
                "failed to read metadata from the output package"@,
            SourceBuildError::CalculateSha256(path, _) =>
                "failed to calculate sha256 hash of "@ + path@,
            SourceBuildError::ConvertSubdir(_) => "the package does not contain a valid subdir"@,
            SourceBuildError::GlobSet(error) => error.message@,
            SourceBuildError::DependencyFailed { dependencies, .. } =>
                "not built: "@ + dependencies_text(dependencies@) + " failed to build"@,
        }
    }

    /// What the error prints.
    pub fn message(&self) -> (r: String)
        ensures
            r@ == self.text(),
    {
        match self {
            SourceBuildError::SourceCheckout(error) => error.message.clone(),
            SourceBuildError::CreateWorkDirectory(error) => error.message.clone(),
            SourceBuildError::Discovery(error) => error.message(),
            SourceBuildError::Initialize(_) => "could not initialize the build-backend".to_owned(),
            SourceBuildError::CreateBuildEnvironmentDirectory(_) =>
                "failed to create the build environment directory".to_owned(),
            SourceBuildError::InstallBuildEnvironment(_) =>
                "failed to install the build environment".to_owned(),
            SourceBuildError::InstallHostEnvironment(_) =>
                "failed to install the host environment".to_owned(),
            SourceBuildError::MissingOutput { name, variants } => {
                let mut printed =
                    "The build backend does not provide an output matching '".to_owned();
                printed.append(name.as_str());
                printed.append("' with variants: ");
                printed.append(format_variants(variants).as_str());
                printed.append(".");
                printed
            },
            SourceBuildError::MissingOutputFile(path) => {
                let mut printed =
                    "The build backend returned a path for the build package (".to_owned();
                printed.append(path.as_str());
                printed.append("), but the path does not exist.");
                printed
            },
            SourceBuildError::InvalidPackageName(_) =>
                "backend returned a dependency on an invalid package name".to_owned(),
            SourceBuildError::PinCompatibleError(error) => error.message.clone(),
            SourceBuildError::UnresolvedPinSubpackage(name) => {
                let mut printed =
                    "the build backend returned an unresolved `pin-subpackage` spec for '".to_owned();
                printed.append(name.normalized.as_str());
                printed.append("'");
                printed
            },
            SourceBuildError::BackendBuildError(error) => error.message.clone(),
            SourceBuildError::RunExportsExtraction(environment, _) => {
                let mut printed = "failed to amend run exports for ".to_owned();
                printed.append(environment.as_str());
                printed.append(" environment");
                printed
            },
            SourceBuildError::ReadIndexJson(_) =>
                "failed to read metadata from the output package".to_owned(),
            SourceBuildError::CalculateSha256(path, _) => {
                let mut printed = "failed to calculate sha256 hash of ".to_owned();
                printed.append(path.as_str());
                printed
            },
            SourceBuildError::ConvertSubdir(_) =>
                "the package does not contain a valid subdir".to_owned(),
            SourceBuildError::GlobSet(error) => error.message.clone(),
            SourceBuildError::DependencyFailed { dependencies, .. } => {
                let mut printed = "not built: ".to_owned();
                printed.append(format_dependencies(dependencies).as_str());
                printed.append(" failed to build");
                printed
            },
        }
    }
}

/// Packages by their names, each in backquotes.
pub open spec fn dependencies_text(dependencies: Seq<PackageName>) -> Seq<char> {
    text::joined(
        dependencies.map_values(|name: PackageName| "`"@ + name.source@ + "`"@),
        ", "@,
    )
}

/// Lists packages by their names, each in backquotes.
pub fn format_dependencies(dependencies: &Vec<PackageName>) -> (r: String)
    ensures
        r@ == dependencies_text(dependencies@),
{
    let mut names: Vec<String> = Vec::new();
    let mut i: usize = 0;
    while i < dependencies.len()
        invariant
            i <= dependencies.len(),
            names.len() == i,
            forall|j: int|
                0 <= j < i ==> (#[trigger] names@[j])@ == "`"@ + dependencies@[j].source@ + "`"@,
        decreases dependencies.len() - i,
    {
        let mut name = "`".to_owned();
        name.append(dependencies[i].as_source());
        name.append("`");
        names.push(name);
        i += 1;
    }
    assert(text::views(names@) =~= dependencies@.map_values(
        |name: PackageName| "`"@ + name.source@ + "`"@,
    ));
    text::join(&names, ", ")
}

/// The metadata of a source package could not be had.
#[derive(Debug)]
pub enum SourceMetadataError {
    BuildBackendMetadata(BuildBackendMetadataError),
    SourceRecord(SourceRecordError),
    PackageNotProvided(PackageNotProvidedError),
    SourceCheckout(SourceCheckoutError),
}

impl Clone for SourceMetadataError {
    fn clone(&self) -> (r: SourceMetadataError)
        ensures
            r == *self,
        decreases self,
    {
        match self {
            SourceMetadataError::BuildBackendMetadata(error) =>
                SourceMetadataError::BuildBackendMetadata(error.clone()),
            SourceMetadataError::SourceRecord(error) =>
                SourceMetadataError::SourceRecord(error.clone()),
            SourceMetadataError::PackageNotProvided(error) =>
                SourceMetadataError::PackageNotProvided(error.clone()),
            SourceMetadataError::SourceCheckout(error) =>
                SourceMetadataError::SourceCheckout(error.clone()),
        }
    }
}

/// The record of a source package could not be made.
#[derive(Debug)]
#[allow(inconsistent_fields)]
pub enum SourceRecordError {
    BuildBackendMetadata(BuildBackendMetadataError),
    RunExportsExtraction(String, RunExportExtractorError),
    SolveBuildEnvironment { package: PackageName, error: Box<SolvePixiEnvironmentError> },
    SolveHostEnvironment { package: PackageName, error: Box<SolvePixiEnvironmentError> },
    SpecConversionError(SpecConversionError),
    InvalidPackageName(InvalidPackageNameError),
    PinCompatibleError(PinCompatibleError),
    UnresolvedPinSubpackage(PackageName),
    DuplicateSourceDependency { package: PackageName, source1: String, source2: String },
    Cycle(Cycle),
    PackageNotProvided(PackageNotProvidedError),
    NoMatchingVariant { package: String, manifest_path: String, available: String },
    /// Pinning or checking out the source failed.
    SourceCheckout(SourceCheckoutError),
}

impl Clone for SourceRecordError {
    fn clone(&self) -> (r: SourceRecordError)
        ensures
            r == *self,
        decreases self,
    {
        match self {
            SourceRecordError::BuildBackendMetadata(error) =>
                SourceRecordError::BuildBackendMetadata(error.clone()),
            SourceRecordError::RunExportsExtraction(environment, error) =>
                SourceRecordError::RunExportsExtraction(environment.clone(), error.clone()),
            SourceRecordError::SolveBuildEnvironment { package, error } =>
                SourceRecordError::SolveBuildEnvironment {
                    package: package.clone(),
                    error: Box::new((&**error).clone()),
                },
            SourceRecordError::SolveHostEnvironment { package, error } =>
                SourceRecordError::SolveHostEnvironment {
                    package: package.clone(),
                    error: Box::new((&**error).clone()),
                },
            SourceRecordError::SpecConversionError(error) =>
                SourceRecordError::SpecConversionError(error.clone()),
            SourceRecordError::InvalidPackageName(error) =>
                SourceRecordError::InvalidPackageName(error.clone()),
            SourceRecordError::PinCompatibleError(error) =>
                SourceRecordError::PinCompatibleError(error.clone()),
            SourceRecordError::UnresolvedPinSubpackage(name) =>
                SourceRecordError::UnresolvedPinSubpackage(name.clone()),
            SourceRecordError::DuplicateSourceDependency { package, source1, source2 } =>
                SourceRecordError::DuplicateSourceDependency {
                    package: package.clone(),
                    source1: source1.clone(),
                    source2: source2.clone(),
                },
            SourceRecordError::Cycle(cycle) => SourceRecordError::Cycle(cycle.clone()),
            SourceRecordError::PackageNotProvided(error) =>
                SourceRecordError::PackageNotProvided(error.clone()),
            SourceRecordError::NoMatchingVariant { package, manifest_path, available } =>
                SourceRecordError::NoMatchingVariant {
                    package: package.clone(),
                    manifest_path: manifest_path.clone(),
                    available: available.clone(),
                },
            SourceRecordError::SourceCheckout(error) =>
                SourceRecordError::SourceCheckout(error.clone()),
        }
    }
}

/// An error that might be returned when solving a pixi environment.
#[derive(Debug)]
pub enum SolvePixiEnvironmentError {
    QueryError(GatewayError),
    SolveError(SolveError),
    CacheIndexError(IoError),
    SpecConversionError(SpecConversionError),
    Cycle(Cycle),
    ParseChannelError(ParseChannelError),
    MissingChannel(MissingChannelError),
    DevSourceMetadataError(DevSourceMetadataError),
    SourceCheckoutError(SourceCheckoutError),
    /// The metadata of a source package could not be had.
    SourceMetadata(SourceMetadataError),
    /// Resolving a source package that is part of the environment failed.
    /// Names the package and its source location so failures deep inside
    /// nested build/host environments can be traced back to the package
    /// they belong to.
    ResolveSourcePackage { name: PackageName, source: String, error: Box<SourceRecordError> },
}

impl Clone for SolvePixiEnvironmentError {
    fn clone(&self) -> (r: SolvePixiEnvironmentError)
        ensures
            r == *self,
        decreases self,
    {
        match self {
            SolvePixiEnvironmentError::QueryError(error) =>
                SolvePixiEnvironmentError::QueryError(error.clone()),
            SolvePixiEnvironmentError::SolveError(error) =>
                SolvePixiEnvironmentError::SolveError(error.clone()),
            SolvePixiEnvironmentError::CacheIndexError(error) =>
                SolvePixiEnvironmentError::CacheIndexError(error.clone()),
            SolvePixiEnvironmentError::SpecConversionError(error) =>
                SolvePixiEnvironmentError::SpecConversionError(error.clone()),
            SolvePixiEnvironmentError::Cycle(cycle) =>
                SolvePixiEnvironmentError::Cycle(cycle.clone()),
            SolvePixiEnvironmentError::ParseChannelError(error) =>
                SolvePixiEnvironmentError::ParseChannelError(error.clone()),
            SolvePixiEnvironmentError::MissingChannel(error) =>
                SolvePixiEnvironmentError::MissingChannel(error.clone()),
            SolvePixiEnvironmentError::DevSourceMetadataError(error) =>
                SolvePixiEnvironmentError::DevSourceMetadataError(error.clone()),
            SolvePixiEnvironmentError::SourceCheckoutError(error) =>
                SolvePixiEnvironmentError::SourceCheckoutError(error.clone()),
            SolvePixiEnvironmentError::SourceMetadata(error) =>
                SolvePixiEnvironmentError::SourceMetadata(error.clone()),
            SolvePixiEnvironmentError::ResolveSourcePackage { name, source, error } =>
                SolvePixiEnvironmentError::ResolveSourcePackage {
                    name: name.clone(),
                    source: source.clone(),
                    error: Box::new((&**error).clone()),
                },
        }
    }
}

/// An error for a missing channel in the solve request
#[derive(Debug)]
pub struct MissingChannelError {
    pub package: String,
    pub channel: String,
    pub advice: Option<String>,
}

impl Clone for MissingChannelError {
    fn clone(&self) -> (r: MissingChannelError)
        ensures
            r == *self,
    {
        MissingChannelError {
            package: self.package.clone(),
            channel: self.channel.clone(),
            advice: match &self.advice {
                Some(advice) => Some(advice.clone()),
                None => None,
            },
        }
    }
}

impl MissingChannelError {
    /// What the error prints.
    pub open spec fn text(self) -> Seq<char> {
        "Package '"@ + self.package@ + "' requested unavailable channel '"@ + self.channel@ + "'"@
    }

    /// What the error prints.
    pub fn message(&self) -> (r: String)
        ensures
            r@ == self.text(),
    {
        let mut printed = "Package '".to_owned();
        printed.append(self.package.as_str());
        printed.append("' requested unavailable channel '");
        printed.append(self.channel.as_str());
        printed.append("'");
        printed
    }
}

impl SourceRecordError {
    /// What the error prints.
    pub open spec fn text(self) -> Seq<char> {
        match self {
            SourceRecordError::BuildBackendMetadata(error) => error.text(),
            SourceRecordError::RunExportsExtraction(environment, _) =>
                "failed to amend run exports for "@ + environment@ + " environment"@,
            SourceRecordError::SolveBuildEnvironment { package, .. } =>
                "failed to solve the build environment for package '"@ + package.source@ + "'"@,
            SourceRecordError::SolveHostEnvironment { package, .. } =>
                "failed to solve the host environment for package '"@ + package.source@ + "'"@,
            SourceRecordError::SpecConversionError(error) => error.message@,
            SourceRecordError::InvalidPackageName(error) => error.message@,
            SourceRecordError::PinCompatibleError(error) => error.message@,
            SourceRecordError::UnresolvedPinSubpackage(name) =>
                "the build backend returned an unresolved `pin-subpackage` spec for '"@
                    + name.normalized@ + "'"@,
            SourceRecordError::DuplicateSourceDependency { package, source1, source2 } =>
                "found two source dependencies for "@ + package.source@
                    + " but for different sources ("@ + source1@ + " and "@ + source2@ + ")"@,
            SourceRecordError::Cycle(_) =>
                "the dependencies of some packages in the environment form a cycle"@,
            SourceRecordError::PackageNotProvided(error) => error.message@,
            SourceRecordError::NoMatchingVariant { package, manifest_path, available } =>
                "no output with matching variants found for package '"@ + package@ + "' at '"@
                    + manifest_path@ + "', available outputs: "@ + available@,
            SourceRecordError::SourceCheckout(error) => error.message@,
        }
    }

    /// What the error prints.
    pub fn message(&self) -> (r: String)
        ensures
            r@ == self.text(),
    {
        match self {
            SourceRecordError::BuildBackendMetadata(error) => error.message(),
            SourceRecordError::RunExportsExtraction(environment, _) => {
                let mut printed = "failed to amend run exports for ".to_owned();
                printed.append(environment.as_str());
                printed.append(" environment");
                printed
            },
            SourceRecordError::SolveBuildEnvironment { package, .. } => {
                let mut printed = "failed to solve the build environment for package '".to_owned();
                printed.append(package.source.as_str());
                printed.append("'");
                printed
            },
            SourceRecordError::SolveHostEnvironment { package, .. } => {
                let mut printed = "failed to solve the host environment for package '".to_owned();
                printed.append(package.source.as_str());
                printed.append("'");
                printed
            },
            SourceRecordError::SpecConversionError(error) => error.message.clone(),
            SourceRecordError::InvalidPackageName(error) => error.message.clone(),
            SourceRecordError::PinCompatibleError(error) => error.message.clone(),
            SourceRecordError::UnresolvedPinSubpackage(name) => {
                let mut printed =
                    "the build backend returned an unresolved `pin-subpackage` spec for '".to_owned();
                printed.append(name.normalized.as_str());
                printed.append("'");
                printed
            },
            SourceRecordError::DuplicateSourceDependency { package, source1, source2 } => {
                let mut printed = "found two source dependencies for ".to_owned();
                printed.append(package.source.as_str());
                printed.append(" but for different sources (");
                printed.append(source1.as_str());
                printed.append(" and ");
                printed.append(source2.as_str());
                printed.append(")");
                printed
            },
            SourceRecordError::Cycle(_) =>
                "the dependencies of some packages in the environment form a cycle".to_owned(),
            SourceRecordError::PackageNotProvided(error) => error.message.clone(),
            SourceRecordError::NoMatchingVariant { package, manifest_path, available } => {
                let mut printed = "no output with matching variants found for package '".to_owned();
                printed.append(package.as_str());
                printed.append("' at '");
                printed.append(manifest_path.as_str());
                printed.append("', available outputs: ");
                printed.append(available.as_str());
                printed
            },
            SourceRecordError::SourceCheckout(error) => error.message.clone(),
        }
    }
}

impl SourceMetadataError {
    /// What the error prints.
    pub open spec fn text(self) -> Seq<char> {
        match self {
            SourceMetadataError::BuildBackendMetadata(error) => error.text(),
            SourceMetadataError::SourceRecord(error) => error.text(),
            SourceMetadataError::PackageNotProvided(error) => error.message@,
            SourceMetadataError::SourceCheckout(error) => error.message@,
        }
    }

    /// What the error prints.
    pub fn message(&self) -> (r: String)
        ensures
            r@ == self.text(),
    {
        match self {
            SourceMetadataError::BuildBackendMetadata(error) => error.message(),
            SourceMetadataError::SourceRecord(error) => error.message(),
            SourceMetadataError::PackageNotProvided(error) => error.message.clone(),
            SourceMetadataError::SourceCheckout(error) => error.message.clone(),
        }
    }
}

impl SolvePixiEnvironmentError {
    /// What the error prints.
    pub open spec fn text(self) -> Seq<char> {
        match self {
            SolvePixiEnvironmentError::QueryError(error) => error.message@,
            SolvePixiEnvironmentError::SolveError(_) => "failed to solve the environment"@,
            SolvePixiEnvironmentError::CacheIndexError(_) => "failed to read the package cache"@,
            SolvePixiEnvironmentError::SpecConversionError(error) => error.message@,
            SolvePixiEnvironmentError::Cycle(cycle) =>
                "detected a cyclic dependency:\n\n"@ + cycle.message@,
            SolvePixiEnvironmentError::ParseChannelError(error) => error.message@,
            SolvePixiEnvironmentError::MissingChannel(error) => error.text(),
            SolvePixiEnvironmentError::DevSourceMetadataError(error) => error.message@,
            SolvePixiEnvironmentError::SourceCheckoutError(error) => error.message@,
            SolvePixiEnvironmentError::SourceMetadata(error) => error.text(),
            SolvePixiEnvironmentError::ResolveSourcePackage { name, source, .. } =>
                "failed to resolve source package '"@ + name.source@ + "' (at '"@ + source@ + "')"@,
        }
    }

    /// What the error prints.
    pub fn message(&self) -> (r: String)
        ensures
            r@ == self.text(),
    {
        match self {
            SolvePixiEnvironmentError::QueryError(error) => error.message.clone(),
            SolvePixiEnvironmentError::SolveError(_) =>
                "failed to solve the environment".to_owned(),
            SolvePixiEnvironmentError::CacheIndexError(_) =>
                "failed to read the package cache".to_owned(),
            SolvePixiEnvironmentError::SpecConversionError(error) => error.message.clone(),
            SolvePixiEnvironmentError::Cycle(cycle) => {
                let mut printed = "detected a cyclic dependency:\n\n".to_owned();
                printed.append(cycle.message.as_str());
                printed
            },
            SolvePixiEnvironmentError::ParseChannelError(error) => error.message.clone(),
            SolvePixiEnvironmentError::MissingChannel(error) => error.message(),
            SolvePixiEnvironmentError::DevSourceMetadataError(error) => error.message.clone(),
            SolvePixiEnvironmentError::SourceCheckoutError(error) => error.message.clone(),
            SolvePixiEnvironmentError::SourceMetadata(error) => error.message(),
            SolvePixiEnvironmentError::ResolveSourcePackage { name, source, .. } => {
                let mut printed = "failed to resolve source package '".to_owned();
                printed.append(name.source.as_str());
                printed.append("' (at '");
                printed.append(source.as_str());
                printed.append("')");
                printed
            },
        }
    }
}

impl SolvePixiEnvironmentError {
    /// The discovery failure at the end of the chain of errors.
    pub open spec fn discovery(self) -> Option<DiscoveryError>
        decreases self,
    {
        match self {
            SolvePixiEnvironmentError::SourceMetadata(error) => error.discovery(),
            SolvePixiEnvironmentError::DevSourceMetadataError(error) => error.discovery,
            SolvePixiEnvironmentError::ResolveSourcePackage { error, .. } => error.discovery(),
            _ => None,
        }
    }

    /// Returns the backend discovery failure this solve error ultimately
    /// stems from, if any. Walks the typed error chain, with the solve errors
    /// of nested build and host environments.
    pub fn discovery_error(&self) -> (r: Option<&DiscoveryError>)
        ensures
            found(r) == self.discovery(),
        decreases self,
    {
        match self {
            SolvePixiEnvironmentError::SourceMetadata(error) => error.discovery_error(),
            SolvePixiEnvironmentError::DevSourceMetadataError(error) => error.discovery_error(),
            SolvePixiEnvironmentError::ResolveSourcePackage { error, .. } =>
                error.discovery_error(),
            _ => None,
        }
    }
}

impl SourceMetadataError {
    /// The discovery failure at the end of the chain of errors.
    pub open spec fn discovery(self) -> Option<DiscoveryError>
        decreases self,
    {
        match self {
            SourceMetadataError::BuildBackendMetadata(error) => error.discovery(),
            SourceMetadataError::SourceRecord(error) => error.discovery(),
            _ => None,
        }
    }

    /// Returns the backend discovery failure this error ultimately stems
    /// from, if any.
    pub fn discovery_error(&self) -> (r: Option<&DiscoveryError>)
        ensures
            found(r) == self.discovery(),
        decreases self,
    {
        match self {
            SourceMetadataError::BuildBackendMetadata(error) => error.discovery_error(),
            SourceMetadataError::SourceRecord(error) => error.discovery_error(),
            _ => None,
        }
    }
}

impl SourceRecordError {
    /// The discovery failure at the end of the chain of errors.
    pub open spec fn discovery(self) -> Option<DiscoveryError>
        decreases self,
    {
        match self {
            SourceRecordError::BuildBackendMetadata(error) => error.discovery(),
            SourceRecordError::SolveBuildEnvironment { error, .. } => error.discovery(),
            SourceRecordError::SolveHostEnvironment { error, .. } => error.discovery(),
            _ => None,
        }
    }

    /// Returns the backend discovery failure this error ultimately stems
    /// from, if any.
    pub fn discovery_error(&self) -> (r: Option<&DiscoveryError>)
        ensures
            found(r) == self.discovery(),
        decreases self,
    {
        match self {
            SourceRecordError::BuildBackendMetadata(error) => error.discovery_error(),
            SourceRecordError::SolveBuildEnvironment { error, .. } => error.discovery_error(),
            SourceRecordError::SolveHostEnvironment { error, .. } => error.discovery_error(),
            _ => None,
        }
    }
}

/// One environment around the error of another: the environment that
/// `package`, a source package of it, was built in could not be solved.
pub struct Layer {
    pub package: PackageName,
    /// Whether it was the host environment of the package, and not its build
    /// environment.
    pub host: bool,
    /// Where the package is, if the error names it.
    pub source: Option<String>,
}

/// The error of the environment that `layer` speaks of, where `error` is that
/// of the environment in it.
pub open spec fn layered(
    error: SolvePixiEnvironmentError,
    layer: Layer,
) -> SolvePixiEnvironmentError {
    let package = layer.package;
    let record = if layer.host {
        SourceRecordError::SolveHostEnvironment { package, error: Box::new(error) }
    } else {
        SourceRecordError::SolveBuildEnvironment { package, error: Box::new(error) }
    };
    match layer.source {
        Some(source) => SolvePixiEnvironmentError::ResolveSourcePackage {
            name: package,
            source,
            error: Box::new(record),
        },
        None => SolvePixiEnvironmentError::SourceMetadata(
            SourceMetadataError::SourceRecord(record),
        ),
    }
}

/// `error` inside `layers`, the innermost first.
pub open spec fn nested(
    error: SolvePixiEnvironmentError,
    layers: Seq<Layer>,
) -> SolvePixiEnvironmentError
    decreases layers.len(),
{
    if layers.len() == 0 {
        error
    } else {
        layered(nested(error, layers.drop_last()), layers.last())
    }
}

/// A discovery failure is found behind build and host environments that are
/// nested to any depth, and none is found where there was none.
pub proof fn nesting_keeps_the_discovery_error(
    error: SolvePixiEnvironmentError,
    layers: Seq<Layer>,
)
    ensures
        nested(error, layers).discovery() == error.discovery(),
    decreases layers.len(),
{
    if layers.len() > 0 {
        nesting_keeps_the_discovery_error(error, layers.drop_last());
        let inner = nested(error, layers.drop_last());
        let package = layers.last().package;
        let record = if layers.last().host {
            SourceRecordError::SolveHostEnvironment { package, error: Box::new(inner) }
        } else {
            SourceRecordError::SolveBuildEnvironment { package, error: Box::new(inner) }
        };
        assert(record.discovery() == inner.discovery());
        let metadata = SourceMetadataError::SourceRecord(record);
        assert(metadata.discovery() == record.discovery());
    }
}

} // verus!
