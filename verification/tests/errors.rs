use pixi_logic::errors::{
    BackendSourceBuildError, BuildBackendMetadataError, ConvertSubdirError, Cycle,
    DependenciesError, DevSourceMetadataError, DiscoveryError, ExtractError, GatewayError,
    GlobSetError, InstallPixiEnvironmentError, InstantiateBackendError, InvalidPackageNameError,
    IoError, MissingChannelError, PackageNotProvidedError, ParseChannelError, PinCompatibleError,
    RunExportExtractorError, SolveCondaEnvironmentError, SolveError, SolvePixiEnvironmentError,
    SourceBuildError, SourceCheckoutError, SourceMetadataError, SourceRecordError,
    SpecConversionError,
};
use pixi_logic::failures::{plural_packages, SourceBuildFailure, SourceBuildFailures};
use pixi_logic::package::{format_variants, PackageName, VariantValue, Variants};

fn discovery_failure() -> DiscoveryError {
    DiscoveryError::FailedToDiscover {
        path: "/some/source".to_string(),
        help: "help".to_string(),
        message: "failed to discover".to_string(),
    }
}

fn metadata_error() -> BuildBackendMetadataError {
    BuildBackendMetadataError::Discovery {
        error: discovery_failure(),
        message: "failed to discover".to_string(),
    }
}

fn failure(package: &str, error: SourceBuildError) -> SourceBuildFailure {
    SourceBuildFailure {
        package: PackageName::new_unchecked(package),
        manifest_source: "some/path".to_string(),
        error,
        help: None,
    }
}

fn dependency_failed(package: &str, dependency: &str) -> SourceBuildError {
    SourceBuildError::DependencyFailed {
        package: PackageName::new_unchecked(package),
        dependencies: vec![PackageName::new_unchecked(dependency)],
    }
}

#[test]
fn failures_summarise_failed_and_skipped_separately() {
    let failures = SourceBuildFailures::from_vec(vec![
        failure("a", SourceBuildError::MissingOutputFile("out".into())),
        failure("b", dependency_failed("b", "a")),
        failure("c", dependency_failed("c", "a")),
    ])
    .expect("non-empty");

    assert_eq!(
        failures.message(),
        "1 source package failed to build, 2 skipped"
    );
    assert_eq!(failures.related().unwrap().len(), 1);
    assert_eq!(
        failures.help().unwrap(),
        "skipped b: depends on failed `a`\nskipped c: depends on failed `a`"
    );
}

#[test]
fn no_failures_yields_nothing_to_report() {
    assert!(SourceBuildFailures::from_vec(Vec::new()).is_none());
}

#[test]
fn discovery_error_is_found_behind_build_backend_metadata() {
    let err = SolvePixiEnvironmentError::SourceMetadata(SourceMetadataError::BuildBackendMetadata(
        metadata_error(),
    ));
    assert!(matches!(
        err.discovery_error(),
        Some(DiscoveryError::FailedToDiscover { .. })
    ));
}

#[test]
fn discovery_error_is_found_behind_source_record() {
    let err = SolvePixiEnvironmentError::SourceMetadata(SourceMetadataError::SourceRecord(
        SourceRecordError::BuildBackendMetadata(metadata_error()),
    ));
    assert!(err.discovery_error().is_some());
}

#[test]
fn discovery_error_is_found_behind_nested_build_environment_solve() {
    let inner = SolvePixiEnvironmentError::SourceMetadata(
        SourceMetadataError::BuildBackendMetadata(metadata_error()),
    );
    let err = SolvePixiEnvironmentError::SourceMetadata(SourceMetadataError::SourceRecord(
        SourceRecordError::SolveBuildEnvironment {
            package: PackageName::new_unchecked("some-package"),
            error: Box::new(inner),
        },
    ));
    assert!(err.discovery_error().is_some());
}

#[test]
fn missing_output_error_prints_the_variants() {
    let mut variants = Variants::new();
    variants.insert(
        "python".to_string(),
        VariantValue {
            text: "3.12".to_string(),
        },
    );
    let err = SourceBuildError::MissingOutput {
        name: "wusel".to_string(),
        variants,
    };

    assert_eq!(
        err.message(),
        "The build backend does not provide an output matching 'wusel' with variants: python=3.12."
    );
}

#[test]
fn discovery_error_is_found_behind_backend_initialization() {
    let err = SolvePixiEnvironmentError::SourceMetadata(SourceMetadataError::BuildBackendMetadata(
        BuildBackendMetadataError::Initialize {
            error: InstantiateBackendError::Discovery {
                error: discovery_failure(),
                message: "failed to discover".to_string(),
            },
            message: "failed to initialize".to_string(),
        },
    ));
    assert!(err.discovery_error().is_some());
}

#[test]
fn unrelated_solve_error_has_no_discovery_error() {
    let err = SolvePixiEnvironmentError::Cycle(Cycle {
        message: String::new(),
    });
    assert!(err.discovery_error().is_none());
}

#[test]
fn discovery_error_is_found_behind_a_resolved_host_environment() {
    let mut err = SolvePixiEnvironmentError::DevSourceMetadataError(DevSourceMetadataError {
        message: "dev".to_string(),
        discovery: Some(discovery_failure()),
    });
    for package in ["a", "b", "c"] {
        err = SolvePixiEnvironmentError::ResolveSourcePackage {
            name: PackageName::new_unchecked(package),
            source: "path".to_string(),
            error: Box::new(SourceRecordError::SolveHostEnvironment {
                package: PackageName::new_unchecked(package),
                error: Box::new(err),
            }),
        };
    }
    assert!(matches!(
        err.clone().discovery_error(),
        Some(DiscoveryError::FailedToDiscover { path, .. }) if path == "/some/source"
    ));
    assert_eq!(
        err.message(),
        "failed to resolve source package 'c' (at 'path')"
    );
}

#[test]
fn a_cycle_stays_a_cycle() {
    let cycle = Cycle {
        message: "a -> b -> a".to_string(),
    };
    let metadata = SourceMetadataError::from(SourceRecordError::Cycle(cycle));
    assert_eq!(
        metadata.message(),
        "the dependencies of some packages in the environment form a cycle"
    );
    let err = SolvePixiEnvironmentError::from(metadata);
    assert!(matches!(err, SolvePixiEnvironmentError::Cycle(_)));
    assert_eq!(
        err.message(),
        "detected a cyclic dependency:\n\na -> b -> a"
    );
    let other = SolvePixiEnvironmentError::from(SourceMetadataError::from(metadata_error()));
    assert!(matches!(other, SolvePixiEnvironmentError::SourceMetadata(_)));
    assert!(other.discovery_error().is_some());
}

#[test]
fn conversions_keep_the_error() {
    let text = |text: &str| text.to_string();
    let invalid = || InvalidPackageNameError {
        message: "bad name".to_string(),
    };
    assert!(matches!(
        SourceBuildError::from(DependenciesError::InvalidPackageName(invalid())),
        SourceBuildError::InvalidPackageName(error) if error.message == "bad name"
    ));
    assert!(matches!(
        SourceRecordError::from(DependenciesError::UnresolvedPinSubpackage(
            PackageName::new_unchecked("x")
        )),
        SourceRecordError::UnresolvedPinSubpackage(name) if name.as_source() == "x"
    ));
    assert_eq!(SourceRecordError::from(invalid()).message(), "bad name");
    assert_eq!(
        SourceBuildError::from(invalid()).message(),
        "backend returned a dependency on an invalid package name"
    );
    let pin = PinCompatibleError {
        message: text("pin"),
    };
    assert_eq!(SourceBuildError::from(pin.clone()).message(), "pin");
    assert_eq!(
        SourceBuildError::from(DependenciesError::PinCompatibleError(pin.clone())).message(),
        "pin"
    );
    assert_eq!(SourceRecordError::from(pin).message(), "pin");
    assert_eq!(
        SourceBuildError::from(discovery_failure()).message(),
        "failed to discover"
    );
    let globs = GlobSetError {
        message: text("globs"),
    };
    assert_eq!(SourceBuildError::from(globs).message(), "globs");
    let backend = BackendSourceBuildError {
        message: text("backend"),
    };
    assert_eq!(SourceBuildError::from(backend).message(), "backend");
    let checkout = SourceCheckoutError {
        message: text("checkout"),
    };
    assert_eq!(SourceBuildError::from(checkout.clone()).message(), "checkout");
    assert_eq!(SourceRecordError::from(checkout.clone()).message(), "checkout");
    assert_eq!(SourceMetadataError::from(checkout).message(), "checkout");
    let provided = PackageNotProvidedError {
        message: text("not provided"),
    };
    assert_eq!(SourceRecordError::from(provided.clone()).message(), "not provided");
    assert_eq!(SourceMetadataError::from(provided).message(), "not provided");
    assert_eq!(
        SourceRecordError::from(metadata_error()).message(),
        "failed to discover"
    );
    let spec = SpecConversionError {
        message: text("spec"),
    };
    assert_eq!(SourceRecordError::from(spec.clone()).message(), "spec");
    assert_eq!(SolvePixiEnvironmentError::from(spec.clone()).message(), "spec");
    let gateway = GatewayError {
        message: text("gateway"),
    };
    assert_eq!(SolvePixiEnvironmentError::from(gateway.clone()).message(), "gateway");
    let solve = SolveError {
        message: text("no solution"),
    };
    assert_eq!(
        SolvePixiEnvironmentError::from(solve.clone()).message(),
        "failed to solve the environment"
    );
    let channel = ParseChannelError {
        message: text("channel"),
    };
    assert_eq!(SolvePixiEnvironmentError::from(channel).message(), "channel");
    assert!(matches!(
        SolvePixiEnvironmentError::from(SolveCondaEnvironmentError::SolveError(solve)),
        SolvePixiEnvironmentError::SolveError(error) if error.message == "no solution"
    ));
    assert!(matches!(
        SolvePixiEnvironmentError::from(SolveCondaEnvironmentError::SpecConversionError(spec)),
        SolvePixiEnvironmentError::SpecConversionError(error) if error.message == "spec"
    ));
    assert!(matches!(
        SolvePixiEnvironmentError::from(SolveCondaEnvironmentError::Gateway(gateway)),
        SolvePixiEnvironmentError::QueryError(error) if error.message == "gateway"
    ));
    let dev = DevSourceMetadataError {
        message: text("dev"),
        discovery: None,
    };
    let err = SolvePixiEnvironmentError::from(dev);
    assert_eq!(err.message(), "dev");
    assert!(err.discovery_error().is_none());
}

#[test]
fn build_errors_print_their_texts() {
    let io = || IoError {
        message: "no space left".to_string(),
    };
    let name = || PackageName {
        source: "Foo".to_string(),
        normalized: "foo".to_string(),
    };
    let install = || InstallPixiEnvironmentError {
        message: "install".to_string(),
    };
    let exports = || RunExportExtractorError {
        message: "exports".to_string(),
    };
    let printed = [
        (
            SourceBuildError::CreateWorkDirectory(io()),
            "no space left",
        ),
        (
            SourceBuildError::Initialize(InstantiateBackendError::Other {
                message: String::new(),
            }),
            "could not initialize the build-backend",
        ),
        (
            SourceBuildError::CreateBuildEnvironmentDirectory(io()),
            "failed to create the build environment directory",
        ),
        (
            SourceBuildError::InstallBuildEnvironment(install()),
            "failed to install the build environment",
        ),
        (
            SourceBuildError::InstallHostEnvironment(install()),
            "failed to install the host environment",
        ),
        (
            SourceBuildError::MissingOutputFile("out.conda".to_string()),
            "The build backend returned a path for the build package (out.conda), but the path does not exist.",
        ),
        (
            SourceBuildError::UnresolvedPinSubpackage(name()),
            "the build backend returned an unresolved `pin-subpackage` spec for 'foo'",
        ),
        (
            SourceBuildError::RunExportsExtraction("host".to_string(), exports()),
            "failed to amend run exports for host environment",
        ),
        (
            SourceBuildError::ReadIndexJson(ExtractError {
                message: String::new(),
            }),
            "failed to read metadata from the output package",
        ),
        (
            SourceBuildError::CalculateSha256("out.conda".to_string(), io()),
            "failed to calculate sha256 hash of out.conda",
        ),
        (
            SourceBuildError::ConvertSubdir(ConvertSubdirError {
                message: String::new(),
            }),
            "the package does not contain a valid subdir",
        ),
        (
            SourceBuildError::DependencyFailed {
                package: name(),
                dependencies: vec![name(), PackageName::new_unchecked("bar")],
            },
            "not built: `Foo`, `bar` failed to build",
        ),
    ];
    for (error, text) in printed {
        assert_eq!(error.message(), text);
    }
}

#[test]
fn solve_errors_print_their_texts() {
    let name = || PackageName::new_unchecked("foo");
    let solve = || {
        Box::new(SolvePixiEnvironmentError::CacheIndexError(IoError {
            message: "io".to_string(),
        }))
    };
    assert_eq!(solve().message(), "failed to read the package cache");
    let records = [
        (
            SourceRecordError::SolveBuildEnvironment {
                package: name(),
                error: solve(),
            },
            "failed to solve the build environment for package 'foo'",
        ),
        (
            SourceRecordError::SolveHostEnvironment {
                package: name(),
                error: solve(),
            },
            "failed to solve the host environment for package 'foo'",
        ),
        (
            SourceRecordError::DuplicateSourceDependency {
                package: name(),
                source1: "here".to_string(),
                source2: "there".to_string(),
            },
            "found two source dependencies for foo but for different sources (here and there)",
        ),
        (
            SourceRecordError::NoMatchingVariant {
                package: "foo".to_string(),
                manifest_path: "pixi.toml".to_string(),
                available: "bar".to_string(),
            },
            "no output with matching variants found for package 'foo' at 'pixi.toml', available outputs: bar",
        ),
        (
            SourceRecordError::RunExportsExtraction(
                "build".to_string(),
                RunExportExtractorError {
                    message: String::new(),
                },
            ),
            "failed to amend run exports for build environment",
        ),
    ];
    for (error, text) in records {
        assert_eq!(error.message(), text);
    }
    let channel = MissingChannelError {
        package: "foo".to_string(),
        channel: "https://example.com/".to_string(),
        advice: None,
    };
    assert_eq!(
        SolvePixiEnvironmentError::MissingChannel(channel).message(),
        "Package 'foo' requested unavailable channel 'https://example.com/'"
    );
}

#[test]
fn variants_are_listed_by_key() {
    let value = |text: &str| VariantValue {
        text: text.to_string(),
    };
    let mut variants = Variants::new();
    assert_eq!(format_variants(&variants), "none");
    variants.insert("python".to_string(), value("3.12"));
    variants.insert("cuda".to_string(), value("12"));
    variants.insert("zlib".to_string(), value("1"));
    variants.insert("cuda".to_string(), value("11"));
    assert_eq!(format_variants(&variants), "cuda=11, python=3.12, zlib=1");
    assert_eq!(
        format_variants(&variants.clone()),
        "cuda=11, python=3.12, zlib=1"
    );
}

#[test]
fn summaries_count_packages() {
    assert_eq!(plural_packages(0), "packages");
    assert_eq!(plural_packages(1), "package");
    assert_eq!(plural_packages(2), "packages");

    let own = |package: &str| failure(package, SourceBuildError::MissingOutputFile("out".into()));
    let one = SourceBuildFailures::new(own("a"), Vec::new());
    assert_eq!(one.message(), "1 source package failed to build");
    assert!(one.help().is_none());
    let two = SourceBuildFailures::new(own("a"), vec![own("b")]);
    assert_eq!(two.message(), "2 source packages failed to build");
    assert_eq!(two.related().unwrap().len(), 2);

    let skipped = SourceBuildFailures::new(failure("b", dependency_failed("b", "a")), Vec::new());
    assert_eq!(
        skipped.message(),
        "1 source package skipped because their dependencies failed to build"
    );
    assert_eq!(skipped.failed().len() + skipped.skipped().len(), skipped.all().len());
    assert_eq!(skipped.related().unwrap().len(), 0);
}

#[test]
fn a_failure_names_its_package_and_source() {
    let failure = failure("a", dependency_failed("a", "b"));
    assert_eq!(failure.message(), "failed to build 'a' from 'some/path'");
    let dependencies = failure.failed_dependencies().unwrap();
    assert_eq!(dependencies.len(), 1);
    assert!(dependencies[0].same_as(&PackageName::new_unchecked("b")));
    assert!(!dependencies[0].same_as(&failure.package));
}
