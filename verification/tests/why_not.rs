use pixi_logic::lock_file::{
    locked_version, LockFile, LockedEnvironment, LockedPackage, LockedPlatform,
};
use pixi_logic::match_spec::{NewerThan, Spec};
use pixi_logic::package::PackageName;
use pixi_logic::version::Version;
use pixi_logic::why_not::{
    execute, know_bound, know_spec, resume, Action, Args, Environment, Event, Step,
};

fn args(spec: &str) -> Args<String> {
    Args {
        spec: spec.to_string(),
        platform: None,
        environment: None,
    }
}

fn environment() -> Environment<String> {
    Environment {
        name: "default".to_string(),
        shown: "<default>".to_string(),
    }
}

fn conda(name: &str, version: Option<&str>) -> LockedPackage {
    LockedPackage::Conda {
        name: PackageName::new_unchecked(name),
        version: version.map(|version| Version::parse(version).unwrap()),
    }
}

fn lock_file() -> LockFile {
    LockFile {
        environments: vec![
            LockedEnvironment {
                name: "test".to_string(),
                platforms: vec![],
            },
            LockedEnvironment {
                name: "default".to_string(),
                platforms: vec![
                    LockedPlatform {
                        name: "osx-arm64".to_string(),
                        packages: vec![conda("python", Some("3.10.1"))],
                    },
                    LockedPlatform {
                        name: "linux-64".to_string(),
                        packages: vec![
                            LockedPackage::Other,
                            conda("zlib", None),
                            conda("python", Some("3.12.2")),
                            conda("python", Some("3.9")),
                        ],
                    },
                ],
            },
        ],
    }
}

fn at_platform(spec: &str) -> Step {
    let step = execute(args(spec));
    assert!(matches!(
        step.action,
        Action::FindEnvironment { name: None }
    ));
    let step = resume(
        step.state,
        Event::Environment {
            environment: environment(),
        },
    );
    assert!(matches!(step.action, Action::BestPlatform));
    step
}

fn with_platform(spec: &str) -> Step {
    resume(
        at_platform(spec).state,
        Event::Platform {
            name: "linux-64".to_string(),
        },
    )
}

fn with_lock_file(spec: &str) -> Step {
    let step = with_platform(spec);
    assert!(matches!(step.action, Action::LoadLockFile));
    resume(
        step.state,
        Event::LockFile {
            lock_file: lock_file(),
            platform: Some("linux-64".to_string()),
        },
    )
}

fn failure(step: &Step) -> (String, Option<String>, Option<String>) {
    match &step.action {
        Action::Finish(Err(failure)) => (
            failure.message.clone(),
            failure.cause.clone(),
            failure.help.clone(),
        ),
        other => panic!("no failure: {other:?}"),
    }
}

#[test]
fn the_locked_version_is_a_lower_bound() {
    let step = with_lock_file("python");
    match &step.action {
        Action::Probe { name, spec, bound } => {
            assert_eq!(name.as_source(), "python");
            assert_eq!(spec, "python");
            assert_eq!(*bound, Some(NewerThan {
                version: "3.12.2".to_string()
            }));
        }
        other => panic!("no probe: {other:?}"),
    }
    let step = resume(
        step.state,
        Event::Unsolvable {
            explanation: "because".to_string(),
        },
    );
    assert_eq!(
        step.lines,
        ["Cannot solve <default> for linux-64 with python >3.12.2:", "because"]
    );
    assert!(matches!(step.action, Action::Finish(Ok(()))));
}

#[test]
fn a_given_version_is_probed_as_it_is() {
    let step = with_platform("python>=3.13");
    assert!(matches!(
        &step.action,
        Action::Probe { bound: None, spec, .. } if spec == "python>=3.13"
    ));
    let step = resume(step.state, Event::Solvable);
    assert_eq!(
        step.lines,
        ["Nothing prevents python >=3.13 in <default> (linux-64); the lock is just stale. Run: pixi update python"]
    );
    assert!(matches!(step.action, Action::Finish(Ok(()))));
}

#[test]
fn a_spec_must_name_one_package() {
    let unnamed = Spec {
        name: None,
        has_version: true,
        printed: "py*".to_string(),
    };
    let platform = "linux-64".to_string();
    let step = know_spec(args("py*"), environment(), platform, Ok(unnamed));
    assert_eq!(
        failure(&step).0,
        "`pixi why-not` needs a match spec that names one package"
    );
    assert!(step.lines.is_empty());
    assert!(failure(&with_platform("py*")).0.contains("py*"));
}

#[test]
fn a_spec_must_be_readable() {
    let (message, cause, help) = failure(&with_platform("python >=>=1"));
    assert!(!message.is_empty());
    assert!(cause.is_none());
    assert!(help.is_none());
}

#[test]
fn a_channel_in_a_spec_is_read_too() {
    let step = with_platform("conda-forge::python>=3.13");
    assert!(matches!(
        &step.action,
        Action::Probe { name, .. } if name.as_normalized() == "python"
    ));
}

#[test]
fn specs_with_brackets_and_urls_are_read() {
    for (spec, printed) in [
        ("python[version='>=3.13']", "python >=3.13"),
        ("conda-forge::python>=3.13", "conda-forge::python >=3.13"),
        (
            "https://conda.anaconda.org/conda-forge::python>=3.13",
            "conda-forge::python >=3.13",
        ),
    ] {
        let step = resume(with_platform(spec).state, Event::Solvable);
        assert!(step.lines[0].starts_with(&format!("Nothing prevents {printed} in ")));
    }
    match with_lock_file("./channel::python").action {
        Action::Probe { name, spec, bound } => {
            assert_eq!(name.as_source(), "python");
            assert_eq!(spec, "./channel::python");
            assert!(bound.is_some());
        }
        other => panic!("no probe: {other:?}"),
    }
}

#[test]
fn names_are_compared_in_their_normalized_form() {
    match with_lock_file("Python").action {
        Action::Probe { name, bound, .. } => {
            assert_eq!(name.as_source(), "Python");
            assert_eq!(name.as_normalized(), "python");
            assert_eq!(bound, Some(NewerThan {
                version: "3.12.2".to_string()
            }));
        }
        other => panic!("no probe: {other:?}"),
    }
}

#[test]
fn a_package_must_be_locked() {
    let (message, _, help) = failure(&with_lock_file("numpy"));
    assert_eq!(
        message,
        "'numpy' is not locked for environment 'default' on 'linux-64', so there is no version to compare against"
    );
    assert_eq!(help.as_deref(), Some("try `pixi why-not 'numpy>=<version>'`"));
}

#[test]
fn locked_versions_are_found() {
    let lock_file = lock_file();
    let version = |environment: &str, platform: Option<&str>, name: &str| {
        locked_version(
            &lock_file,
            environment,
            &platform.map(str::to_string),
            &PackageName::new_unchecked(name),
        )
        .map(|version| version.to_text())
    };
    let found = |version: &str| Some(version.to_string());
    assert_eq!(version("default", Some("linux-64"), "python"), found("3.12.2"));
    assert_eq!(version("default", Some("osx-arm64"), "python"), found("3.10.1"));
    assert_eq!(version("default", Some("win-64"), "python"), None);
    assert_eq!(version("default", None, "python"), None);
    assert_eq!(version("default", Some("linux-64"), "zlib"), None);
    assert_eq!(version("default", Some("linux-64"), "numpy"), None);
    assert_eq!(version("test", Some("linux-64"), "python"), None);
    assert_eq!(version("other", Some("linux-64"), "python"), None);
}

#[test]
fn failures_of_the_work_end_a_query() {
    let started = || execute(args("python"));
    let error = || "broken".to_string();
    assert_eq!(
        failure(&resume(started().state, Event::NoEnvironment { error: error() })),
        (
            "Environment not found".to_string(),
            Some("broken".to_string()),
            None
        )
    );
    assert_eq!(
        failure(&resume(at_platform("python").state, Event::NoPlatform)).0,
        "no platform supported by environment 'default' matches the current system"
    );
    let platform = Event::NotResolved { error: error() };
    assert_eq!(
        failure(&resume(at_platform("python").state, platform)).0,
        "broken"
    );
    let lock_file = Event::NoLockFile { error: error() };
    assert_eq!(
        failure(&resume(with_platform("python").state, lock_file)).0,
        "broken"
    );
    let probe = Event::NotProbed { error: error() };
    assert_eq!(
        failure(&resume(with_lock_file("python").state, probe)).0,
        "broken"
    );
}

#[test]
fn arguments_choose_the_environment_and_platform() {
    let step = execute(Args {
        spec: "python".to_string(),
        platform: Some("win-64".to_string()),
        environment: Some("test".to_string()),
    });
    assert!(matches!(
        &step.action,
        Action::FindEnvironment { name: Some(name) } if name == "test"
    ));
    let step = resume(
        step.state,
        Event::Environment {
            environment: environment(),
        },
    );
    assert!(matches!(
        &step.action,
        Action::ResolvePlatform { name } if name == "win-64"
    ));
}

#[test]
fn a_reading_decides_what_is_probed() {
    let reading = |has_version: bool| {
        Ok(Spec {
            name: Some(PackageName::new_unchecked("python")),
            has_version,
            printed: "python".to_string(),
        })
    };
    let known = |has_version: bool| {
        know_spec(
            args("python"),
            environment(),
            "linux-64".to_string(),
            reading(has_version),
        )
    };
    assert!(matches!(known(true).action, Action::Probe { bound: None, .. }));
    assert!(matches!(known(false).action, Action::LoadLockFile));
    let bound = |reading: Result<Spec, String>| {
        know_bound(
            args("python"),
            environment(),
            "linux-64".to_string(),
            PackageName::new_unchecked("python"),
            NewerThan {
                version: "1.2".to_string(),
            },
            reading,
        )
    };
    assert!(matches!(
        bound(reading(true)).action,
        Action::Probe { bound: Some(NewerThan { version }), .. } if version == "1.2"
    ));
    assert_eq!(failure(&bound(Err("unreadable".to_string()))).0, "unreadable");
}
