//! The packages that a lock file holds.

use vstd::prelude::*;
use vstd::string::*;

use crate::package::PackageName;
use crate::text;
use crate::version::Version;

verus! {

/// A package in a lock file.
#[derive(Debug)]
pub enum LockedPackage {
    /// A conda package, with its version where its record is known.
    Conda { name: PackageName, version: Option<Version> },
    /// A package of another kind.
    Other,
}

/// The packages that are locked for one platform.
#[derive(Debug)]
pub struct LockedPlatform {
    pub name: String,
    pub packages: Vec<LockedPackage>,
}

/// An environment in a lock file.
#[derive(Debug)]
pub struct LockedEnvironment {
    pub name: String,
    pub platforms: Vec<LockedPlatform>,
}

/// What a lock file holds.
#[derive(Debug)]
pub struct LockFile {
    pub environments: Vec<LockedEnvironment>,
}

/// The first of `environments` that has the name `name`.
pub open spec fn environment_named(
    environments: Seq<LockedEnvironment>,
    name: Seq<char>,
) -> Option<LockedEnvironment>
    decreases environments.len(),
{
    if environments.len() == 0 {
        None
    } else if environments[0].name@ == name {
        Some(environments[0])
    } else {
        environment_named(environments.skip(1), name)
    }
}

/// The first of `platforms` that has the name `name`.
pub open spec fn platform_named(
    platforms: Seq<LockedPlatform>,
    name: Seq<char>,
) -> Option<LockedPlatform>
    decreases platforms.len(),
{
    if platforms.len() == 0 {
        None
    } else if platforms[0].name@ == name {
        Some(platforms[0])
    } else {
        platform_named(platforms.skip(1), name)
    }
}

/// The version of the first conda package in `packages` that has the
/// normalized name `name`.
pub open spec fn version_of(packages: Seq<LockedPackage>, name: Seq<char>) -> Option<Seq<char>>
    decreases packages.len(),
{
    if packages.len() == 0 {
        None
    } else {
        match packages[0] {
            LockedPackage::Conda { name: found, version } if found.normalized@ == name =>
                version.deep_view(),
            _ => version_of(packages.skip(1), name),
        }
    }
}

/// The version that is locked for the package with the normalized name `name`
/// in `environment`, on the platform that the lock file calls `platform`.
pub open spec fn version_locked(
    lock_file: LockFile,
    environment: Seq<char>,
    platform: Option<Seq<char>>,
    name: Seq<char>,
) -> Option<Seq<char>> {
    match (environment_named(lock_file.environments@, environment), platform) {
        (Some(found), Some(platform)) => match platform_named(found.platforms@, platform) {
            Some(locked) => version_of(locked.packages@, name),
            None => None,
        },
        _ => None,
    }
}

/// Whether `package` is a conda package with the normalized name `name`.
pub open spec fn is_conda_package(package: LockedPackage, name: Seq<char>) -> bool {
    package is Conda && package->name.normalized@ == name
}

/// Whether the package with the normalized name `name` that is locked in
/// `environment` on `platform` is the one at `k` among those of the platform at
/// `p` of the environment at `e`: each is the first of its kind with its name.
pub open spec fn stands_at(
    lock_file: LockFile,
    environment: Seq<char>,
    platform: Option<Seq<char>>,
    name: Seq<char>,
    e: int,
    p: int,
    k: int,
) -> bool {
    let environments = lock_file.environments@;
    let platforms = environments[e].platforms@;
    let packages = platforms[p].packages@;
    &&& 0 <= e < environments.len()
    &&& environments[e].name@ == environment
    &&& forall|i: int| 0 <= i < e ==> (#[trigger] environments[i]).name@ != environment
    &&& 0 <= p < platforms.len()
    &&& platform == Some(platforms[p].name@)
    &&& forall|i: int| 0 <= i < p ==> platform != Some((#[trigger] platforms[i]).name@)
    &&& 0 <= k < packages.len()
    &&& is_conda_package(packages[k], name)
    &&& forall|i: int| 0 <= i < k ==> !is_conda_package(#[trigger] packages[i], name)
}

/// The version of the record of the package at the given place.
pub open spec fn record_at(lock_file: LockFile, e: int, p: int, k: int) -> Option<Seq<char>> {
    lock_file.environments@[e].platforms@[p].packages@[k]->version.deep_view()
}

proof fn environments_are_found_by_name(
    environments: Seq<LockedEnvironment>,
    name: Seq<char>,
    e: int,
)
    requires
        0 <= e < environments.len(),
        environments[e].name@ == name,
        forall|i: int| 0 <= i < e ==> (#[trigger] environments[i]).name@ != name,
    ensures
        environment_named(environments, name) == Some(environments[e]),
    decreases e,
{
    if e > 0 {
        assert(environments[0].name@ != name);
        environments_are_found_by_name(environments.skip(1), name, e - 1);
    }
}

proof fn named_environments_stand_there(environments: Seq<LockedEnvironment>, name: Seq<char>)
    -> (e: int)
    ensures
        environment_named(environments, name) matches Some(found) ==> {
            &&& 0 <= e < environments.len()
            &&& environments[e] == found
            &&& found.name@ == name
            &&& forall|i: int| 0 <= i < e ==> (#[trigger] environments[i]).name@ != name
        },
    decreases environments.len(),
{
    if environments.len() == 0 || environments[0].name@ == name {
        0
    } else {
        let rest = environments.skip(1);
        let e = named_environments_stand_there(rest, name) + 1;
        if environment_named(rest, name) is Some {
            assert forall|i: int| 0 <= i < e implies (#[trigger] environments[i]).name@ != name by {
                if i > 0 {
                    assert(rest[i - 1] == environments[i]);
                }
            }
        }
        e
    }
}

proof fn platforms_are_found_by_name(platforms: Seq<LockedPlatform>, name: Seq<char>, p: int)
    requires
        0 <= p < platforms.len(),
        platforms[p].name@ == name,
        forall|i: int| 0 <= i < p ==> (#[trigger] platforms[i]).name@ != name,
    ensures
        platform_named(platforms, name) == Some(platforms[p]),
    decreases p,
{
    if p > 0 {
        assert(platforms[0].name@ != name);
        platforms_are_found_by_name(platforms.skip(1), name, p - 1);
    }
}

proof fn named_platforms_stand_there(platforms: Seq<LockedPlatform>, name: Seq<char>) -> (p: int)
    ensures
        platform_named(platforms, name) matches Some(found) ==> {
            &&& 0 <= p < platforms.len()
            &&& platforms[p] == found
            &&& found.name@ == name
            &&& forall|i: int| 0 <= i < p ==> (#[trigger] platforms[i]).name@ != name
        },
    decreases platforms.len(),
{
    if platforms.len() == 0 || platforms[0].name@ == name {
        0
    } else {
        let rest = platforms.skip(1);
        let p = named_platforms_stand_there(rest, name) + 1;
        if platform_named(rest, name) is Some {
            assert forall|i: int| 0 <= i < p implies (#[trigger] platforms[i]).name@ != name by {
                if i > 0 {
                    assert(rest[i - 1] == platforms[i]);
                }
            }
        }
        p
    }
}

proof fn packages_are_found_by_name(packages: Seq<LockedPackage>, name: Seq<char>, k: int)
    requires
        0 <= k < packages.len(),
        is_conda_package(packages[k], name),
        forall|i: int| 0 <= i < k ==> !is_conda_package(#[trigger] packages[i], name),
    ensures
        version_of(packages, name) == packages[k]->version.deep_view(),
    decreases k,
{
    if k > 0 {
        assert(!is_conda_package(packages[0], name));
        packages_are_found_by_name(packages.skip(1), name, k - 1);
    }
}

proof fn versions_come_from_packages(packages: Seq<LockedPackage>, name: Seq<char>) -> (k: int)
    ensures
        version_of(packages, name) matches Some(version) ==> {
            &&& 0 <= k < packages.len()
            &&& is_conda_package(packages[k], name)
            &&& packages[k]->version.deep_view() == Some(version)
            &&& forall|i: int| 0 <= i < k ==> !is_conda_package(#[trigger] packages[i], name)
        },
    decreases packages.len(),
{
    if packages.len() == 0 || is_conda_package(packages[0], name) {
        0
    } else {
        let rest = packages.skip(1);
        let k = versions_come_from_packages(rest, name) + 1;
        if version_of(rest, name) is Some {
            assert forall|i: int| 0 <= i < k implies !is_conda_package(
                #[trigger] packages[i],
                name,
            ) by {
                if i > 0 {
                    assert(rest[i - 1] == packages[i]);
                }
            }
        }
        k
    }
}

/// A version that is locked is the one in the record of the first conda package
/// whose normalized name is the one asked for, among those of that environment
/// and that platform.
pub proof fn a_locked_version_is_that_of_the_package(
    lock_file: LockFile,
    environment: Seq<char>,
    platform: Option<Seq<char>>,
    name: Seq<char>,
    version: Seq<char>,
)
    requires
        version_locked(lock_file, environment, platform, name) == Some(version),
    ensures
        exists|e: int, p: int, k: int|
            {
                &&& stands_at(lock_file, environment, platform, name, e, p, k)
                &&& record_at(lock_file, e, p, k) == Some(version)
            },
{
    let environments = lock_file.environments@;
    let e = named_environments_stand_there(environments, environment);
    let platforms = environments[e].platforms@;
    let p = named_platforms_stand_there(platforms, platform->0);
    let k = versions_come_from_packages(platforms[p].packages@, name);
    assert(stands_at(lock_file, environment, platform, name, e, p, k));
    assert(record_at(lock_file, e, p, k) == Some(version));
}

/// Where a conda package of that name stands in that environment on that
/// platform, the version that is locked is the one in its record.
pub proof fn a_package_that_stands_there_is_found(
    lock_file: LockFile,
    environment: Seq<char>,
    platform: Option<Seq<char>>,
    name: Seq<char>,
    e: int,
    p: int,
    k: int,
)
    requires
        stands_at(lock_file, environment, platform, name, e, p, k),
    ensures
        version_locked(lock_file, environment, platform, name) == record_at(lock_file, e, p, k),
{
    let environments = lock_file.environments@;
    environments_are_found_by_name(environments, environment, e);
    let platforms = environments[e].platforms@;
    platforms_are_found_by_name(platforms, platform->0, p);
    packages_are_found_by_name(platforms[p].packages@, name, k);
}

proof fn versions_have_their_places(
    lock_file: LockFile,
    environment: Seq<char>,
    platform: Option<Seq<char>>,
    name: Seq<char>,
)
    ensures
        version_locked(lock_file, environment, platform, name) matches Some(version)
            ==> exists|e: int, p: int, k: int|
            {
                &&& stands_at(lock_file, environment, platform, name, e, p, k)
                &&& record_at(lock_file, e, p, k) == Some(version)
            },
        forall|e: int, p: int, k: int| #[trigger]
            stands_at(lock_file, environment, platform, name, e, p, k) ==> version_locked(
                lock_file,
                environment,
                platform,
                name,
            ) == record_at(lock_file, e, p, k),
{
    if let Some(version) = version_locked(lock_file, environment, platform, name) {
        a_locked_version_is_that_of_the_package(lock_file, environment, platform, name, version);
    }
    assert forall|e: int, p: int, k: int| #[trigger]
        stands_at(lock_file, environment, platform, name, e, p, k) implies version_locked(
        lock_file,
        environment,
        platform,
        name,
    ) == record_at(lock_file, e, p, k) by {
        a_package_that_stands_there_is_found(lock_file, environment, platform, name, e, p, k);
    }
}

/// The version that is locked for the package `name` in `environment`, on the
/// platform that the lock file calls `platform`. `None` where the lock file
/// does not know the environment or the platform, or where the package is not
/// locked there, or is locked without a record.
pub fn locked_version(
    lock_file: &LockFile,
    environment: &str,
    platform: &Option<String>,
    name: &PackageName,
) -> (r: Option<Version>)
    ensures
        r.deep_view() == version_locked(
            *lock_file,
            environment@,
            platform.deep_view(),
            name.normalized@,
        ),
        r matches Some(version) ==> exists|e: int, p: int, k: int|
            {
                &&& stands_at(
                    *lock_file,
                    environment@,
                    platform.deep_view(),
                    name.normalized@,
                    e,
                    p,
                    k,
                )
                &&& record_at(*lock_file, e, p, k) == Some(version@)
            },
        r is None ==> forall|e: int, p: int, k: int|
            #[trigger]
            stands_at(
                *lock_file,
                environment@,
                platform.deep_view(),
                name.normalized@,
                e,
                p,
                k,
            ) ==> record_at(*lock_file, e, p, k) is None,
{
    let locked_platform = match platform {
        Some(platform) => platform,
        None => return None,
    };
    proof {
        versions_have_their_places(
            *lock_file,
            environment@,
            platform.deep_view(),
            name.normalized@,
        );
    }
    let mut i: usize = 0;
    assert(lock_file.environments@.skip(0) =~= lock_file.environments@);
    while i < lock_file.environments.len()
        invariant
            i <= lock_file.environments.len(),
            platform == Some(*locked_platform),
            environment_named(lock_file.environments@, environment@) == environment_named(
                lock_file.environments@.skip(i as int),
                environment@,
            ),
        decreases lock_file.environments.len() - i,
    {
        let candidate = &lock_file.environments[i];
        assert(lock_file.environments@.skip(i as int)[0] == *candidate);
        if text::str_eq(candidate.name.as_str(), environment) {
            proof {
                versions_have_their_places(
                    *lock_file,
                    environment@,
                    platform.deep_view(),
                    name.normalized@,
                );
            }
            return platform_version(&candidate.platforms, locked_platform.as_str(), name);
        }
        assert(lock_file.environments@.skip(i as int).skip(1)
            =~= lock_file.environments@.skip(i + 1));
        i += 1;
    }
    None
}

/// The version that is locked for the package `name` on the first of
/// `platforms` that has the name `platform`.
fn platform_version(platforms: &Vec<LockedPlatform>, platform: &str, name: &PackageName) -> (r:
    Option<Version>)
    ensures
        r.deep_view() == match platform_named(platforms@, platform@) {
            Some(locked) => version_of(locked.packages@, name.normalized@),
            None => None,
        },
{
    let mut i: usize = 0;
    assert(platforms@.skip(0) =~= platforms@);
    while i < platforms.len()
        invariant
            i <= platforms.len(),
            platform_named(platforms@, platform@) == platform_named(
                platforms@.skip(i as int),
                platform@,
            ),
        decreases platforms.len() - i,
    {
        let candidate = &platforms[i];
        assert(platforms@.skip(i as int)[0] == *candidate);
        if text::str_eq(candidate.name.as_str(), platform) {
            return package_version(&candidate.packages, name);
        }
        assert(platforms@.skip(i as int).skip(1) =~= platforms@.skip(i + 1));
        i += 1;
    }
    None
}

/// The version of the first conda package in `packages` that is `name`.
fn package_version(packages: &Vec<LockedPackage>, name: &PackageName) -> (r: Option<Version>)
    ensures
        r.deep_view() == version_of(packages@, name.normalized@),
{
    let mut i: usize = 0;
    assert(packages@.skip(0) =~= packages@);
    while i < packages.len()
        invariant
            i <= packages.len(),
            version_of(packages@, name.normalized@) == version_of(
                packages@.skip(i as int),
                name.normalized@,
            ),
        decreases packages.len() - i,
    {
        assert(packages@.skip(i as int)[0] == packages@[i as int]);
        match &packages[i] {
            LockedPackage::Conda { name: found, version } => {
                if found.same_as(name) {
                    return match version {
                        Some(version) => Some(version.clone()),
                        None => None,
                    };
                }
            },
            LockedPackage::Other => {},
        }
        assert(packages@.skip(i as int).skip(1) =~= packages@.skip(i + 1));
        i += 1;
    }
    None
}

} // verus!
