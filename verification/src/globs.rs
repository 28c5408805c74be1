//! Shared input-glob lists: what counts as a source change for a ROS package.

use vstd::prelude::*;

verus! {

/// Globs that always invalidate the build cache for any ROS package.
///
/// `setup.py` bakes entry points and `data_files` in at install time, so it
/// forces a rebuild even when module sources don't.
pub const ROS_SOURCE_GLOBS: [&'static str; 21] = [
    "**/*.c",
    "**/*.cpp",
    "**/*.h",
    "**/*.hpp",
    "**/*.rs",
    "**/*.sh",
    "package.xml",
    "setup.py",
    "setup.cfg",
    "pyproject.toml",
    "Makefile",
    "CMakeLists.txt",
    "MANIFEST.in",
    "Cargo.toml",
    "Cargo.lock",
    "docs/**/*.rst",
    "docs/**/*.md",
    "config/*.yaml",
    "msg/**/*.msg",
    "srv/**/*.srv",
    "action/**/*.action",
];

/// Python module sources, tracked separately: a symlinked build serves them from
/// the source tree, so they must not trigger a rebuild.
pub const ROS_PYTHON_SOURCE_GLOBS: [&'static str; 2] = ["**/*.py", "**/*.pyx"];

/// No glob of Python module sources is among the globs that always invalidate
/// the build cache.
pub proof fn python_sources_are_tracked_separately(i: int, j: int)
    requires
        0 <= i < ROS_SOURCE_GLOBS@.len(),
        0 <= j < ROS_PYTHON_SOURCE_GLOBS@.len(),
    ensures
        ROS_SOURCE_GLOBS@[i]@ != ROS_PYTHON_SOURCE_GLOBS@[j]@,
{
    reveal_strlit("**/*.c");
    reveal_strlit("**/*.cpp");
    reveal_strlit("**/*.h");
    reveal_strlit("**/*.hpp");
    reveal_strlit("**/*.rs");
    reveal_strlit("**/*.sh");
    reveal_strlit("package.xml");
    reveal_strlit("setup.py");
    reveal_strlit("setup.cfg");
    reveal_strlit("pyproject.toml");
    reveal_strlit("Makefile");
    reveal_strlit("CMakeLists.txt");
    reveal_strlit("MANIFEST.in");
    reveal_strlit("Cargo.toml");
    reveal_strlit("Cargo.lock");
    reveal_strlit("docs/**/*.rst");
    reveal_strlit("docs/**/*.md");
    reveal_strlit("config/*.yaml");
    reveal_strlit("msg/**/*.msg");
    reveal_strlit("srv/**/*.srv");
    reveal_strlit("action/**/*.action");
    reveal_strlit("**/*.py");
    reveal_strlit("**/*.pyx");
    let glob = ROS_SOURCE_GLOBS@[i]@;
    let python = ROS_PYTHON_SOURCE_GLOBS@[j]@;
    assert(7 <= python.len() <= 8 && python[5] == 'p');
    assert(glob.len() < 7 || glob.len() > 8 || glob[5] != 'p');
}

/// What a package is installed by and what describes it always invalidates the
/// build cache, whatever language it is written in.
pub proof fn manifests_are_tracked()
    ensures
        exists|i: int|
            0 <= i < ROS_SOURCE_GLOBS@.len() && (#[trigger] ROS_SOURCE_GLOBS@[i])@ == "setup.py"@,
        exists|i: int|
            0 <= i < ROS_SOURCE_GLOBS@.len() && (#[trigger] ROS_SOURCE_GLOBS@[i])@
                == "package.xml"@,
        exists|i: int|
            0 <= i < ROS_SOURCE_GLOBS@.len() && (#[trigger] ROS_SOURCE_GLOBS@[i])@
                == "CMakeLists.txt"@,
        exists|i: int|
            0 <= i < ROS_SOURCE_GLOBS@.len() && (#[trigger] ROS_SOURCE_GLOBS@[i])@
                == "Cargo.toml"@,
        exists|i: int|
            0 <= i < ROS_SOURCE_GLOBS@.len() && (#[trigger] ROS_SOURCE_GLOBS@[i])@
                == "pyproject.toml"@,
{
    assert(ROS_SOURCE_GLOBS@[6]@ == "package.xml"@);
    assert(ROS_SOURCE_GLOBS@[7]@ == "setup.py"@);
    assert(ROS_SOURCE_GLOBS@[9]@ == "pyproject.toml"@);
    assert(ROS_SOURCE_GLOBS@[11]@ == "CMakeLists.txt"@);
    assert(ROS_SOURCE_GLOBS@[13]@ == "Cargo.toml"@);
}

/// Sources of compiled languages, shell scripts and interface definitions always
/// invalidate the build cache.
pub proof fn compiled_sources_are_tracked()
    ensures
        exists|i: int|
            0 <= i < ROS_SOURCE_GLOBS@.len() && (#[trigger] ROS_SOURCE_GLOBS@[i])@ == "**/*.c"@,
        exists|i: int|
            0 <= i < ROS_SOURCE_GLOBS@.len() && (#[trigger] ROS_SOURCE_GLOBS@[i])@ == "**/*.cpp"@,
        exists|i: int|
            0 <= i < ROS_SOURCE_GLOBS@.len() && (#[trigger] ROS_SOURCE_GLOBS@[i])@ == "**/*.h"@,
        exists|i: int|
            0 <= i < ROS_SOURCE_GLOBS@.len() && (#[trigger] ROS_SOURCE_GLOBS@[i])@ == "**/*.hpp"@,
        exists|i: int|
            0 <= i < ROS_SOURCE_GLOBS@.len() && (#[trigger] ROS_SOURCE_GLOBS@[i])@ == "**/*.rs"@,
        exists|i: int|
            0 <= i < ROS_SOURCE_GLOBS@.len() && (#[trigger] ROS_SOURCE_GLOBS@[i])@ == "**/*.sh"@,
        exists|i: int|
            0 <= i < ROS_SOURCE_GLOBS@.len() && (#[trigger] ROS_SOURCE_GLOBS@[i])@
                == "msg/**/*.msg"@,
        exists|i: int|
            0 <= i < ROS_SOURCE_GLOBS@.len() && (#[trigger] ROS_SOURCE_GLOBS@[i])@
                == "srv/**/*.srv"@,
        exists|i: int|
            0 <= i < ROS_SOURCE_GLOBS@.len() && (#[trigger] ROS_SOURCE_GLOBS@[i])@
                == "action/**/*.action"@,
{
    assert(ROS_SOURCE_GLOBS@[0]@ == "**/*.c"@);
    assert(ROS_SOURCE_GLOBS@[1]@ == "**/*.cpp"@);
    assert(ROS_SOURCE_GLOBS@[2]@ == "**/*.h"@);
    assert(ROS_SOURCE_GLOBS@[3]@ == "**/*.hpp"@);
    assert(ROS_SOURCE_GLOBS@[4]@ == "**/*.rs"@);
    assert(ROS_SOURCE_GLOBS@[5]@ == "**/*.sh"@);
    assert(ROS_SOURCE_GLOBS@[18]@ == "msg/**/*.msg"@);
    assert(ROS_SOURCE_GLOBS@[19]@ == "srv/**/*.srv"@);
    assert(ROS_SOURCE_GLOBS@[20]@ == "action/**/*.action"@);
}

} // verus!
