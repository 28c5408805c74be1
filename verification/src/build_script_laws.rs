//! What holds of build scripts: which template a script is made from, and what
//! stands where the template has a variable.

use vstd::prelude::*;

use crate::build_script;
use crate::build_script::{PythonInstall, Template, Templates};
use crate::text;
use crate::text_laws;

verus! {

/// The text that scripts of a build type are made from on a platform.
pub open spec fn template_text(
    templates: Templates,
    is_windows: bool,
    build_type: Seq<char>,
) -> Seq<char> {
    if build_type == "ament_python"@ {
        if is_windows {
            templates.ament_python_windows@
        } else {
            templates.ament_python_unix@
        }
    } else if build_type == "ament_cargo"@ {
        templates.ament_cargo_unix@
    } else if build_type == "cmake"@ || build_type == "catkin"@ {
        if is_windows {
            templates.catkin_windows@
        } else {
            templates.catkin_unix@
        }
    } else {
        if is_windows {
            templates.ament_cmake_windows@
        } else {
            templates.ament_cmake_unix@
        }
    }
}

proof fn build_types_differ()
    ensures
        "ament_cmake"@ != "ament_python"@,
        "ament_cmake"@ != "ament_cargo"@,
        "ament_cmake"@ != "ament_idl"@,
        "ament_cmake"@ != "cmake"@,
        "ament_cmake"@ != "catkin"@,
        "ament_python"@ != "ament_cargo"@,
        "ament_python"@ != "ament_idl"@,
        "ament_python"@ != "cmake"@,
        "ament_python"@ != "catkin"@,
        "ament_cargo"@ != "ament_idl"@,
        "ament_cargo"@ != "cmake"@,
        "ament_cargo"@ != "catkin"@,
        "ament_idl"@ != "cmake"@,
        "ament_idl"@ != "catkin"@,
        "cmake"@ != "catkin"@,
{
    reveal_strlit("ament_cmake");
    reveal_strlit("ament_python");
    reveal_strlit("ament_cargo");
    reveal_strlit("ament_idl");
    reveal_strlit("cmake");
    reveal_strlit("catkin");
    assert("ament_cmake"@[7] != "ament_cargo"@[7]);
    assert("ament_cmake"@.len() == 11);
    assert("ament_python"@.len() == 12);
    assert("ament_idl"@.len() == 9);
    assert("cmake"@.len() == 5);
    assert("catkin"@.len() == 6);
}

/// Each family of build types has templates of its own, one for Windows and one
/// for other systems. Cargo packages are built on other systems only, and there
/// are no further build types.
pub proof fn each_build_type_has_its_template(build_type: Seq<char>, is_windows: bool)
    ensures
        build_script::template_for(build_type, is_windows) is Some <==> {
            ||| build_type == "ament_cmake"@
            ||| build_type == "ament_idl"@
            ||| build_type == "ament_python"@
            ||| build_type == "ament_cargo"@ && !is_windows
            ||| build_type == "cmake"@
            ||| build_type == "catkin"@
        },
        build_script::template_for(build_type, is_windows) matches Some(template) ==> {
            &&& template == Template::AmentCmakeWindows || template == Template::AmentPythonWindows
                || template == Template::CatkinWindows <==> is_windows
            &&& template == Template::AmentPythonWindows || template == Template::AmentPythonUnix
                <==> build_type == "ament_python"@
            &&& template == Template::AmentCargoUnix <==> build_type == "ament_cargo"@
            &&& template == Template::CatkinWindows || template == Template::CatkinUnix
                <==> build_type == "cmake"@ || build_type == "catkin"@
            &&& template == Template::AmentCmakeWindows || template == Template::AmentCmakeUnix
                <==> build_type == "ament_cmake"@ || build_type == "ament_idl"@
        },
{
    build_types_differ();
}

/// A script is there exactly if the build type is supported on the platform, and
/// it is made from the text that belongs to both. The reason names the build type
/// otherwise.
pub proof fn a_script_is_made_from_its_template(
    templates: Templates,
    is_windows: bool,
    build_type: Seq<char>,
    distro: Seq<char>,
    source_dir: Seq<char>,
    package_xml: Option<Seq<char>>,
    python_install: PythonInstall,
)
    ensures
        ({
            let script = build_script::script_on(
                templates,
                is_windows,
                build_type,
                distro,
                source_dir,
                package_xml,
                python_install,
            );
            &&& script is Ok <==> {
                ||| build_type == "ament_cmake"@
                ||| build_type == "ament_idl"@
                ||| build_type == "ament_python"@
                ||| build_type == "ament_cargo"@ && !is_windows
                ||| build_type == "cmake"@
                ||| build_type == "catkin"@
            }
            &&& script matches Ok(script) ==> script == build_script::substituted(
                template_text(templates, is_windows, build_type),
                distro,
                source_dir,
                package_xml,
                python_install,
            )
            &&& script matches Err(refused) ==> refused == build_type
        }),
{
    build_types_differ();
}

/// Whether a part of a template stands apart: neither what is before it nor what
/// is behind it could belong to the name of a variable.
pub open spec fn stands_apart(head: Seq<char>, tail: Seq<char>) -> bool {
    &&& head.len() == 0 || !build_script::is_variable_char(head.last())
    &&& tail.len() == 0 || !build_script::is_variable_char(tail[0])
}

/// Whether `pattern` is a name between two marks.
pub open spec fn is_name(pattern: Seq<char>) -> bool {
    &&& build_script::is_variable(pattern)
    &&& pattern.len() > 2
    &&& forall|i: int| 0 < i < pattern.len() - 1 ==> #[trigger] pattern[i] != '@'
}

/// What is put in the place of `variable`.
pub open spec fn value_of(
    variable: Seq<char>,
    distro: Seq<char>,
    source_dir: Seq<char>,
    package_xml: Seq<char>,
    python_install: PythonInstall,
) -> Seq<char> {
    if variable == "@SRC_DIR@"@ {
        source_dir
    } else if variable == "@DISTRO@"@ {
        distro
    } else if variable == "@BUILD_DIR@"@ {
        "build"@
    } else if variable == "@BUILD_TYPE@"@ {
        "Release"@
    } else if variable == "@SYMLINK_INSTALL@"@ {
        if python_install == PythonInstall::Symlinked {
            "1"@
        } else {
            "0"@
        }
    } else {
        package_xml
    }
}

proof fn variables_are_names()
    ensures
        is_name("@SRC_DIR@"@),
        is_name("@DISTRO@"@),
        is_name("@BUILD_DIR@"@),
        is_name("@BUILD_TYPE@"@),
        is_name("@SYMLINK_INSTALL@"@),
        is_name("@PACKAGE_XML_CONTENT@"@),
        "@SRC_DIR@"@ != "@DISTRO@"@,
        "@SRC_DIR@"@ != "@BUILD_DIR@"@,
        "@SRC_DIR@"@ != "@BUILD_TYPE@"@,
        "@SRC_DIR@"@ != "@SYMLINK_INSTALL@"@,
        "@SRC_DIR@"@ != "@PACKAGE_XML_CONTENT@"@,
        "@DISTRO@"@ != "@BUILD_DIR@"@,
        "@DISTRO@"@ != "@BUILD_TYPE@"@,
        "@DISTRO@"@ != "@SYMLINK_INSTALL@"@,
        "@DISTRO@"@ != "@PACKAGE_XML_CONTENT@"@,
        "@BUILD_DIR@"@ != "@BUILD_TYPE@"@,
        "@BUILD_DIR@"@ != "@SYMLINK_INSTALL@"@,
        "@BUILD_DIR@"@ != "@PACKAGE_XML_CONTENT@"@,
        "@BUILD_TYPE@"@ != "@SYMLINK_INSTALL@"@,
        "@BUILD_TYPE@"@ != "@PACKAGE_XML_CONTENT@"@,
        "@SYMLINK_INSTALL@"@ != "@PACKAGE_XML_CONTENT@"@,
{
    build_script::variables_are_marked();
    reveal_strlit("@SRC_DIR@");
    reveal_strlit("@DISTRO@");
    reveal_strlit("@BUILD_DIR@");
    reveal_strlit("@BUILD_TYPE@");
    reveal_strlit("@SYMLINK_INSTALL@");
    reveal_strlit("@PACKAGE_XML_CONTENT@");
    assert("@SRC_DIR@"@.len() == 9);
    assert("@DISTRO@"@.len() == 8);
    assert("@BUILD_DIR@"@.len() == 11);
    assert("@BUILD_TYPE@"@.len() == 12);
    assert("@SYMLINK_INSTALL@"@.len() == 17);
    assert("@PACKAGE_XML_CONTENT@"@.len() == 21);
}

/// Replacing leaves a part of a text alone that no occurrence touches, and works
/// on what is before and behind it.
proof fn replacing_around(
    head: Seq<char>,
    part: Seq<char>,
    tail: Seq<char>,
    from: Seq<char>,
    to: Seq<char>,
)
    requires
        from.len() > 0,
        forall|at: int|
            #![trigger text::occurs_at(head + part + tail, from, at)]
            text::occurs_at(head + part + tail, from, at) ==> at + from.len() <= head.len() || at
                >= head.len() + part.len(),
    ensures
        text::replaced(head + part + tail, from, to) == text::replaced(head, from, to) + part
            + text::replaced(tail, from, to),
    decreases head.len() + part.len(),
{
    let whole = head + part + tail;
    let behind = text::replaced(tail, from, to);
    if head.len() == 0 && part.len() == 0 {
        assert(whole =~= tail);
        assert(text::replaced(head, from, to) + part + behind =~= behind);
    } else if text::occurs_at(whole, from, 0) {
        let n = from.len() as int;
        assert(head.subrange(0, n) =~= whole.subrange(0, n));
        assert(text::occurs_at(head, from, 0));
        let rest = head.skip(n);
        assert(whole.skip(n) =~= rest + part + tail);
        assert forall|at: int|
            #![trigger text::occurs_at(rest + part + tail, from, at)]
            text::occurs_at(rest + part + tail, from, at) implies at + from.len() <= rest.len()
            || at >= rest.len() + part.len() by {
            assert(whole.subrange(at + n, at + n + from.len()) =~= whole.skip(n).subrange(
                at,
                at + from.len(),
            ));
            assert(text::occurs_at(whole, from, at + n));
        }
        replacing_around(rest, part, tail, from, to);
        assert(to + (text::replaced(rest, from, to) + part + behind) =~= (to + text::replaced(
            rest,
            from,
            to,
        )) + part + behind);
    } else {
        let first = seq![whole[0]];
        let (rest, middle) = if head.len() > 0 {
            (head.skip(1), part)
        } else {
            (head, part.skip(1))
        };
        assert(whole.skip(1) =~= rest + middle + tail);
        assert forall|at: int|
            #![trigger text::occurs_at(rest + middle + tail, from, at)]
            text::occurs_at(rest + middle + tail, from, at) implies at + from.len() <= rest.len()
            || at >= rest.len() + middle.len() by {
            assert(whole.subrange(at + 1, at + 1 + from.len()) =~= whole.skip(1).subrange(
                at,
                at + from.len(),
            ));
            assert(text::occurs_at(whole, from, at + 1));
        }
        replacing_around(rest, middle, tail, from, to);
        let done = text::replaced(rest, from, to);
        if head.len() > 0 {
            if text::occurs_at(head, from, 0) {
                assert(whole.subrange(0, from.len() as int) =~= head.subrange(
                    0,
                    from.len() as int,
                ));
            }
            assert(first + (done + middle + behind) =~= (first + done) + part + behind);
        } else {
            assert(first + (done + middle + behind) =~= text::replaced(head, from, to) + part
                + behind);
        }
    }
}

/// Replacing puts the value in the place of an occurrence that no other
/// occurrence runs into, and works on what is before and behind it.
proof fn replacing_in_place(
    head: Seq<char>,
    from: Seq<char>,
    tail: Seq<char>,
    to: Seq<char>,
)
    requires
        from.len() > 0,
        forall|at: int|
            #![trigger text::occurs_at(head + from + tail, from, at)]
            text::occurs_at(head + from + tail, from, at) ==> at + from.len() <= head.len() || at
                >= head.len(),
    ensures
        text::replaced(head + from + tail, from, to) == text::replaced(head, from, to) + to
            + text::replaced(tail, from, to),
    decreases head.len(),
{
    let whole = head + from + tail;
    let behind = text::replaced(tail, from, to);
    let n = from.len() as int;
    if head.len() == 0 {
        assert(whole.subrange(0, n) =~= from);
        assert(text::occurs_at(whole, from, 0));
        assert(whole.skip(n) =~= tail);
        assert(to + behind =~= text::replaced(head, from, to) + to + behind);
    } else if text::occurs_at(whole, from, 0) {
        assert(head.subrange(0, n) =~= whole.subrange(0, n));
        assert(text::occurs_at(head, from, 0));
        let rest = head.skip(n);
        assert(whole.skip(n) =~= rest + from + tail);
        assert forall|at: int|
            #![trigger text::occurs_at(rest + from + tail, from, at)]
            text::occurs_at(rest + from + tail, from, at) implies at + from.len() <= rest.len()
            || at >= rest.len() by {
            assert(whole.subrange(at + n, at + n + from.len()) =~= whole.skip(n).subrange(
                at,
                at + from.len(),
            ));
            assert(text::occurs_at(whole, from, at + n));
        }
        replacing_in_place(rest, from, tail, to);
        assert(to + (text::replaced(rest, from, to) + to + behind) =~= (to + text::replaced(
            rest,
            from,
            to,
        )) + to + behind);
    } else {
        let first = seq![whole[0]];
        let rest = head.skip(1);
        assert(whole.skip(1) =~= rest + from + tail);
        assert forall|at: int|
            #![trigger text::occurs_at(rest + from + tail, from, at)]
            text::occurs_at(rest + from + tail, from, at) implies at + from.len() <= rest.len()
            || at >= rest.len() by {
            assert(whole.subrange(at + 1, at + 1 + from.len()) =~= whole.skip(1).subrange(
                at,
                at + from.len(),
            ));
            assert(text::occurs_at(whole, from, at + 1));
        }
        replacing_in_place(rest, from, tail, to);
        if text::occurs_at(head, from, 0) {
            assert(whole.subrange(0, n) =~= head.subrange(0, n));
        }
        let done = text::replaced(rest, from, to);
        assert(first + (done + to + behind) =~= (first + done) + to + behind);
    }
}

/// An occurrence of a name touches a name that stands apart only if it is that
/// very name in that very place.
proof fn names_apart_do_not_overlap(
    head: Seq<char>,
    name: Seq<char>,
    tail: Seq<char>,
    from: Seq<char>,
    at: int,
)
    requires
        is_name(name),
        is_name(from),
        stands_apart(head, tail),
        text::occurs_at(head + name + tail, from, at),
    ensures
        at + from.len() <= head.len() || at >= head.len() + name.len() || (at == head.len() && name
            == from),
{
    let whole = head + name + tail;
    let n = head.len() as int;
    let m = n + name.len();
    let end = at + from.len();
    assert forall|i: int| at <= i < end implies #[trigger] whole[i] == from[i - at] by {
        assert(whole.subrange(at, end)[i - at] == whole[i]);
    }
    if at < m && end > n {
        if at < n {
            assert(whole[n - 1] == head.last());
            assert(whole[n - 1] == from[n - 1 - at]);
        }
        if end > m {
            assert(whole[m] == tail[0]);
            assert(whole[m] == from[m - at]);
        }
        assert(whole[at] == from[0]);
        assert(whole[at] == name[at - n]);
        assert(whole[end - 1] == from[from.len() - 1]);
        assert(whole[end - 1] == name[end - 1 - n]);
        assert(at == n);
        assert(end == m);
        assert(name =~= whole.subrange(at, end));
    }
}

/// No occurrence of a name touches a plain value.
proof fn names_do_not_touch_plain_values(
    head: Seq<char>,
    value: Seq<char>,
    tail: Seq<char>,
    from: Seq<char>,
    at: int,
)
    requires
        is_name(from),
        build_script::is_plain_value(value),
        text::occurs_at(head + value + tail, from, at),
    ensures
        at + from.len() <= head.len() || at >= head.len() + value.len(),
{
    let whole = head + value + tail;
    let n = head.len() as int;
    let m = n + value.len();
    let end = at + from.len();
    assert forall|i: int| at <= i < end implies #[trigger] whole[i] == from[i - at] by {
        assert(whole.subrange(at, end)[i - at] == whole[i]);
    }
    if at < m && end > n {
        assert(whole[at] == from[0]);
        assert(whole[end - 1] == from.last());
        if at >= n {
            assert(value[at - n] == '@');
            assert(value.contains('@'));
        } else if end <= m {
            assert(value[end - 1 - n] == '@');
            assert(value.contains('@'));
        } else {
            let i = choose|i: int|
                0 <= i < value.len() && !build_script::is_variable_char(#[trigger] value[i]);
            assert(whole[n + i] == value[i]);
            assert(whole[n + i] == from[n + i - at]);
        }
    }
}

/// Replacing a name leaves what it is about apart.
proof fn apart_stays_apart(
    head: Seq<char>,
    tail: Seq<char>,
    from: Seq<char>,
    to: Seq<char>,
)
    requires
        is_name(from),
        stands_apart(head, tail),
    ensures
        stands_apart(text::replaced(head, from, to), text::replaced(tail, from, to)),
{
    if head.len() > 0 {
        last_stays(head, from, to);
    }
    if tail.len() > 0 {
        if text::occurs_at(tail, from, 0) {
            assert(tail.subrange(0, from.len() as int)[0] == tail[0]);
        }
        assert(text::replaced(tail, from, to)[0] == tail[0]);
    }
}

proof fn last_stays(head: Seq<char>, from: Seq<char>, to: Seq<char>)
    requires
        is_name(from),
        head.len() > 0,
        !build_script::is_variable_char(head.last()),
    ensures
        text::replaced(head, from, to).len() > 0,
        text::replaced(head, from, to).last() == head.last(),
    decreases head.len(),
{
    if text::occurs_at(head, from, 0) {
        let n = from.len() as int;
        if n == head.len() {
            assert(head.subrange(0, n)[n - 1] == head.last());
        }
        last_stays(head.skip(n), from, to);
    } else if head.len() > 1 {
        last_stays(head.skip(1), from, to);
    } else {
        let none = head.skip(1);
        assert(none.len() == 0);
        assert(text::replaced(none, from, to) == none);
        assert(text::replaced(head, from, to) =~= seq![head[0]]);
    }
}

/// One substitution, seen from a name that stands apart.
proof fn one_step(
    head: Seq<char>,
    name: Seq<char>,
    tail: Seq<char>,
    from: Seq<char>,
    to: Seq<char>,
)
    requires
        is_name(name),
        is_name(from),
        stands_apart(head, tail),
    ensures
        text::replaced(head + name + tail, from, to) == text::replaced(head, from, to) + (if name
            == from {
            to
        } else {
            name
        }) + text::replaced(tail, from, to),
        stands_apart(text::replaced(head, from, to), text::replaced(tail, from, to)),
{
    apart_stays_apart(head, tail, from, to);
    assert forall|at: int|
        #![trigger text::occurs_at(head + name + tail, from, at)]
        text::occurs_at(head + name + tail, from, at) implies at + from.len() <= head.len() || at
        >= head.len() + name.len() || (at == head.len() && name == from) by {
        names_apart_do_not_overlap(head, name, tail, from, at);
    }
    if name == from {
        replacing_in_place(head, from, tail, to);
    } else {
        replacing_around(head, name, tail, from, to);
    }
}

/// One substitution, seen from a plain value.
proof fn one_step_past(
    head: Seq<char>,
    value: Seq<char>,
    tail: Seq<char>,
    from: Seq<char>,
    to: Seq<char>,
)
    requires
        is_name(from),
        build_script::is_plain_value(value),
    ensures
        text::replaced(head + value + tail, from, to) == text::replaced(head, from, to) + value
            + text::replaced(tail, from, to),
{
    assert forall|at: int|
        #![trigger text::occurs_at(head + value + tail, from, at)]
        text::occurs_at(head + value + tail, from, at) implies at + from.len() <= head.len() || at
        >= head.len() + value.len() by {
        names_do_not_touch_plain_values(head, value, tail, from, at);
    }
    replacing_around(head, value, tail, from, to);
}

/// One more substitution in a text where `name` either stands apart or has given
/// way to its value.
proof fn step_on(
    head: Seq<char>,
    name: Seq<char>,
    value: Seq<char>,
    given: bool,
    tail: Seq<char>,
    from: Seq<char>,
    to: Seq<char>,
)
    requires
        is_name(name),
        is_name(from),
        given ==> build_script::is_plain_value(value),
        !given ==> stands_apart(head, tail),
        name == from ==> to == value && !given,
    ensures
        ({
            let middle = if given {
                value
            } else {
                name
            };
            let next = if given || name == from {
                value
            } else {
                name
            };
            &&& text::replaced(head + middle + tail, from, to) == text::replaced(head, from, to)
                + next + text::replaced(tail, from, to)
            &&& !(given || name == from) ==> stands_apart(
                text::replaced(head, from, to),
                text::replaced(tail, from, to),
            )
        }),
{
    if given {
        one_step_past(head, value, tail, from, to);
    } else {
        one_step(head, name, tail, from, to);
    }
}

/// Where a template has a variable that stands apart, the script has the value of
/// that variable: the source directory, the distribution, the name of the build
/// directory, the build type of CMake, whether modules are symlinked, or the
/// contents of the package manifest where they are given. What stands before and
/// behind it does not bear on it, nor it on them.
pub proof fn a_variable_gives_way_to_its_value(
    head: Seq<char>,
    variable: Seq<char>,
    tail: Seq<char>,
    distro: Seq<char>,
    source_dir: Seq<char>,
    package_xml: Option<Seq<char>>,
    python_install: PythonInstall,
)
    requires
        stands_apart(head, tail),
        build_script::is_substituted(variable) || (package_xml is Some && variable
            == "@PACKAGE_XML_CONTENT@"@),
        variable == "@SRC_DIR@"@ ==> build_script::is_plain_value(source_dir),
        variable == "@DISTRO@"@ ==> build_script::is_plain_value(distro),
    ensures
        build_script::substituted(
            head + variable + tail,
            distro,
            source_dir,
            package_xml,
            python_install,
        ) == build_script::substituted(head, distro, source_dir, package_xml, python_install)
            + value_of(variable, distro, source_dir, package_xml->0, python_install)
            + build_script::substituted(tail, distro, source_dir, package_xml, python_install),
{
    variables_are_names();
    build_script::constants_are_plain();
    let value = value_of(variable, distro, source_dir, package_xml->0, python_install);
    let flag = python_install.flag_text();
    let h0 = head;
    let t0 = tail;
    let h1 = text::replaced(h0, "@SRC_DIR@"@, source_dir);
    let t1 = text::replaced(t0, "@SRC_DIR@"@, source_dir);
    let h2 = text::replaced(h1, "@DISTRO@"@, distro);
    let t2 = text::replaced(t1, "@DISTRO@"@, distro);
    let h3 = text::replaced(h2, "@BUILD_DIR@"@, "build"@);
    let t3 = text::replaced(t2, "@BUILD_DIR@"@, "build"@);
    let h4 = text::replaced(h3, "@BUILD_TYPE@"@, "Release"@);
    let t4 = text::replaced(t3, "@BUILD_TYPE@"@, "Release"@);
    let h5 = text::replaced(h4, "@SYMLINK_INSTALL@"@, flag);
    let t5 = text::replaced(t4, "@SYMLINK_INSTALL@"@, flag);
    let g1 = variable == "@SRC_DIR@"@;
    let g2 = g1 || variable == "@DISTRO@"@;
    let g3 = g2 || variable == "@BUILD_DIR@"@;
    let g4 = g3 || variable == "@BUILD_TYPE@"@;
    let g5 = g4 || variable == "@SYMLINK_INSTALL@"@;
    step_on(h0, variable, value, false, t0, "@SRC_DIR@"@, source_dir);
    step_on(h1, variable, value, g1, t1, "@DISTRO@"@, distro);
    step_on(h2, variable, value, g2, t2, "@BUILD_DIR@"@, "build"@);
    step_on(h3, variable, value, g3, t3, "@BUILD_TYPE@"@, "Release"@);
    step_on(h4, variable, value, g4, t4, "@SYMLINK_INSTALL@"@, flag);
    if let Some(xml) = package_xml {
        step_on(h5, variable, value, g5, t5, "@PACKAGE_XML_CONTENT@"@, xml);
    }
}

/// What has no mark in it is taken over as it is.
pub proof fn text_without_variables_is_kept(
    template: Seq<char>,
    distro: Seq<char>,
    source_dir: Seq<char>,
    package_xml: Option<Seq<char>>,
    python_install: PythonInstall,
)
    requires
        !template.contains('@'),
    ensures
        build_script::substituted(template, distro, source_dir, package_xml, python_install)
            == template,
{
    variables_are_names();
    text_laws::replacing_needs_the_first_character(template, "@SRC_DIR@"@, source_dir);
    text_laws::replacing_needs_the_first_character(template, "@DISTRO@"@, distro);
    text_laws::replacing_needs_the_first_character(template, "@BUILD_DIR@"@, "build"@);
    text_laws::replacing_needs_the_first_character(template, "@BUILD_TYPE@"@, "Release"@);
    text_laws::replacing_needs_the_first_character(
        template,
        "@SYMLINK_INSTALL@"@,
        python_install.flag_text(),
    );
    if let Some(xml) = package_xml {
        text_laws::replacing_needs_the_first_character(template, "@PACKAGE_XML_CONTENT@"@, xml);
    }
}

/// Whether `template` asks for the contents of the package manifest in a place
/// that stands apart.
pub open spec fn asks_for_the_manifest(template: Seq<char>) -> bool {
    exists|head: Seq<char>, tail: Seq<char>|
        #[trigger] stands_apart(head, tail) && template == head + "@PACKAGE_XML_CONTENT@"@ + tail
}

/// A script that is rendered with the contents of the package manifest holds them
/// where the template of its build type asks for them, and does not ask for them
/// any more. None of its other variables is left either.
pub proof fn the_manifest_is_in_the_script(
    templates: Templates,
    is_windows: bool,
    build_type: Seq<char>,
    distro: Seq<char>,
    source_dir: Seq<char>,
    xml: Seq<char>,
    python_install: PythonInstall,
)
    ensures
        build_script::script_on(
            templates,
            is_windows,
            build_type,
            distro,
            source_dir,
            Some(xml),
            python_install,
        ) matches Ok(script) ==> {
            &&& build_script::is_plain_value(distro) && build_script::is_plain_value(source_dir)
                && build_script::is_plain_value(xml) ==> {
                &&& !text::contains_text(script, "@PACKAGE_XML_CONTENT@"@)
                &&& !text::contains_text(script, "@SRC_DIR@"@)
                &&& !text::contains_text(script, "@DISTRO@"@)
                &&& !text::contains_text(script, "@BUILD_DIR@"@)
                &&& !text::contains_text(script, "@BUILD_TYPE@"@)
                &&& !text::contains_text(script, "@SYMLINK_INSTALL@"@)
            }
            &&& asks_for_the_manifest(template_text(templates, is_windows, build_type))
                ==> text::contains_text(script, xml)
        },
{
    a_script_is_made_from_its_template(
        templates,
        is_windows,
        build_type,
        distro,
        source_dir,
        Some(xml),
        python_install,
    );
    let template = template_text(templates, is_windows, build_type);
    let script = build_script::substituted(
        template,
        distro,
        source_dir,
        Some(xml),
        python_install,
    );
    if build_script::is_plain_value(distro) && build_script::is_plain_value(source_dir)
        && build_script::is_plain_value(xml) {
        assert forall|pattern: Seq<char>|
            build_script::is_substituted(pattern) || pattern
                == "@PACKAGE_XML_CONTENT@"@ implies !#[trigger] text::contains_text(
            script,
            pattern,
        ) by {
            build_script::no_variable_is_left(
                template,
                distro,
                source_dir,
                Some(xml),
                python_install,
                pattern,
            );
        }
    }
    if asks_for_the_manifest(template) {
        let (head, tail) = choose|head: Seq<char>, tail: Seq<char>|
            #[trigger] stands_apart(head, tail) && template == head + "@PACKAGE_XML_CONTENT@"@
                + tail;
        variables_are_names();
        a_variable_gives_way_to_its_value(
            head,
            "@PACKAGE_XML_CONTENT@"@,
            tail,
            distro,
            source_dir,
            Some(xml),
            python_install,
        );
        text_laws::ends_stand_in_the_text(
            build_script::substituted(head, distro, source_dir, Some(xml), python_install),
            xml,
            build_script::substituted(tail, distro, source_dir, Some(xml), python_install),
        );
    }
}

/// A script has the contents of the package manifest wherever the script without
/// them still asks for them, whatever the values are, and is the same otherwise.
pub proof fn the_manifest_goes_where_it_is_missed(
    templates: Templates,
    is_windows: bool,
    build_type: Seq<char>,
    distro: Seq<char>,
    source_dir: Seq<char>,
    xml: Seq<char>,
    python_install: PythonInstall,
)
    ensures
        build_script::script_on(
            templates,
            is_windows,
            build_type,
            distro,
            source_dir,
            None,
            python_install,
        ) matches Ok(bare) ==> {
            let script = build_script::script_on(
                templates,
                is_windows,
                build_type,
                distro,
                source_dir,
                Some(xml),
                python_install,
            );
            &&& script is Ok
            &&& text::contains_text(bare, "@PACKAGE_XML_CONTENT@"@) ==> text::contains_text(
                script->Ok_0,
                xml,
            )
            &&& !text::contains_text(bare, "@PACKAGE_XML_CONTENT@"@) ==> script->Ok_0 == bare
        },
{
    variables_are_names();
    if let Ok(bare) = build_script::script_on(
        templates,
        is_windows,
        build_type,
        distro,
        source_dir,
        None,
        python_install,
    ) {
        if text::contains_text(bare, "@PACKAGE_XML_CONTENT@"@) {
            text::replacing_brings_the_value(bare, "@PACKAGE_XML_CONTENT@"@, xml);
        } else {
            text::replacing_nothing(bare, "@PACKAGE_XML_CONTENT@"@, xml);
        }
    }
}

/// Modules are symlinked exactly in editable builds of Python packages, and the
/// script is told so by a one.
pub proof fn editable_python_modules_are_symlinked(build_type: Seq<char>, editable: bool)
    ensures
        ({
            let install = PythonInstall::resolved(build_type, editable);
            &&& install == PythonInstall::Symlinked <==> editable && build_type
                == "ament_python"@
            &&& install == PythonInstall::Copied <==> !editable || build_type != "ament_python"@
            &&& install.flag_text() == "1"@ <==> editable && build_type == "ament_python"@
            &&& install.flag_text() == "0"@ <==> !editable || build_type != "ament_python"@
        }),
{
    reveal_strlit("1");
    reveal_strlit("0");
    assert("1"@[0] != "0"@[0]);
}

/// Templates for Windows are batch files, and the others are shell scripts. Each
/// is named after its build type, and no two share a file.
pub proof fn templates_have_their_files(template: Template, other: Template)
    ensures
        ({
            let windows = template == Template::AmentCmakeWindows || template
                == Template::AmentPythonWindows || template == Template::CatkinWindows;
            let family = if template == Template::AmentCmakeUnix || template
                == Template::AmentCmakeWindows {
                "ament_cmake"@
            } else if template == Template::AmentPythonUnix || template
                == Template::AmentPythonWindows {
                "ament_python"@
            } else if template == Template::AmentCargoUnix {
                "ament_cargo"@
            } else {
                "catkin"@
            };
            &&& template.file_text() == if windows {
                "bld_"@ + family + ".bat"@
            } else {
                "build_"@ + family + ".sh"@
            }
            &&& template.file_text() == other.file_text() <==> template == other
        }),
{
    reveal_strlit("build_ament_cmake.sh");
    reveal_strlit("bld_ament_cmake.bat");
    reveal_strlit("build_ament_python.sh");
    reveal_strlit("bld_ament_python.bat");
    reveal_strlit("build_ament_cargo.sh");
    reveal_strlit("build_catkin.sh");
    reveal_strlit("bld_catkin.bat");
    reveal_strlit("build_");
    reveal_strlit("bld_");
    reveal_strlit(".bat");
    reveal_strlit(".sh");
    reveal_strlit("ament_cmake");
    reveal_strlit("ament_python");
    reveal_strlit("ament_cargo");
    reveal_strlit("catkin");
    assert("build_ament_cmake.sh"@ =~= "build_"@ + "ament_cmake"@ + ".sh"@);
    assert("bld_ament_cmake.bat"@ =~= "bld_"@ + "ament_cmake"@ + ".bat"@);
    assert("build_ament_python.sh"@ =~= "build_"@ + "ament_python"@ + ".sh"@);
    assert("bld_ament_python.bat"@ =~= "bld_"@ + "ament_python"@ + ".bat"@);
    assert("build_ament_cargo.sh"@ =~= "build_"@ + "ament_cargo"@ + ".sh"@);
    assert("build_catkin.sh"@ =~= "build_"@ + "catkin"@ + ".sh"@);
    assert("bld_catkin.bat"@ =~= "bld_"@ + "catkin"@ + ".bat"@);
    assert("build_ament_cmake.sh"@[13] != "build_ament_cargo.sh"@[13]);
    assert("build_ament_cmake.sh"@[2] != "bld_ament_python.bat"@[2]);
    assert("build_ament_cargo.sh"@[2] != "bld_ament_python.bat"@[2]);
    assert("build_ament_cmake.sh"@.len() == 20);
    assert("build_ament_cargo.sh"@.len() == 20);
    assert("bld_ament_python.bat"@.len() == 20);
    assert("bld_ament_cmake.bat"@.len() == 19);
    assert("build_ament_python.sh"@.len() == 21);
    assert("build_catkin.sh"@.len() == 15);
    assert("bld_catkin.bat"@.len() == 14);
}

} // verus!
