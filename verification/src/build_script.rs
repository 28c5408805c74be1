//! Build scripts of ROS packages: template selection and variable substitution.

use vstd::prelude::*;
use vstd::string::*;

use crate::build_script_laws;
use crate::text;

verus! {

/// Errors that can occur during build script generation.
#[derive(Debug)]
pub enum BuildScriptError {
    /// No template supports the build type on the platform.
    UnsupportedBuildType { build_type: String },
}

impl BuildScriptError {
    /// What went wrong.
    pub fn message(&self) -> (r: String)
        ensures
            r@ == match self {
                BuildScriptError::UnsupportedBuildType { build_type } =>
                    "unsupported ROS build type: '"@ + build_type@ + "'"@,
            },
    {
        match self {
            BuildScriptError::UnsupportedBuildType { build_type } => {
                let mut out = "unsupported ROS build type: '".to_owned();
                out.append(build_type.as_str());
                out.append("'");
                out
            },
        }
    }

    /// What can be done about it.
    pub fn help(&self) -> (r: &'static str)
        ensures
            r@
                == "Supported build types are: ament_cmake, ament_python, ament_cargo (linux only), ament_idl, cmake, catkin"@,
    {
        "Supported build types are: ament_cmake, ament_python, ament_cargo (linux only), ament_idl, cmake, catkin"
    }
}

/// How Python modules end up in the install prefix.
///
/// Symlinked modules are served from the source tree, so the same value drives
/// the build script and the build input globs.
#[derive(Debug, Clone, Copy, PartialEq, Eq, Structural)]
pub enum PythonInstall {
    Copied,
    Symlinked,
}

impl PythonInstall {
    /// Modules are symlinked in editable builds of `ament_python` packages.
    pub open spec fn resolved(build_type: Seq<char>, editable: bool) -> PythonInstall {
        if editable && build_type == "ament_python"@ {
            PythonInstall::Symlinked
        } else {
            PythonInstall::Copied
        }
    }

    /// Modules are symlinked in editable builds of `ament_python` packages.
    pub fn resolve(build_type: &str, editable: bool) -> (r: Self)
        ensures
            r == PythonInstall::resolved(build_type@, editable),
    {
        if editable && text::str_eq(build_type, "ament_python") {
            Self::Symlinked
        } else {
            Self::Copied
        }
    }

    /// The value of the `@SYMLINK_INSTALL@` variable.
    pub open spec fn flag_text(self) -> Seq<char> {
        match self {
            PythonInstall::Symlinked => "1"@,
            PythonInstall::Copied => "0"@,
        }
    }

    fn flag(self) -> (r: &'static str)
        ensures
            r@ == self.flag_text(),
    {
        match self {
            PythonInstall::Symlinked => "1",
            PythonInstall::Copied => "0",
        }
    }
}

/// A build script template.
#[derive(Debug, Clone, Copy, PartialEq, Eq, Structural)]
pub enum Template {
    AmentCmakeUnix,
    AmentCmakeWindows,
    AmentPythonUnix,
    AmentPythonWindows,
    AmentCargoUnix,
    CatkinUnix,
    CatkinWindows,
}

impl Template {
    /// The file that holds the template.
    pub open spec fn file_text(self) -> Seq<char> {
        match self {
            Template::AmentCmakeUnix => "build_ament_cmake.sh"@,
            Template::AmentCmakeWindows => "bld_ament_cmake.bat"@,
            Template::AmentPythonUnix => "build_ament_python.sh"@,
            Template::AmentPythonWindows => "bld_ament_python.bat"@,
            Template::AmentCargoUnix => "build_ament_cargo.sh"@,
            Template::CatkinUnix => "build_catkin.sh"@,
            Template::CatkinWindows => "bld_catkin.bat"@,
        }
    }

    /// The file that holds the template.
    pub fn file_name(self) -> (r: &'static str)
        ensures
            r@ == self.file_text(),
    {
        match self {
            Template::AmentCmakeUnix => "build_ament_cmake.sh",
            Template::AmentCmakeWindows => "bld_ament_cmake.bat",
            Template::AmentPythonUnix => "build_ament_python.sh",
            Template::AmentPythonWindows => "bld_ament_python.bat",
            Template::AmentCargoUnix => "build_ament_cargo.sh",
            Template::CatkinUnix => "build_catkin.sh",
            Template::CatkinWindows => "bld_catkin.bat",
        }
    }
}

/// The texts of the templates.
#[derive(Debug)]
pub struct Templates {
    pub ament_cmake_unix: String,
    pub ament_cmake_windows: String,
    pub ament_python_unix: String,
    pub ament_python_windows: String,
    pub ament_cargo_unix: String,
    pub catkin_unix: String,
    pub catkin_windows: String,
}

impl Templates {
    /// The text of a template.
    pub open spec fn text_of(self, template: Template) -> Seq<char> {
        match template {
            Template::AmentCmakeUnix => self.ament_cmake_unix@,
            Template::AmentCmakeWindows => self.ament_cmake_windows@,
            Template::AmentPythonUnix => self.ament_python_unix@,
            Template::AmentPythonWindows => self.ament_python_windows@,
            Template::AmentCargoUnix => self.ament_cargo_unix@,
            Template::CatkinUnix => self.catkin_unix@,
            Template::CatkinWindows => self.catkin_windows@,
        }
    }

    /// The text of a template.
    pub fn get(&self, template: Template) -> (r: &str)
        ensures
            r@ == self.text_of(template),
    {
        match template {
            Template::AmentCmakeUnix => self.ament_cmake_unix.as_str(),
            Template::AmentCmakeWindows => self.ament_cmake_windows.as_str(),
            Template::AmentPythonUnix => self.ament_python_unix.as_str(),
            Template::AmentPythonWindows => self.ament_python_windows.as_str(),
            Template::AmentCargoUnix => self.ament_cargo_unix.as_str(),
            Template::CatkinUnix => self.catkin_unix.as_str(),
            Template::CatkinWindows => self.catkin_windows.as_str(),
        }
    }
}

/// The template of a build type on a platform. `ament_idl` is built like
/// `ament_cmake`: only the synthesized `package.xml` differs.
pub open spec fn template_for(build_type: Seq<char>, is_windows: bool) -> Option<Template> {
    if build_type == "ament_cmake"@ || build_type == "ament_idl"@ {
        Some(
            if is_windows {
                Template::AmentCmakeWindows
            } else {
                Template::AmentCmakeUnix
            },
        )
    } else if build_type == "ament_python"@ {
        Some(
            if is_windows {
                Template::AmentPythonWindows
            } else {
                Template::AmentPythonUnix
            },
        )
    } else if build_type == "ament_cargo"@ && !is_windows {
        Some(Template::AmentCargoUnix)
    } else if build_type == "cmake"@ || build_type == "catkin"@ {
        Some(
            if is_windows {
                Template::CatkinWindows
            } else {
                Template::CatkinUnix
            },
        )
    } else {
        None
    }
}

/// Selects the template of a build type on a platform.
pub fn select_template(build_type: &str, is_windows: bool) -> (r: Result<
    Template,
    BuildScriptError,
>)
    ensures
        match r {
            Ok(template) => template_for(build_type@, is_windows) == Some(template),
            Err(BuildScriptError::UnsupportedBuildType { build_type: refused }) => {
                &&& template_for(build_type@, is_windows) is None
                &&& refused@ == build_type@
            },
        },
{
    if text::str_eq(build_type, "ament_cmake") || text::str_eq(build_type, "ament_idl") {
        if is_windows {
            Ok(Template::AmentCmakeWindows)
        } else {
            Ok(Template::AmentCmakeUnix)
        }
    } else if text::str_eq(build_type, "ament_python") {
        if is_windows {
            Ok(Template::AmentPythonWindows)
        } else {
            Ok(Template::AmentPythonUnix)
        }
    } else if text::str_eq(build_type, "ament_cargo") && !is_windows {
        Ok(Template::AmentCargoUnix)
    } else if text::str_eq(build_type, "cmake") || text::str_eq(build_type, "catkin") {
        if is_windows {
            Ok(Template::CatkinWindows)
        } else {
            Ok(Template::CatkinUnix)
        }
    } else {
        Err(BuildScriptError::UnsupportedBuildType { build_type: build_type.to_owned() })
    }
}

/// `template` with all variables substituted, one after the other, but the one
/// for the contents of the package manifest.
pub open spec fn without_manifest(
    template: Seq<char>,
    distro: Seq<char>,
    source_dir: Seq<char>,
    python_install: PythonInstall,
) -> Seq<char> {
    let placed = text::replaced(template, "@SRC_DIR@"@, source_dir);
    let placed = text::replaced(placed, "@DISTRO@"@, distro);
    let placed = text::replaced(placed, "@BUILD_DIR@"@, "build"@);
    let placed = text::replaced(placed, "@BUILD_TYPE@"@, "Release"@);
    text::replaced(placed, "@SYMLINK_INSTALL@"@, python_install.flag_text())
}

/// `template` with its variables substituted, one after the other.
pub open spec fn substituted(
    template: Seq<char>,
    distro: Seq<char>,
    source_dir: Seq<char>,
    package_xml: Option<Seq<char>>,
    python_install: PythonInstall,
) -> Seq<char> {
    let placed = without_manifest(template, distro, source_dir, python_install);
    match package_xml {
        Some(xml) => text::replaced(placed, "@PACKAGE_XML_CONTENT@"@, xml),
        None => placed,
    }
}

/// Substitutes the variables of `template`.
pub fn substitute(
    template: &str,
    distro: &str,
    source_dir: &str,
    package_xml: Option<&str>,
    python_install: PythonInstall,
) -> (r: String)
    ensures
        r@ == substituted(
            template@,
            distro@,
            source_dir@,
            package_xml.deep_view(),
            python_install,
        ),
{
    proof {
        reveal_strlit("@SRC_DIR@");
        reveal_strlit("@DISTRO@");
        reveal_strlit("@BUILD_DIR@");
        reveal_strlit("@BUILD_TYPE@");
        reveal_strlit("@SYMLINK_INSTALL@");
        reveal_strlit("@PACKAGE_XML_CONTENT@");
    }
    let placed = text::replace_all(template, "@SRC_DIR@", source_dir);
    let placed = text::replace_all(placed.as_str(), "@DISTRO@", distro);
    let placed = text::replace_all(placed.as_str(), "@BUILD_DIR@", "build");
    let placed = text::replace_all(placed.as_str(), "@BUILD_TYPE@", "Release");
    let placed = text::replace_all(placed.as_str(), "@SYMLINK_INSTALL@", python_install.flag());
    match package_xml {
        Some(xml) => text::replace_all(placed.as_str(), "@PACKAGE_XML_CONTENT@", xml),
        None => placed,
    }
}

/// The build script on a platform, or the build type where none is supported.
pub open spec fn script_on(
    templates: Templates,
    is_windows: bool,
    build_type: Seq<char>,
    distro: Seq<char>,
    source_dir: Seq<char>,
    package_xml: Option<Seq<char>>,
    python_install: PythonInstall,
) -> Result<Seq<char>, Seq<char>> {
    match template_for(build_type, is_windows) {
        Some(template) => Ok(
            substituted(
                templates.text_of(template),
                distro,
                source_dir,
                package_xml,
                python_install,
            ),
        ),
        None => Err(build_type),
    }
}

/// The characters of a build script, or of the build type that is not supported.
pub open spec fn script_view(r: Result<String, BuildScriptError>) -> Result<
    Seq<char>,
    Seq<char>,
> {
    match r {
        Ok(script) => Ok(script@),
        Err(BuildScriptError::UnsupportedBuildType { build_type }) => Err(build_type@),
    }
}

/// Renders a build script for the given platform.
pub fn render_build_script_on(
    templates: &Templates,
    is_windows: bool,
    build_type: &str,
    distro: &str,
    source_dir: &str,
    package_xml: Option<&str>,
    python_install: PythonInstall,
) -> (r: Result<String, BuildScriptError>)
    ensures
        script_view(r) == script_on(
            *templates,
            is_windows,
            build_type@,
            distro@,
            source_dir@,
            package_xml.deep_view(),
            python_install,
        ),
        r matches Ok(script) ==> (package_xml matches Some(xml) ==> {
            &&& is_plain_value(distro@) && is_plain_value(source_dir@) && is_plain_value(xml@)
                ==> !text::contains_text(script@, "@PACKAGE_XML_CONTENT@"@)
            &&& build_script_laws::asks_for_the_manifest(
                build_script_laws::template_text(*templates, is_windows, build_type@),
            ) ==> text::contains_text(script@, xml@)
        }),
{
    proof {
        if let Some(xml) = package_xml {
            build_script_laws::the_manifest_is_in_the_script(
                *templates,
                is_windows,
                build_type@,
                distro@,
                source_dir@,
                xml@,
                python_install,
            );
        }
    }
    match select_template(build_type, is_windows) {
        Ok(template) => Ok(
            substitute(
                templates.get(template),
                distro,
                source_dir,
                package_xml,
                python_install,
            ),
        ),
        Err(err) => Err(err),
    }
}

/// Whether `is_windows` of `rattler_conda_types::Platform` holds of
/// `rattler_conda_types::Platform::current`, the platform that the program was
/// built for. Nothing is claimed of the answer, which depends on that platform.
#[verifier::external_body]
fn built_for_windows() -> bool {
    rattler_conda_types::Platform::current().is_windows()
}

/// Renders a build script from the appropriate template.
///
/// Selects the template based on `build_type` and the platform that the program
/// runs on (the build script runs there too), then substitutes the variables.
///
/// `package_xml` is put where a template asks for the contents of the package
/// manifest, as those of the `ament_*` build types do. The templates of `cmake`
/// and `catkin` ignore it.
pub fn render_build_script(
    templates: &Templates,
    build_type: &str,
    distro: &str,
    source_dir: &str,
    package_xml: Option<&str>,
    python_install: PythonInstall,
) -> (r: Result<String, BuildScriptError>)
    ensures
        exists|is_windows: bool|
            script_view(r) == #[trigger] script_on(
                *templates,
                is_windows,
                build_type@,
                distro@,
                source_dir@,
                package_xml.deep_view(),
                python_install,
            ),
        template_for(build_type@, true) is Some && template_for(build_type@, false) is Some
            ==> r is Ok,
        template_for(build_type@, true) is None && template_for(build_type@, false) is None
            ==> r is Err,
        r matches Ok(script) ==> (package_xml matches Some(xml) ==> {
            &&& is_plain_value(distro@) && is_plain_value(source_dir@) && is_plain_value(xml@)
                ==> !text::contains_text(script@, "@PACKAGE_XML_CONTENT@"@)
            &&& (forall|is_windows: bool|
                build_script_laws::asks_for_the_manifest(
                    #[trigger] build_script_laws::template_text(
                        *templates,
                        is_windows,
                        build_type@,
                    ),
                )) ==> text::contains_text(script@, xml@)
        }),
{
    render_build_script_on(
        templates,
        built_for_windows(),
        build_type,
        distro,
        source_dir,
        package_xml,
        python_install,
    )
}

/// The characters that names of variables are made of, and the mark around them.
pub open spec fn is_variable_char(c: char) -> bool {
    c == '@' || c == '_' || 'A' <= c <= 'Z'
}

/// Whether `value` cannot be mistaken for a part of a variable: it holds no `@`,
/// and not all of its characters could stand in the name of one.
pub open spec fn is_plain_value(value: Seq<char>) -> bool {
    &&& !value.contains('@')
    &&& exists|i: int| 0 <= i < value.len() && !is_variable_char(#[trigger] value[i])
}

/// Whether `pattern` is written like a variable.
pub open spec fn is_variable(pattern: Seq<char>) -> bool {
    &&& text::is_marked(pattern, '@')
    &&& forall|i: int| 0 <= i < pattern.len() ==> is_variable_char(#[trigger] pattern[i])
}

/// The variables that every rendering substitutes.
pub open spec fn is_substituted(pattern: Seq<char>) -> bool {
    ||| pattern == "@SRC_DIR@"@
    ||| pattern == "@DISTRO@"@
    ||| pattern == "@BUILD_DIR@"@
    ||| pattern == "@BUILD_TYPE@"@
    ||| pattern == "@SYMLINK_INSTALL@"@
}

pub(crate) proof fn variables_are_marked()
    ensures
        is_variable("@SRC_DIR@"@),
        is_variable("@DISTRO@"@),
        is_variable("@BUILD_DIR@"@),
        is_variable("@BUILD_TYPE@"@),
        is_variable("@SYMLINK_INSTALL@"@),
        is_variable("@PACKAGE_XML_CONTENT@"@),
{
    reveal_strlit("@SRC_DIR@");
    reveal_strlit("@DISTRO@");
    reveal_strlit("@BUILD_DIR@");
    reveal_strlit("@BUILD_TYPE@");
    reveal_strlit("@SYMLINK_INSTALL@");
    reveal_strlit("@PACKAGE_XML_CONTENT@");
}

pub(crate) proof fn constants_are_plain()
    ensures
        is_plain_value("build"@),
        is_plain_value("Release"@),
        is_plain_value("1"@),
        is_plain_value("0"@),
{
    reveal_strlit("build");
    reveal_strlit("Release");
    reveal_strlit("1");
    reveal_strlit("0");
    assert(!is_variable_char("build"@[0]));
    assert(!is_variable_char("Release"@[1]));
    assert(!is_variable_char("1"@[0]));
    assert(!is_variable_char("0"@[0]));
}

proof fn plain_values_are_undisturbing(value: Seq<char>, pattern: Seq<char>)
    requires
        is_plain_value(value),
        is_variable(pattern),
    ensures
        text::undisturbing(value, pattern, '@'),
{
    let i = choose|i: int| 0 <= i < value.len() && !is_variable_char(#[trigger] value[i]);
    assert(!pattern.contains(value[i]));
}

/// Substituting one variable leaves none of it, and none of another that was not
/// there before.
proof fn substitution_clears(
    template: Seq<char>,
    from: Seq<char>,
    to: Seq<char>,
    pattern: Seq<char>,
)
    requires
        is_variable(from),
        is_variable(pattern),
        is_plain_value(to),
        pattern == from || !text::contains_text(template, pattern),
    ensures
        !text::contains_text(text::replaced(template, from, to), pattern),
{
    plain_values_are_undisturbing(to, pattern);
    text::replacing_leaves_no_pattern(template, from, to, pattern, '@');
}

/// No variable is left in a rendered script, whatever the template holds, where
/// the values that are put in are plain. The contents of a package manifest are
/// put in last and count only where they are given.
pub proof fn no_variable_is_left(
    template: Seq<char>,
    distro: Seq<char>,
    source_dir: Seq<char>,
    package_xml: Option<Seq<char>>,
    python_install: PythonInstall,
    pattern: Seq<char>,
)
    requires
        is_plain_value(distro),
        is_plain_value(source_dir),
        package_xml matches Some(xml) ==> is_plain_value(xml),
        is_substituted(pattern) || (package_xml is Some && pattern
            == "@PACKAGE_XML_CONTENT@"@),
    ensures
        !text::contains_text(
            substituted(template, distro, source_dir, package_xml, python_install),
            pattern,
        ),
{
    variables_are_marked();
    constants_are_plain();
    let s1 = text::replaced(template, "@SRC_DIR@"@, source_dir);
    let s2 = text::replaced(s1, "@DISTRO@"@, distro);
    let s3 = text::replaced(s2, "@BUILD_DIR@"@, "build"@);
    let s4 = text::replaced(s3, "@BUILD_TYPE@"@, "Release"@);
    let s5 = text::replaced(s4, "@SYMLINK_INSTALL@"@, python_install.flag_text());
    if pattern == "@SRC_DIR@"@ || !text::contains_text(template, pattern) {
        substitution_clears(template, "@SRC_DIR@"@, source_dir, pattern);
    }
    if pattern == "@DISTRO@"@ || !text::contains_text(s1, pattern) {
        substitution_clears(s1, "@DISTRO@"@, distro, pattern);
    }
    if pattern == "@BUILD_DIR@"@ || !text::contains_text(s2, pattern) {
        substitution_clears(s2, "@BUILD_DIR@"@, "build"@, pattern);
    }
    if pattern == "@BUILD_TYPE@"@ || !text::contains_text(s3, pattern) {
        substitution_clears(s3, "@BUILD_TYPE@"@, "Release"@, pattern);
    }
    if pattern == "@SYMLINK_INSTALL@"@ || !text::contains_text(s4, pattern) {
        substitution_clears(s4, "@SYMLINK_INSTALL@"@, python_install.flag_text(), pattern);
    }
    if let Some(xml) = package_xml {
        if pattern == "@PACKAGE_XML_CONTENT@"@ || !text::contains_text(s5, pattern) {
            substitution_clears(s5, "@PACKAGE_XML_CONTENT@"@, xml, pattern);
        }
    }
}

/// Where a template asks for the source directory, the rendered script names it.
pub proof fn the_source_directory_is_named(
    template: Seq<char>,
    distro: Seq<char>,
    source_dir: Seq<char>,
    package_xml: Option<Seq<char>>,
    python_install: PythonInstall,
)
    requires
        is_plain_value(source_dir),
        text::contains_text(template, "@SRC_DIR@"@),
    ensures
        text::contains_text(
            substituted(template, distro, source_dir, package_xml, python_install),
            source_dir,
        ),
{
    variables_are_marked();
    let s1 = text::replaced(template, "@SRC_DIR@"@, source_dir);
    let s2 = text::replaced(s1, "@DISTRO@"@, distro);
    let s3 = text::replaced(s2, "@BUILD_DIR@"@, "build"@);
    let s4 = text::replaced(s3, "@BUILD_TYPE@"@, "Release"@);
    let s5 = text::replaced(s4, "@SYMLINK_INSTALL@"@, python_install.flag_text());
    text::replacing_brings_the_value(template, "@SRC_DIR@"@, source_dir);
    plain_values_are_undisturbing(source_dir, "@DISTRO@"@);
    text::replacing_keeps_undisturbing_text(s1, "@DISTRO@"@, distro, source_dir, '@');
    plain_values_are_undisturbing(source_dir, "@BUILD_DIR@"@);
    text::replacing_keeps_undisturbing_text(s2, "@BUILD_DIR@"@, "build"@, source_dir, '@');
    plain_values_are_undisturbing(source_dir, "@BUILD_TYPE@"@);
    text::replacing_keeps_undisturbing_text(s3, "@BUILD_TYPE@"@, "Release"@, source_dir, '@');
    plain_values_are_undisturbing(source_dir, "@SYMLINK_INSTALL@"@);
    text::replacing_keeps_undisturbing_text(
        s4,
        "@SYMLINK_INSTALL@"@,
        python_install.flag_text(),
        source_dir,
        '@',
    );
    if let Some(xml) = package_xml {
        plain_values_are_undisturbing(source_dir, "@PACKAGE_XML_CONTENT@"@);
        text::replacing_keeps_undisturbing_text(
            s5,
            "@PACKAGE_XML_CONTENT@"@,
            xml,
            source_dir,
            '@',
        );
    }
}

/// `ament_idl` packages are built exactly like `ament_cmake` ones, and `cmake`
/// packages like `catkin` ones.
pub proof fn build_flows_are_shared(
    templates: Templates,
    is_windows: bool,
    distro: Seq<char>,
    source_dir: Seq<char>,
    package_xml: Option<Seq<char>>,
    python_install: PythonInstall,
)
    ensures
        script_on(
            templates,
            is_windows,
            "ament_idl"@,
            distro,
            source_dir,
            package_xml,
            python_install,
        ) == script_on(
            templates,
            is_windows,
            "ament_cmake"@,
            distro,
            source_dir,
            package_xml,
            python_install,
        ),
        script_on(
            templates,
            is_windows,
            "cmake"@,
            distro,
            source_dir,
            package_xml,
            python_install,
        ) == script_on(
            templates,
            is_windows,
            "catkin"@,
            distro,
            source_dir,
            package_xml,
            python_install,
        ),
{
    reveal_strlit("ament_cmake");
    reveal_strlit("ament_python");
    reveal_strlit("ament_cargo");
    reveal_strlit("ament_idl");
    reveal_strlit("cmake");
    reveal_strlit("catkin");
    assert("ament_idl"@.len() != "ament_cmake"@.len());
    assert("ament_idl"@.len() != "ament_python"@.len());
    assert("ament_idl"@.len() != "ament_cargo"@.len());
    assert("cmake"@.len() != "ament_cmake"@.len());
    assert("catkin"@.len() != "ament_cmake"@.len());
}

/// The contents of the package manifest change nothing of a script exactly if
/// nothing asks for them once the other variables are substituted.
pub proof fn the_manifest_counts_where_it_is_asked_for(
    template: Seq<char>,
    distro: Seq<char>,
    source_dir: Seq<char>,
    python_install: PythonInstall,
)
    ensures
        (forall|one: Option<Seq<char>>, other: Option<Seq<char>>| #[trigger]
            substituted(template, distro, source_dir, one, python_install) == #[trigger] substituted(
                template,
                distro,
                source_dir,
                other,
                python_install,
            )) <==> !text::contains_text(
            without_manifest(template, distro, source_dir, python_install),
            "@PACKAGE_XML_CONTENT@"@,
        ),
{
    reveal_strlit("@PACKAGE_XML_CONTENT@");
    let placed = without_manifest(template, distro, source_dir, python_install);
    let pattern = "@PACKAGE_XML_CONTENT@"@;
    if text::contains_text(placed, pattern) {
        text::removing_shortens(placed, pattern);
        let none = substituted(template, distro, source_dir, None, python_install);
        let empty = substituted(
            template,
            distro,
            source_dir,
            Some(Seq::empty()),
            python_install,
        );
        assert(none.len() != empty.len());
    } else {
        assert forall|xml: Option<Seq<char>>| #[trigger]
            substituted(template, distro, source_dir, xml, python_install) == placed by {
            if let Some(xml) = xml {
                text::replacing_nothing(placed, pattern, xml);
            }
        }
    }
}

/// The script of a `cmake` or `catkin` package does not depend on the contents
/// of the package manifest, as long as its template, with the distribution and
/// the source directory in it, does not ask for them.
pub proof fn catkin_scripts_ignore_the_manifest(
    templates: Templates,
    is_windows: bool,
    build_type: Seq<char>,
    distro: Seq<char>,
    source_dir: Seq<char>,
    one: Option<Seq<char>>,
    other: Option<Seq<char>>,
    python_install: PythonInstall,
)
    requires
        build_type == "cmake"@ || build_type == "catkin"@,
        !text::contains_text(
            without_manifest(
                templates.text_of(
                    if is_windows {
                        Template::CatkinWindows
                    } else {
                        Template::CatkinUnix
                    },
                ),
                distro,
                source_dir,
                python_install,
            ),
            "@PACKAGE_XML_CONTENT@"@,
        ),
    ensures
        script_on(
            templates,
            is_windows,
            build_type,
            distro,
            source_dir,
            one,
            python_install,
        ) == script_on(
            templates,
            is_windows,
            build_type,
            distro,
            source_dir,
            other,
            python_install,
        ),
{
    let template = if is_windows {
        Template::CatkinWindows
    } else {
        Template::CatkinUnix
    };
    reveal_strlit("ament_cmake");
    reveal_strlit("ament_python");
    reveal_strlit("ament_cargo");
    reveal_strlit("ament_idl");
    reveal_strlit("cmake");
    reveal_strlit("catkin");
    assert(build_type.len() <= 6);
    assert(template_for(build_type, is_windows) == Some(template));
    let text = templates.text_of(template);
    the_manifest_counts_where_it_is_asked_for(text, distro, source_dir, python_install);
    assert(substituted(text, distro, source_dir, one, python_install) == substituted(
        text,
        distro,
        source_dir,
        other,
        python_install,
    ));
}

/// Plain values do not ask for the contents of the package manifest: where a
/// template does not, it does not with such values in it either.
pub proof fn plain_values_ask_for_no_manifest(
    template: Seq<char>,
    distro: Seq<char>,
    source_dir: Seq<char>,
    python_install: PythonInstall,
)
    requires
        is_plain_value(distro),
        is_plain_value(source_dir),
        !text::contains_text(template, "@PACKAGE_XML_CONTENT@"@),
    ensures
        !text::contains_text(
            without_manifest(template, distro, source_dir, python_install),
            "@PACKAGE_XML_CONTENT@"@,
        ),
{
    variables_are_marked();
    constants_are_plain();
    let pattern = "@PACKAGE_XML_CONTENT@"@;
    let s1 = text::replaced(template, "@SRC_DIR@"@, source_dir);
    let s2 = text::replaced(s1, "@DISTRO@"@, distro);
    let s3 = text::replaced(s2, "@BUILD_DIR@"@, "build"@);
    let s4 = text::replaced(s3, "@BUILD_TYPE@"@, "Release"@);
    substitution_clears(template, "@SRC_DIR@"@, source_dir, pattern);
    substitution_clears(s1, "@DISTRO@"@, distro, pattern);
    substitution_clears(s2, "@BUILD_DIR@"@, "build"@, pattern);
    substitution_clears(s3, "@BUILD_TYPE@"@, "Release"@, pattern);
    substitution_clears(s4, "@SYMLINK_INSTALL@"@, python_install.flag_text(), pattern);
}

} // verus!
