use pixi_logic::build_script::{
    render_build_script, render_build_script_on, select_template, substitute, BuildScriptError,
    PythonInstall, Template, Templates,
};
use pixi_logic::globs::{ROS_PYTHON_SOURCE_GLOBS, ROS_SOURCE_GLOBS};

fn templates() -> Templates {
    let unix = "export ROS_DISTRO=@DISTRO@\ncd @SRC_DIR@\n--build-type @BUILD_TYPE@\n";
    let windows = "set ROS_DISTRO=@DISTRO@\ncd @SRC_DIR@\n--build-type @BUILD_TYPE@\n";
    let python = "if [ \"@SYMLINK_INSTALL@\" = \"1\" ]; then\n  pip install -e @SRC_DIR@\nfi\n";
    Templates {
        ament_cmake_unix: unix.to_owned(),
        ament_cmake_windows: windows.to_owned(),
        ament_python_unix: python.to_owned(),
        ament_python_windows: python.to_owned(),
        ament_cargo_unix: format!("{unix}cargo ament-build\n"),
        catkin_unix: unix.to_owned(),
        catkin_windows: windows.to_owned(),
    }
}

#[test]
fn test_render_ament_cmake() {
    let script = render_build_script(
        &templates(),
        "ament_cmake",
        "humble",
        "/my/source",
        None,
        PythonInstall::Copied,
    )
    .unwrap();

    assert!(script.contains("/my/source"));
    assert!(script.contains("Release"));
    assert!(!script.contains("@SRC_DIR@"));
    assert!(!script.contains("@BUILD_TYPE@"));
}

#[test]
fn test_render_ament_python() {
    let script = render_build_script(
        &templates(),
        "ament_python",
        "jazzy",
        "/src",
        None,
        PythonInstall::Copied,
    )
    .unwrap();

    assert!(script.contains("/src"));
    assert!(!script.contains("@SRC_DIR@"));
}

#[test]
fn test_render_catkin() {
    let script = render_build_script(
        &templates(),
        "catkin",
        "noetic",
        "/pkg",
        None,
        PythonInstall::Copied,
    )
    .unwrap();

    assert!(script.contains("/pkg"));
    assert!(script.contains("noetic"));
}

#[test]
fn test_render_ament_cargo() {
    let script = render_build_script(
        &templates(),
        "ament_cargo",
        "kilted",
        "/work",
        None,
        PythonInstall::Copied,
    )
    .unwrap();

    assert!(script.contains("cargo ament-build"));
    assert!(script.contains("/work"));
    assert!(script.contains("kilted"));
    assert!(!script.contains("@SRC_DIR@"));
    assert!(!script.contains("@DISTRO@"));
}

#[test]
fn test_python_install_resolve() {
    assert_eq!(
        PythonInstall::resolve("ament_python", true),
        PythonInstall::Symlinked
    );
    assert_eq!(
        PythonInstall::resolve("ament_python", false),
        PythonInstall::Copied
    );
    assert_eq!(
        PythonInstall::resolve("ament_cmake", true),
        PythonInstall::Copied
    );
}

#[test]
fn test_symlink_install_toggle() {
    let src = "/src";
    let symlinked = render_build_script(
        &templates(),
        "ament_python",
        "jazzy",
        src,
        None,
        PythonInstall::Symlinked,
    )
    .unwrap();
    let copied = render_build_script(
        &templates(),
        "ament_python",
        "jazzy",
        src,
        None,
        PythonInstall::Copied,
    )
    .unwrap();

    assert!(symlinked.contains(r#"if [ "1" = "1" ]"#));
    assert!(copied.contains(r#"if [ "0" = "1" ]"#));
    assert!(!symlinked.contains("@SYMLINK_INSTALL@"));
}

#[test]
fn test_unsupported_build_type() {
    let result = render_build_script(
        &templates(),
        "unknown_type",
        "jazzy",
        "/src",
        None,
        PythonInstall::Copied,
    );
    assert!(matches!(
        result,
        Err(BuildScriptError::UnsupportedBuildType { .. })
    ));
}

#[test]
fn each_build_type_has_its_template() {
    let chosen = |build_type: &str, is_windows: bool| select_template(build_type, is_windows).ok();
    assert_eq!(chosen("ament_cmake", false), Some(Template::AmentCmakeUnix));
    assert_eq!(chosen("ament_cmake", true), Some(Template::AmentCmakeWindows));
    assert_eq!(chosen("ament_python", false), Some(Template::AmentPythonUnix));
    assert_eq!(chosen("ament_python", true), Some(Template::AmentPythonWindows));
    assert_eq!(chosen("cmake", false), chosen("catkin", false));
    assert_eq!(chosen("cmake", true), chosen("catkin", true));
    assert_eq!(chosen("catkin", true), Some(Template::CatkinWindows));
    assert_eq!(chosen("ament_cargo", false), Some(Template::AmentCargoUnix));
    assert_eq!(chosen("ament_cargo", true), None);
    assert_eq!(chosen("ament_idl", false), Some(Template::AmentCmakeUnix));
    assert_eq!(chosen("ament_idl", true), Some(Template::AmentCmakeWindows));
    assert_eq!(chosen("", false), None);
}

#[test]
fn a_refused_build_type_is_named() {
    let error = select_template("ament_zig", false).unwrap_err();
    assert_eq!(error.message(), "unsupported ROS build type: 'ament_zig'");
    assert!(error.help().starts_with("Supported build types are: "));
}

#[test]
fn variables_are_filled_in() {
    let text = "@SRC_DIR@|@SRC_DIR@|@DISTRO@|@BUILD_DIR@|@BUILD_TYPE@|@SYMLINK_INSTALL@|@";
    assert_eq!(
        substitute(text, "humble", "/a", None, PythonInstall::Symlinked),
        "/a|/a|humble|build|Release|1|@"
    );
    let xml = "<@PACKAGE_XML_CONTENT@>";
    assert_eq!(
        substitute(xml, "humble", "/a", Some("package"), PythonInstall::Copied),
        "<package>"
    );
    assert_eq!(
        substitute(xml, "humble", "/a", None, PythonInstall::Copied),
        "<@PACKAGE_XML_CONTENT@>"
    );
}

#[test]
fn a_script_can_be_rendered_for_either_platform() {
    let on = |is_windows: bool| {
        render_build_script_on(
            &templates(),
            is_windows,
            "ament_cmake",
            "humble",
            "C:\\src",
            None,
            PythonInstall::Copied,
        )
        .unwrap()
    };
    assert!(on(true).starts_with("set ROS_DISTRO=humble\n"));
    assert!(on(false).starts_with("export ROS_DISTRO=humble\n"));
    assert!(on(true).contains("C:\\src"));
}

#[test]
fn catkin_scripts_do_not_depend_on_the_manifest() {
    for build_type in ["cmake", "catkin"] {
        for is_windows in [false, true] {
            let script = |xml: Option<&str>| {
                render_build_script_on(
                    &templates(),
                    is_windows,
                    build_type,
                    "noetic",
                    "/pkg",
                    xml,
                    PythonInstall::Copied,
                )
                .unwrap()
            };
            assert_eq!(script(None), script(Some("<package/>")));
        }
    }
}

#[test]
fn python_sources_are_not_among_the_others() {
    assert_eq!(ROS_SOURCE_GLOBS.len(), 21);
    assert_eq!(ROS_PYTHON_SOURCE_GLOBS.len(), 2);
    for glob in ROS_PYTHON_SOURCE_GLOBS {
        assert!(!ROS_SOURCE_GLOBS.contains(&glob));
    }
}
