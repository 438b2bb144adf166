use plugin_loader::error::PluginError;
use plugin_loader::naming::{library_file_name, library_path, platform_of, Platform};

#[test]
fn linux_file_name() {
    assert_eq!(library_file_name("linux", "foo").unwrap(), "libfoo.so");
}

#[test]
fn macos_file_name() {
    assert_eq!(library_file_name("macos", "foo").unwrap(), "libfoo.dylib");
}

#[test]
fn windows_file_name() {
    assert_eq!(library_file_name("windows", "foo").unwrap(), "foo.dll");
}

#[test]
fn unknown_platform_is_unsupported() {
    assert!(matches!(library_file_name("plan9", "foo"), Err(PluginError::UnsupportedPlatform)));
    assert!(matches!(library_file_name("", "foo"), Err(PluginError::UnsupportedPlatform)));
    assert!(matches!(library_file_name("Linux", "foo"), Err(PluginError::UnsupportedPlatform)));
    assert!(matches!(library_file_name("linuxx", "foo"), Err(PluginError::UnsupportedPlatform)));
}

#[test]
fn platform_names() {
    assert_eq!(platform_of("linux").unwrap(), Platform::Linux);
    assert_eq!(platform_of("macos").unwrap(), Platform::MacOs);
    assert_eq!(platform_of("windows").unwrap(), Platform::Windows);
    assert!(platform_of("freebsd").is_err());
}

#[test]
fn path_inside_directory() {
    assert_eq!(library_path("linux", Some("/opt/plugins"), "csv").unwrap(), "/opt/plugins/libcsv.so");
    assert_eq!(library_path("windows", Some("C:/plugins"), "csv").unwrap(), "C:/plugins/csv.dll");
}

#[test]
fn path_without_directory_is_bare_file_name() {
    assert_eq!(library_path("macos", None, "testplugin").unwrap(), "libtestplugin.dylib");
}

#[test]
fn path_on_unknown_platform_is_unsupported() {
    assert!(matches!(
        library_path("haiku", Some("/opt"), "foo"),
        Err(PluginError::UnsupportedPlatform)
    ));
}

#[test]
fn empty_plugin_name() {
    assert_eq!(library_file_name("linux", "").unwrap(), "lib.so");
    assert_eq!(library_file_name("windows", "").unwrap(), ".dll");
}
