use os_layer::commands::{get_platform, PlatformInfo};
use os_layer::platform::{current_platform, Platform, PlatformError};

#[test]
fn current_platform_knows_the_three_named_systems() {
    assert_eq!(current_platform("windows"), Platform::Windows);
    assert_eq!(current_platform("linux"), Platform::Linux);
    assert_eq!(current_platform("macos"), Platform::MacOs);
}

#[test]
fn current_platform_gives_unknown_outside_the_closed_set() {
    assert_eq!(current_platform("freebsd"), Platform::Unknown);
    assert_eq!(current_platform("android"), Platform::Unknown);
    assert_eq!(current_platform(""), Platform::Unknown);
}

#[test]
fn current_platform_takes_names_to_the_letter() {
    assert_eq!(current_platform("Linux"), Platform::Unknown);
    assert_eq!(current_platform("linux "), Platform::Unknown);
    assert_eq!(current_platform("win"), Platform::Unknown);
    assert_eq!(current_platform("macosx"), Platform::Unknown);
}

#[test]
fn current_platform_answers_the_same_each_time() {
    let first = current_platform("macos");
    let second = current_platform("macos");
    assert_eq!(first, second);
}

#[test]
fn get_platform_reports_platform_arch_and_os() {
    let info = get_platform("x86_64", "linux");
    assert_eq!(
        info,
        PlatformInfo {
            platform: Platform::Linux,
            arch: "x86_64".to_string(),
            os: "linux".to_string(),
        }
    );
}

#[test]
fn get_platform_keeps_the_name_of_an_unknown_system() {
    let info = get_platform("riscv64", "haiku");
    assert_eq!(info.platform, Platform::Unknown);
    assert_eq!(info.arch, "riscv64");
    assert_eq!(info.os, "haiku");
}

#[test]
fn a_message_is_shown_as_it_is() {
    let error = PlatformError::Msg("Could not resolve data directory".to_string());
    assert_eq!(error.to_string(), "Could not resolve data directory");
}

#[test]
fn an_empty_message_is_shown_empty() {
    assert_eq!(PlatformError::Msg(String::new()).to_string(), "");
}

#[test]
fn an_io_failure_is_shown_after_its_prefix() {
    let error = PlatformError::Io("No such file or directory (os error 2)".to_string());
    assert_eq!(error.to_string(), "IO error: No such file or directory (os error 2)");
}
