use grin_gui_core::build_info::{info_strings, BuildInfo};
use grin_gui_core::utility::{format_interface_into_game_version, truncate};

#[test]
fn test_interface() {
    let interface = "90001";
    assert_eq!("9.0.1", format_interface_into_game_version(interface));

    let interface = "11305";
    assert_eq!("1.13.5", format_interface_into_game_version(interface));

    let interface = "100000";
    assert_eq!("100000", format_interface_into_game_version(interface));

    let interface = "9.0.1";
    assert_eq!("9.0.1", format_interface_into_game_version(interface));
}

#[test]
fn interface_with_plus_sign_parts() {
    assert_eq!("1.2.3", format_interface_into_game_version("1+2+3"));
    assert_eq!("0.0.0", format_interface_into_game_version("00000"));
    assert_eq!("9.99.99", format_interface_into_game_version("99999"));
}

#[test]
fn interface_not_numeric_is_kept() {
    assert_eq!("9a001", format_interface_into_game_version("9a001"));
    assert_eq!("+0001", format_interface_into_game_version("+0001"));
    assert_eq!("", format_interface_into_game_version(""));
    assert_eq!("1é23", format_interface_into_game_version("1é23"));
}

#[test]
fn truncate_counts_characters() {
    assert_eq!("héllo", truncate("héllo wörld", 5));
    assert_eq!("abc", truncate("abc", 5));
    assert_eq!("", truncate("abc", 0));
    assert_eq!("abc", truncate("abc", 3));
}

#[test]
fn info_strings_with_and_without_git() {
    let mut info = BuildInfo {
        pkg_version: "0.1.0".to_owned(),
        git_version: Some("abc123".to_owned()),
        target: "x86_64-unknown-linux-gnu".to_owned(),
        rustc_version: "rustc 1.80.0".to_owned(),
        profile: "release".to_owned(),
        features: "default".to_owned(),
    };
    let (basic, detailed) = info_strings(&info);
    assert_eq!(
        "This is Grin version 0.1.0 (git abc123), built for x86_64-unknown-linux-gnu by rustc 1.80.0.",
        basic
    );
    assert_eq!("Built with profile \"release\", features \"default\".", detailed);
    info.git_version = None;
    let (basic, _) = info_strings(&info);
    assert_eq!(
        "This is Grin version 0.1.0, built for x86_64-unknown-linux-gnu by rustc 1.80.0.",
        basic
    );
}
