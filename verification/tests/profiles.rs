use launcher_profiles::error::Error;
use launcher_profiles::platform::Platform;
use launcher_profiles::profiles::{Channel, Profile, Server};

fn named(name: &str) -> Profile {
    Profile::new(name.to_string(), Server::Prod, Channel::Nightly)
}

fn installed_at(version: &str) -> Profile {
    let mut profile = named("default");
    profile.version = Some(version.to_string());
    profile
}

fn parts(path: &launcher_profiles::path::StoragePath) -> Vec<&str> {
    path.components.iter().map(|c| c.as_str()).collect()
}

#[test]
fn server_urls() {
    assert_eq!(Server::Prod.url(), "https://download.veloren.net");
    assert_eq!(Server::Staging.url(), "https://download.staging.veloren.net");
    assert_eq!(Server::Test.url(), "https://download.test.veloren.net");
}

#[test]
fn server_names_and_order() {
    assert_eq!(Server::Prod.name(), "Prod");
    assert_eq!(Server::Staging.name(), "Staging");
    assert_eq!(Server::Test.name(), "Test");
    assert_eq!(Server::all(), vec![Server::Prod, Server::Staging, Server::Test]);
}

#[test]
fn channel_name_is_lower_case() {
    assert_eq!(Channel::Nightly.name(), "nightly");
}

#[test]
fn new_profile_has_no_version() {
    let profile = Profile::new("main".to_string(), Server::Staging, Channel::Nightly);
    assert_eq!(profile.name, "main");
    assert_eq!(profile.server, Server::Staging);
    assert_eq!(profile.channel, Channel::Nightly);
    assert_eq!(profile.version, None);
}

#[test]
fn default_profile() {
    let profile = Profile::default();
    assert_eq!(profile, named("default"));
    assert_eq!(profile.version, None);
}

#[test]
fn directory_follows_name() {
    assert_eq!(parts(&named("default").directory()), vec!["profiles", "default"]);
    assert_eq!(parts(&named("other").directory()), vec!["profiles", "other"]);
}

#[test]
fn different_names_give_different_directories() {
    assert_ne!(named("a").directory(), named("b").directory());
    assert_ne!(named("a").directory(), named("a ").directory());
    assert_ne!(named("").directory(), named("a").directory());
}

#[test]
fn same_name_gives_same_directory() {
    let one = Profile::new("x".to_string(), Server::Prod, Channel::Nightly);
    let mut two = Profile::new("x".to_string(), Server::Test, Channel::Nightly);
    two.version = Some("1".to_string());
    assert_eq!(one.directory(), two.directory());
}

#[test]
fn paths_inside_the_directory() {
    let profile = named("default");
    assert_eq!(parts(&profile.download_path()), vec!["profiles", "default", "veloren.zip"]);
    assert_eq!(
        parts(&profile.voxygen_path(Platform::Posix)),
        vec!["profiles", "default", "veloren-voxygen"]
    );
    assert_eq!(
        parts(&profile.voxygen_path(Platform::Windows)),
        vec!["profiles", "default", "veloren-voxygen.exe"]
    );
    assert_eq!(
        parts(&profile.server_cli_path(Platform::Posix)),
        vec!["profiles", "default", "veloren-server-cli"]
    );
    assert_eq!(
        parts(&profile.server_cli_path(Platform::Windows)),
        vec!["profiles", "default", "veloren-server-cli.exe"]
    );
}

#[test]
fn urls_for_prod_nightly_linux() {
    let profile = named("default");
    assert_eq!(profile.version_url("linux"), "https://download.veloren.net/version/linux/nightly");
    assert_eq!(profile.url("linux"), "https://download.veloren.net/latest/linux/nightly");
}

#[test]
fn urls_for_other_servers_and_systems() {
    let staging = Profile::new("s".to_string(), Server::Staging, Channel::Nightly);
    assert_eq!(
        staging.url("windows"),
        "https://download.staging.veloren.net/latest/windows/nightly"
    );
    let test = Profile::new("t".to_string(), Server::Test, Channel::Nightly);
    assert_eq!(
        test.version_url("macos"),
        "https://download.test.veloren.net/version/macos/nightly"
    );
}

#[test]
fn installed_needs_binary_and_version() {
    assert!(installed_at("1").installed(true));
    assert!(!installed_at("1").installed(false));
    assert!(!named("default").installed(true));
    assert!(!named("default").installed(false));
}

#[test]
fn update_is_silent_when_installed_and_same_version() {
    let verdict = Profile::update(installed_at("0.9"), Ok(b"0.9".to_vec()), true);
    assert_eq!(verdict, Ok(None));
}

#[test]
fn update_names_a_different_version() {
    let verdict = Profile::update(installed_at("0.9"), Ok(b"0.10".to_vec()), true);
    assert_eq!(verdict, Ok(Some("0.10".to_string())));
}

#[test]
fn update_names_an_older_version_too() {
    let verdict = Profile::update(installed_at("2"), Ok(b"1".to_vec()), true);
    assert_eq!(verdict, Ok(Some("1".to_string())));
}

#[test]
fn update_when_binary_is_missing() {
    let verdict = Profile::update(installed_at("0.9"), Ok(b"0.9".to_vec()), false);
    assert_eq!(verdict, Ok(Some("0.9".to_string())));
}

#[test]
fn update_when_no_version_is_recorded() {
    let verdict = Profile::update(named("default"), Ok(b"0.9".to_vec()), true);
    assert_eq!(verdict, Ok(Some("0.9".to_string())));
    let verdict = Profile::update(named("default"), Ok(Vec::new()), true);
    assert_eq!(verdict, Ok(Some(String::new())));
}

#[test]
fn update_trims_the_body() {
    let verdict = Profile::update(installed_at("0.9"), Ok(b" 0.9\r\n".to_vec()), true);
    assert_eq!(verdict, Ok(None));
    let verdict = Profile::update(named("default"), Ok(b"\n\tnightly-7 \n".to_vec()), false);
    assert_eq!(verdict, Ok(Some("nightly-7".to_string())));
}

#[test]
fn update_rejects_a_body_that_is_no_text() {
    let verdict = Profile::update(installed_at("0.9"), Ok(vec![0x30, 0xff, 0x39]), true);
    assert_eq!(verdict, Err(Error::DecodeError));
}

#[test]
fn update_hands_a_failed_request_back() {
    let verdict = Profile::update(installed_at("0.9"), Err(Error::NetworkError), true);
    assert_eq!(verdict, Err(Error::NetworkError));
    let verdict = Profile::update(named("default"), Err(Error::IOError), false);
    assert_eq!(verdict, Err(Error::IOError));
}

#[test]
fn up_to_date_compares_texts() {
    let profile = installed_at("1.0");
    assert!(profile.up_to_date(&"1.0".to_string(), true));
    assert!(!profile.up_to_date(&"1.00".to_string(), true));
    assert!(!profile.up_to_date(&"1.0".to_string(), false));
    assert!(!named("default").up_to_date(&String::new(), true));
}

#[test]
fn install_records_the_version() {
    let profile = Profile::new("main".to_string(), Server::Test, Channel::Nightly);
    let installed = Profile::install(profile, "0.11".to_string(), Ok(())).unwrap();
    assert_eq!(installed.name, "main");
    assert_eq!(installed.server, Server::Test);
    assert_eq!(installed.channel, Channel::Nightly);
    assert_eq!(installed.version, Some("0.11".to_string()));
    assert!(installed.installed(true));
    assert!(!installed.installed(false));
}

#[test]
fn reinstall_replaces_the_version() {
    let installed = Profile::install(installed_at("1"), "2".to_string(), Ok(())).unwrap();
    assert_eq!(installed.version, Some("2".to_string()));
}

#[test]
fn failed_install_yields_the_failure() {
    assert_eq!(
        Profile::install(named("default"), "1".to_string(), Err(Error::IOError)),
        Err(Error::IOError)
    );
    assert_eq!(
        Profile::install(installed_at("1"), "2".to_string(), Err(Error::PatchError)),
        Err(Error::PatchError)
    );
}
