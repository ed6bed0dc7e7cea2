use launcher_profiles::profiles::{Channel, Profile, Server};
use launcher_profiles::record::ProfileRecord;

#[test]
fn record_round_trip_keeps_the_profile() {
    let mut profile = Profile::new("main".to_string(), Server::Staging, Channel::Nightly);
    profile.version = Some("0.12".to_string());
    let back = ProfileRecord::from_profile(profile.clone()).into_profile();
    assert_eq!(back, profile);
}

#[test]
fn record_round_trip_without_version() {
    let profile = Profile::default();
    let back = ProfileRecord::from_profile(profile.clone()).into_profile();
    assert_eq!(back, profile);
    assert_eq!(back.version, None);
}

#[test]
fn record_of_a_profile_stores_no_directory() {
    let record = ProfileRecord::from_profile(Profile::default());
    assert_eq!(record.directory, None);
    assert_eq!(record.name, "default");
    assert_eq!(record.server, Server::Prod);
    assert_eq!(record.channel, Channel::Nightly);
    assert_eq!(record.version, None);
}

#[test]
fn stored_directory_is_ignored() {
    let with = ProfileRecord {
        name: "main".to_string(),
        server: Server::Test,
        channel: Channel::Nightly,
        directory: Some("/somewhere/else/entirely".to_string()),
        version: Some("3".to_string()),
    };
    let without = ProfileRecord { directory: None, ..with.clone() };
    let profile = with.into_profile();
    assert_eq!(profile, without.into_profile());
    assert_eq!(profile.name, "main");
    assert_eq!(profile.server, Server::Test);
    assert_eq!(profile.channel, Channel::Nightly);
    assert_eq!(profile.version, Some("3".to_string()));
    assert_eq!(profile.directory().components, vec!["profiles".to_string(), "main".to_string()]);
}
