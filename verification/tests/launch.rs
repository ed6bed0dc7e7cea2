use launcher_profiles::launch::{map_verbosity, EnvValue, LaunchSpec};
use launcher_profiles::path::StoragePath;
use launcher_profiles::platform::Platform;
use launcher_profiles::profiles::Profile;

fn path(parts: &[&str]) -> StoragePath {
    StoragePath { components: parts.iter().map(|p| p.to_string()).collect() }
}

fn value_of<'a>(spec: &'a LaunchSpec, name: &str) -> &'a EnvValue {
    let found: Vec<&EnvValue> =
        spec.env.iter().filter(|var| var.name == name).map(|var| &var.value).collect();
    assert_eq!(found.len(), 1);
    found[0]
}

#[test]
fn verbosity_levels() {
    assert_eq!(map_verbosity(0), "info");
    assert_eq!(map_verbosity(1), "debug");
    assert_eq!(map_verbosity(2), "trace");
    assert_eq!(map_verbosity(99), "trace");
}

#[test]
fn negative_verbosity_is_trace() {
    assert_eq!(map_verbosity(-1), "trace");
    assert_eq!(map_verbosity(i32::MIN), "trace");
    assert_eq!(map_verbosity(i32::MAX), "trace");
}

#[test]
fn launch_spec_of_default_profile() {
    let profile = Profile::default();
    let spec = Profile::start(&profile, 0, Platform::Posix);
    assert_eq!(spec.working_dir, profile.directory());
    assert_eq!(spec.program, path(&["profiles", "default", "veloren-voxygen"]));
    assert_eq!(spec.env.len(), 4);
    assert_eq!(
        value_of(&spec, "VOXYGEN_SCREENSHOT"),
        &EnvValue::Dir(path(&["profiles", "default", "screenshots"]))
    );
    assert_eq!(
        value_of(&spec, "VELOREN_USERDATA"),
        &EnvValue::Dir(path(&["profiles", "default", "userdata"]))
    );
    assert_eq!(
        value_of(&spec, "VELOREN_ASSETS"),
        &EnvValue::Dir(path(&["profiles", "default", "assets"]))
    );
    assert_eq!(value_of(&spec, "RUST_LOG"), &EnvValue::Text("info".to_string()));
}

#[test]
fn launch_directories_lie_in_the_profile_directory() {
    let profile = Profile::default();
    let spec = Profile::start(&profile, 1, Platform::Posix);
    let directory = profile.directory();
    assert_eq!(value_of(&spec, "VOXYGEN_SCREENSHOT"), &EnvValue::Dir(directory.join("screenshots")));
    assert_eq!(value_of(&spec, "VELOREN_USERDATA"), &EnvValue::Dir(directory.join("userdata")));
    assert_eq!(value_of(&spec, "VELOREN_ASSETS"), &EnvValue::Dir(directory.join("assets")));
}

#[test]
fn launch_names_are_distinct() {
    let spec = Profile::start(&Profile::default(), 0, Platform::Windows);
    for i in 0..spec.env.len() {
        for j in (i + 1)..spec.env.len() {
            assert_ne!(spec.env[i].name, spec.env[j].name);
        }
    }
}

#[test]
fn launch_on_windows_uses_the_exe() {
    let spec = Profile::start(&Profile::default(), 5, Platform::Windows);
    assert_eq!(spec.program, path(&["profiles", "default", "veloren-voxygen.exe"]));
    assert_eq!(value_of(&spec, "RUST_LOG"), &EnvValue::Text("trace".to_string()));
}

#[test]
fn launch_log_level_follows_verbosity() {
    let profile = Profile::default();
    let debug = Profile::start(&profile, 1, Platform::Posix);
    assert_eq!(value_of(&debug, "RUST_LOG"), &EnvValue::Text("debug".to_string()));
    let trace = Profile::start(&profile, -3, Platform::Posix);
    assert_eq!(value_of(&trace, "RUST_LOG"), &EnvValue::Text("trace".to_string()));
}

#[test]
fn storage_path_join_appends() {
    let root = StoragePath::root();
    assert!(root.components.is_empty());
    let one = root.join("a");
    let two = one.join("b");
    assert_eq!(one, path(&["a"]));
    assert_eq!(two, path(&["a", "b"]));
    assert!(root.components.is_empty());
}
