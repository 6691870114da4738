use herdr_harness_coordinator::{
    contract::{HarnessKind, HarnessLaunchProfileV1, HarnessLaunchProfileV2},
    validation::Validate,
};

fn pinned() -> HarnessLaunchProfileV1 {
    HarnessLaunchProfileV1 {
        schema_version: 1,
        id: "omp-worker".parse().expect("valid ID"),
        kind: HarnessKind::Omp,
        executable: "/usr/bin/omp".to_owned(),
        provider_profile: "work".to_owned(),
        model: Some("vendor/sonnet-4".to_owned()),
        inherit_env: vec!["ANTHROPIC_API_KEY".to_owned()],
        config_overlays: vec!["/home/user/.config/omp/coordinator.yml".to_owned()],
    }
}

#[test]
fn launch_profile_resolves_a_pinned_omp_configuration() {
    let profile = pinned();

    profile.validate().expect("profile must validate");
    assert_eq!(profile.kind, HarnessKind::Omp);
}

#[test]
fn codex_profiles_refuse_config_overlays() {
    let mut profile = pinned();
    profile.kind = HarnessKind::Codex;
    let error = profile.validate().expect_err("overlays are OMP-only");
    assert_eq!(
        error.to_text(),
        "invalid `config_overlays`: is supported only for OMP profiles"
    );
}

#[test]
fn launch_profiles_refuse_invalid_environment_names() {
    let mut profile = pinned();
    profile.inherit_env = vec!["lower_case".to_owned()];
    let error = profile.validate().expect_err("names are upper case");
    assert_eq!(
        error.to_text(),
        "invalid `inherit_env`: contains an invalid environment name"
    );
}

fn kimi() -> HarnessLaunchProfileV2 {
    HarnessLaunchProfileV2 {
        schema_version: 2,
        id: "omp-kimi".parse().expect("valid ID"),
        kind: HarnessKind::Omp,
        executable: "omp".to_owned(),
        provider_profile: None,
        model: Some("kimi-code/k3:high".to_owned()),
        inherit_env: vec!["PATH".to_owned()],
        config_overlays: Vec::new(),
    }
}

#[test]
fn launch_profile_v2_accepts_a_bare_executable_and_existing_default_profile() {
    let profile = kimi();

    profile.validate().expect("profile must validate");
    assert_eq!(profile.provider_profile, None);
}

#[test]
fn launch_profiles_refuse_an_unknown_schema_version() {
    let mut profile = kimi();
    profile.schema_version = 3;
    let error = profile.validate().expect_err("only schema 1 or 2");
    assert_eq!(error.to_text(), "invalid `schema_version`: must equal 1 or 2");
}

#[test]
fn schema_one_profiles_need_an_absolute_executable_and_a_provider_profile() {
    let mut profile = kimi();
    profile.schema_version = 1;
    let error = profile.validate().expect_err("bare names need schema 2");
    assert_eq!(
        error.to_text(),
        "invalid `executable`: must be an absolute path of at most 4096 bytes"
    );
    profile.executable = "/usr/bin/omp".to_owned();
    let error = profile.validate().expect_err("schema 1 names its provider profile");
    assert_eq!(
        error.to_text(),
        "invalid `provider_profile`: is required by schema_version 1"
    );
    profile.provider_profile = Some("work".to_owned());
    profile.validate().expect("a complete schema 1 profile validates");
    let converted = HarnessLaunchProfileV2::from_v1(pinned());
    converted.validate().expect("a converted schema 1 profile validates");
    assert_eq!(converted.provider_profile.as_deref(), Some("work"));
}

#[test]
fn schema_two_executables_are_absolute_paths_or_bare_names() {
    let mut profile = kimi();
    profile.executable = "bin/omp".to_owned();
    let error = profile.validate().expect_err("a relative path is neither");
    assert_eq!(
        error.to_text(),
        "invalid `executable`: must be an absolute path or a bare executable name"
    );
    profile.executable = "/opt/omp/bin/omp".to_owned();
    profile.validate().expect("an absolute path validates");
}
