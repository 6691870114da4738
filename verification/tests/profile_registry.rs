use herdr_harness_coordinator::{
    contract::{HarnessId, HarnessKind, HarnessLaunchProfileV2},
    profile::{
        EnvironmentMap, ProfileError, ProfileFile, ProfileRegistry, executable_candidates, path_dirs,
        profile_paths, referenced_files, snapshot_digest,
    },
};

fn profile(id: &str, kind: HarnessKind, inherit_env: &[&str]) -> HarnessLaunchProfileV2 {
    HarnessLaunchProfileV2 {
        schema_version: 1,
        id: id.parse().expect("valid ID"),
        kind,
        executable: "/usr/bin/omp".to_owned(),
        provider_profile: Some("coordinator-worker".to_owned()),
        model: None,
        inherit_env: inherit_env.iter().map(|name| (*name).to_owned()).collect(),
        config_overlays: Vec::new(),
    }
}

fn pairs(items: &[(&str, &str)]) -> Vec<(String, String)> {
    items
        .iter()
        .map(|(name, value)| ((*name).to_owned(), (*value).to_owned()))
        .collect()
}

#[test]
fn registry_resolves_only_the_explicit_profile_and_filters_environment() {
    let source = "schema_version = 1\nid = \"omp-main\"\nkind = \"omp\"\nexecutable = \"/usr/bin/omp\"\nprovider_profile = \"coordinator-worker\"\ninherit_env = [\"PATH\", \"API_TOKEN\"]\n".to_owned();
    let mut registry = ProfileRegistry::new();
    registry
        .register(
            "/profiles/omp.toml".to_owned(),
            source.clone(),
            profile("omp-main", HarnessKind::Omp, &["PATH", "API_TOKEN"]),
            None,
        )
        .expect("registry must load");
    assert_eq!(
        registry.ids(),
        vec!["omp-main".parse::<HarnessId>().expect("valid ID")]
    );
    let resolved = registry
        .resolve(
            &"omp-main".parse().expect("valid ID"),
            HarnessKind::Omp,
            pairs(&[("PATH", "/bin"), ("SECRET", "excluded")]),
            &Vec::new(),
        )
        .expect("explicit profile must resolve");
    assert_eq!(resolved.snapshot, source);
    assert_eq!(resolved.digest.len(), 64);
    assert_eq!(resolved.digest, snapshot_digest(&source));
    assert_eq!(resolved.executable, "/usr/bin/omp");
    assert_eq!(
        resolved.environment.get("PATH").map(String::as_str),
        Some("/bin")
    );
    assert!(!resolved.environment.contains_key("SECRET"));
}

#[test]
fn registry_rejects_kind_mismatch_instead_of_routing_automatically() {
    let mut registry = ProfileRegistry::new();
    registry
        .register(
            "/profiles/omp.toml".to_owned(),
            "schema_version = 1\n".to_owned(),
            profile("omp-main", HarnessKind::Omp, &[]),
            None,
        )
        .expect("registry must load");
    let error = match registry.resolve(
        &"omp-main".parse().expect("valid ID"),
        HarnessKind::Codex,
        Vec::new(),
        &Vec::new(),
    ) {
        Ok(_) => panic!("registry must not choose another profile or Kind"),
        Err(error) => error,
    };
    assert!(error.to_text().contains("not compatible"));
    assert_eq!(
        error.to_text(),
        "launch profile `omp-main` is not compatible with Codex"
    );
}

#[test]
fn registry_lists_ids_in_ascending_order_and_rejects_duplicates() {
    let mut registry = ProfileRegistry::new();
    for id in ["omp-b", "omp-a", "omp-c"] {
        registry
            .register(
                format!("/profiles/{id}.toml"),
                String::new(),
                profile(id, HarnessKind::Omp, &[]),
                None,
            )
            .expect("distinct profiles load");
    }
    let ids: Vec<String> = registry.ids().iter().map(|id| id.as_str().to_owned()).collect();
    assert_eq!(ids, vec!["omp-a", "omp-b", "omp-c"]);
    let error = registry
        .register(
            "/profiles/again.toml".to_owned(),
            String::new(),
            profile("omp-b", HarnessKind::Omp, &[]),
            None,
        )
        .expect_err("a second profile with the same ID is refused");
    assert_eq!(error.to_text(), "duplicate launch profile ID `omp-b`");
    assert_eq!(registry.ids().len(), 3);
}

#[test]
fn registry_refuses_invalid_and_missing_file_profiles() {
    let mut registry = ProfileRegistry::new();
    let mut invalid = profile("omp-x", HarnessKind::Omp, &[]);
    invalid.executable = "relative/omp".to_owned();
    let error = registry
        .register("/profiles/x.toml".to_owned(), String::new(), invalid, None)
        .expect_err("relative executable is refused");
    assert!(matches!(error, ProfileError::Validation { .. }));
    assert_eq!(
        error.to_text(),
        "invalid launch profile `/profiles/x.toml`: invalid `executable`: must be an absolute path of at most 4096 bytes"
    );
    let error = registry
        .register(
            "/profiles/y.toml".to_owned(),
            String::new(),
            profile("omp-y", HarnessKind::Omp, &[]),
            Some("/usr/bin/omp".to_owned()),
        )
        .expect_err("missing executable is refused");
    assert_eq!(
        error.to_text(),
        "launch profile `omp-y` references a missing or non-regular file `/usr/bin/omp`"
    );
    assert!(registry.ids().is_empty());
}

#[test]
fn resolving_an_unknown_profile_reports_not_found() {
    let registry = ProfileRegistry::new();
    let error = match registry.resolve(
        &"nobody".parse().expect("valid ID"),
        HarnessKind::Omp,
        Vec::new(),
        &Vec::new(),
    ) {
        Ok(_) => panic!("nothing is registered"),
        Err(error) => error,
    };
    assert_eq!(error.to_text(), "launch profile `nobody` does not exist");
}

#[test]
fn later_environment_values_replace_earlier_ones() {
    let mut registry = ProfileRegistry::new();
    registry
        .register(
            "/profiles/omp.toml".to_owned(),
            String::new(),
            profile("omp-main", HarnessKind::Omp, &["PATH"]),
            None,
        )
        .expect("registry must load");
    let resolved = registry
        .resolve(
            &"omp-main".parse().expect("valid ID"),
            HarnessKind::Omp,
            pairs(&[("PATH", "/bin"), ("PATH", "/usr/bin")]),
            &Vec::new(),
        )
        .expect("profile resolves");
    assert_eq!(resolved.environment.len(), 1);
    assert_eq!(
        resolved.environment.get("PATH").map(String::as_str),
        Some("/usr/bin")
    );
}

#[test]
fn snapshot_digest_is_the_lowercase_sha256_of_the_text() {
    assert_eq!(
        snapshot_digest("abc"),
        "ba7816bf8f01cfea414140de5dae2223b00361a396177a9cb410ff61f20015ad"
    );
    assert_eq!(
        snapshot_digest(""),
        "e3b0c44298fc1c149afbf4c8996fb92427ae41e4649b934ca495991b7852b855"
    );
}

#[test]
fn environment_map_keeps_one_value_per_name() {
    let mut map = EnvironmentMap::new();
    map.insert("A".to_owned(), "1".to_owned());
    map.insert("B".to_owned(), "2".to_owned());
    map.insert("A".to_owned(), "3".to_owned());
    assert_eq!(map.len(), 2);
    assert_eq!(map.get("A").map(String::as_str), Some("3"));
    assert!(map.contains_key("B"));
    assert!(!map.contains_key("C"));
}

#[test]
fn profile_errors_render_their_path_and_diagnostic() {
    let io = ProfileError::Io {
        path: "/profiles".to_owned(),
        message: "permission denied".to_owned(),
    };
    assert_eq!(
        io.to_text(),
        "cannot read launch profile path `/profiles`: permission denied"
    );
    let toml = ProfileError::Toml {
        path: "/profiles/omp.toml".to_owned(),
        message: "missing field `id`".to_owned(),
    };
    assert_eq!(
        toml.to_text(),
        "invalid launch profile TOML `/profiles/omp.toml`: missing field `id`"
    );
}

#[test]
fn profile_directories_load_toml_children_in_byte_order() {
    let children = vec![
        "/p/b.toml".to_owned(),
        "/p/readme.md".to_owned(),
        "/p/.toml".to_owned(),
        "/p/a-b.toml".to_owned(),
        "/p/a.toml".to_owned(),
        "/p/a.toml.bak".to_owned(),
    ];
    assert_eq!(
        profile_paths(children),
        vec!["/p/a-b.toml", "/p/a.toml", "/p/b.toml"]
    );
    let mut omp = profile("omp-main", HarnessKind::Omp, &[]);
    omp.config_overlays = vec!["/etc/omp/a.yml".to_owned(), "/etc/omp/b.yml".to_owned()];
    assert_eq!(
        referenced_files(&omp),
        vec!["/usr/bin/omp", "/etc/omp/a.yml", "/etc/omp/b.yml"]
    );
    omp.schema_version = 2;
    omp.executable = "omp".to_owned();
    assert_eq!(
        referenced_files(&omp),
        vec!["/etc/omp/a.yml", "/etc/omp/b.yml"]
    );
}

fn kimi() -> HarnessLaunchProfileV2 {
    HarnessLaunchProfileV2 {
        schema_version: 2,
        id: "omp-kimi".parse().expect("valid ID"),
        kind: HarnessKind::Omp,
        executable: "omp-current".to_owned(),
        provider_profile: None,
        model: Some("kimi-code/k3:high".to_owned()),
        inherit_env: vec!["PATH".to_owned()],
        config_overlays: Vec::new(),
    }
}

#[test]
fn registry_resolves_v2_bare_executable_on_each_new_session() {
    let source = "schema_version = 2\nid = \"omp-kimi\"\nkind = \"omp\"\nexecutable = \"omp-current\"\nmodel = \"kimi-code/k3:high\"\ninherit_env = [\"PATH\"]\n".to_owned();
    let mut registry = ProfileRegistry::new();
    registry
        .register("/profiles/omp.toml".to_owned(), source, kimi(), None)
        .expect("registry must load");
    let bin = "/tmp/bin-dir";
    let executable = format!("{bin}/omp-current");
    let environment = pairs(&[("PATH", bin)]);
    let id: HarnessId = "omp-kimi".parse().expect("valid ID");
    assert_eq!(registry.executable_search(&id, &environment), vec![executable.clone()]);

    let resolved = registry
        .resolve(&id, HarnessKind::Omp, environment, &vec![executable.clone()])
        .expect("bare executable must resolve");

    assert_eq!(resolved.executable, executable);
    assert_eq!(resolved.profile.provider_profile, None);
}

#[test]
fn bare_executables_take_the_first_regular_file_on_the_inherited_path() {
    let mut registry = ProfileRegistry::new();
    registry
        .register("/profiles/omp.toml".to_owned(), String::new(), kimi(), None)
        .expect("registry must load");
    let id: HarnessId = "omp-kimi".parse().expect("valid ID");
    let environment = pairs(&[("PATH", "/opt/a::/opt/b/:/opt/c"), ("HOME", "/root")]);
    assert_eq!(
        registry.executable_search(&id, &environment),
        vec!["/opt/a/omp-current", "/opt/b/omp-current", "/opt/c/omp-current"]
    );
    let files = vec!["/opt/c/omp-current".to_owned(), "/opt/b/omp-current".to_owned()];
    let resolved = registry
        .resolve(&id, HarnessKind::Omp, environment.clone(), &files)
        .expect("found in the second directory");
    assert_eq!(resolved.executable, "/opt/b/omp-current");
    assert!(!resolved.environment.contains_key("HOME"));

    let error = match registry.resolve(&id, HarnessKind::Omp, environment, &Vec::new()) {
        Ok(_) => panic!("no searched path is a regular file"),
        Err(error) => error,
    };
    assert_eq!(
        error.to_text(),
        "launch profile `omp-kimi` executable `omp-current` was not found on the inherited PATH"
    );
    let error = match registry.resolve(
        &id,
        HarnessKind::Omp,
        pairs(&[("HOME", "/root")]),
        &files,
    ) {
        Ok(_) => panic!("no PATH was inherited"),
        Err(error) => error,
    };
    assert!(matches!(error, ProfileError::ExecutableNotFound { .. }));
}

#[test]
fn search_paths_split_at_each_colon() {
    assert_eq!(path_dirs("/a::/b/"), vec!["/a", "", "/b/"]);
    assert_eq!(path_dirs(""), vec![""]);
    let mut environment = EnvironmentMap::new();
    assert!(executable_candidates("omp", &environment).is_empty());
    environment.insert("PATH".to_owned(), "/usr/local/bin:/usr/bin".to_owned());
    assert_eq!(
        executable_candidates("omp", &environment),
        vec!["/usr/local/bin/omp", "/usr/bin/omp"]
    );
    assert!(executable_candidates("/usr/bin/omp", &environment).is_empty());
}

fn file(path: &str, snapshot: &str, profile: HarnessLaunchProfileV2) -> ProfileFile {
    ProfileFile {
        path: path.to_owned(),
        snapshot: snapshot.to_owned(),
        profile,
        missing_file: None,
    }
}

#[test]
fn loading_registers_each_file_with_its_snapshot_and_digest() {
    let registry = ProfileRegistry::load_files(vec![
        file("/p/a.toml", "a", profile("omp-b", HarnessKind::Omp, &[])),
        file("/p/b.toml", "b", profile("codex-a", HarnessKind::Codex, &[])),
    ])
    .expect("distinct valid profiles load");
    let ids: Vec<String> = registry.ids().iter().map(|id| id.as_str().to_owned()).collect();
    assert_eq!(ids, vec!["codex-a", "omp-b"]);
    let resolved = registry
        .resolve(
            &"omp-b".parse().expect("valid ID"),
            HarnessKind::Omp,
            Vec::new(),
            &Vec::new(),
        )
        .expect("loaded profile resolves");
    assert_eq!(resolved.snapshot, "a");
    assert_eq!(resolved.digest, snapshot_digest("a"));
    assert_eq!(resolved.environment.len(), 0);
}

#[test]
fn loading_stops_at_the_first_refused_file() {
    let mut missing = file("/p/c.toml", "c", profile("omp-c", HarnessKind::Omp, &[]));
    missing.missing_file = Some("/usr/bin/omp".to_owned());
    let error = ProfileRegistry::load_files(vec![
        file("/p/a.toml", "a", profile("omp-a", HarnessKind::Omp, &[])),
        file("/p/b.toml", "b", profile("omp-a", HarnessKind::Omp, &[])),
        missing,
    ])
    .expect_err("the second file repeats an ID");
    assert_eq!(error.to_text(), "duplicate launch profile ID `omp-a`");
}
