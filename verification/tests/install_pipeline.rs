use volt_core::App;
use volt_core::InstallError;
use volt_core::Observation;
use volt_core::StoreModel;
use volt_core::VoltPackage;
use volt_core::dep_link_path;
use volt_core::enable_ansi_support;
use volt_core::get_basename;
use volt_core::plan_install;
use volt_core::register_verified;
use volt_core::store_entry_path;
use volt_core::store_key;
use volt_core::str_eq;
use volt_core::tarball_file_name;
use volt_core::temp_artifact_path;
use volt_core::verify_artifact;
use volt_core::volt_api_url;

fn lodash() -> VoltPackage {
    // The digest of the three bytes b"abc" stands in for the tarball digest.
    VoltPackage {
        name: String::from("lodash"),
        version: String::from("4.17.21"),
        tarball: String::from("https://registry.example/lodash/-/lodash-4.17.21.tgz"),
        sha1: String::from("a9993e364706816aba3e25717850c26c9cd0d89d"),
    }
}

#[test]
fn calc_hash_known_digests() {
    assert_eq!(
        App::calc_hash(&b"abc".to_vec()),
        "a9993e364706816aba3e25717850c26c9cd0d89d"
    );
    assert_eq!(
        App::calc_hash(&Vec::new()),
        "da39a3ee5e6b4b0d3255bfef95601890afd80709"
    );
}

#[test]
fn store_key_plain_name_unchanged() {
    assert_eq!(store_key("lodash"), "lodash");
}

#[test]
fn store_key_escapes_unsafe_characters() {
    assert_eq!(store_key("@scope/pkg-a"), "_ascope_spkg-a");
    assert_eq!(store_key("left.pad"), "left_dpad");
    assert_eq!(store_key("under_score"), "under__score");
    assert_eq!(store_key(""), "");
}

#[test]
fn store_keys_do_not_collide() {
    // Scenario D: these two names must not share a store entry.
    assert_ne!(store_key("@scope/pkg-a"), store_key("scope_pkg_a"));
    // Names a naive character substitution would merge.
    assert_ne!(store_key("a/b"), store_key("a__b"));
    assert_ne!(store_key("a.b"), store_key("a_b"));
}

#[test]
fn fresh_install_plans_all_stages() {
    // Scenario A: nothing on disk yet.
    let pkg = lodash();
    let obs = Observation {
        cached_artifact: None,
        store_entry_exists: false,
        project_link_exists: false,
    };
    let plan = plan_install(&pkg, &obs);
    assert!(plan.download);
    assert!(plan.extract);
    assert!(!plan.remove_old_link);
    assert!(plan.create_link);
    // The secure scheme is kept, never downgraded.
    assert_eq!(
        plan.url,
        "https://registry.example/lodash/-/lodash-4.17.21.tgz"
    );
    // The store entry and project link land at the expected paths.
    let key = store_key(&pkg.name);
    assert_eq!(store_entry_path("/home/u/.volt", &key), "/home/u/.volt/lodash");
    assert_eq!(
        dep_link_path("/proj/node_modules", &pkg.name),
        "/proj/node_modules/lodash"
    );
}

#[test]
fn reinstall_with_matching_cache_is_quiet() {
    // Scenario B and idempotence: store entry present, cached bytes match.
    let pkg = lodash();
    let obs = Observation {
        cached_artifact: Some(b"abc".to_vec()),
        store_entry_exists: true,
        project_link_exists: true,
    };
    let plan = plan_install(&pkg, &obs);
    assert!(!plan.download);
    assert!(!plan.extract);
    assert!(plan.remove_old_link);
    assert!(plan.create_link);
}

#[test]
fn corrupt_cache_forces_one_redownload() {
    // Scenario C: the cached artifact does not hash to the declared digest.
    let pkg = lodash();
    let obs = Observation {
        cached_artifact: Some(b"abd".to_vec()),
        store_entry_exists: false,
        project_link_exists: false,
    };
    let plan = plan_install(&pkg, &obs);
    assert!(plan.download);
    // After the single re-download brings good bytes, extraction proceeds.
    let mut store = StoreModel::new();
    let key = store_key(&pkg.name);
    let r = register_verified(&mut store, &pkg, &b"abc".to_vec(), &key);
    assert_eq!(r, Ok(true));
}

#[test]
fn verify_artifact_accepts_matching_bytes() {
    let pkg = lodash();
    assert_eq!(verify_artifact(&pkg, &b"abc".to_vec()), Ok(()));
}

#[test]
fn verify_artifact_rejects_mismatch() {
    let pkg = lodash();
    assert_eq!(
        verify_artifact(&pkg, &b"abx".to_vec()),
        Err(InstallError::Integrity)
    );
}

#[test]
fn mismatch_produces_no_store_entry() {
    let pkg = lodash();
    let key = store_key(&pkg.name);
    let mut store = StoreModel::new();
    let r = register_verified(&mut store, &pkg, &b"corrupted bytes".to_vec(), &key);
    assert_eq!(r, Err(InstallError::Integrity));
    assert!(!store.contains(&key));
    assert_eq!(store.keys.len(), 0);
}

#[test]
fn store_entry_is_created_once() {
    let pkg = lodash();
    let key = store_key(&pkg.name);
    let mut store = StoreModel::new();
    let first = register_verified(&mut store, &pkg, &b"abc".to_vec(), &key);
    assert_eq!(first, Ok(true));
    let second = register_verified(&mut store, &pkg, &b"abc".to_vec(), &key);
    assert_eq!(second, Ok(false));
    assert!(store.contains(&key));
    assert_eq!(store.keys.len(), 1);
}

#[test]
fn artifact_paths_are_assembled() {
    let pkg = lodash();
    let file_name = tarball_file_name(&pkg);
    assert_eq!(file_name, "lodash@4.17.21.tgz");
    assert_eq!(
        temp_artifact_path("/tmp", &file_name),
        "/tmp/volt/lodash@4.17.21.tgz"
    );
}

#[test]
fn scoped_package_artifact_name_is_safe() {
    let pkg = VoltPackage {
        name: String::from("@types/node"),
        version: String::from("1.0.0"),
        tarball: String::from("https://registry.example/t.tgz"),
        sha1: String::from("da39a3ee5e6b4b0d3255bfef95601890afd80709"),
    };
    assert_eq!(tarball_file_name(&pkg), "_atypes_snode@1.0.0.tgz");
}

#[test]
fn api_url_is_built_from_the_name() {
    assert_eq!(
        volt_api_url("lodash"),
        "http://volt-api.b-cdn.net/lodash.json"
    );
}

#[test]
fn app_context_derives_the_four_paths() {
    let app = App::new(
        String::from("/proj"),
        Some(String::from("/home/u")),
        vec![
            String::from("volt"),
            String::from("add"),
            String::from("lodash"),
            String::from("--verbose"),
            String::from("react"),
            String::from("-v"),
        ],
    )
    .unwrap();
    assert_eq!(app.current_dir, "/proj");
    assert_eq!(app.home_dir, "/home/u");
    assert_eq!(app.node_modules_dir, "/proj/node_modules");
    assert_eq!(app.volt_dir, "/home/u/.volt");
    assert_eq!(app.lock_file_path, "/proj/volt.lock");
    assert_eq!(app.args, vec!["lodash".to_string(), "react".to_string()]);
    assert_eq!(app.flags, vec!["--verbose".to_string(), "-v".to_string()]);
}

#[test]
fn missing_home_directory_is_fatal() {
    let r = App::new(String::from("/proj"), None, vec![String::from("volt")]);
    assert!(matches!(r, Err(InstallError::PathResolution)));
}

#[test]
fn short_command_line_leaves_no_args_or_flags() {
    let app = App::new(
        String::from("/proj"),
        Some(String::from("/home/u")),
        vec![String::from("volt")],
    )
    .unwrap();
    assert!(app.args.is_empty());
    assert!(app.flags.is_empty());
}

#[test]
fn has_flag_finds_any_spelling() {
    let app = App::new(
        String::from("/proj"),
        Some(String::from("/home/u")),
        vec![
            String::from("volt"),
            String::from("add"),
            String::from("--verbose"),
        ],
    )
    .unwrap();
    assert!(app.has_flag(&["-v", "--verbose"]));
    assert!(!app.has_flag(&["--quiet"]));
    assert!(!app.has_flag(&[]));
}

#[test]
fn basename_takes_the_last_component() {
    assert_eq!(get_basename("a/b/c"), "c");
    assert_eq!(get_basename("plain"), "plain");
    assert_eq!(get_basename("trailing/"), "");
    assert_eq!(get_basename(""), "");
}

#[test]
fn str_eq_compares_contents() {
    assert!(str_eq("abc", "abc"));
    assert!(!str_eq("abc", "abd"));
    assert!(!str_eq("abc", "ab"));
    assert!(str_eq("", ""));
}

#[test]
fn ansi_support_is_trivial_on_posix() {
    assert_eq!(enable_ansi_support(), Ok(()));
}
