use wasmshield::config::{database_action, AuditConfiguration, DatabaseAction};
use wasmshield::sbom::{
    all_audits_passed, apply_local_package_rule, apply_vet_rule, check_for_local_packages,
    examine, examine_component, grade, record_report, AuditError, Audited, Grade, Package,
};
use wasmshield::vet::{judge_conclusion, judge_vet_record, vet_component, vet_from_sections, VetError};
use wasmshield::decompose::SIGNED_MODULE_MARKER;
use wasmshield::sections::Section;

fn leb(mut value: usize) -> Vec<u8> {
    let mut bytes = Vec::new();
    loop {
        let low = (value % 128) as u8;
        value /= 128;
        if value == 0 {
            bytes.push(low);
            return bytes;
        }
        bytes.push(low | 0x80);
    }
}

fn section(id: u8, payload: &[u8]) -> Vec<u8> {
    let mut bytes = vec![id];
    bytes.extend_from_slice(&leb(payload.len()));
    bytes.extend_from_slice(payload);
    bytes
}

fn custom_section(name: &str, data: &[u8]) -> Vec<u8> {
    let mut payload = leb(name.len());
    payload.extend_from_slice(name.as_bytes());
    payload.extend_from_slice(data);
    section(0, &payload)
}

fn module(sections: &[Vec<u8>]) -> Vec<u8> {
    let mut bytes = vec![0x00, 0x61, 0x73, 0x6d, 0x01, 0x00, 0x00, 0x00];
    for section in sections {
        bytes.extend_from_slice(section);
    }
    bytes
}

fn component(sections: &[Vec<u8>]) -> Vec<u8> {
    let mut bytes = vec![0x00, 0x61, 0x73, 0x6d, 0x0d, 0x00, 0x01, 0x00];
    for section in sections {
        bytes.extend_from_slice(section);
    }
    bytes
}

fn zlib(text: &str) -> Vec<u8> {
    miniz_oxide::deflate::compress_to_vec_zlib(text.as_bytes(), 6)
}

fn vet_section(json: &str) -> Vec<u8> {
    custom_section(".vet-v0", &zlib(json))
}

fn dependency_section(json: &str) -> Vec<u8> {
    custom_section(".dep-v0", &zlib(json))
}

fn signed(sections: &[Vec<u8>], keys: &wasmsign2::KeyPair) -> Vec<u8> {
    let bytes = component(sections);
    let module = wasmsign2::Module::deserialize(&mut &bytes[..]).unwrap();
    let mut out = Vec::new();
    keys.sk.sign(module, None).unwrap().serialize(&mut out).unwrap();
    out
}

fn settings(require_vet: bool, ignore_local_packages: bool) -> AuditConfiguration {
    AuditConfiguration { require_vet, ignore_local_packages, ..AuditConfiguration::default() }
}

const REMOTE_ONLY: &str = r#"{"packages":[{"name":"adler","version":"1.0.2","source":"crates.io"},{"name":"app","version":"0.1.0","source":"crates.io","root":true}]}"#;
const ONE_LOCAL: &str = r#"{"packages":[{"name":"adler","version":"1.0.2","source":"crates.io"},{"name":"homegrown","version":"0.3.0","source":"local","root":true}]}"#;
const TWO_LOCAL: &str = r#"{"packages":[{"name":"first","version":"1.0.0","source":"local"},{"name":"adler","version":"1.0.2","source":"crates.io"},{"name":"second","version":"2.0.0","source":"git"}]}"#;

#[test]
fn default_configuration() {
    let config = AuditConfiguration::default();
    assert_eq!(config.database_url, None);
    assert_eq!(config.database_path, None);
    assert!(config.fetch);
    assert!(!config.stale);
    assert!(!config.quiet);
    assert!(!config.require_vet);
    assert!(!config.ignore_local_packages);
}

#[test]
fn database_is_fetched_by_default() {
    match database_action(&AuditConfiguration::default()) {
        DatabaseAction::Fetch { url, path, ensure_fresh, announce } => {
            assert_eq!(url, None);
            assert_eq!(path, None);
            assert!(ensure_fresh);
            assert!(announce);
        }
        DatabaseAction::Open { .. } => panic!("the default is to fetch"),
    }
}

#[test]
fn database_fetch_follows_the_settings() {
    let config = AuditConfiguration {
        database_url: Some("https://example.org/db.git".to_string()),
        database_path: Some("/var/db".to_string()),
        stale: true,
        quiet: true,
        ..AuditConfiguration::default()
    };
    match database_action(&config) {
        DatabaseAction::Fetch { url, path, ensure_fresh, announce } => {
            assert_eq!(url.as_deref(), Some("https://example.org/db.git"));
            assert_eq!(path.as_deref(), Some("/var/db"));
            assert!(!ensure_fresh);
            assert!(!announce);
        }
        DatabaseAction::Open { .. } => panic!("fetch was asked for"),
    }
}

#[test]
fn database_is_opened_where_fetching_is_off() {
    let config = AuditConfiguration {
        database_url: Some("https://example.org/db.git".to_string()),
        database_path: Some("/var/db".to_string()),
        fetch: false,
        ..AuditConfiguration::default()
    };
    match database_action(&config) {
        DatabaseAction::Open { path } => assert_eq!(path.as_deref(), Some("/var/db")),
        DatabaseAction::Fetch { .. } => panic!("fetching is off"),
    }
}

#[test]
fn vet_success() {
    let bytes = module(&[custom_section("name", &[0, 1, b'x']), vet_section(r#"{"conclusion":"success","vetted_fully":[]}"#)]);
    assert_eq!(vet_component(&bytes), Ok(()));
}

#[test]
fn vet_failure() {
    let bytes = module(&[vet_section(r#"{"conclusion":"failure"}"#)]);
    assert_eq!(vet_component(&bytes), Err(VetError::Unsuccessful));
}

#[test]
fn vet_missing() {
    assert_eq!(vet_component(&module(&[custom_section("name", &[0, 1, b'x'])])), Err(VetError::Missing));
    assert_eq!(vet_component(&[]), Err(VetError::Missing));
    assert_eq!(vet_component(&[1, 2, 3, 4, 5, 6, 7, 8, 9]), Err(VetError::Missing));
    assert_eq!(vet_from_sections(&vec![Section::Other, Section::Malformed]), Err(VetError::Missing));
}

#[test]
fn vet_record_that_does_not_inflate() {
    let bytes = module(&[custom_section(".vet-v0", b"{\"conclusion\":\"success\"}")]);
    assert_eq!(vet_component(&bytes), Err(VetError::NotInflatable));
    assert_eq!(judge_vet_record(&[]), Err(VetError::NotInflatable));
    let mut cut = zlib(r#"{"conclusion":"success"}"#);
    cut.truncate(cut.len() - 3);
    assert_eq!(judge_vet_record(&cut), Err(VetError::NotInflatable));
}

#[test]
fn vet_record_that_is_not_json() {
    assert_eq!(judge_vet_record(&zlib("conclusion: success")), Err(VetError::NotJson));
    assert_eq!(judge_vet_record(&zlib("")), Err(VetError::NotJson));
    assert_eq!(judge_vet_record(&zlib(r#"{"conclusion":"success""#)), Err(VetError::NotJson));
}

#[test]
fn vet_conclusion_must_be_the_text_success() {
    assert_eq!(judge_vet_record(&zlib(r#"{"conclusion":"success"}"#)), Ok(()));
    assert_eq!(judge_vet_record(&zlib(r#"{"conclusion":"Success"}"#)), Err(VetError::Unsuccessful));
    assert_eq!(judge_vet_record(&zlib(r#"{"conclusion":true}"#)), Err(VetError::Unsuccessful));
    assert_eq!(judge_vet_record(&zlib(r#"{"verdict":"success"}"#)), Err(VetError::Unsuccessful));
    assert_eq!(judge_vet_record(&zlib(r#"["conclusion","success"]"#)), Err(VetError::Unsuccessful));
    assert_eq!(judge_vet_record(&zlib("null")), Err(VetError::Unsuccessful));
    assert_eq!(judge_conclusion(&None), Err(VetError::Unsuccessful));
    assert_eq!(judge_conclusion(&Some("success".to_string())), Ok(()));
    assert_eq!(judge_conclusion(&Some("success ".to_string())), Err(VetError::Unsuccessful));
}

#[test]
fn vet_reads_the_first_record_only() {
    let bytes = module(&[
        vet_section(r#"{"conclusion":"failure"}"#),
        vet_section(r#"{"conclusion":"success"}"#),
    ]);
    assert_eq!(vet_component(&bytes), Err(VetError::Unsuccessful));
    let bytes = module(&[
        vet_section(r#"{"conclusion":"success"}"#),
        custom_section(".vet-v0", &[1, 2, 3]),
    ]);
    assert_eq!(vet_component(&bytes), Ok(()));
}

#[test]
fn vet_rule_blocks_only_where_required() {
    assert!(matches!(apply_vet_rule(Err(VetError::Missing), true), Err(AuditError::Vet(VetError::Missing))));
    assert!(matches!(apply_vet_rule(Err(VetError::Unsuccessful), true), Err(AuditError::Vet(VetError::Unsuccessful))));
    assert!(matches!(apply_vet_rule(Err(VetError::Unsuccessful), false), Ok(())));
    assert!(matches!(apply_vet_rule(Ok(()), true), Ok(())));
    assert!(matches!(apply_vet_rule(Ok(()), false), Ok(())));
}

#[test]
fn local_packages_are_those_without_a_source() {
    let packages = vec![
        Package { name: "a".to_string(), version: "1.0.0".to_string(), source: None },
        Package { name: "b".to_string(), version: "1.0.0".to_string(), source: Some("registry+https://github.com/rust-lang/crates.io-index".to_string()) },
        Package { name: "c".to_string(), version: "0.1.0".to_string(), source: None },
    ];
    assert_eq!(check_for_local_packages(&packages), vec!["a".to_string(), "c".to_string()]);
    assert_eq!(check_for_local_packages(&packages[1..2].iter().map(|p| Package { name: p.name.clone(), version: p.version.clone(), source: p.source.clone() }).collect()), Vec::<String>::new());
    assert_eq!(check_for_local_packages(&Vec::new()), Vec::<String>::new());
}

#[test]
fn local_package_rule_names_the_packages() {
    match apply_local_package_rule(vec!["a".to_string(), "c".to_string()], false) {
        Err(AuditError::LocalPackages(names)) => assert_eq!(names, vec!["a".to_string(), "c".to_string()]),
        _ => panic!("local packages were let through"),
    }
    assert!(matches!(apply_local_package_rule(vec!["a".to_string()], true), Ok(names) if names == vec!["a".to_string()]));
    assert!(matches!(apply_local_package_rule(Vec::new(), false), Ok(names) if names.is_empty()));
    assert!(matches!(apply_local_package_rule(Vec::new(), true), Ok(names) if names.is_empty()));
}

#[test]
fn component_with_remote_packages_passes() {
    let bytes = module(&[dependency_section(REMOTE_ONLY)]);
    match examine_component(&bytes, &settings(false, false)) {
        Ok(examined) => {
            assert_eq!(examined.vet, Err(VetError::Missing));
            assert!(examined.local_packages.is_empty());
            let names: Vec<&str> = examined.lockfile.packages.iter().map(|p| p.name.as_str()).collect();
            assert_eq!(names, vec!["adler", "app"]);
        }
        Err(_) => panic!("a component with remote packages only was stopped"),
    }
}

#[test]
fn local_package_fails_the_audit_unless_tolerated() {
    let bytes = module(&[dependency_section(ONE_LOCAL)]);
    match examine_component(&bytes, &settings(false, false)) {
        Err(AuditError::LocalPackages(names)) => assert_eq!(names, vec!["homegrown".to_string()]),
        _ => panic!("a local package was let through"),
    }
    match examine_component(&bytes, &settings(false, true)) {
        Ok(examined) => assert_eq!(examined.local_packages, vec!["homegrown".to_string()]),
        Err(_) => panic!("a tolerated local package stopped the component"),
    }
}

#[test]
fn every_package_from_outside_the_registry_is_named() {
    let bytes = component(&[dependency_section(TWO_LOCAL)]);
    match examine_component(&bytes, &settings(false, false)) {
        Err(AuditError::LocalPackages(names)) => assert_eq!(names, vec!["first".to_string(), "second".to_string()]),
        _ => panic!("local packages were let through"),
    }
}

#[test]
fn required_vetting_comes_first() {
    let bytes = module(&[vet_section(r#"{"conclusion":"failure"}"#), dependency_section(ONE_LOCAL)]);
    assert!(matches!(examine_component(&bytes, &settings(true, false)), Err(AuditError::Vet(VetError::Unsuccessful))));
    assert!(matches!(examine_component(&bytes, &settings(true, true)), Err(AuditError::Vet(VetError::Unsuccessful))));
    assert!(matches!(examine_component(&bytes, &settings(false, false)), Err(AuditError::LocalPackages(_))));
    match examine_component(&bytes, &settings(false, true)) {
        Ok(examined) => assert_eq!(examined.vet, Err(VetError::Unsuccessful)),
        Err(_) => panic!("a tolerated vetting failure stopped the component"),
    }
    let unvetted = module(&[dependency_section(REMOTE_ONLY)]);
    assert!(matches!(examine_component(&unvetted, &settings(true, false)), Err(AuditError::Vet(VetError::Missing))));
}

#[test]
fn vetted_component_passes_where_vetting_is_required() {
    let bytes = module(&[vet_section(r#"{"conclusion":"success"}"#), dependency_section(REMOTE_ONLY)]);
    match examine_component(&bytes, &settings(true, false)) {
        Ok(examined) => assert_eq!(examined.vet, Ok(())),
        Err(_) => panic!("a vetted component was stopped"),
    }
}

#[test]
fn component_without_dependency_list() {
    let bytes = module(&[custom_section("name", &[0, 1, b'x'])]);
    assert!(matches!(examine_component(&bytes, &settings(false, false)), Err(AuditError::NoDependencies)));
}

#[test]
fn component_with_broken_dependency_list() {
    let bytes = module(&[custom_section(".dep-v0", b"not a zlib stream")]);
    assert!(matches!(examine_component(&bytes, &settings(false, false)), Err(AuditError::Unreadable)));
    let bytes = module(&[dependency_section("{\"packages\": 7}")]);
    assert!(matches!(examine_component(&bytes, &settings(false, false)), Err(AuditError::Unreadable)));
    assert!(matches!(examine_component(&[], &settings(false, false)), Err(AuditError::Unreadable)));
}

#[test]
fn composition_is_examined_entry_by_entry() {
    let keys = wasmsign2::KeyPair::generate();
    let a = signed(&[custom_section("name", &[0, 1, b'A']), dependency_section(REMOTE_ONLY)], &keys);
    let b = signed(&[vet_section(r#"{"conclusion":"failure"}"#), dependency_section(ONE_LOCAL)], &keys);
    let mut composition = component(&[]);
    composition.extend_from_slice(&section(4, &a));
    composition.extend_from_slice(&section(4, &b));
    composition.extend_from_slice(&[0x0b, 0x01, 0x00]);

    let strict = examine(&composition, &settings(true, false));
    assert_eq!(strict.len(), 3);
    assert_eq!(strict[0].0, "composition");
    assert!(matches!(strict[0].1, Err(AuditError::Vet(VetError::Unsuccessful))));
    assert_eq!(strict[1].0, "A");
    assert!(matches!(strict[1].1, Err(AuditError::Vet(VetError::Missing))));
    assert_eq!(strict[2].0, "UNKNOWN_NAME");
    assert!(matches!(strict[2].1, Err(AuditError::Vet(VetError::Unsuccessful))));

    let lenient = examine(&composition, &settings(false, false));
    assert_eq!(lenient.len(), 3);
    assert_eq!(lenient[0].0, "composition");
    match &lenient[0].1 {
        Ok(root) => {
            assert_eq!(root.vet, Err(VetError::Unsuccessful));
            assert!(root.local_packages.is_empty());
            let names: Vec<&str> = root.lockfile.packages.iter().map(|p| p.name.as_str()).collect();
            assert_eq!(names, vec!["adler", "app"]);
        }
        Err(_) => panic!("the composition was stopped though nothing is required of it"),
    }
    assert_eq!(lenient[1].0, "A");
    assert!(matches!(&lenient[1].1, Ok(examined) if examined.vet == Err(VetError::Missing)));
    match &lenient[2].1 {
        Err(AuditError::LocalPackages(names)) => assert_eq!(names, &vec!["homegrown".to_string()]),
        _ => panic!("the local package of the last component was let through"),
    }
}

#[test]
fn root_is_examined_as_it_stands() {
    let mut composition = module(&[dependency_section(ONE_LOCAL)]);
    composition.extend_from_slice(&SIGNED_MODULE_MARKER);
    let examined = examine(&composition, &settings(false, false));
    assert_eq!(examined.len(), 2);
    assert_eq!(examined[0].0, "composition");
    match &examined[0].1 {
        Err(AuditError::LocalPackages(names)) => assert_eq!(names, &vec!["homegrown".to_string()]),
        _ => panic!("the local package of the composition was let through"),
    }
    assert_eq!(examined[1].0, "UNKNOWN_NAME");
    assert!(matches!(examined[1].1, Err(AuditError::Unreadable)));
}

#[test]
fn nothing_is_examined_without_a_signed_component() {
    assert!(examine(&module(&[dependency_section(REMOTE_ONLY)]), &settings(false, false)).is_empty());
    assert!(examine(&[], &settings(true, true)).is_empty());
}

fn report_with(lockfile: &rustsec::Lockfile, vulnerabilities: usize, warnings: &[rustsec::WarningKind]) -> rustsec::Report {
    let mut found = rustsec::report::WarningInfo::new();
    for kind in warnings {
        found.insert(*kind, Vec::new());
    }
    rustsec::Report {
        database: rustsec::report::DatabaseInfo { advisory_count: 0, last_commit: None, last_updated: None },
        lockfile: rustsec::report::LockfileInfo::new(lockfile),
        settings: rustsec::report::Settings::default(),
        vulnerabilities: rustsec::report::VulnerabilityInfo {
            found: vulnerabilities != 0,
            count: vulnerabilities,
            list: Vec::new(),
        },
        warnings: found,
    }
}

fn audited(vulnerabilities: usize, warnings: &[rustsec::WarningKind]) -> Audited {
    let bytes = module(&[dependency_section(ONE_LOCAL)]);
    let examined = match examine_component(&bytes, &settings(false, true)) {
        Ok(examined) => examined,
        Err(_) => panic!("a tolerated local package stopped the component"),
    };
    let report = report_with(&examined.lockfile, vulnerabilities, warnings);
    record_report(examined, report)
}

#[test]
fn report_is_recorded_with_its_counts() {
    let clean = audited(0, &[]);
    assert_eq!((clean.vulnerabilities, clean.warnings), (0, 0));
    assert_eq!(clean.vet, Err(VetError::Missing));
    assert_eq!(clean.local_packages, vec!["homegrown".to_string()]);
    let warned = audited(0, &[rustsec::WarningKind::Unmaintained, rustsec::WarningKind::Yanked]);
    assert_eq!((warned.vulnerabilities, warned.warnings), (0, 2));
    let vulnerable = audited(3, &[rustsec::WarningKind::Unsound]);
    assert_eq!((vulnerable.vulnerabilities, vulnerable.warnings), (3, 1));
    assert_eq!(vulnerable.report.vulnerabilities.count, 3);
}

#[test]
fn reports_are_graded() {
    assert_eq!(grade(0, 0), Grade::Clean);
    assert_eq!(grade(0, 1), Grade::Warned);
    assert_eq!(grade(1, 0), Grade::Vulnerable);
    assert_eq!(grade(2, 5), Grade::Vulnerable);
    assert_eq!(grade(usize::MAX, usize::MAX), Grade::Vulnerable);
}

#[test]
fn audits_pass_only_without_error_and_vulnerability() {
    assert!(all_audits_passed(&Vec::new()));
    assert!(all_audits_passed(&vec![
        ("a".to_string(), Ok(audited(0, &[]))),
        ("b".to_string(), Ok(audited(0, &[rustsec::WarningKind::Notice]))),
    ]));
    assert!(!all_audits_passed(&vec![
        ("a".to_string(), Ok(audited(0, &[]))),
        ("b".to_string(), Ok(audited(1, &[]))),
    ]));
    assert!(!all_audits_passed(&vec![
        ("a".to_string(), Err(AuditError::NoDependencies)),
        ("b".to_string(), Ok(audited(0, &[]))),
    ]));
    assert!(!all_audits_passed(&vec![("a".to_string(), Err(AuditError::Vet(VetError::Missing)))]));
}
