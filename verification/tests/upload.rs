use pyo3_pack::CredentialPlan;
use pyo3_pack::PasswordSource;
use pyo3_pack::PublishOpt;
use pyo3_pack::Pypirc;
use pyo3_pack::PypircSection;
use pyo3_pack::RegistryError;
use pyo3_pack::SecretStoreDelete;
use pyo3_pack::SecretStoreWrite;
use pyo3_pack::UploadDecision;
use pyo3_pack::UploadOutcome;
use pyo3_pack::UploadResult;
use pyo3_pack::complete_registry;
use pyo3_pack::default_registry_url;
use pyo3_pack::delete_needs_warning;
use pyo3_pack::load_pypi_cred_from_config;
use pyo3_pack::password_source;
use pyo3_pack::process_upload_results;
use pyo3_pack::resolve_pypi_cred;
use pyo3_pack::resolve_registry_location;
use pyo3_pack::str_ci_equal;
use pyo3_pack::token_username;
use pyo3_pack::upload_step;
use pyo3_pack::write_needs_warning;

fn section(name: &str, username: Option<&str>, password: Option<&str>, repository: Option<&str>) -> PypircSection {
    PypircSection {
        name: name.to_string(),
        username: username.map(|s| s.to_string()),
        password: password.map(|s| s.to_string()),
        repository: repository.map(|s| s.to_string()),
    }
}

fn opt(registry: &str, username: Option<&str>, password: Option<&str>, skip_existing: bool) -> PublishOpt {
    PublishOpt {
        registry: registry.to_string(),
        username: username.map(|s| s.to_string()),
        password: password.map(|s| s.to_string()),
        skip_existing,
    }
}

#[test]
fn token_env_takes_precedence_over_everything() {
    let config = Pypirc {
        sections: vec![section("pypi", Some("alice"), Some("wheel-password"), None)],
    };
    let options = opt(default_registry_url(), Some("bob"), Some("flagpass"), false);
    let plan = resolve_pypi_cred(&options, Some("tok-123".to_string()), &config, Some("pypi"));
    match plan {
        CredentialPlan::Token { secret } => assert_eq!(secret, "tok-123"),
        _ => panic!("an API token must decide the credential by itself"),
    }
    assert_eq!(token_username(), "__token__");
}

#[test]
fn pypirc_entry_beats_flags_and_prompts() {
    let config = Pypirc {
        sections: vec![section("pypi", Some("alice"), Some("wheel-password"), None)],
    };
    let options = opt(default_registry_url(), Some("bob"), None, false);
    let plan = resolve_pypi_cred(&options, None, &config, Some("pypi"));
    match plan {
        CredentialPlan::PypircEntry { username, password } => {
            assert_eq!(username, "alice");
            assert_eq!(password, "wheel-password");
        }
        _ => panic!("a complete pypirc entry must be used"),
    }
}

#[test]
fn flags_are_used_when_no_token_and_no_entry() {
    let config = Pypirc { sections: vec![] };
    let options = opt(default_registry_url(), Some("bob"), Some("flagpass"), false);
    match resolve_pypi_cred(&options, None, &config, Some("pypi")) {
        CredentialPlan::Given { username, password } => {
            assert_eq!(username, "bob");
            assert_eq!(password, "flagpass");
        }
        _ => panic!("both flags present must resolve without prompting"),
    }
}

#[test]
fn missing_pieces_demand_prompts() {
    let config = Pypirc { sections: vec![] };
    let options = opt(default_registry_url(), Some("bob"), None, false);
    assert!(matches!(
        resolve_pypi_cred(&options, None, &config, None),
        CredentialPlan::AskPassword { .. }
    ));
    let bare = opt(default_registry_url(), None, None, false);
    assert!(matches!(
        resolve_pypi_cred(&bare, None, &config, None),
        CredentialPlan::AskUsername { password: None }
    ));
}

#[test]
fn incomplete_pypirc_section_yields_nothing() {
    let config = Pypirc {
        sections: vec![section("pypi", Some("alice"), None, None)],
    };
    assert!(load_pypi_cred_from_config(&config, "pypi").is_none());
    assert!(load_pypi_cred_from_config(&config, "unknown").is_none());
}

#[test]
fn section_names_match_ignoring_ascii_case() {
    let config = Pypirc {
        sections: vec![section("pypi", Some("alice"), Some("wheel-password"), None)],
    };
    let cred = load_pypi_cred_from_config(&config, "PyPI").unwrap();
    assert_eq!(cred.0, "alice");
    assert!(str_ci_equal("TestPyPI", "testpypi"));
    assert!(!str_ci_equal("pypi", "pypj"));
}

#[test]
fn registry_short_name_resolves_through_pypirc() {
    let config = Pypirc {
        sections: vec![section("internal", None, None, Some("https://pkg.example.test/simple/"))],
    };
    let location = resolve_registry_location("internal", &config).unwrap();
    assert_eq!(location.name.as_deref(), Some("internal"));
    assert_eq!(location.url, "https://pkg.example.test/simple/");
}

#[test]
fn unknown_short_name_is_an_error() {
    let config = Pypirc { sections: vec![] };
    assert_eq!(
        resolve_registry_location("internal", &config).unwrap_err(),
        RegistryError::NotFoundInPypirc
    );
}

#[test]
fn default_url_is_assumed_to_be_pypi() {
    let config = Pypirc { sections: vec![] };
    let location = resolve_registry_location(default_registry_url(), &config).unwrap();
    assert_eq!(location.name.as_deref(), Some("pypi"));
    assert_eq!(location.url, default_registry_url());
    let other = resolve_registry_location("https://pkg.example.test/", &config).unwrap();
    assert!(other.name.is_none());
}

#[test]
fn complete_registry_rejects_a_bad_url() {
    let config = Pypirc {
        sections: vec![section("broken", None, None, Some("not a url at all"))],
    };
    let options = opt("broken", None, None, false);
    assert_eq!(
        complete_registry(&options, None, &config).unwrap_err(),
        RegistryError::InvalidUrl
    );
}

#[test]
fn complete_registry_resolves_location_and_credential() {
    let config = Pypirc {
        sections: vec![section("pypi", Some("alice"), Some("wheel-password"), None)],
    };
    let options = opt(default_registry_url(), None, None, false);
    let plan = complete_registry(&options, None, &config).unwrap();
    assert_eq!(plan.location.name.as_deref(), Some("pypi"));
    assert!(matches!(plan.credential, CredentialPlan::PypircEntry { .. }));
}

#[test]
fn upload_step_decides_each_outcome() {
    assert_eq!(upload_step(UploadResult::Success, false), UploadDecision::Proceed);
    assert_eq!(
        upload_step(UploadResult::AuthenticationFailure, true),
        UploadDecision::AbortAuthentication
    );
    assert_eq!(upload_step(UploadResult::ConflictFailure, true), UploadDecision::SkipAndProceed);
    assert_eq!(upload_step(UploadResult::ConflictFailure, false), UploadDecision::AbortFailure);
    assert_eq!(upload_step(UploadResult::TransportFailure, true), UploadDecision::AbortFailure);
}

#[test]
fn skip_existing_attempts_every_artifact() {
    let results = vec![
        UploadResult::Success,
        UploadResult::ConflictFailure,
        UploadResult::Success,
        UploadResult::ConflictFailure,
    ];
    let report = process_upload_results(&results, true);
    assert_eq!(report.attempted, 4);
    assert!(matches!(report.outcome, UploadOutcome::Completed));
}

#[test]
fn conflict_without_skip_stops_at_the_conflict() {
    let results = vec![
        UploadResult::Success,
        UploadResult::Success,
        UploadResult::ConflictFailure,
        UploadResult::Success,
    ];
    let report = process_upload_results(&results, false);
    assert_eq!(report.attempted, 3);
    assert!(matches!(report.outcome, UploadOutcome::AbortedFailure { failed_index: 2 }));
}

#[test]
fn authentication_failure_stops_everything() {
    let results = vec![
        UploadResult::Success,
        UploadResult::AuthenticationFailure,
        UploadResult::Success,
    ];
    let report = process_upload_results(&results, true);
    assert_eq!(report.attempted, 2);
    assert!(matches!(
        report.outcome,
        UploadOutcome::AbortedAuthentication { failed_index: 1 }
    ));
}

#[test]
fn empty_upload_list_completes() {
    let report = process_upload_results(&vec![], false);
    assert_eq!(report.attempted, 0);
    assert!(matches!(report.outcome, UploadOutcome::Completed));
}

#[test]
fn env_password_wins_over_store_and_prompt() {
    match password_source(Some("envpass".to_string()), "alice") {
        PasswordSource::EnvVariable(p) => assert_eq!(p, "envpass"),
        _ => panic!("an environment-supplied password must win"),
    }
    assert!(!matches!(
        password_source(None, "nobody-has-this-entry"),
        PasswordSource::EnvVariable(_)
    ));
}

#[test]
fn absent_cache_entries_are_not_errors() {
    assert!(!delete_needs_warning(&SecretStoreDelete::Removed));
    assert!(!delete_needs_warning(&SecretStoreDelete::Absent));
    assert!(!delete_needs_warning(&SecretStoreDelete::NoAccess));
    assert!(delete_needs_warning(&SecretStoreDelete::Failed("backend broke".to_string())));
    assert!(write_needs_warning(&SecretStoreWrite::Failed("backend broke".to_string())));
    assert!(!write_needs_warning(&SecretStoreWrite::Stored));
}
