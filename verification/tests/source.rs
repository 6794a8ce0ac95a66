use landscape_settings::error::status_string;
use landscape_settings::error::SettingsError;
use landscape_settings::error::ValidationError;
use landscape_settings::error::RuleProblem;
use landscape_settings::pattern::ColorPattern;
use landscape_settings::settings::FeaturedItemRule;
use landscape_settings::settings::LandscapeSettings;
use landscape_settings::source::check_status;
use landscape_settings::source::Origin;
use landscape_settings::source::SettingsSource;
use landscape_settings::source::STATUS_OK;
use std::path::PathBuf;

fn pattern() -> ColorPattern {
    ColorPattern::new().expect("the colour pattern compiles")
}

#[test]
fn file_is_used_when_only_a_file_is_given() {
    let source = SettingsSource {
        settings_file: Some(PathBuf::from("settings.yml")),
        settings_url: None,
    };
    assert_eq!(
        source.origin(),
        Ok(Origin::File(&PathBuf::from("settings.yml")))
    );
}

#[test]
fn url_is_used_when_only_a_url_is_given() {
    let source = SettingsSource {
        settings_file: None,
        settings_url: Some("https://example.test/settings.yml".to_string()),
    };
    assert_eq!(
        source.origin(),
        Ok(Origin::Url("https://example.test/settings.yml"))
    );
}

#[test]
fn file_comes_before_url() {
    let source = SettingsSource {
        settings_file: Some(PathBuf::from("/etc/landscape/settings.yml")),
        settings_url: Some("https://example.test/settings.yml".to_string()),
    };
    assert_eq!(
        source.origin(),
        Ok(Origin::File(&PathBuf::from("/etc/landscape/settings.yml")))
    );
}

#[test]
fn no_source_is_an_error() {
    let source = SettingsSource {
        settings_file: None,
        settings_url: None,
    };
    let error = source.origin().unwrap_err();
    assert_eq!(error, SettingsError::SourceNotProvided);
    assert_eq!(error.message(), "settings file or url not provided");
    assert_eq!(
        error.chain(),
        vec!["settings file or url not provided".to_string()]
    );
}

#[test]
fn status_200_is_accepted() {
    assert_eq!(STATUS_OK, 200);
    assert_eq!(check_status(200, Some("OK")), Ok(()));
    assert_eq!(check_status(200, None), Ok(()));
}

#[test]
fn other_statuses_are_refused() {
    for status in [0u16, 100, 199, 201, 204, 301, 304, 404, 500, 503, u16::MAX] {
        assert_eq!(
            check_status(status, Some("Reason")),
            Err(SettingsError::UnexpectedStatus {
                status,
                reason: Some("Reason".to_string())
            })
        );
        assert_eq!(
            check_status(status, None),
            Err(SettingsError::UnexpectedStatus {
                status,
                reason: None
            })
        );
    }
}

#[test]
fn unexpected_status_message_shows_code_and_reason() {
    let error = check_status(404, Some("Not Found")).unwrap_err();
    assert_eq!(
        error.message(),
        "unexpected status code getting landscape settings file: 404 Not Found"
    );
    assert_eq!(
        error.chain(),
        vec!["unexpected status code getting landscape settings file: 404 Not Found".to_string()]
    );
    assert_eq!(
        check_status(500, Some("Internal Server Error"))
            .unwrap_err()
            .message(),
        "unexpected status code getting landscape settings file: 500 Internal Server Error"
    );
}

#[test]
fn unexpected_status_without_a_reason_is_shown_as_unknown() {
    let error = check_status(799, None).unwrap_err();
    assert_eq!(
        error.message(),
        "unexpected status code getting landscape settings file: 799 <unknown status code>"
    );
}

#[test]
fn a_status_is_shown_as_code_and_reason() {
    assert_eq!(status_string(200, &Some("OK".to_string())), "200 OK");
    assert_eq!(
        status_string(418, &Some("I'm a teapot".to_string())),
        "418 I'm a teapot"
    );
    assert_eq!(status_string(599, &None), "599 <unknown status code>");
    assert_eq!(status_string(65535, &None), "65535 <unknown status code>");
}

#[test]
fn valid_settings_are_handed_out_unchanged() {
    let settings = LandscapeSettings {
        foundation: "Foundation".to_string(),
        members_category: Some("Members".to_string()),
        ..LandscapeSettings::default()
    };
    assert_eq!(settings.clone().validated(&pattern()), Ok(settings));
}

#[test]
fn handed_out_settings_validate_again() {
    let pattern = pattern();
    let settings = LandscapeSettings {
        foundation: "Foundation".to_string(),
        ..LandscapeSettings::default()
    };
    let first = settings.validated(&pattern).unwrap();
    let second = first.clone().validated(&pattern).unwrap();
    assert_eq!(first, second);
}

#[test]
fn invalid_settings_are_not_handed_out() {
    let settings = LandscapeSettings::default();
    let error = settings.validated(&pattern()).unwrap_err();
    assert_eq!(
        error,
        SettingsError::NotValid {
            error: ValidationError::EmptyFoundation
        }
    );
    assert_eq!(
        error.message(),
        "the settings provided are not valid"
    );
    assert_eq!(
        error.chain(),
        vec![
            "the settings provided are not valid".to_string(),
            "foundation cannot be empty".to_string(),
        ]
    );
}

#[test]
fn the_chain_reaches_the_root_cause() {
    let settings = LandscapeSettings {
        foundation: "Foundation".to_string(),
        featured_items: Some(vec![FeaturedItemRule {
            field: "maturity".to_string(),
            options: vec![],
        }]),
        ..LandscapeSettings::default()
    };
    let error = settings.validated(&pattern()).unwrap_err();
    assert_eq!(
        error,
        SettingsError::NotValid {
            error: ValidationError::InvalidRule {
                rule_id: "maturity".to_string(),
                field: "maturity".to_string(),
                problem: RuleProblem::OptionsEmpty,
            }
        }
    );
    assert_eq!(
        error.chain(),
        vec![
            "the settings provided are not valid".to_string(),
            "rule [maturity] is not valid (field: [maturity])".to_string(),
            "options cannot be empty".to_string(),
        ]
    );
}
