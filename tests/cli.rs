use chrono::{Datelike, Local};
use hash_omikuji::cli::{
    date_is_january_first, decide_execution, default_seed, Args, NOT_JANUARY_FIRST,
};

#[test]
fn test_january_first_detection() {
    let args = Args {
        force_year: None,
        seed: Some("test".to_string()),
        json: false,
        short: false,
        show_seed: false,
        date: Some("2026-01-01".to_string()),
    };
    assert!(args.is_january_first());

    let args = Args {
        force_year: None,
        seed: Some("test".to_string()),
        json: false,
        short: false,
        show_seed: false,
        date: Some("2026-07-15".to_string()),
    };
    assert!(!args.is_january_first());
}

#[test]
fn test_can_execute_with_force_year() {
    let args = Args {
        force_year: Some(2026),
        seed: Some("test".to_string()),
        json: false,
        short: false,
        show_seed: false,
        date: Some("2026-07-15".to_string()),
    };
    assert!(args.can_execute().is_ok());
    assert_eq!(args.get_year(), 2026);
}

#[test]
fn test_cannot_execute_without_force_year() {
    let args = Args {
        force_year: None,
        seed: Some("test".to_string()),
        json: false,
        short: false,
        show_seed: false,
        date: Some("2026-07-15".to_string()),
    };
    assert!(args.can_execute().is_err());
}

#[test]
fn test_get_seed_custom() {
    let args = Args {
        force_year: Some(2026),
        seed: Some("custom-seed".to_string()),
        json: false,
        short: false,
        show_seed: false,
        date: None,
    };
    assert_eq!(args.get_seed(None), "custom-seed");
}

#[test]
fn test_get_seed_default() {
    let args = Args {
        force_year: None,
        seed: None,
        json: false,
        short: false,
        show_seed: false,
        date: None,
    };
    let seed = args.get_seed(None);
    assert!(seed.contains('@'));
}

#[test]
fn test_get_year_with_force() {
    let args = Args {
        force_year: Some(2030),
        seed: None,
        json: false,
        short: false,
        show_seed: false,
        date: None,
    };
    assert_eq!(args.get_year(), 2030);
}

#[test]
fn test_get_year_default() {
    let args = Args {
        force_year: None,
        seed: None,
        json: false,
        short: false,
        show_seed: false,
        date: None,
    };
    assert_eq!(args.get_year(), Local::now().year() as u32);
}

#[test]
fn default_seed_joins_user_and_host() {
    assert_eq!(default_seed(Some("carol".to_string()), "box"), "carol@box");
    assert_eq!(default_seed(None, "box"), "anonymous@box");
    assert_eq!(default_seed(None, ""), "anonymous@");
}

#[test]
fn get_seed_default_uses_given_user() {
    let args = Args {
        force_year: None,
        seed: None,
        json: false,
        short: false,
        show_seed: false,
        date: None,
    };
    assert!(args.get_seed(Some("dave".to_string())).starts_with("dave@"));
}

#[test]
fn january_first_text_forms() {
    assert!(date_is_january_first("2026-01-01"));
    assert!(date_is_january_first("1999-01-01"));
    assert!(date_is_january_first("-01-01"));
    assert!(!date_is_january_first("2026-01-02"));
    assert!(!date_is_january_first("2026-10-01"));
    assert!(!date_is_january_first("2026-01-01-"));
    assert!(!date_is_january_first("2026-1-1"));
    assert!(!date_is_january_first("20260101"));
    assert!(!date_is_january_first("2026-01"));
    assert!(!date_is_january_first(""));
}

#[test]
fn execution_decisions() {
    assert_eq!(decide_execution(true, false), Ok(false));
    assert_eq!(decide_execution(true, true), Ok(false));
    assert_eq!(decide_execution(false, true), Ok(true));
    assert_eq!(decide_execution(false, false), Err(NOT_JANUARY_FIRST));
}

#[test]
fn can_execute_on_january_first_without_force() {
    let args = Args {
        force_year: None,
        seed: None,
        json: false,
        short: false,
        show_seed: false,
        date: Some("2026-01-01".to_string()),
    };
    assert_eq!(args.can_execute(), Ok(false));
}

#[test]
fn can_execute_refusal_text() {
    let args = Args {
        force_year: None,
        seed: None,
        json: false,
        short: false,
        show_seed: false,
        date: Some("2026-07-15".to_string()),
    };
    assert_eq!(
        args.can_execute(),
        Err("This command can only be executed on January 1st.\nUse --force-year <YYYY> to override.")
    );
}
