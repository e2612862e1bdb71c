use ctrunner::text::{is_blank_str, is_whitespace, StringExt};
use ctrunner::town::Town;
use ctrunner::user::{UpdateRunnerInfo, UserClaims};

fn info(runner_id: i64, first: &str, last: &str, hometown_id: i64) -> UpdateRunnerInfo {
    UpdateRunnerInfo {
        runner_id,
        first_name: first.to_string(),
        last_name: last.to_string(),
        hometown_id,
        towns: None,
    }
}

#[test]
fn town_ids_in_range() {
    assert!(!Town::is_valid(0));
    assert!(Town::is_valid(1));
    assert!(Town::is_valid(168));
    assert!(!Town::is_valid(169));
    assert!(!Town::is_valid(-5));
    assert!(Town::is_not_valid(169));
    assert!(!Town::is_not_valid(42));
}

#[test]
fn valid_runner_info_passes() {
    assert_eq!(info(1, "Ada", "Lovelace", 1).validate(), Ok(()));
    assert_eq!(info(9_999, "A", "B", 168).validate(), Ok(()));
    let long_ok = "x".repeat(25);
    assert_eq!(info(5, &long_ok, &long_ok, 5).validate(), Ok(()));
}

#[test]
fn runner_info_errors_in_order() {
    assert_eq!(info(0, "Ada", "L", 1).validate(), Err("Member ID is not valid".to_string()));
    assert_eq!(info(10_000, "", "", 0).validate(), Err("Member ID is not valid".to_string()));
    assert_eq!(info(7, " \t", "L", 1).validate(), Err("First name cannot be empty".to_string()));
    assert_eq!(info(7, "Ada", "\u{3000}", 1).validate(), Err("Last name cannot be empty".to_string()));
    assert_eq!(
        info(7, &"x".repeat(26), "L", 1).validate(),
        Err("First name cannot be longer than 25 characters".to_string())
    );
    assert_eq!(
        info(7, "Ada", &"é".repeat(13), 1).validate(),
        Err("Last name cannot be longer than 25 characters".to_string())
    );
    assert_eq!(info(7, "Ada", "L", 169).validate(), Err("Town is not valid".to_string()));
}

#[test]
fn whitespace_matches_std() {
    for c in ['\t', '\n', '\u{b}', '\u{c}', '\r', ' ', '\u{85}', '\u{a0}', '\u{1680}', '\u{2000}',
        '\u{200a}', '\u{2028}', '\u{2029}', '\u{202f}', '\u{205f}', '\u{3000}', 'a', '0', '\u{200b}',
        '\u{180e}', '\u{feff}']
    {
        assert_eq!(is_whitespace(c), c.is_whitespace(), "{:?}", c);
    }
    assert!(is_blank_str(""));
    assert!(is_blank_str(" \n\t"));
    assert!(!is_blank_str(" x "));
    assert!("  ".to_string().is_whitespace_or_empty());
    assert!(!"a".is_whitespace_or_empty());
}

#[test]
fn claims_expire_a_day_later() {
    let c = UserClaims::new("ada@example.com".to_string(), 1_700_000_000);
    assert_eq!(c.sub, "ada@example.com");
    assert_eq!(c.exp, 1_700_086_400);
}
