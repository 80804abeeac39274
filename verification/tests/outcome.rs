use apm::model::{outcome_of, Outcome};

#[test]
fn test_status_in_success_range() {
    assert_eq!(outcome_of(&None, &Some(200)), Outcome::Success);
    assert_eq!(outcome_of(&None, &Some(301)), Outcome::Success);
    assert_eq!(outcome_of(&None, &Some(399)), Outcome::Success);
}

#[test]
fn test_status_in_failure_range() {
    assert_eq!(outcome_of(&None, &Some(400)), Outcome::Failure);
    assert_eq!(outcome_of(&None, &Some(503)), Outcome::Failure);
}

#[test]
fn test_absent_status_is_unknown() {
    assert_eq!(outcome_of(&None, &None), Outcome::Unknown);
}

#[test]
fn test_explicit_outcome_wins() {
    assert_eq!(outcome_of(&Some("success".to_string()), &Some(500)), Outcome::Success);
    assert_eq!(outcome_of(&Some("boom".to_string()), &Some(200)), Outcome::Failure);
    assert_eq!(outcome_of(&Some("success".to_string()), &None), Outcome::Success);
}
