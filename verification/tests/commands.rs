//! Command parsing and the control loop's decisions.

use nox_throttle::control::{
    decide, invalid_input_text, parse_command, ControlCommand, ControlModel, LineAction,
    QuotaTarget,
};

#[test]
fn stop_parses() {
    assert_eq!(parse_command("stop"), Some(ControlCommand::Stop));
}

#[test]
fn aggregate_command_parses() {
    assert_eq!(
        parse_command("aggregate 30"),
        Some(ControlCommand::SetGroupQuota(QuotaTarget::Aggregate, 30))
    );
}

#[test]
fn leaf_command_parses() {
    assert_eq!(
        parse_command("2 55"),
        Some(ControlCommand::SetGroupQuota(QuotaTarget::Leaf(2), 55))
    );
}

#[test]
fn banana_is_invalid_and_changes_nothing() {
    assert_eq!(parse_command("banana"), None);
    assert_eq!(decide("banana", 4), LineAction::Reject);
    assert_eq!(invalid_input_text("banana"), "invalid input: [\"banana\"]");
    // a rejected line updates no quota: the fresh model says none was set
    let m = ControlModel::new(4);
    assert!(m.running);
    assert!(m.aggregate_quota.is_none());
    assert_eq!(m.leaf_quotas.len(), 4);
    assert!(m.leaf_quotas.iter().all(|q| q.is_none()));
}

#[test]
fn empty_line_is_invalid() {
    assert_eq!(parse_command(""), None);
}

#[test]
fn missing_percent_is_invalid() {
    assert_eq!(parse_command("aggregate"), None);
    assert_eq!(parse_command("aggregate "), None);
}

#[test]
fn double_space_is_invalid() {
    assert_eq!(parse_command("3  40"), None);
}

#[test]
fn negative_percent_is_invalid() {
    assert_eq!(parse_command("3 -40"), None);
}

#[test]
fn out_of_range_leaf_is_rejected() {
    assert_eq!(decide("9 50", 4), LineAction::Reject);
    assert_eq!(decide("3 50", 4), LineAction::Apply(QuotaTarget::Leaf(3), 50));
}

#[test]
fn overlarge_percent_is_rejected() {
    // does not parse as a 64-bit number at all
    assert_eq!(parse_command("1 99999999999999999999"), None);
    // parses, but cannot be converted to microseconds on this machine
    assert_eq!(decide("1 18446744073709551615", 4), LineAction::Reject);
}

#[test]
fn stop_decides_stop() {
    assert_eq!(decide("stop", 4), LineAction::Stop);
}
