use vrc_one::vrchat_status::{StatusIndicator, SystemStatus};

#[test]
fn test_severity_levels() {
    let healthy = SystemStatus {
        indicator: StatusIndicator::Operational,
        description: "All Systems Operational".to_string(),
    };
    assert!(healthy.is_healthy());

    let major = SystemStatus {
        indicator: StatusIndicator::Major,
        description: "Partial System Outage".to_string(),
    };
    assert!(!major.is_healthy());
}

#[test]
fn every_impairment_is_unhealthy() {
    for indicator in [StatusIndicator::Minor, StatusIndicator::Major, StatusIndicator::Critical] {
        let status = SystemStatus { indicator, description: String::new() };
        assert!(!status.is_healthy());
    }
}
