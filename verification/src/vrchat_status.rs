//! The state of the service, as its status page reports it.

use vstd::prelude::*;

verus! {

/// Response of the status page.
#[derive(Debug, Clone)]
pub struct VRChatStatusResponse {
    pub page: StatusPage,
    pub status: SystemStatus,
}

/// The status page itself.
#[derive(Debug, Clone)]
pub struct StatusPage {
    pub id: String,
    pub name: String,
    pub url: String,
    pub time_zone: String,
    pub updated_at: String,
}

/// The state of the service.
#[derive(Debug, Clone)]
pub struct SystemStatus {
    /// Indicator of system status
    pub indicator: StatusIndicator,
    /// Human-readable status description
    pub description: String,
}

/// How badly the service is impaired.
#[derive(Debug, Clone, Copy, PartialEq, Eq, Structural)]
pub enum StatusIndicator {
    /// Not at all. On the wire this is `none`.
    Operational,
    Minor,
    Major,
    Critical,
}

impl SystemStatus {
    /// Check if the system is operating normally: its indicator reports no
    /// impairment.
    pub fn is_healthy(&self) -> (r: bool)
        ensures
            r == (self.indicator == StatusIndicator::Operational),
    {
        match self.indicator {
            StatusIndicator::Operational => true,
            _ => false,
        }
    }
}

} // verus!
