//! Governance review of maintainer conduct: the policy's deadlines,
//! approval thresholds and case lifecycle.

pub mod policy;
