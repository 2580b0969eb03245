//! Control logic of an unattended capture-and-upload appliance: resource naming,
//! the statistics ledger, the resilience supervisor, the capture throttle, the
//! upload outcome policy, the connectivity bootstrap and the status replies.

pub mod timefmt;
pub mod ledger;
pub mod supervisor;
pub mod upload;
pub mod capture;
pub mod bootstrap;
pub mod status;
