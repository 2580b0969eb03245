//! The connectivity bootstrap: wait for the link, then for an address, then for
//! time synchronization, polling each once a second.

use vstd::prelude::*;

verus! {

/// Time between two polls of the link, the address or the time synchronization.
pub const BOOT_POLL_MILLIS: u64 = 1000;

/// What the bootstrap is waiting for.
#[derive(Clone, Copy, Debug, PartialEq, Eq, Structural)]
pub enum BootStage {
    WaitLink,
    WaitAddress,
    WaitSync,
    Ready,
}

/// A status report from the link manager or the time-sync client.
#[derive(Clone, Copy, Debug)]
pub enum BootEvent {
    LinkStatus { connected: bool },
    AddressStatus { address: [u8; 4] },
    SyncStatus { completed: bool },
}

/// What the driver of the bootstrap has to do next.
#[derive(Clone, Copy, Debug, PartialEq, Eq, Structural)]
pub enum BootAction {
    /// Ask the link manager whether it is connected, after `delay_millis`.
    PollLink { delay_millis: u64 },
    /// Ask for the interface's address, after `delay_millis`.
    PollAddress { delay_millis: u64 },
    /// Ask the time-sync client for its status, after `delay_millis`.
    PollSync { delay_millis: u64 },
    /// The link is up and the clock synchronized.
    Done,
}

/// An address other than 0.0.0.0 has been assigned.
pub open spec fn address_assigned(address: [u8; 4]) -> bool {
    !(address[0] == 0 && address[1] == 0 && address[2] == 0 && address[3] == 0)
}

/// The stage that follows `stage` on `event`; a report that does not belong to the
/// stage changes nothing.
pub open spec fn next_stage(stage: BootStage, event: BootEvent) -> BootStage {
    match (stage, event) {
        (BootStage::WaitLink, BootEvent::LinkStatus { connected }) => if connected {
            BootStage::WaitAddress
        } else {
            BootStage::WaitLink
        },
        (BootStage::WaitAddress, BootEvent::AddressStatus { address }) => if address_assigned(
            address,
        ) {
            BootStage::WaitSync
        } else {
            BootStage::WaitAddress
        },
        (BootStage::WaitSync, BootEvent::SyncStatus { completed }) => if completed {
            BootStage::Ready
        } else {
            BootStage::WaitSync
        },
        _ => stage,
    }
}

/// The poll that a stage asks for: at once on entering it, after the poll
/// interval while it waits.
pub open spec fn next_action(stage: BootStage, entered: bool) -> BootAction {
    let delay_millis: u64 = if entered { 0 } else { BOOT_POLL_MILLIS };
    match stage {
        BootStage::WaitLink => BootAction::PollLink { delay_millis },
        BootStage::WaitAddress => BootAction::PollAddress { delay_millis },
        BootStage::WaitSync => BootAction::PollSync { delay_millis },
        BootStage::Ready => BootAction::Done,
    }
}

fn is_assigned(address: [u8; 4]) -> (r: bool)
    ensures
        r == address_assigned(address),
{
    !(address[0] == 0 && address[1] == 0 && address[2] == 0 && address[3] == 0)
}

/// One transition of the bootstrap, with the poll to make next.
pub fn boot_step(stage: BootStage, event: BootEvent) -> (r: (BootStage, BootAction))
    ensures
        r.0 == next_stage(stage, event),
        r.1 == next_action(r.0, r.0 != stage),
{
    let next = match stage {
        BootStage::WaitLink => match event {
            BootEvent::LinkStatus { connected } => if connected {
                BootStage::WaitAddress
            } else {
                BootStage::WaitLink
            },
            _ => BootStage::WaitLink,
        },
        BootStage::WaitAddress => match event {
            BootEvent::AddressStatus { address } => if is_assigned(address) {
                BootStage::WaitSync
            } else {
                BootStage::WaitAddress
            },
            _ => BootStage::WaitAddress,
        },
        BootStage::WaitSync => match event {
            BootEvent::SyncStatus { completed } => if completed {
                BootStage::Ready
            } else {
                BootStage::WaitSync
            },
            _ => BootStage::WaitSync,
        },
        BootStage::Ready => BootStage::Ready,
    };
    let delay_millis: u64 = if next != stage { 0 } else { BOOT_POLL_MILLIS };
    let action = match next {
        BootStage::WaitLink => BootAction::PollLink { delay_millis },
        BootStage::WaitAddress => BootAction::PollAddress { delay_millis },
        BootStage::WaitSync => BootAction::PollSync { delay_millis },
        BootStage::Ready => BootAction::Done,
    };
    (next, action)
}

/// The first poll of a bootstrap: the link, at once.
pub fn boot_start() -> (r: (BootStage, BootAction))
    ensures
        r == (BootStage::WaitLink, BootAction::PollLink { delay_millis: 0 }),
{
    (BootStage::WaitLink, BootAction::PollLink { delay_millis: 0 })
}

/// The bootstrap reaches `Ready` only through a connected link, then an assigned
/// address, then a completed synchronization.
pub proof fn lemma_ready_needs_all_conditions(stage: BootStage, event: BootEvent)
    requires
        stage != BootStage::Ready,
        next_stage(stage, event) == BootStage::Ready,
    ensures
        stage == BootStage::WaitSync,
        event == (BootEvent::SyncStatus { completed: true }),
{
}

} // verus!
