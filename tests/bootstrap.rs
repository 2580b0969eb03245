use capture_uploader::bootstrap::{boot_start, boot_step, BootAction, BootEvent, BootStage};

#[test]
fn bootstrap_full_sequence() {
    let (st, a) = boot_start();
    assert_eq!((st, a), (BootStage::WaitLink, BootAction::PollLink { delay_millis: 0 }));
    let (st, a) = boot_step(st, BootEvent::LinkStatus { connected: false });
    assert_eq!((st, a), (BootStage::WaitLink, BootAction::PollLink { delay_millis: 1000 }));
    let (st, a) = boot_step(st, BootEvent::LinkStatus { connected: true });
    assert_eq!((st, a), (BootStage::WaitAddress, BootAction::PollAddress { delay_millis: 0 }));
    let (st, a) = boot_step(st, BootEvent::AddressStatus { address: [0, 0, 0, 0] });
    assert_eq!((st, a), (BootStage::WaitAddress, BootAction::PollAddress { delay_millis: 1000 }));
    let (st, a) = boot_step(st, BootEvent::AddressStatus { address: [192, 168, 1, 20] });
    assert_eq!((st, a), (BootStage::WaitSync, BootAction::PollSync { delay_millis: 0 }));
    let (st, a) = boot_step(st, BootEvent::SyncStatus { completed: false });
    assert_eq!((st, a), (BootStage::WaitSync, BootAction::PollSync { delay_millis: 1000 }));
    let (st, a) = boot_step(st, BootEvent::SyncStatus { completed: true });
    assert_eq!((st, a), (BootStage::Ready, BootAction::Done));
}

#[test]
fn bootstrap_ignores_out_of_order_reports() {
    let (st, _) = boot_step(BootStage::WaitLink, BootEvent::SyncStatus { completed: true });
    assert_eq!(st, BootStage::WaitLink);
    let (st, a) = boot_step(BootStage::Ready, BootEvent::LinkStatus { connected: false });
    assert_eq!((st, a), (BootStage::Ready, BootAction::Done));
}
