use hidproxyctl::device::DeviceId;
use hidproxyctl::device::DeviceRecord;
use hidproxyctl::run::plan_transfers;
use hidproxyctl::run::simulate_run;
use hidproxyctl::run::Session;
use hidproxyctl::transfer::TARGET_PRODUCT_ID;
use hidproxyctl::transfer::TARGET_VENDOR_ID;

fn target(opens: bool) -> DeviceRecord {
    DeviceRecord {
        descriptor: Some(DeviceId { vendor_id: TARGET_VENDOR_ID, product_id: TARGET_PRODUCT_ID }),
        opens,
    }
}

#[test]
fn both_flags_plan_four_transfers_toggle_first() {
    let plan = plan_transfers(true, true);
    assert_eq!(plan.len(), 4);
    assert_eq!(plan[0].payload, vec![0x01, 0x05]);
    assert_eq!(plan[1].payload, vec![0x05, 0x00]);
    assert_eq!(plan[2].payload, vec![0x01, 0x06]);
    assert_eq!(plan[3].payload, vec![0x06, 0x00]);
}

#[test]
fn single_flags_plan_their_own_sequence() {
    let toggle = plan_transfers(true, false);
    assert_eq!(toggle.len(), 2);
    assert_eq!(toggle[0].payload, vec![0x01, 0x05]);
    let clear = plan_transfers(false, true);
    assert_eq!(clear.len(), 2);
    assert_eq!(clear[0].payload, vec![0x01, 0x06]);
}

#[test]
fn no_flags_plan_nothing() {
    let plan = plan_transfers(false, false);
    assert_eq!(plan.len(), 0);
}

#[test]
fn failed_transfer_does_not_change_the_next_one() {
    let mut session = Session::new(true, false);
    let first = session.pending().expect("first transfer pending").duplicate();
    assert_eq!(first.payload, vec![0x01, 0x05]);
    session.record_outcome(false);
    let second = session.pending().expect("second transfer still pending").duplicate();
    assert_eq!(second.payload, vec![0x05, 0x00]);
    assert_eq!(second.index, 8);
    session.record_outcome(true);
    assert!(session.finished());
    assert_eq!(session.attempted(), 2);
    assert_eq!(session.outcomes(), &vec![false, true]);
}

#[test]
fn run_with_both_flags_issues_all_four_transfers() {
    let devices = vec![target(true)];
    let replies = vec![false, true, true, true];
    let report = simulate_run(&devices, TARGET_VENDOR_ID, TARGET_PRODUCT_ID, true, true, &replies);
    assert_eq!(report.device_index, Some(0));
    assert_eq!(report.issued.len(), 4);
    assert_eq!(report.issued[0].payload, vec![0x01, 0x05]);
    assert_eq!(report.issued[1].payload, vec![0x05, 0x00]);
    assert_eq!(report.issued[2].payload, vec![0x01, 0x06]);
    assert_eq!(report.issued[3].payload, vec![0x06, 0x00]);
    assert_eq!(report.outcomes, vec![false, true, true, true]);
}

#[test]
fn run_without_flags_opens_the_device_but_issues_nothing() {
    let devices = vec![target(true)];
    let replies: Vec<bool> = vec![];
    let report =
        simulate_run(&devices, TARGET_VENDOR_ID, TARGET_PRODUCT_ID, false, false, &replies);
    assert_eq!(report.device_index, Some(0));
    assert_eq!(report.issued.len(), 0);
}

#[test]
fn run_without_device_issues_no_transfer() {
    let devices: Vec<DeviceRecord> = vec![];
    let replies = vec![true, true, true, true];
    let report = simulate_run(&devices, TARGET_VENDOR_ID, TARGET_PRODUCT_ID, true, true, &replies);
    assert_eq!(report.device_index, None);
    assert_eq!(report.issued.len(), 0);
    assert_eq!(report.outcomes.len(), 0);
}

#[test]
fn run_with_unopenable_device_issues_no_transfer() {
    let devices = vec![target(false)];
    let replies = vec![true, true];
    let report = simulate_run(&devices, TARGET_VENDOR_ID, TARGET_PRODUCT_ID, true, false, &replies);
    assert_eq!(report.device_index, None);
    assert_eq!(report.issued.len(), 0);
}
