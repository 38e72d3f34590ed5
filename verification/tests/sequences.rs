use hidproxyctl::transfer::operation_sequence;
use hidproxyctl::transfer::request_type_byte;
use hidproxyctl::transfer::ControlTransfer;
use hidproxyctl::transfer::Direction;
use hidproxyctl::transfer::Operation;
use hidproxyctl::transfer::Recipient;
use hidproxyctl::transfer::RequestKind;

fn assert_fixed_parameters(t: &ControlTransfer) {
    assert_eq!(t.request_type, 0x20, "host-to-device | class | device");
    assert_eq!(t.request, 0);
    assert_eq!(t.value, 0);
    assert_eq!(t.timeout_ms, 1000);
    assert_eq!(t.payload.len(), 2);
}

#[test]
fn toggle_mode_issues_its_two_transfers_in_order() {
    let seq = operation_sequence(Operation::ToggleMode);
    assert_eq!(seq.len(), 2);
    assert_fixed_parameters(&seq[0]);
    assert_fixed_parameters(&seq[1]);
    assert_eq!(seq[0].payload, vec![0x01, 0x05]);
    assert_eq!(seq[0].index, 9);
    assert_eq!(seq[1].payload, vec![0x05, 0x00]);
    assert_eq!(seq[1].index, 8);
}

#[test]
fn clear_pairings_issues_its_two_transfers_in_order() {
    let seq = operation_sequence(Operation::ClearPairings);
    assert_eq!(seq.len(), 2);
    assert_fixed_parameters(&seq[0]);
    assert_fixed_parameters(&seq[1]);
    assert_eq!(seq[0].payload, vec![0x01, 0x06]);
    assert_eq!(seq[0].index, 9);
    assert_eq!(seq[1].payload, vec![0x06, 0x00]);
    assert_eq!(seq[1].index, 8);
}

#[test]
fn request_type_byte_packs_the_three_fields() {
    assert_eq!(request_type_byte(Direction::Out, RequestKind::Class, Recipient::Device), 0x20);
    assert_eq!(request_type_byte(Direction::In, RequestKind::Vendor, Recipient::Interface), 0xc1);
    assert_eq!(request_type_byte(Direction::Out, RequestKind::Standard, Recipient::Endpoint), 0x02);
    assert_eq!(request_type_byte(Direction::In, RequestKind::Standard, Recipient::Other), 0x83);
}

#[test]
fn duplicate_copies_every_field() {
    let t = ControlTransfer {
        request_type: 0x20,
        request: 7,
        value: 11,
        index: 9,
        payload: vec![1, 5],
        timeout_ms: 250,
    };
    let d = t.duplicate();
    assert_eq!(d, t);
}
