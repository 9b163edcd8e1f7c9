use nova_core::identity::{
    find_match, id_table, match_device, DeviceIdentity, CLASS_DISPLAY_3D, CLASS_DISPLAY_VGA,
    CLASS_MASK_CLASS_SUBCLASS, VENDOR_NVIDIA,
};

#[test]
fn table_holds_vga_then_3d() {
    let table = id_table();
    assert_eq!(
        table,
        vec![
            DeviceIdentity { class: 0x03_00_00, class_mask: 0xff_ff_00, vendor: 0x10de },
            DeviceIdentity { class: 0x03_02_00, class_mask: 0xff_ff_00, vendor: 0x10de },
        ]
    );
}

#[test]
fn identity_constants() {
    assert_eq!(VENDOR_NVIDIA, 0x10de);
    assert_eq!(CLASS_DISPLAY_VGA, 0x03_00_00);
    assert_eq!(CLASS_DISPLAY_3D, 0x03_02_00);
    assert_eq!(CLASS_MASK_CLASS_SUBCLASS, 0xff_ff_00);
}

#[test]
fn nvidia_vga_controller_matches_first_entry() {
    assert_eq!(match_device(0x03_00_00, 0x10de), Some(0));
}

#[test]
fn nvidia_3d_controller_matches_second_entry() {
    assert_eq!(match_device(0x03_02_00, 0x10de), Some(1));
}

#[test]
fn programming_interface_is_ignored() {
    assert_eq!(match_device(0x03_00_01, 0x10de), Some(0));
    assert_eq!(match_device(0x03_02_ff, 0x10de), Some(1));
}

#[test]
fn other_vendor_is_not_claimed() {
    assert_eq!(match_device(0x03_00_00, 0x8086), None);
    assert_eq!(match_device(0x03_02_00, 0x1002), None);
}

#[test]
fn other_class_is_not_claimed() {
    // XGA controller, other display controller, network controller, audio.
    assert_eq!(match_device(0x03_01_00, 0x10de), None);
    assert_eq!(match_device(0x03_80_00, 0x10de), None);
    assert_eq!(match_device(0x02_00_00, 0x10de), None);
    assert_eq!(match_device(0x04_03_00, 0x10de), None);
}

#[test]
fn entry_compares_only_masked_bits() {
    let entry = DeviceIdentity::from_class_and_vendor(0x03_00_00, 0xff_00_00, 0x10de);
    assert_eq!(entry, DeviceIdentity { class: 0x03_00_00, class_mask: 0xff_00_00, vendor: 0x10de });
    assert!(entry.accepts(0x03_02_00, 0x10de));
    assert!(entry.accepts(0x03_80_7f, 0x10de));
    assert!(!entry.accepts(0x04_00_00, 0x10de));
    assert!(!entry.accepts(0x03_00_00, 0x10df));
}

#[test]
fn first_match_wins() {
    let table = vec![
        DeviceIdentity { class: 0x02_00_00, class_mask: 0xff_ff_00, vendor: 0x10de },
        DeviceIdentity { class: 0x03_00_00, class_mask: 0xff_00_00, vendor: 0x10de },
        DeviceIdentity { class: 0x03_02_00, class_mask: 0xff_ff_00, vendor: 0x10de },
    ];
    assert_eq!(find_match(&table, 0x03_02_00, 0x10de), Some(1));
    assert_eq!(find_match(&table, 0x02_00_00, 0x10de), Some(0));
    assert_eq!(find_match(&table, 0x05_00_00, 0x10de), None);
}

#[test]
fn empty_table_claims_nothing() {
    let table: Vec<DeviceIdentity> = Vec::new();
    assert_eq!(find_match(&table, 0x03_00_00, 0x10de), None);
}
