//! The device identity table: which bus devices this driver claims.

use vstd::prelude::*;

verus! {

/// PCI vendor id of NVIDIA.
pub const VENDOR_NVIDIA: u32 = 0x10de;

/// Class code of a VGA-compatible display controller (programming interface 0).
pub const CLASS_DISPLAY_VGA: u32 = 0x03_00_00;

/// Class code of a 3D controller (programming interface 0).
pub const CLASS_DISPLAY_3D: u32 = 0x03_02_00;

/// Mask that compares base class and subclass and ignores the programming
/// interface.
pub const CLASS_MASK_CLASS_SUBCLASS: u32 = 0xff_ff_00;

/// One entry of the table: the devices of one vendor whose class code agrees
/// with `class` in the bits that `class_mask` selects.
#[derive(Clone, Copy, Debug, PartialEq, Eq, Structural)]
pub struct DeviceIdentity {
    pub class: u32,
    pub class_mask: u32,
    pub vendor: u32,
}

impl DeviceIdentity {
    /// Whether a device with this class code and vendor id falls under the
    /// entry.
    pub open spec fn matches(self, class: u32, vendor: u32) -> bool {
        self.vendor == vendor && (self.class ^ class) & self.class_mask == 0
    }

    pub fn from_class_and_vendor(class: u32, class_mask: u32, vendor: u32) -> (entry: Self)
        ensures
            entry == (DeviceIdentity { class, class_mask, vendor }),
    {
        DeviceIdentity { class, class_mask, vendor }
    }

    pub fn accepts(&self, class: u32, vendor: u32) -> (yes: bool)
        ensures
            yes == self.matches(class, vendor),
    {
        self.vendor == vendor && (self.class ^ class) & self.class_mask == 0
    }
}

/// Whether some entry of `table` matches.
pub open spec fn table_claims(table: Seq<DeviceIdentity>, class: u32, vendor: u32) -> bool {
    exists|i: int| 0 <= i < table.len() && #[trigger] table[i].matches(class, vendor)
}

/// The driver's table: NVIDIA display controllers, VGA-compatible first, then
/// 3D.
pub open spec fn id_table_spec() -> Seq<DeviceIdentity> {
    seq![
        DeviceIdentity {
            class: CLASS_DISPLAY_VGA,
            class_mask: CLASS_MASK_CLASS_SUBCLASS,
            vendor: VENDOR_NVIDIA,
        },
        DeviceIdentity {
            class: CLASS_DISPLAY_3D,
            class_mask: CLASS_MASK_CLASS_SUBCLASS,
            vendor: VENDOR_NVIDIA,
        },
    ]
}

/// What the driver's table comes to: the vendor is NVIDIA, and base class and
/// subclass say VGA-compatible or 3D controller.
pub open spec fn supported(class: u32, vendor: u32) -> bool {
    vendor == VENDOR_NVIDIA && (class & CLASS_MASK_CLASS_SUBCLASS == CLASS_DISPLAY_VGA || class
        & CLASS_MASK_CLASS_SUBCLASS == CLASS_DISPLAY_3D)
}

pub fn id_table() -> (table: Vec<DeviceIdentity>)
    ensures
        table@ == id_table_spec(),
{
    let mut table: Vec<DeviceIdentity> = Vec::new();
    table.push(
        DeviceIdentity::from_class_and_vendor(
            CLASS_DISPLAY_VGA,
            CLASS_MASK_CLASS_SUBCLASS,
            VENDOR_NVIDIA,
        ),
    );
    table.push(
        DeviceIdentity::from_class_and_vendor(
            CLASS_DISPLAY_3D,
            CLASS_MASK_CLASS_SUBCLASS,
            VENDOR_NVIDIA,
        ),
    );
    assert(table@ =~= id_table_spec());
    table
}

/// The first entry of `table` that matches, by its index.
pub fn find_match(table: &Vec<DeviceIdentity>, class: u32, vendor: u32) -> (found: Option<usize>)
    ensures
        found is Some <==> table_claims(table@, class, vendor),
        found matches Some(i) ==> i < table.len() && table[i as int].matches(class, vendor)
            && forall|j: int| 0 <= j < i ==> !#[trigger] table[j].matches(class, vendor),
{
    let mut i: usize = 0;
    while i < table.len()
        invariant
            i <= table.len(),
            forall|j: int| 0 <= j < i ==> !#[trigger] table[j].matches(class, vendor),
        decreases table.len() - i,
    {
        if table[i].accepts(class, vendor) {
            return Some(i);
        }
        i = i + 1;
    }
    None
}

/// The entry of the driver's table under which a device falls, if any.
pub fn match_device(class: u32, vendor: u32) -> (found: Option<usize>)
    ensures
        found is Some <==> supported(class, vendor),
        found == Some(0usize) <==> vendor == VENDOR_NVIDIA && class & CLASS_MASK_CLASS_SUBCLASS
            == CLASS_DISPLAY_VGA,
        found == Some(1usize) <==> vendor == VENDOR_NVIDIA && class & CLASS_MASK_CLASS_SUBCLASS
            == CLASS_DISPLAY_3D,
{
    let table = id_table();
    let found = find_match(&table, class, vendor);
    proof {
        law_table_is_supported(class, vendor);
        assert(((0x03_00_00u32 ^ class) & 0xff_ff_00u32 == 0) <==> (class & 0xff_ff_00u32
            == 0x03_00_00u32)) by (bit_vector);
        assert(((0x03_02_00u32 ^ class) & 0xff_ff_00u32 == 0) <==> (class & 0xff_ff_00u32
            == 0x03_02_00u32)) by (bit_vector);
        if found is Some {
            let i = found->0 as int;
            assert(table@[i].matches(class, vendor));
            if i == 1 {
                assert(!table@[0].matches(class, vendor));
            }
        }
    }
    found
}

/// The driver's table claims exactly the supported devices.
pub proof fn law_table_is_supported(class: u32, vendor: u32)
    ensures
        table_claims(id_table_spec(), class, vendor) <==> supported(class, vendor),
{
    let table = id_table_spec();
    assert(((0x03_00_00u32 ^ class) & 0xff_ff_00u32 == 0) <==> (class & 0xff_ff_00u32
        == 0x03_00_00u32)) by (bit_vector);
    assert(((0x03_02_00u32 ^ class) & 0xff_ff_00u32 == 0) <==> (class & 0xff_ff_00u32
        == 0x03_02_00u32)) by (bit_vector);
    if supported(class, vendor) {
        if class & CLASS_MASK_CLASS_SUBCLASS == CLASS_DISPLAY_VGA {
            assert(table[0].matches(class, vendor));
        } else {
            assert(table[1].matches(class, vendor));
        }
    }
    if table_claims(table, class, vendor) {
        let i = choose|i: int| 0 <= i < table.len() && #[trigger] table[i].matches(class, vendor);
        assert(i == 0 || i == 1);
    }
}

} // verus!
