//! Partition tables of common flash layouts.

use vstd::prelude::*;
use vstd::string::{is_ascii, is_ascii_spec_bytes, StringSliceAdditionalSpecFns};
use crate::fs::partition::{Partition, PartitionFlags, PartitionTable, PartitionType};

verus! {

/// The partition `p` has the given label, type, subtype code, offset and
/// size, and no flags.
pub open spec fn is_partition(
    p: Partition,
    label: &str,
    partition_type: PartitionType,
    subtype: u8,
    offset: u32,
    size: u32,
) -> bool {
    &&& p.label@ == label.spec_bytes()
    &&& p.partition_type == partition_type
    &&& p.subtype == subtype
    &&& p.offset == offset
    &&& p.size == size
    &&& p.flags == (PartitionFlags { encrypted: false, readonly: false })
}

/// Appends a partition whose label is plain ASCII of at most 16 characters.
fn push(
    table: &mut PartitionTable,
    label: &str,
    partition_type: PartitionType,
    subtype: u8,
    offset: u32,
    size: u32,
)
    requires
        old(table)@.len() < 95,
        is_ascii(label),
        label@.len() <= 16,
    ensures
        final(table)@.len() == old(table)@.len() + 1,
        forall|i: int| 0 <= i < old(table)@.len() ==> final(table)@[i] == old(table)@[i],
        is_partition(final(table)@.last(), label, partition_type, subtype, offset, size),
{
    proof {
        is_ascii_spec_bytes(label);
    }
    let _ = table.add_partition(label, partition_type, subtype, offset, size);
    proof {
        let before = old(table)@;
        assert forall|i: int| 0 <= i < before.len() implies table@[i] == before[i] by {
            assert(table@.subrange(0, before.len() as int)[i] == table@[i]);
        }
    }
}

/// The layout of a 4 MiB flash: key-value storage, radio calibration, the
/// factory application and a LittleFS storage partition.
pub fn default_4mb() -> (r: PartitionTable)
    ensures
        r@.len() == 4,
        is_partition(r@[0], "nvs", PartitionType::Data, 0x02, 0x9000, 0x6000),
        is_partition(r@[1], "phy_init", PartitionType::Data, 0x01, 0xF000, 0x1000),
        is_partition(r@[2], "factory", PartitionType::App, 0x00, 0x10000, 0x100000),
        is_partition(r@[3], "storage", PartitionType::Data, 0x83, 0x110000, 0x2F0000),
{
    proof {
        reveal_strlit("nvs");
        reveal_strlit("phy_init");
        reveal_strlit("factory");
        reveal_strlit("storage");
    }
    let mut table = PartitionTable::new();
    push(&mut table, "nvs", PartitionType::Data, 0x02, 0x9000, 0x6000);
    push(&mut table, "phy_init", PartitionType::Data, 0x01, 0xF000, 0x1000);
    push(&mut table, "factory", PartitionType::App, 0x00, 0x10000, 0x100000);
    push(&mut table, "storage", PartitionType::Data, 0x83, 0x110000, 0x2F0000);
    table
}

/// The layout of a 16 MiB flash with two update slots: key-value storage,
/// radio calibration, update state, the factory application, the two slots
/// and a LittleFS storage partition.
pub fn default_16mb_ota() -> (r: PartitionTable)
    ensures
        r@.len() == 7,
        is_partition(r@[0], "nvs", PartitionType::Data, 0x02, 0x9000, 0x6000),
        is_partition(r@[1], "phy_init", PartitionType::Data, 0x01, 0xF000, 0x1000),
        is_partition(r@[2], "otadata", PartitionType::Data, 0x00, 0x10000, 0x2000),
        is_partition(r@[3], "factory", PartitionType::App, 0x00, 0x12000, 0x400000),
        is_partition(r@[4], "ota_0", PartitionType::App, 0x10, 0x412000, 0x400000),
        is_partition(r@[5], "ota_1", PartitionType::App, 0x11, 0x812000, 0x400000),
        is_partition(r@[6], "storage", PartitionType::Data, 0x83, 0xC12000, 0x3EE000),
{
    proof {
        reveal_strlit("nvs");
        reveal_strlit("phy_init");
        reveal_strlit("otadata");
        reveal_strlit("factory");
        reveal_strlit("ota_0");
        reveal_strlit("ota_1");
        reveal_strlit("storage");
    }
    let mut table = PartitionTable::new();
    push(&mut table, "nvs", PartitionType::Data, 0x02, 0x9000, 0x6000);
    push(&mut table, "phy_init", PartitionType::Data, 0x01, 0xF000, 0x1000);
    push(&mut table, "otadata", PartitionType::Data, 0x00, 0x10000, 0x2000);
    push(&mut table, "factory", PartitionType::App, 0x00, 0x12000, 0x400000);
    push(&mut table, "ota_0", PartitionType::App, 0x10, 0x412000, 0x400000);
    push(&mut table, "ota_1", PartitionType::App, 0x11, 0x812000, 0x400000);
    push(&mut table, "storage", PartitionType::Data, 0x83, 0xC12000, 0x3EE000);
    table
}

/// The layout of a 16 MiB flash with one application: key-value storage,
/// the factory application and a LittleFS storage partition over the rest.
pub fn simple_16mb() -> (r: PartitionTable)
    ensures
        r@.len() == 3,
        is_partition(r@[0], "nvs", PartitionType::Data, 0x02, 0x9000, 0x6000),
        is_partition(r@[1], "factory", PartitionType::App, 0x00, 0x10000, 0x400000),
        is_partition(r@[2], "storage", PartitionType::Data, 0x83, 0x410000, 0xBF0000),
{
    proof {
        reveal_strlit("nvs");
        reveal_strlit("factory");
        reveal_strlit("storage");
    }
    let mut table = PartitionTable::new();
    push(&mut table, "nvs", PartitionType::Data, 0x02, 0x9000, 0x6000);
    push(&mut table, "factory", PartitionType::App, 0x00, 0x10000, 0x400000);
    push(&mut table, "storage", PartitionType::Data, 0x83, 0x410000, 0xBF0000);
    table
}

} // verus!
