//! The partition table of the flash: its 32-byte entries and the partitions
//! that they describe.

pub mod presets;

use vstd::prelude::*;
use vstd::string::StringSliceAdditionalSpecFns;
use crate::util::bounded::BoundedText;
use vstd::utf8::valid_utf8;

verus! {

/// Flash offset at which the partition table starts.
pub const PARTITION_TABLE_OFFSET: u32 = 0x8000;

/// Size of one entry of the table in bytes.
pub const PARTITION_ENTRY_SIZE: usize = 32;

/// Largest number of entries of a table.
pub const MAX_PARTITION_ENTRIES: usize = 95;

/// Largest number of bytes of a partition label.
pub const MAX_LABEL_BYTES: usize = 16;

/// The label of a partition: UTF-8 text of at most 16 bytes.
pub type PartitionLabel = BoundedText<16>;

/// Calls `core::str::from_utf8`, which gives the bytes as text where they
/// are valid UTF-8 and an error otherwise.
#[verifier::external_body]
fn text_from_utf8(bytes: &[u8]) -> (r: Option<&str>)
    ensures
        r is Some == valid_utf8(bytes@),
        r matches Some(text) ==> text.spec_bytes() == bytes@,
{
    core::str::from_utf8(bytes).ok()
}

/// What kind of data a partition holds.
#[derive(Debug, Clone, Copy, PartialEq, Eq, Structural)]
pub enum PartitionType {
    /// An application image.
    App,
    /// Data.
    Data,
    /// Another type, with its code.
    Unknown(u8),
}

impl From<u8> for PartitionType {
    fn from(value: u8) -> (r: Self) {
        match value {
            0x00 => PartitionType::App,
            0x01 => PartitionType::Data,
            other => PartitionType::Unknown(other),
        }
    }
}

impl vstd::std_specs::convert::FromSpecImpl<u8> for PartitionType {
    open spec fn obeys_from_spec() -> bool {
        true
    }

    open spec fn from_spec(value: u8) -> Self {
        if value == 0x00 {
            PartitionType::App
        } else if value == 0x01 {
            PartitionType::Data
        } else {
            PartitionType::Unknown(value)
        }
    }
}

/// Subtype of a data partition.
#[derive(Debug, Clone, Copy, PartialEq, Eq, Structural)]
pub enum DataSubType {
    /// Over-the-air update state.
    Ota,
    /// Radio calibration data.
    Phy,
    /// Key-value storage.
    Nvs,
    /// Core dump.
    CoreDump,
    /// Keys of the key-value storage.
    NvsKeys,
    /// Emulated eFuse bits.
    EFuse,
    /// Not defined.
    Undefined,
    /// SPIFFS file system.
    Spiffs,
    /// FAT file system.
    Fat,
    /// LittleFS file system.
    LittleFs,
    /// Another subtype, with its code.
    Unknown(u8),
}

impl From<u8> for DataSubType {
    fn from(value: u8) -> (r: Self) {
        match value {
            0x00 => DataSubType::Ota,
            0x01 => DataSubType::Phy,
            0x02 => DataSubType::Nvs,
            0x03 => DataSubType::CoreDump,
            0x04 => DataSubType::NvsKeys,
            0x05 => DataSubType::EFuse,
            0x06 => DataSubType::Undefined,
            0x81 => DataSubType::Fat,
            0x82 => DataSubType::Spiffs,
            0x83 => DataSubType::LittleFs,
            other => DataSubType::Unknown(other),
        }
    }
}

impl vstd::std_specs::convert::FromSpecImpl<u8> for DataSubType {
    open spec fn obeys_from_spec() -> bool {
        true
    }

    open spec fn from_spec(value: u8) -> Self {
        if value == 0x00 {
            DataSubType::Ota
        } else if value == 0x01 {
            DataSubType::Phy
        } else if value == 0x02 {
            DataSubType::Nvs
        } else if value == 0x03 {
            DataSubType::CoreDump
        } else if value == 0x04 {
            DataSubType::NvsKeys
        } else if value == 0x05 {
            DataSubType::EFuse
        } else if value == 0x06 {
            DataSubType::Undefined
        } else if value == 0x81 {
            DataSubType::Fat
        } else if value == 0x82 {
            DataSubType::Spiffs
        } else if value == 0x83 {
            DataSubType::LittleFs
        } else {
            DataSubType::Unknown(value)
        }
    }
}

impl DataSubType {
    /// The code of the subtype.
    pub open spec fn spec_as_u8(self) -> u8 {
        match self {
            DataSubType::Ota => 0x00,
            DataSubType::Phy => 0x01,
            DataSubType::Nvs => 0x02,
            DataSubType::CoreDump => 0x03,
            DataSubType::NvsKeys => 0x04,
            DataSubType::EFuse => 0x05,
            DataSubType::Undefined => 0x06,
            DataSubType::Fat => 0x81,
            DataSubType::Spiffs => 0x82,
            DataSubType::LittleFs => 0x83,
            DataSubType::Unknown(v) => v,
        }
    }

    /// The code of the subtype.
    pub fn as_u8(&self) -> (r: u8)
        ensures
            r == self.spec_as_u8(),
    {
        match self {
            DataSubType::Ota => 0x00,
            DataSubType::Phy => 0x01,
            DataSubType::Nvs => 0x02,
            DataSubType::CoreDump => 0x03,
            DataSubType::NvsKeys => 0x04,
            DataSubType::EFuse => 0x05,
            DataSubType::Undefined => 0x06,
            DataSubType::Fat => 0x81,
            DataSubType::Spiffs => 0x82,
            DataSubType::LittleFs => 0x83,
            DataSubType::Unknown(v) => *v,
        }
    }
}

/// A code turned into a subtype and back is the code.
pub proof fn lemma_data_subtype_round_trip(value: u8)
    ensures
        <DataSubType as vstd::std_specs::convert::FromSpec<u8>>::from_spec(value).spec_as_u8()
            == value,
{
}

/// Subtype of an application partition.
#[derive(Debug, Clone, Copy, PartialEq, Eq, Structural)]
pub enum AppSubType {
    /// The factory image.
    Factory,
    /// Update slot 0 to 15.
    Ota(u8),
    /// The test image.
    Test,
    /// Another subtype, with its code.
    Unknown(u8),
}

impl From<u8> for AppSubType {
    fn from(value: u8) -> (r: Self) {
        if value == 0x00 {
            AppSubType::Factory
        } else if 0x10 <= value && value <= 0x1F {
            AppSubType::Ota(value - 0x10)
        } else if value == 0x20 {
            AppSubType::Test
        } else {
            AppSubType::Unknown(value)
        }
    }
}

impl vstd::std_specs::convert::FromSpecImpl<u8> for AppSubType {
    open spec fn obeys_from_spec() -> bool {
        true
    }

    open spec fn from_spec(value: u8) -> Self {
        if value == 0x00 {
            AppSubType::Factory
        } else if 0x10 <= value && value <= 0x1F {
            AppSubType::Ota((value - 0x10) as u8)
        } else if value == 0x20 {
            AppSubType::Test
        } else {
            AppSubType::Unknown(value)
        }
    }
}

impl AppSubType {
    /// The code of the subtype. An update slot has to have a code: slot
    /// numbers end at 0xEF.
    pub fn as_u8(&self) -> (r: u8)
        requires
            *self matches AppSubType::Ota(n) ==> n <= 0xEF,
        ensures
            r == match *self {
                AppSubType::Factory => 0x00u8,
                AppSubType::Ota(n) => (0x10 + n) as u8,
                AppSubType::Test => 0x20u8,
                AppSubType::Unknown(v) => v,
            },
    {
        match self {
            AppSubType::Factory => 0x00,
            AppSubType::Ota(n) => 0x10 + *n,
            AppSubType::Test => 0x20,
            AppSubType::Unknown(v) => *v,
        }
    }
}

/// Flags of a partition.
#[derive(Debug, Clone, Copy, PartialEq, Eq, Structural)]
pub struct PartitionFlags {
    /// The partition is encrypted.
    pub encrypted: bool,
    /// The partition is read-only.
    pub readonly: bool,
}

impl Default for PartitionFlags {
    fn default() -> (r: Self)
        ensures
            r == (PartitionFlags { encrypted: false, readonly: false }),
    {
        PartitionFlags { encrypted: false, readonly: false }
    }
}

impl From<u32> for PartitionFlags {
    fn from(value: u32) -> (r: Self) {
        PartitionFlags { encrypted: (value & 0x01) != 0, readonly: (value & 0x02) != 0 }
    }
}

impl vstd::std_specs::convert::FromSpecImpl<u32> for PartitionFlags {
    open spec fn obeys_from_spec() -> bool {
        true
    }

    /// Bit 0 says encrypted, bit 1 read-only.
    open spec fn from_spec(value: u32) -> Self {
        PartitionFlags { encrypted: (value & 0x01) != 0, readonly: (value & 0x02) != 0 }
    }
}

/// One partition of the flash.
pub struct Partition {
    /// Label, at most 16 bytes.
    pub label: PartitionLabel,
    /// What kind of data the partition holds.
    pub partition_type: PartitionType,
    /// Code of the subtype.
    pub subtype: u8,
    /// Offset of the partition in the flash.
    pub offset: u32,
    /// Size of the partition in bytes.
    pub size: u32,
    /// Flags.
    pub flags: PartitionFlags,
}

impl Clone for Partition {
    fn clone(&self) -> (r: Self)
        ensures
            r.label@ == self.label@,
            r.partition_type == self.partition_type,
            r.subtype == self.subtype,
            r.offset == self.offset,
            r.size == self.size,
            r.flags == self.flags,
    {
        Partition {
            label: self.label.clone(),
            partition_type: self.partition_type,
            subtype: self.subtype,
            offset: self.offset,
            size: self.size,
            flags: self.flags,
        }
    }
}

/// The 32-bit number that four bytes give, lowest byte first.
pub open spec fn le_u32(b0: u8, b1: u8, b2: u8, b3: u8) -> u32 {
    (b0 + 256 * b1 + 65536 * b2 + 16777216 * b3) as u32
}

/// Number of bytes of `field` before the first zero byte: all of them where
/// there is none.
pub open spec fn text_length(field: Seq<u8>) -> int
    decreases field.len(),
{
    if field.len() == 0 || field[0] == 0 {
        0
    } else {
        1 + text_length(field.drop_first())
    }
}

/// The label bytes of a table entry: bytes 12 to 27, up to the first zero.
pub open spec fn entry_label(entry: Seq<u8>) -> Seq<u8> {
    entry.subrange(12, 12 + text_length(entry.subrange(12, 28)))
}

/// A table entry describes a partition: it has 32 bytes, starts with the
/// magic number 0xAA50, lowest byte first, and its label is UTF-8.
pub open spec fn entry_valid(entry: Seq<u8>) -> bool {
    &&& entry.len() == 32
    &&& entry[0] == 0x50
    &&& entry[1] == 0xAA
    &&& valid_utf8(entry_label(entry))
}

/// The partition `p` is the one that the table entry `entry` describes.
pub open spec fn entry_matches(p: Partition, entry: Seq<u8>) -> bool {
    &&& p.partition_type == <PartitionType as vstd::std_specs::convert::FromSpec<u8>>::from_spec(
        entry[2],
    )
    &&& p.subtype == entry[3]
    &&& p.offset == le_u32(entry[4], entry[5], entry[6], entry[7])
    &&& p.size == le_u32(entry[8], entry[9], entry[10], entry[11])
    &&& p.label@ == entry_label(entry)
    &&& p.flags == <PartitionFlags as vstd::std_specs::convert::FromSpec<u32>>::from_spec(
        le_u32(entry[28], entry[29], entry[30], entry[31]),
    )
}

proof fn lemma_text_length_bounds(field: Seq<u8>)
    ensures
        0 <= text_length(field) <= field.len(),
    decreases field.len(),
{
    if field.len() != 0 && field[0] != 0 {
        lemma_text_length_bounds(field.drop_first());
    }
}

/// The text length of a field whose first `i` bytes are not zero.
proof fn lemma_text_length_step(field: Seq<u8>, i: int)
    requires
        0 <= i <= field.len(),
        forall|k: int| 0 <= k < i ==> field[k] != 0,
    ensures
        text_length(field) == i + text_length(field.subrange(i, field.len() as int)),
    decreases i,
{
    if i == 0 {
        assert(field.subrange(0, field.len() as int) =~= field);
    } else {
        lemma_text_length_step(field, i - 1);
        let rest = field.subrange(i - 1, field.len() as int);
        assert(rest[0] == field[i - 1]);
        assert(rest.drop_first() =~= field.subrange(i, field.len() as int));
    }
}

fn read_le_u32(data: &[u8], at: usize) -> (r: u32)
    requires
        at + 4 <= data@.len(),
    ensures
        r == le_u32(data@[at as int], data@[at + 1], data@[at + 2], data@[at + 3]),
{
    data[at] as u32 + 256 * (data[at + 1] as u32) + 65536 * (data[at + 2] as u32) + 16777216 * (
    data[at + 3] as u32)
}

/// The partition that the 32 bytes of `data` from `start` on describe.
fn parse_entry(data: &[u8], start: usize) -> (r: Option<Partition>)
    requires
        start + 32 <= data@.len(),
    ensures
        r is Some == entry_valid(data@.subrange(start as int, start + 32)),
        r matches Some(p) ==> entry_matches(p, data@.subrange(start as int, start + 32)),
{
    let ghost entry = data@.subrange(start as int, start + 32);
    if data[start] != 0x50 || data[start + 1] != 0xAA {
        return None;
    }
    let partition_type = PartitionType::from(data[start + 2]);
    let subtype = data[start + 3];
    let offset = read_le_u32(data, start + 4);
    let size = read_le_u32(data, start + 8);
    let ghost field = entry.subrange(12, 28);
    let total = data.len();
    let mut label_len: usize = 0;
    while label_len < 16 && data[start + 12 + label_len] != 0
        invariant
            label_len <= 16,
            start + 32 <= data@.len() <= usize::MAX,
            entry == data@.subrange(start as int, start + 32),
            field == entry.subrange(12, 28),
            forall|k: int| 0 <= k < label_len ==> field[k] != 0,
        decreases 16 - label_len,
    {
        label_len += 1;
    }
    proof {
        lemma_text_length_step(field, label_len as int);
        if label_len < 16 {
            assert(field.subrange(label_len as int, 16)[0] == 0);
        }
        assert(text_length(field) == label_len);
    }
    let label_region = vstd::slice::slice_subrange(data, start + 12, start + 12 + label_len);
    proof {
        assert(label_region@ =~= entry_label(entry));
    }
    let text = match text_from_utf8(label_region) {
        Some(text) => text,
        None => {
            return None;
        },
    };
    let label = match PartitionLabel::try_from_str(text) {
        Some(label) => label,
        None => {
            return None;
        },
    };
    let flags = PartitionFlags::from(read_le_u32(data, start + 28));
    Some(Partition { label, partition_type, subtype, offset, size, flags })
}

impl Partition {
    /// The partition that a table entry describes, or `None` where the
    /// entry does not start with the magic number or its label is not
    /// UTF-8.
    pub fn from_bytes(data: &[u8; 32]) -> (r: Option<Self>)
        ensures
            r is Some == entry_valid(data@),
            r matches Some(p) ==> entry_matches(p, data@),
    {
        proof {
            assert(data@.subrange(0, 32) =~= data@);
        }
        parse_entry(data.as_slice(), 0)
    }

    /// Whether the partition holds data.
    pub fn is_data(&self) -> (r: bool)
        ensures
            r == (self.partition_type == PartitionType::Data),
    {
        match self.partition_type {
            PartitionType::Data => true,
            _ => false,
        }
    }

    /// Whether the partition holds an application image.
    pub fn is_app(&self) -> (r: bool)
        ensures
            r == (self.partition_type == PartitionType::App),
    {
        match self.partition_type {
            PartitionType::App => true,
            _ => false,
        }
    }

    /// The subtype of a data partition.
    pub fn data_subtype(&self) -> (r: Option<DataSubType>)
        ensures
            r == if self.partition_type == PartitionType::Data {
                Some(<DataSubType as vstd::std_specs::convert::FromSpec<u8>>::from_spec(self.subtype))
            } else {
                None
            },
    {
        if self.is_data() {
            Some(DataSubType::from(self.subtype))
        } else {
            None
        }
    }

    /// The subtype of an application partition.
    pub fn app_subtype(&self) -> (r: Option<AppSubType>)
        ensures
            r == if self.partition_type == PartitionType::App {
                Some(<AppSubType as vstd::std_specs::convert::FromSpec<u8>>::from_spec(self.subtype))
            } else {
                None
            },
    {
        if self.is_app() {
            Some(AppSubType::from(self.subtype))
        } else {
            None
        }
    }

    /// Whether the partition is a data partition with the subtype code
    /// `code`.
    pub open spec fn holds_data_of(self, code: u8) -> bool {
        self.partition_type == PartitionType::Data && self.subtype == code
    }

    /// Whether the partition holds a LittleFS file system.
    pub fn is_littlefs(&self) -> (r: bool)
        ensures
            r == self.holds_data_of(0x83),
    {
        self.is_data() && self.subtype == DataSubType::LittleFs.as_u8()
    }

    /// Whether the partition holds a SPIFFS file system.
    pub fn is_spiffs(&self) -> (r: bool)
        ensures
            r == self.holds_data_of(0x82),
    {
        self.is_data() && self.subtype == DataSubType::Spiffs.as_u8()
    }

    /// Whether the partition holds key-value storage.
    pub fn is_nvs(&self) -> (r: bool)
        ensures
            r == self.holds_data_of(0x02),
    {
        self.is_data() && self.subtype == DataSubType::Nvs.as_u8()
    }

    /// Flash offset of the first byte behind the partition.
    pub fn end_offset(&self) -> (r: u32)
        requires
            self.offset + self.size <= u32::MAX,
        ensures
            r == self.offset + self.size,
    {
        self.offset + self.size
    }

    /// Number of whole blocks of `block_size` bytes in the partition.
    pub fn block_count(&self, block_size: u32) -> (r: u32)
        requires
            block_size > 0,
        ensures
            r == self.size / block_size,
    {
        self.size / block_size
    }
}

/// Entry number `i` of the table data `data`.
pub open spec fn table_entry(data: Seq<u8>, i: int) -> Seq<u8> {
    data.subrange(32 * i, 32 * i + 32)
}

/// The entry marks the end of the table: it starts with two bytes 0xFF.
pub open spec fn is_end_marker(entry: Seq<u8>) -> bool {
    entry[0] == 0xFF && entry[1] == 0xFF
}

/// Number of entries of `data`, from entry `from` on, that describe a
/// partition before the data ends, an end marker stands, or an entry is
/// not valid.
pub open spec fn entries_from(data: Seq<u8>, from: int) -> int
    decreases data.len() - 32 * from,
{
    if from < 0 || 32 * (from + 1) > data.len() {
        0
    } else if is_end_marker(table_entry(data, from)) || !entry_valid(table_entry(data, from)) {
        0
    } else {
        1 + entries_from(data, from + 1)
    }
}

proof fn lemma_entries_nonnegative(data: Seq<u8>, from: int)
    ensures
        entries_from(data, from) >= 0,
    decreases data.len() - 32 * from,
{
    if !(from < 0 || 32 * (from + 1) > data.len()) && !(is_end_marker(table_entry(data, from))
        || !entry_valid(table_entry(data, from))) {
        lemma_entries_nonnegative(data, from + 1);
    }
}

/// The partitions of `s` among the first `n` that have the type `t`, in
/// order.
pub open spec fn of_type(s: Seq<Partition>, t: PartitionType, n: int) -> Seq<Partition>
    decreases n,
{
    if n <= 0 {
        Seq::empty()
    } else if s[n - 1].partition_type == t {
        of_type(s, t, n - 1).push(s[n - 1])
    } else {
        of_type(s, t, n - 1)
    }
}

/// `i` is the first index in `s` of a data partition with the subtype code
/// `code`.
pub open spec fn first_data_of(s: Seq<Partition>, code: u8, i: int) -> bool {
    &&& 0 <= i < s.len()
    &&& s[i].holds_data_of(code)
    &&& forall|j: int| 0 <= j < i ==> !(#[trigger] s[j]).holds_data_of(code)
}

/// `i` is the first index in `s` of a partition with the label bytes
/// `label`.
pub open spec fn first_labelled(s: Seq<Partition>, label: Seq<u8>, i: int) -> bool {
    &&& 0 <= i < s.len()
    &&& s[i].label@ == label
    &&& forall|j: int| 0 <= j < i ==> (#[trigger] s[j]).label@ != label
}

/// Whether two byte strings are the same.
fn same_bytes(a: &[u8], b: &[u8]) -> (r: bool)
    ensures
        r == (a@ == b@),
{
    if a.len() != b.len() {
        return false;
    }
    let mut i: usize = 0;
    while i < a.len()
        invariant
            i <= a@.len(),
            a@.len() == b@.len(),
            forall|k: int| 0 <= k < i ==> a@[k] == b@[k],
        decreases a@.len() - i,
    {
        if a[i] != b[i] {
            return false;
        }
        i += 1;
    }
    assert(a@ =~= b@);
    true
}

/// The entries of a partition table, at most 95, held in a
/// `heapless::Vec<Partition, MAX_PARTITION_ENTRIES>`.
#[verifier::external_body]
pub struct PartitionList {
    items: heapless::Vec<Partition, MAX_PARTITION_ENTRIES>,
}

/// The partitions that a `PartitionList` holds, in the order in which they
/// were added.
pub uninterp spec fn partition_items(list: PartitionList) -> Seq<Partition>;

/// Calls `heapless::Vec::new`, which makes an empty vector.
#[verifier::external_body]
fn partitions_new() -> (r: PartitionList)
    ensures
        partition_items(r) == Seq::<Partition>::empty(),
{
    PartitionList { items: heapless::Vec::new() }
}

/// Calls `heapless::Vec::push`, which appends `item` where the vector
/// holds fewer than its 95 elements, and otherwise changes nothing and hands
/// the item back. Returns whether the item was appended.
#[verifier::external_body]
fn partitions_push(list: &mut PartitionList, item: Partition) -> (r: bool)
    ensures
        r == (partition_items(*old(list)).len() < MAX_PARTITION_ENTRIES),
        r ==> partition_items(*final(list)) == partition_items(*old(list)).push(item),
        !r ==> partition_items(*final(list)) == partition_items(*old(list)),
{
    list.items.push(item).is_ok()
}

/// Calls `heapless::Vec::as_slice`, which gives the elements that the
/// vector holds: at most the 95 that it has room for.
#[verifier::external_body]
fn partitions_as_slice(list: &PartitionList) -> (r: &[Partition])
    ensures
        r@ == partition_items(*list),
        r@.len() <= MAX_PARTITION_ENTRIES,
{
    list.items.as_slice()
}

/// The partitions of a flash, at most 95.
pub struct PartitionTable {
    partitions: PartitionList,
}

impl View for PartitionTable {
    type V = Seq<Partition>;

    /// The partitions in the order of the table.
    closed spec fn view(&self) -> Seq<Partition> {
        partition_items(self.partitions)
    }
}

impl PartitionTable {
    /// An empty table.
    pub fn new() -> (r: Self)
        ensures
            r@.len() == 0,
    {
        PartitionTable { partitions: partitions_new() }
    }

    /// Reads a table from the flash data at `PARTITION_TABLE_OFFSET`. The
    /// entries are taken in order up to the end of the data, an end marker
    /// or an entry that is not valid. `None` where the data has no valid
    /// first entry, or more than 95 entries.
    pub fn from_flash_data(data: &[u8]) -> (r: Option<Self>)
        ensures
            r is Some == (1 <= entries_from(data@, 0) <= 95),
            r matches Some(table) ==> table@.len() == entries_from(data@, 0)
                && forall|i: int|
                0 <= i < table@.len() ==> entry_matches(
                    #[trigger] table@[i],
                    table_entry(data@, i),
                ),
    {
        let mut table = Self::new();
        if data.len() < PARTITION_ENTRY_SIZE {
            return None;
        }
        let total = data.len();
        let mut index: usize = 0;
        while total - index * 32 >= 32
            invariant
                total == data@.len(),
                index * 32 <= total,
                table@.len() == index,
                index <= 95,
                entries_from(data@, 0) == index + entries_from(data@, index as int),
                forall|i: int|
                    0 <= i < index ==> entry_matches(
                        #[trigger] table@[i],
                        table_entry(data@, i),
                    ),
            ensures
                entries_from(data@, index as int) == 0,
            decreases total - index * 32,
        {
            let start = index * 32;
            proof {
                assert(table_entry(data@, index as int)[0] == data@[start as int]);
                assert(table_entry(data@, index as int)[1] == data@[start + 1]);
            }
            if data[start] == 0xFF && data[start + 1] == 0xFF {
                break ;
            }
            match parse_entry(data, start) {
                Some(partition) => {
                    if !partitions_push(&mut table.partitions, partition) {
                        proof {
                            lemma_entries_nonnegative(data@, index + 1);
                        }
                        return None;
                    }
                },
                None => {
                    break ;
                },
            }
            index += 1;
        }
        if partitions_as_slice(&table.partitions).len() == 0 {
            None
        } else {
            Some(table)
        }
    }

    /// Appends a partition with the given fields and no flags. Fails, and
    /// changes nothing, where the label has more than 16 bytes or the table
    /// is full.
    pub fn add_partition(
        &mut self,
        label: &str,
        partition_type: PartitionType,
        subtype: u8,
        offset: u32,
        size: u32,
    ) -> (r: Result<(), ()>)
        ensures
            r is Ok == (label.spec_bytes().len() <= 16 && old(self)@.len() < 95),
            r is Err ==> final(self)@ == old(self)@,
            r is Ok ==> final(self)@.len() == old(self)@.len() + 1 && final(self)@.subrange(
                0,
                old(self)@.len() as int,
            ) == old(self)@ && final(self)@.last().label@ == label.spec_bytes()
                && final(self)@.last().partition_type == partition_type && final(self)@.last().subtype == subtype && final(self)@.last().offset == offset && final(self)@.last().size == size && final(self)@.last().flags == (PartitionFlags {
                encrypted: false,
                readonly: false,
            }),
    {
        let label = match PartitionLabel::try_from_str(label) {
            Some(label) => label,
            None => {
                return Err(());
            },
        };
        let added = partitions_push(
            &mut self.partitions,
            Partition {
                label,
                partition_type,
                subtype,
                offset,
                size,
                flags: PartitionFlags::default(),
            },
        );
        if !added {
            return Err(());
        }
        proof {
            assert(self@.subrange(0, old(self)@.len() as int) =~= old(self)@);
        }
        Ok(())
    }

    /// The first partition with the label `label`.
    pub fn find_by_label(&self, label: &str) -> (r: Option<&Partition>)
        ensures
            r is None ==> forall|i: int|
                0 <= i < self@.len() ==> (#[trigger] self@[i]).label@
                    != label.spec_bytes(),
            r matches Some(p) ==> exists|i: int|
                first_labelled(self@, label.spec_bytes(), i) && *p == self@[i],
    {
        let wanted = label.as_bytes();
        let list = partitions_as_slice(&self.partitions);
        let mut i: usize = 0;
        while i < list.len()
            invariant
                i <= list@.len(),
                list@ == self@,
                wanted@ == label.spec_bytes(),
                forall|j: int|
                    0 <= j < i ==> (#[trigger] list@[j]).label@
                        != label.spec_bytes(),
            decreases list@.len() - i,
        {
            if same_bytes(list[i].label.as_str().as_bytes(), wanted) {
                assert(first_labelled(self@, label.spec_bytes(), i as int));
                return Some(&list[i]);
            }
            i += 1;
        }
        None
    }

    /// The first data partition with the subtype code `code`.
    fn find_data_by_code(&self, code: u8) -> (r: Option<&Partition>)
        ensures
            r is None ==> forall|i: int|
                0 <= i < self@.len() ==> !(#[trigger] self@[i]).holds_data_of(code),
            r matches Some(p) ==> exists|i: int| first_data_of(self@, code, i) && *p == self@[i],
    {
        let list = partitions_as_slice(&self.partitions);
        let mut i: usize = 0;
        while i < list.len()
            invariant
                i <= list@.len(),
                list@ == self@,
                forall|j: int| 0 <= j < i ==> !(#[trigger] list@[j]).holds_data_of(code),
            decreases list@.len() - i,
        {
            if list[i].is_data() && list[i].subtype == code {
                assert(first_data_of(self@, code, i as int));
                return Some(&list[i]);
            }
            i += 1;
        }
        None
    }

    /// The first partition that holds a LittleFS file system.
    pub fn find_littlefs(&self) -> (r: Option<&Partition>)
        ensures
            r is None ==> forall|i: int|
                0 <= i < self@.len() ==> !(#[trigger] self@[i]).holds_data_of(0x83),
            r matches Some(p) ==> exists|i: int| first_data_of(self@, 0x83, i) && *p == self@[i],
    {
        self.find_data_by_code(0x83)
    }

    /// The first partition that holds a SPIFFS file system.
    pub fn find_spiffs(&self) -> (r: Option<&Partition>)
        ensures
            r is None ==> forall|i: int|
                0 <= i < self@.len() ==> !(#[trigger] self@[i]).holds_data_of(0x82),
            r matches Some(p) ==> exists|i: int| first_data_of(self@, 0x82, i) && *p == self@[i],
    {
        self.find_data_by_code(0x82)
    }

    /// The first partition that holds key-value storage.
    pub fn find_nvs(&self) -> (r: Option<&Partition>)
        ensures
            r is None ==> forall|i: int|
                0 <= i < self@.len() ==> !(#[trigger] self@[i]).holds_data_of(0x02),
            r matches Some(p) ==> exists|i: int| first_data_of(self@, 0x02, i) && *p == self@[i],
    {
        self.find_data_by_code(0x02)
    }

    /// The first data partition with the subtype `subtype`.
    pub fn find_data_by_subtype(&self, subtype: DataSubType) -> (r: Option<&Partition>)
        ensures
            r is None ==> forall|i: int|
                0 <= i < self@.len() ==> !(#[trigger] self@[i]).holds_data_of(
                    subtype.spec_as_u8(),
                ),
            r matches Some(p) ==> exists|i: int|
                first_data_of(self@, subtype.spec_as_u8(), i) && *p == self@[i],
    {
        self.find_data_by_code(subtype.as_u8())
    }

    /// The partitions of the type `partition_type`, in the order of the
    /// table.
    pub fn find_by_type(&self, partition_type: PartitionType) -> (r: Vec<&Partition>)
        ensures
            r@.len() == of_type(self@, partition_type, self@.len() as int).len(),
            forall|i: int|
                0 <= i < r@.len() ==> *(#[trigger] r@[i]) == of_type(
                    self@,
                    partition_type,
                    self@.len() as int,
                )[i],
    {
        let mut found: Vec<&Partition> = Vec::new();
        let list = partitions_as_slice(&self.partitions);
        let mut i: usize = 0;
        while i < list.len()
            invariant
                i <= list@.len(),
                list@ == self@,
                found@.len() == of_type(self@, partition_type, i as int).len(),
                forall|k: int|
                    0 <= k < found@.len() ==> *(#[trigger] found@[k]) == of_type(
                        self@,
                        partition_type,
                        i as int,
                    )[k],
            decreases list@.len() - i,
        {
            if list[i].partition_type == partition_type {
                found.push(&list[i]);
            }
            i += 1;
        }
        found
    }

    /// All partitions, in the order of the table.
    pub fn partitions(&self) -> (r: &[Partition])
        ensures
            r@ == self@,
            r@.len() <= MAX_PARTITION_ENTRIES,
    {
        partitions_as_slice(&self.partitions)
    }

    /// Number of partitions.
    pub fn len(&self) -> (r: usize)
        ensures
            r == self@.len(),
            r <= MAX_PARTITION_ENTRIES,
    {
        partitions_as_slice(&self.partitions).len()
    }

    /// Whether the table has no partition.
    pub fn is_empty(&self) -> (r: bool)
        ensures
            r == (self@.len() == 0),
    {
        partitions_as_slice(&self.partitions).len() == 0
    }
}

impl Default for PartitionTable {
    fn default() -> (r: Self)
        ensures
            r@.len() == 0,
    {
        PartitionTable::new()
    }
}

} // verus!
