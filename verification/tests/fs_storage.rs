use rustrtos::fs::littlefs::{
    build_superblock, check_magic, FileSystem, FileType, FsConfig, FsError, OpenOptions, SeekFrom,
};
use rustrtos::fs::partition::presets;
use rustrtos::fs::partition::{
    AppSubType, DataSubType, Partition, PartitionFlags, PartitionLabel, PartitionTable,
    PartitionType,
};
use rustrtos::fs::storage::littlefs_adapter::LfsStorageAdapter;
use rustrtos::fs::storage::{
    page_writes, ExternalFlash, FlashConfig, FlashStorage, PageWrite, StorageError,
};

#[test]
fn test_open_options() {
    let opts = OpenOptions::new().read(true).write(true).create(true);

    assert!(opts.read);
    assert!(opts.write);
    assert!(opts.create);
    assert!(!opts.truncate);
}

#[test]
fn test_seek_from() {
    let start = SeekFrom::Start(100);
    let end = SeekFrom::End(-50);
    let current = SeekFrom::Current(10);

    assert!(matches!(start, SeekFrom::Start(100)));
    assert!(matches!(end, SeekFrom::End(-50)));
    assert!(matches!(current, SeekFrom::Current(10)));
}

#[test]
fn test_partition_from_bytes() {
    let mut data = [0u8; 32];
    data[0] = 0x50;
    data[1] = 0xAA;
    data[2] = 0x01;
    data[3] = 0x83;
    // offset = 0x00110000
    data[4] = 0x00;
    data[5] = 0x00;
    data[6] = 0x11;
    data[7] = 0x00;
    // size = 0x002F0000
    data[8] = 0x00;
    data[9] = 0x00;
    data[10] = 0x2F;
    data[11] = 0x00;
    // label = "storage"
    data[12..19].copy_from_slice(b"storage");

    let partition = Partition::from_bytes(&data).unwrap();
    assert_eq!(partition.label.as_str(), "storage");
    assert!(partition.is_data());
    assert!(partition.is_littlefs());
    assert_eq!(partition.offset, 0x00110000);
    assert_eq!(partition.size, 0x002F0000);
}

#[test]
fn test_preset_4mb() {
    let table = presets::default_4mb();
    assert_eq!(table.len(), 4);
    assert!(table.find_by_label("storage").is_some());
    assert!(table.find_littlefs().is_some());
}

#[test]
fn test_flash_config() {
    let config = FlashConfig::default();
    assert_eq!(config.total_size, 16 * 1024 * 1024);
    assert_eq!(config.block_size, 4096);
}

#[test]
fn test_block_to_address() {
    let storage = FlashStorage::new(FlashConfig {
        total_size: 16 * 1024 * 1024,
        sector_size: 4096,
        block_size: 4096,
        page_size: 256,
        partition_offset: 0x100000,
        partition_size: 0x200000,
    });

    assert_eq!(storage.block_to_address(0).unwrap(), 0x100000);
    assert_eq!(storage.block_to_address(1).unwrap(), 0x101000);
}

fn entry(kind: u8, subtype: u8, offset: u32, size: u32, label: &[u8], flags: u32) -> [u8; 32] {
    let mut data = [0u8; 32];
    data[0] = 0x50;
    data[1] = 0xAA;
    data[2] = kind;
    data[3] = subtype;
    data[4..8].copy_from_slice(&offset.to_le_bytes());
    data[8..12].copy_from_slice(&size.to_le_bytes());
    data[12..12 + label.len()].copy_from_slice(label);
    data[28..32].copy_from_slice(&flags.to_le_bytes());
    data
}

#[test]
fn partition_entry_fields() {
    let p = Partition::from_bytes(&entry(0, 0x11, 0x1234_5678, 0xFEDC_BA98, b"ota_1", 3)).unwrap();
    assert_eq!(p.label.as_str(), "ota_1");
    assert_eq!(p.partition_type, PartitionType::App);
    assert!(p.is_app());
    assert!(!p.is_data());
    assert_eq!(p.subtype, 0x11);
    assert_eq!(p.app_subtype(), Some(AppSubType::Ota(1)));
    assert_eq!(p.data_subtype(), None);
    assert_eq!(p.offset, 0x1234_5678);
    assert_eq!(p.size, 0xFEDC_BA98);
    assert_eq!(p.flags, PartitionFlags { encrypted: true, readonly: true });
    assert_eq!(p.block_count(4096), 0xFEDC_BA98 / 4096);

    let p = Partition::from_bytes(&entry(1, 2, 0x9000, 0x6000, b"0123456789abcdef", 2)).unwrap();
    assert_eq!(p.label.as_str(), "0123456789abcdef");
    assert!(p.is_nvs());
    assert!(!p.is_spiffs());
    assert_eq!(p.data_subtype(), Some(DataSubType::Nvs));
    assert_eq!(p.flags, PartitionFlags { encrypted: false, readonly: true });
    assert_eq!(p.end_offset(), 0xF000);

    let p = Partition::from_bytes(&entry(7, 0x82, 0, 0, b"", 0)).unwrap();
    assert_eq!(p.label.as_str(), "");
    assert_eq!(p.partition_type, PartitionType::Unknown(7));
    assert!(!p.is_spiffs());
    let copy = p.clone();
    assert_eq!(copy.label.as_str(), "");

    let p = Partition::from_bytes(&entry(1, 0x82, 0, 0, "gr\u{fc}n".as_bytes(), 0)).unwrap();
    assert_eq!(p.label.as_str(), "gr\u{fc}n");
    assert!(p.is_spiffs());
}

#[test]
fn partition_entry_is_refused() {
    let mut bad_magic = entry(1, 2, 0, 0, b"nvs", 0);
    bad_magic[0] = 0x51;
    assert!(Partition::from_bytes(&bad_magic).is_none());
    let mut bad_magic = entry(1, 2, 0, 0, b"nvs", 0);
    bad_magic[1] = 0;
    assert!(Partition::from_bytes(&bad_magic).is_none());
    assert!(Partition::from_bytes(&entry(1, 2, 0, 0, &[0xFF, 0xFE], 0)).is_none());
    assert!(Partition::from_bytes(&[0xFF; 32]).is_none());
    // Bytes behind the first zero are no part of the label.
    let p = Partition::from_bytes(&entry(1, 2, 0, 0, &[b'a', 0, 0xFF], 0)).unwrap();
    assert_eq!(p.label.as_str(), "a");
}

#[test]
fn partition_subtype_codes() {
    for code in 0..=255u8 {
        assert_eq!(DataSubType::from(code).as_u8(), code);
        assert_eq!(AppSubType::from(code).as_u8(), code);
    }
    assert_eq!(DataSubType::from(0x83), DataSubType::LittleFs);
    assert_eq!(DataSubType::from(0x81), DataSubType::Fat);
    assert_eq!(DataSubType::from(0x07), DataSubType::Unknown(7));
    assert_eq!(AppSubType::from(0x00), AppSubType::Factory);
    assert_eq!(AppSubType::from(0x1F), AppSubType::Ota(15));
    assert_eq!(AppSubType::from(0x20), AppSubType::Test);
    assert_eq!(AppSubType::from(0x21), AppSubType::Unknown(0x21));
    assert_eq!(PartitionType::from(0), PartitionType::App);
    assert_eq!(PartitionType::from(1), PartitionType::Data);
    assert_eq!(PartitionType::from(2), PartitionType::Unknown(2));
    assert_eq!(PartitionFlags::from(1), PartitionFlags { encrypted: true, readonly: false });
    assert_eq!(PartitionFlags::from(0xFFFF_FFFC), PartitionFlags::default());
}

#[test]
fn partition_label_is_bounded() {
    assert_eq!(PartitionLabel::try_from_str("").unwrap().as_str(), "");
    assert_eq!(PartitionLabel::try_from_str("0123456789abcdef").unwrap().as_str(), "0123456789abcdef");
    assert!(PartitionLabel::try_from_str("0123456789abcdefg").is_none());
    // Fifteen characters of seventeen bytes.
    assert!(PartitionLabel::try_from_str("\u{e4}\u{f6}3456789abcdef").is_none());
    let label = PartitionLabel::try_from_str("nvs").unwrap();
    assert_eq!(label.clone().as_str(), "nvs");
}

#[test]
fn partition_table_from_flash_data() {
    let mut data = Vec::new();
    data.extend_from_slice(&entry(1, 2, 0x9000, 0x6000, b"nvs", 0));
    data.extend_from_slice(&entry(0, 0, 0x10000, 0x100000, b"factory", 0));
    data.extend_from_slice(&entry(1, 0x83, 0x110000, 0x2F0000, b"storage", 0));
    data.extend_from_slice(&[0xFF; 32]);
    data.extend_from_slice(&entry(1, 0x82, 0, 0, b"behind", 0));
    data.extend_from_slice(&[1, 2, 3]);
    let table = PartitionTable::from_flash_data(&data).unwrap();
    assert_eq!(table.len(), 3);
    assert!(!table.is_empty());
    assert_eq!(table.partitions()[1].label.as_str(), "factory");
    assert_eq!(table.find_by_label("storage").map(|p| p.offset), Some(0x110000));
    assert!(table.find_by_label("behind").is_none());
    assert!(table.find_spiffs().is_none());
    assert_eq!(table.find_nvs().map(|p| p.size), Some(0x6000));
    assert_eq!(table.find_data_by_subtype(DataSubType::LittleFs).map(|p| p.size), Some(0x2F0000));
    assert!(table.find_data_by_subtype(DataSubType::Fat).is_none());
    let data_partitions = table.find_by_type(PartitionType::Data);
    assert_eq!(data_partitions.len(), 2);
    assert_eq!(data_partitions[0].label.as_str(), "nvs");
    assert_eq!(data_partitions[1].label.as_str(), "storage");
    assert_eq!(table.find_by_type(PartitionType::Unknown(9)).len(), 0);

    assert!(PartitionTable::from_flash_data(&[]).is_none());
    assert!(PartitionTable::from_flash_data(&data[..31]).is_none());
    assert!(PartitionTable::from_flash_data(&[0xFF; 64]).is_none());
    assert!(PartitionTable::from_flash_data(&[0; 64]).is_none());
    assert_eq!(PartitionTable::from_flash_data(&data[..40]).unwrap().len(), 1);
    // An entry that is not valid ends the table.
    let mut broken = data.clone();
    broken[32] = 0;
    assert_eq!(PartitionTable::from_flash_data(&broken).unwrap().len(), 1);

    let mut many = Vec::new();
    for i in 0..95u32 {
        many.extend_from_slice(&entry(1, 0, i, 1, b"p", 0));
    }
    assert_eq!(PartitionTable::from_flash_data(&many).unwrap().len(), 95);
    many.extend_from_slice(&entry(1, 0, 95, 1, b"p", 0));
    assert!(PartitionTable::from_flash_data(&many).is_none());
}

#[test]
fn partition_table_is_built_by_hand() {
    let mut table = PartitionTable::new();
    assert!(table.is_empty());
    assert_eq!(table.add_partition("nvs", PartitionType::Data, 2, 0x9000, 0x6000), Ok(()));
    assert_eq!(
        table.add_partition("a label that is too long", PartitionType::Data, 2, 0, 0),
        Err(())
    );
    assert_eq!(table.len(), 1);
    for i in 1..95u32 {
        assert_eq!(table.add_partition("x", PartitionType::App, 0, i, 1), Ok(()));
    }
    assert_eq!(table.len(), 95);
    assert_eq!(table.add_partition("x", PartitionType::App, 0, 0, 1), Err(()));
    assert_eq!(table.len(), 95);
    assert_eq!(table.find_by_label("x").map(|p| p.offset), Some(1));
    assert!(PartitionTable::default().is_empty());
}

#[test]
fn partition_presets() {
    let table = presets::default_4mb();
    let storage = table.find_littlefs().unwrap();
    assert_eq!(storage.label.as_str(), "storage");
    assert_eq!((storage.offset, storage.size), (0x110000, 0x2F0000));
    assert_eq!(table.partitions()[1].label.as_str(), "phy_init");
    assert_eq!(table.partitions()[1].data_subtype(), Some(DataSubType::Phy));

    let table = presets::default_16mb_ota();
    assert_eq!(table.len(), 7);
    assert_eq!(table.find_by_type(PartitionType::App).len(), 3);
    assert_eq!(table.find_by_label("ota_1").unwrap().app_subtype(), Some(AppSubType::Ota(1)));
    assert_eq!(table.find_littlefs().unwrap().end_offset(), 0x100_0000);
    assert_eq!(table.find_by_label("otadata").unwrap().data_subtype(), Some(DataSubType::Ota));

    let table = presets::simple_16mb();
    assert_eq!(table.len(), 3);
    let storage = table.find_littlefs().unwrap();
    assert_eq!((storage.offset, storage.size), (0x410000, 0xBF0000));
    let flash = FlashStorage::from_partition(storage, 16 * 1024 * 1024);
    assert_eq!(flash.config().partition_offset, 0x410000);
    assert_eq!(flash.block_count(), 0xBF0);
}

fn small_config() -> FlashConfig {
    FlashConfig {
        total_size: 0x10000,
        sector_size: 1024,
        block_size: 4096,
        page_size: 256,
        partition_offset: 0x4000,
        partition_size: 0x8000,
    }
}

#[test]
fn storage_init_checks_the_geometry() {
    let mut storage = FlashStorage::with_defaults();
    assert!(!storage.is_initialized());
    assert_eq!(storage.block_size(), 4096);
    assert_eq!(storage.block_count(), 0xBF0);
    assert_eq!(storage.sync(), Err(StorageError::NotInitialized));
    assert_eq!(storage.read_block(0, 16), Err(StorageError::NotInitialized));
    assert!(matches!(storage.write_block(0, 16), Err(StorageError::NotInitialized)));
    assert!(matches!(storage.erase_block(0), Err(StorageError::NotInitialized)));
    assert_eq!(storage.init(), Ok(()));
    assert!(storage.is_initialized());
    assert_eq!(storage.sync(), Ok(()));

    let mut outside = FlashStorage::new(FlashConfig { partition_size: 0xC001, ..small_config() });
    assert_eq!(outside.init(), Err(StorageError::OutOfBounds));
    assert!(!outside.is_initialized());
    let mut wide =
        FlashStorage::new(FlashConfig { partition_offset: u32::MAX, ..small_config() });
    assert_eq!(wide.init(), Err(StorageError::OutOfBounds));
    let mut odd = FlashStorage::new(FlashConfig { sector_size: 1000, ..small_config() });
    assert_eq!(odd.init(), Err(StorageError::AlignmentError));
    let mut zero = FlashStorage::new(FlashConfig { sector_size: 0, ..small_config() });
    assert_eq!(zero.init(), Err(StorageError::AlignmentError));
    let empty = FlashStorage::new(FlashConfig { block_size: 0, ..small_config() });
    assert_eq!(empty.block_count(), 0);
}

#[test]
fn storage_block_addresses() {
    let mut storage = FlashStorage::new(small_config());
    storage.init().unwrap();
    assert_eq!(storage.block_count(), 8);
    assert_eq!(storage.block_to_address(7), Ok(0xB000));
    assert_eq!(storage.block_to_address(8), Err(StorageError::OutOfBounds));
    assert_eq!(storage.block_to_address(u32::MAX), Err(StorageError::OutOfBounds));
    assert_eq!(storage.read_block(2, 4096), Ok(0x6000));
    assert_eq!(storage.read_block(2, 4097), Err(StorageError::OutOfBounds));
    assert_eq!(storage.read_block(8, 1), Err(StorageError::OutOfBounds));
    assert_eq!(storage.erase_block(1), Ok(vec![0x5000, 0x5400, 0x5800, 0x5C00]));
    assert!(matches!(storage.erase_block(9), Err(StorageError::OutOfBounds)));
    let writes = storage.write_block(1, 600).unwrap();
    assert_eq!(
        writes,
        vec![
            PageWrite { address: 0x5000, offset: 0, len: 256 },
            PageWrite { address: 0x5100, offset: 256, len: 256 },
            PageWrite { address: 0x5200, offset: 512, len: 88 },
        ]
    );
    assert!(matches!(storage.write_block(1, 4097), Err(StorageError::OutOfBounds)));
    assert_eq!(storage.write_block(1, 0).unwrap(), vec![]);
    assert_eq!(StorageError::OutOfBounds.message(), "Address out of bounds");
    assert_eq!(StorageError::DmaError.message(), "DMA transfer error");
}

#[test]
fn page_writes_stop_at_page_borders() {
    assert_eq!(page_writes(0x100, 0, 256), vec![]);
    assert_eq!(page_writes(0x1F0, 8, 256), vec![PageWrite { address: 0x1F0, offset: 0, len: 8 }]);
    assert_eq!(
        page_writes(0x1F0, 0x30, 256),
        vec![
            PageWrite { address: 0x1F0, offset: 0, len: 16 },
            PageWrite { address: 0x200, offset: 16, len: 32 },
        ]
    );
    assert_eq!(
        page_writes(3, 7, 3),
        vec![
            PageWrite { address: 3, offset: 0, len: 3 },
            PageWrite { address: 6, offset: 3, len: 3 },
            PageWrite { address: 9, offset: 6, len: 1 },
        ]
    );
}

#[test]
fn adapter_reads_and_programs_inside_a_block() {
    let mut adapter = LfsStorageAdapter::new(FlashStorage::new(small_config()));
    assert_eq!(adapter.block_count(), 8);
    assert_eq!(adapter.block_size(), 4096);
    assert_eq!(adapter.read(0, 0, 16), Err(StorageError::NotInitialized));
    assert_eq!(adapter.read(0, 4000, 97), Err(StorageError::OutOfBounds));
    assert_eq!(adapter.sync(), Err(StorageError::NotInitialized));
    adapter.inner_mut().init().unwrap();
    assert!(adapter.inner().is_initialized());
    assert_eq!(adapter.read(1, 0x10, 16), Ok(0x5010));
    assert_eq!(adapter.read(1, 4000, 96), Ok(0x5FA0));
    assert_eq!(adapter.read(8, 0, 1), Err(StorageError::OutOfBounds));
    assert_eq!(
        adapter.prog(2, 0xF0, 0x20).unwrap(),
        vec![
            PageWrite { address: 0x60F0, offset: 0, len: 16 },
            PageWrite { address: 0x6100, offset: 16, len: 16 },
        ]
    );
    assert!(matches!(adapter.prog(2, 4096, 1), Err(StorageError::OutOfBounds)));
    assert!(matches!(adapter.prog(8, 0, 1), Err(StorageError::OutOfBounds)));
    assert_eq!(adapter.erase(7).unwrap(), vec![0xB000, 0xB400, 0xB800, 0xBC00]);
    assert_eq!(adapter.sync(), Ok(()));
}

#[test]
fn superblock_carries_the_mark() {
    let image = build_superblock(4096);
    assert_eq!(image.len(), 4096);
    assert_eq!(&image[0..4], &[2, 0, 0, 0]);
    assert_eq!(&image[4..8], &4096u32.to_le_bytes());
    assert_eq!(&image[8..16], b"littlefs");
    assert!(image[16..].iter().all(|b| *b == 0xFF));
    assert!(check_magic(&image));
    assert_eq!(&build_superblock(0x1234_5678)[4..8], &[0x78, 0x56, 0x34, 0x12]);
    assert!(!check_magic(&image[..15]));
    assert!(!check_magic(&[0u8; 32]));
    let mut wrong = image.clone();
    wrong[15] = b'S';
    assert!(!check_magic(&wrong));
}

#[test]
fn file_system_mounts_a_formatted_partition() {
    let mut fs = FileSystem::new(FlashStorage::new(small_config()));
    assert!(!fs.is_mounted());
    assert_eq!(fs.config().block_count, 8);
    assert_eq!(fs.config().block_size, 4096);
    assert_eq!(fs.total_bytes(), 0x8000);
    assert_eq!(fs.used_blocks(), Err(FsError::NotMounted));
    assert_eq!(fs.free_blocks(), Err(FsError::NotMounted));
    assert!(matches!(fs.open("/a", OpenOptions::read_only()), Err(FsError::NotMounted)));
    assert_eq!(fs.remove("/a"), Err(FsError::NotMounted));
    assert_eq!(fs.rename("/a", "/b"), Err(FsError::NotMounted));
    assert_eq!(fs.path_exists("/a"), Err(FsError::NotMounted));
    assert_eq!(fs.create_dir("/d"), Err(FsError::NotMounted));
    assert_eq!(fs.create_dir_all("/d/e"), Err(FsError::NotMounted));
    assert_eq!(fs.remove_dir("/d"), Err(FsError::NotMounted));
    assert!(matches!(fs.read_dir("/"), Err(FsError::NotMounted)));
    assert!(matches!(fs.metadata("/a"), Err(FsError::NotMounted)));
    assert_eq!(fs.superblock_address(), Ok(0x4000));

    assert_eq!(fs.mount(&[0u8; 4096]), Err(FsError::Corrupt));
    assert!(!fs.is_mounted());

    let plan = fs.format().unwrap();
    assert_eq!(plan.sectors.len(), 16);
    assert_eq!(plan.sectors[0], 0x4000);
    assert_eq!(plan.sectors[15], 0x7C00);
    assert_eq!(plan.writes.len(), 16);
    assert_eq!(plan.writes[0], PageWrite { address: 0x4000, offset: 0, len: 256 });
    assert_eq!(plan.writes[15], PageWrite { address: 0x4F00, offset: 0xF00, len: 256 });
    assert_eq!(plan.superblock, build_superblock(4096));

    assert_eq!(fs.mount(&plan.superblock), Ok(()));
    assert!(fs.is_mounted());
    assert_eq!(fs.mount(&[]), Ok(()));
    assert_eq!(fs.used_blocks(), Ok(0));
    assert_eq!(fs.free_blocks(), Ok(8));
    assert_eq!(fs.path_exists("/a"), Ok(true));
    assert_eq!(fs.remove("/a"), Ok(()));
    assert_eq!(fs.rename("/a", "/b"), Ok(()));
    assert_eq!(fs.create_dir("/d"), Ok(()));
    assert_eq!(fs.remove_dir("/d"), Ok(()));
    let meta = fs.metadata("/a").unwrap();
    assert!(meta.is_file());
    assert!(!meta.is_dir());
    assert_eq!(meta.file_type, FileType::File);
    assert_eq!(meta.size, 0);
    assert_eq!(meta.name.as_str(), "");
    let mut dir = fs.read_dir("/").unwrap();
    assert!(matches!(dir.next(), Ok(None)));
    dir.rewind();
    assert!(matches!(dir.next(), Ok(None)));

    assert!(fs.format().is_ok());
    assert!(!fs.is_mounted());
    assert_eq!(fs.mount(&build_superblock(512)), Ok(()));
    assert_eq!(fs.unmount(), Ok(()));
    assert!(!fs.is_mounted());
    assert_eq!(fs.unmount(), Ok(()));
}

#[test]
fn file_system_reports_storage_errors() {
    let mut fs = FileSystem::new(FlashStorage::new(FlashConfig {
        partition_size: 0xC001,
        ..small_config()
    }));
    let image = build_superblock(4096);
    assert_eq!(fs.mount(&image), Err(FsError::Storage(StorageError::OutOfBounds)));
    assert!(matches!(fs.format(), Err(FsError::Storage(StorageError::OutOfBounds))));

    let mut fs = FileSystem::new(FlashStorage::new(FlashConfig {
        sector_size: 512,
        block_size: 2048,
        ..small_config()
    }));
    assert_eq!(fs.mount(&image), Err(FsError::Storage(StorageError::OutOfBounds)));
    assert!(matches!(fs.format(), Err(FsError::Storage(StorageError::OutOfBounds))));

    let mut fs = FileSystem::with_config(
        FlashStorage::new(small_config()),
        FsConfig { block_count: 100, block_size: 1024, ..FsConfig::default() },
    );
    assert_eq!(fs.config().block_count, 100);
    let plan = fs.format().unwrap();
    assert_eq!(plan.sectors.len(), 16);
    assert_eq!(&plan.superblock[4..8], &1024u32.to_le_bytes());
    let fs = FileSystem::with_config(FlashStorage::new(small_config()), FsConfig::default());
    assert_eq!(fs.config().block_count, 8);

    let mut fs = FileSystem::with_config(
        FlashStorage::new(FlashConfig { partition_size: 0x2000, ..small_config() }),
        FsConfig { block_count: 3, ..FsConfig::default() },
    );
    assert!(matches!(fs.format(), Err(FsError::Storage(StorageError::OutOfBounds))));
    let mut fs = FileSystem::new(FlashStorage::new(FlashConfig {
        page_size: 0,
        ..small_config()
    }));
    assert!(matches!(fs.format(), Err(FsError::Storage(StorageError::AlignmentError))));
    assert_eq!(FsError::from(StorageError::Busy), FsError::Storage(StorageError::Busy));
    assert_eq!(FsError::Storage(StorageError::Busy).message(), "Device busy");
    assert_eq!(FsError::NotMounted.message(), "Not mounted");
    assert_eq!(FsError::PathTooLong.message(), "Path too long");
}

#[test]
fn files_keep_position_and_size() {
    let mut fs = FileSystem::new(FlashStorage::new(small_config()));
    let plan = fs.format().unwrap();
    fs.mount(&plan.superblock).unwrap();

    let mut file = fs.open("/data.bin", OpenOptions::read_write()).unwrap();
    assert_eq!((file.position(), file.size()), (0, 0));
    assert_eq!(file.read(16), Ok(0));
    assert_eq!(file.write(100), Ok(100));
    assert_eq!((file.position(), file.size()), (100, 100));
    assert_eq!(file.seek(SeekFrom::Start(40)), Ok(40));
    assert_eq!(file.read(16), Ok(16));
    assert_eq!(file.position(), 56);
    assert_eq!(file.read(1000), Ok(44));
    assert_eq!(file.read(1), Ok(0));
    assert_eq!(file.seek(SeekFrom::End(-10)), Ok(90));
    assert_eq!(file.seek(SeekFrom::Current(-91)), Err(FsError::InvalidParam));
    assert_eq!(file.position(), 90);
    assert_eq!(file.seek(SeekFrom::Current(20)), Ok(110));
    assert_eq!(file.read(5), Ok(0));
    assert_eq!(file.write_all(0), Ok(()));
    assert_eq!(file.size(), 100);
    assert_eq!(file.write_all(10), Ok(()));
    assert_eq!((file.position(), file.size()), (120, 120));
    assert_eq!(file.truncate(50), Ok(()));
    assert_eq!((file.position(), file.size()), (50, 50));
    assert_eq!(file.truncate(80), Ok(()));
    assert_eq!((file.position(), file.size()), (50, 80));
    assert_eq!(file.seek(SeekFrom::Start(u32::MAX)), Ok(u32::MAX));
    assert_eq!(file.seek(SeekFrom::Current(1)), Ok(0));
    assert_eq!(file.sync(), Ok(()));

    let mut read_only = fs.open("/data.bin", OpenOptions::read_only()).unwrap();
    assert_eq!(read_only.write(1), Err(FsError::InvalidParam));
    assert_eq!(read_only.write_all(1), Err(FsError::InvalidParam));
    assert_eq!(read_only.write_all(0), Ok(()));
    assert_eq!(read_only.truncate(0), Err(FsError::InvalidParam));
    let mut write_only = fs.create("/new.bin").unwrap();
    assert_eq!(write_only.read(1), Err(FsError::InvalidParam));
    assert_eq!(write_only.write(3), Ok(3));
    let appended = fs.open("/log", OpenOptions::append_mode()).unwrap();
    assert_eq!(appended.position(), 0);
}

#[test]
fn open_option_presets() {
    let none = OpenOptions::new();
    assert_eq!(none, OpenOptions::default());
    assert!(!none.read && !none.write && !none.create && !none.create_new && !none.append);
    assert_eq!(OpenOptions::read_only(), OpenOptions::new().read(true));
    assert_eq!(
        OpenOptions::write_only(),
        OpenOptions::new().write(true).create(true).truncate(true)
    );
    assert_eq!(OpenOptions::read_write(), OpenOptions::new().read(true).write(true));
    assert_eq!(OpenOptions::append_mode(), OpenOptions::new().write(true).create(true).append(true));
    let all = OpenOptions::new().create_new(true).append(true).truncate(true);
    assert!(all.create_new && all.append && all.truncate);
    assert!(!all.read(true).read(false).read);
}

#[test]
fn directory_paths_are_bounded() {
    let mut fs = FileSystem::new(FlashStorage::new(small_config()));
    let plan = fs.format().unwrap();
    fs.mount(&plan.superblock).unwrap();
    assert_eq!(fs.create_dir_all(""), Ok(()));
    assert_eq!(fs.create_dir_all("///"), Ok(()));
    assert_eq!(fs.create_dir_all("/a/b/c"), Ok(()));
    let fits = format!("/{}", "x".repeat(255));
    assert_eq!(fs.create_dir_all(&fits), Ok(()));
    let fits_without_slash = "x".repeat(255);
    assert_eq!(fs.create_dir_all(&fits_without_slash), Ok(()));
    let too_long = "x".repeat(256);
    assert_eq!(fs.create_dir_all(&too_long), Err(FsError::PathTooLong));
    let many = "a/".repeat(128);
    assert_eq!(fs.create_dir_all(&many), Ok(()));
    let one_more = format!("{}b", many);
    assert_eq!(fs.create_dir_all(&one_more), Err(FsError::PathTooLong));
    // Slashes that repeat add nothing to the path.
    let doubled = format!("{}{}", "//".repeat(200), "x".repeat(255));
    assert_eq!(fs.create_dir_all(&doubled), Ok(()));
}

#[test]
fn external_flash_needs_its_bus() {
    let mut flash = ExternalFlash::new(small_config());
    assert_eq!(flash.config().page_size, 256);
    assert_eq!(flash.read_jedec_id(), Err(StorageError::NotInitialized));
    let mut flash = flash.with_spi();
    assert_eq!(flash.read_jedec_id(), Ok([0, 0, 0]));
    assert_eq!(flash.config().partition_offset, 0x4000);
}
