//! Flash storage, the partition table and the file system on top of them.
//!
//! Nothing here touches the flash: every operation checks its arguments and
//! says which flash addresses the caller has to read, program or erase.

pub mod littlefs;
pub mod partition;
pub mod storage;
