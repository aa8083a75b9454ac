//! Verified core of a toolkit for a copy-on-write B-tree filesystem: key
//! positions and their order and text form, the engine's error codes, the
//! superblock read protocol, record decoding, and cursors over a keyspace.

pub mod pos;
pub mod superblock;
pub mod bkey;
pub mod bpos_text;
pub mod btree;
pub mod cmd_list;
pub mod errcode;
pub mod fs;
pub mod key;
pub mod log;
pub mod mount;
pub mod text;
