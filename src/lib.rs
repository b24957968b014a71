//! Unpacks a gzip-compressed tar package whose top-level entries are named by
//! asset GUIDs into the directory tree the package was exported from.

pub mod archive;
pub mod paths;
pub mod prelude;
pub mod unity_asset_file;
pub mod unity_package;
pub mod unpacker_error;
