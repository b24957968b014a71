use crate::paths::{
    contains_text, file_name, file_name_of, join, joined, metadata_file_name, occurs_in, parent,
    parent_of, view_of_opt,
};
use crate::unpacker_error::{ErrorInformation, UnityPackageReaderError};
use vstd::prelude::*;

verus! {

/// The text in an `asset.meta` member that marks the entry as a folder.
pub open spec fn folder_marker() -> Seq<char> {
    "folderAsset: yes"@
}

/// The identifier of the staging entry at `dir`: its final component, if it
/// has one and it is not empty.
pub open spec fn entry_identifier(dir: Seq<char>) -> Option<Seq<char>> {
    match file_name_of(dir) {
        Some(n) => if n.len() > 0 { Some(n) } else { None },
        None => None,
    }
}

pub open spec fn asset_member(dir: Seq<char>) -> Seq<char> {
    joined(dir, "asset"@)
}

pub open spec fn meta_member(dir: Seq<char>) -> Seq<char> {
    joined(dir, "asset.meta"@)
}

pub open spec fn pathname_member(dir: Seq<char>) -> Seq<char> {
    joined(dir, "pathname"@)
}

/// The record of one staging entry, as plain values.
pub struct AssetFileView {
    pub guid: Seq<char>,
    pub asset: Seq<char>,
    pub target: Seq<char>,
    pub meta: Seq<char>,
    pub is_folder: bool,
}

/// One asset of a package, read from its staging entry.
#[derive(Debug, Clone)]
pub struct UnityAssetFile {
    /// The guid of this asset: the name of its directory in the staging directory.
    guid: String,
    /// Path of the asset's content in the staging directory.
    asset: String,
    /// Path the asset takes inside the destination directory.
    target: String,
    /// Path of the asset's metadata in the staging directory.
    meta: String,
    /// True if the asset stands for a folder, which has no content to place.
    is_folder: bool,
}

/// Where the files of one asset go: the directory that must exist, and the
/// two moves.
pub struct AssetPlacement {
    pub directory: String,
    pub asset_from: String,
    pub asset_to: String,
    pub meta_from: String,
    pub meta_to: String,
}

impl View for UnityAssetFile {
    type V = AssetFileView;

    closed spec fn view(&self) -> AssetFileView {
        AssetFileView {
            guid: self.guid@,
            asset: self.asset@,
            target: self.target@,
            meta: self.meta@,
            is_folder: self.is_folder,
        }
    }
}

/// The record that `UnityAssetFile::from` builds for the entry at `dir`
/// whose `pathname` holds `pathname` and whose `asset.meta` holds `meta`.
pub open spec fn spec_record(dir: Seq<char>, pathname: Seq<char>, meta: Seq<char>) -> AssetFileView {
    AssetFileView {
        guid: entry_identifier(dir)->Some_0,
        asset: asset_member(dir),
        target: pathname,
        meta: meta_member(dir),
        is_folder: occurs_in(meta, folder_marker()),
    }
}

/// The destination of the asset of record `f` under `root`.
pub open spec fn spec_asset_destination(f: AssetFileView, root: Seq<char>) -> Seq<char> {
    joined(root, f.target)
}

/// The paths of one placement, as plain values.
pub struct PlacementView {
    pub directory: Seq<char>,
    pub asset_from: Seq<char>,
    pub asset_to: Seq<char>,
    pub meta_from: Seq<char>,
    pub meta_to: Seq<char>,
}

impl View for AssetPlacement {
    type V = PlacementView;

    open spec fn view(&self) -> PlacementView {
        PlacementView {
            directory: self.directory@,
            asset_from: self.asset_from@,
            asset_to: self.asset_to@,
            meta_from: self.meta_from@,
            meta_to: self.meta_to@,
        }
    }
}

/// Whether the files of record `f` can be placed under `root`: its
/// destination has a parent directory and a final component.
pub open spec fn can_place(f: AssetFileView, root: Seq<char>) -> bool {
    let t = spec_asset_destination(f, root);
    parent_of(t) is Some && file_name_of(t) is Some
}

/// Where the files of record `f` go under `root`: the asset to its
/// destination, the metadata beside it under the asset's file name followed
/// by `.unitymeta`.
pub open spec fn spec_placement(f: AssetFileView, root: Seq<char>) -> PlacementView {
    let t = spec_asset_destination(f, root);
    let d = parent_of(t)->Some_0;
    PlacementView {
        directory: d,
        asset_from: f.asset,
        asset_to: t,
        meta_from: f.meta,
        meta_to: joined(d, file_name_of(t)->Some_0 + ".unitymeta"@),
    }
}

impl UnityAssetFile {
    pub fn get_guid(&self) -> (r: &String)
        ensures
            r@ == self@.guid,
    {
        &self.guid
    }

    pub fn get_absolute_asset_path(&self) -> (r: &String)
        ensures
            r@ == self@.asset,
    {
        &self.asset
    }

    pub fn get_relative_asset_path(&self) -> (r: &String)
        ensures
            r@ == self@.target,
    {
        &self.target
    }

    pub fn get_absolute_meta_file_path(&self) -> (r: &String)
        ensures
            r@ == self@.meta,
    {
        &self.meta
    }

    pub fn is_folder(&self) -> (r: bool)
        ensures
            r == self@.is_folder,
    {
        self.is_folder
    }

    /// Builds the record of the staging entry at `path` from the contents of
    /// its `pathname` and `asset.meta` members, `None` where a member could
    /// not be read.
    pub fn from(path: &str, pathname: Option<String>, meta: Option<String>) -> (r: Result<
        Self,
        UnityPackageReaderError,
    >)
        ensures
            (r matches Err(UnityPackageReaderError::InvalidPath(_))) <==> entry_identifier(path@) is None,
            (r matches Err(UnityPackageReaderError::CorruptEntry(_))) <==> entry_identifier(path@) is Some
                && pathname is None,
            (r matches Err(UnityPackageReaderError::MetadataUnreadable(_))) <==> entry_identifier(
                path@,
            ) is Some && pathname is Some && meta is None,
            r is Ok <==> entry_identifier(path@) is Some && pathname is Some && meta is Some,
            r is Ok ==> r->Ok_0@ == spec_record(path@, pathname->Some_0@, meta->Some_0@),
    {
        let guid = match file_name(path) {
            Some(n) => n,
            None => {
                return Err(
                    UnityPackageReaderError::InvalidPath(ErrorInformation::new(None, path, 0)),
                );
            },
        };
        if guid.unicode_len() == 0 {
            return Err(UnityPackageReaderError::InvalidPath(ErrorInformation::new(None, path, 0)));
        }
        let asset = join(path, "asset");
        let pathname_path = join(path, "pathname");
        let meta_path = join(path, "asset.meta");
        let target = match pathname {
            Some(t) => t,
            None => {
                return Err(
                    UnityPackageReaderError::CorruptEntry(
                        ErrorInformation::new(None, pathname_path.as_str(), 0),
                    ),
                );
            },
        };
        let is_folder = match meta {
            Some(m) => contains_text(m.as_str(), "folderAsset: yes"),
            None => {
                return Err(
                    UnityPackageReaderError::MetadataUnreadable(
                        ErrorInformation::new(None, meta_path.as_str(), 0),
                    ),
                );
            },
        };
        Ok(UnityAssetFile { guid, asset, target, meta: meta_path, is_folder })
    }

    /// Where the files of this asset go under the destination directory
    /// `target_path`: `None` for a folder, which has nothing to move. The
    /// metadata keeps the asset's whole file name and gains `.unitymeta`.
    pub fn copy_plan(&self, target_path: &str) -> (r: Result<
        Option<AssetPlacement>,
        UnityPackageReaderError,
    >)
        ensures
            self@.is_folder ==> (r matches Ok(None)),
            !self@.is_folder ==> {
                let t = spec_asset_destination(self@, target_path@);
                &&& (r matches Err(UnityPackageReaderError::TargetDirectoryUnavailable(_))) <==> parent_of(t) is None
                &&& (r matches Err(UnityPackageReaderError::CorruptEntry(_))) <==> parent_of(t) is Some
                    && file_name_of(t) is None
                &&& r is Ok <==> can_place(self@, target_path@)
                &&& r is Ok ==> r->Ok_0 is Some && r->Ok_0->Some_0@ == spec_placement(
                    self@,
                    target_path@,
                )
            },
    {
        if self.is_folder {
            return Ok(None);
        }
        let asset_to = join(target_path, self.target.as_str());
        let directory = match parent(asset_to.as_str()) {
            Some(d) => d,
            None => {
                return Err(
                    UnityPackageReaderError::TargetDirectoryUnavailable(
                        ErrorInformation::new(None, asset_to.as_str(), 0),
                    ),
                );
            },
        };
        let name = match file_name(asset_to.as_str()) {
            Some(n) => n,
            None => {
                return Err(
                    UnityPackageReaderError::CorruptEntry(
                        ErrorInformation::new(None, asset_to.as_str(), 0),
                    ),
                );
            },
        };
        let meta_name = metadata_file_name(name.as_str());
        let meta_to = join(directory.as_str(), meta_name.as_str());
        Ok(
            Some(
                AssetPlacement {
                    directory,
                    asset_from: self.asset.clone(),
                    asset_to,
                    meta_from: self.meta.clone(),
                    meta_to,
                },
            ),
        )
    }
}

} // verus!
