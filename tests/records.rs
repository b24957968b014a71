use unity_unpacker_lib::paths::{contains_text, metadata_file_name};
use unity_unpacker_lib::unity_asset_file::UnityAssetFile;
use unity_unpacker_lib::unpacker_error::{ErrorKind, UnityPackageReaderError};

const GUID: &str = "1af567ac160bb164fb19b8cb9b55b34b";

fn entry_dir() -> String {
    format!("/stage/{}", GUID)
}

#[test]
fn metadata_name_keeps_extension() {
    assert_eq!(metadata_file_name("IMGP1287.jpg"), "IMGP1287.jpg.unitymeta");
    assert_ne!(metadata_file_name("IMGP1287.jpg"), "IMGP1287.unitymeta");
    assert_eq!(metadata_file_name("archive.tar.gz"), "archive.tar.gz.unitymeta");
    assert_eq!(metadata_file_name(""), ".unitymeta");
}

#[test]
fn contains_text_finds_marker() {
    assert!(contains_text("fileFormatVersion: 2\nfolderAsset: yes\n", "folderAsset: yes"));
    assert!(!contains_text("fileFormatVersion: 2\nfolderAsset: no\n", "folderAsset: yes"));
    assert!(contains_text("abc", ""));
    assert!(!contains_text("", "a"));
    assert!(contains_text("aab", "ab"));
    assert!(contains_text("ünïcode folderAsset: yes", "folderAsset: yes"));
}

#[test]
fn record_from_entry() {
    let f = UnityAssetFile::from(
        &entry_dir(),
        Some("Assets/Textures/Ground/IMGP1287.jpg".to_string()),
        Some("fileFormatVersion: 2\nguid: 1af567ac\n".to_string()),
    )
    .unwrap();
    assert_eq!(f.get_guid(), GUID);
    assert_eq!(f.get_relative_asset_path(), "Assets/Textures/Ground/IMGP1287.jpg");
    assert_eq!(f.get_absolute_asset_path(), &format!("/stage/{}/asset", GUID));
    assert_eq!(f.get_absolute_meta_file_path(), &format!("/stage/{}/asset.meta", GUID));
    assert!(!f.is_folder());
}

#[test]
fn record_keeps_pathname_verbatim() {
    let f = UnityAssetFile::from(
        &entry_dir(),
        Some("Assets/Some Folder/a b.txt\n".to_string()),
        Some(String::new()),
    )
    .unwrap();
    assert_eq!(f.get_relative_asset_path(), "Assets/Some Folder/a b.txt\n");
}

#[test]
fn folder_record() {
    let f = UnityAssetFile::from(
        &entry_dir(),
        Some("Assets/Textures".to_string()),
        Some("fileFormatVersion: 2\nfolderAsset: yes\n".to_string()),
    )
    .unwrap();
    assert!(f.is_folder());
    assert!(matches!(f.copy_plan("/dest"), Ok(None)));
}

#[test]
fn record_without_name_is_invalid_path() {
    let r = UnityAssetFile::from("/", Some("a".to_string()), Some(String::new()));
    assert!(matches!(r, Err(UnityPackageReaderError::InvalidPath(_))));
    let r = UnityAssetFile::from("/stage/..", Some("a".to_string()), Some(String::new()));
    assert!(matches!(r, Err(UnityPackageReaderError::InvalidPath(_))));
}

#[test]
fn record_without_pathname_is_corrupt() {
    let r = UnityAssetFile::from(&entry_dir(), None, Some(String::new()));
    assert!(matches!(r, Err(UnityPackageReaderError::CorruptEntry(_))));
    let r = UnityAssetFile::from(&entry_dir(), None, None);
    match r {
        Err(e) => {
            assert_eq!(e.kind(), ErrorKind::CorruptEntry);
            assert_eq!(e.information().src_file, format!("/stage/{}/pathname", GUID));
        }
        Ok(_) => panic!("a record without pathname"),
    }
}

#[test]
fn record_without_meta_is_unreadable() {
    let r = UnityAssetFile::from(&entry_dir(), Some("Assets/a.png".to_string()), None);
    assert!(matches!(r, Err(UnityPackageReaderError::MetadataUnreadable(_))));
}

#[test]
fn plan_places_asset_and_metadata() {
    let f = UnityAssetFile::from(
        &entry_dir(),
        Some("Assets/Textures/Ground/IMGP1287.jpg".to_string()),
        Some("fileFormatVersion: 2\n".to_string()),
    )
    .unwrap();
    let p = f.copy_plan("/dest").unwrap().unwrap();
    assert_eq!(p.directory, "/dest/Assets/Textures/Ground");
    assert_eq!(p.asset_from, format!("/stage/{}/asset", GUID));
    assert_eq!(p.asset_to, "/dest/Assets/Textures/Ground/IMGP1287.jpg");
    assert_eq!(p.meta_from, format!("/stage/{}/asset.meta", GUID));
    assert_eq!(p.meta_to, "/dest/Assets/Textures/Ground/IMGP1287.jpg.unitymeta");
}

#[test]
fn plans_sharing_a_directory() {
    let a = UnityAssetFile::from("/stage/aaaa", Some("Assets/x/one.png".to_string()), Some(String::new()))
        .unwrap();
    let b = UnityAssetFile::from("/stage/bbbb", Some("Assets/x/two.png".to_string()), Some(String::new()))
        .unwrap();
    let pb = b.copy_plan("/dest").unwrap().unwrap();
    let pa = a.copy_plan("/dest").unwrap().unwrap();
    assert_eq!(pa.directory, pb.directory);
    assert_eq!(pa.directory, "/dest/Assets/x");
}

#[test]
fn plan_at_root_has_no_directory() {
    let f = UnityAssetFile::from(&entry_dir(), Some("/".to_string()), Some(String::new())).unwrap();
    assert!(matches!(f.copy_plan(""), Err(UnityPackageReaderError::TargetDirectoryUnavailable(_))));
}

#[test]
fn plan_without_file_name_is_corrupt() {
    let f = UnityAssetFile::from(&entry_dir(), Some("Assets/..".to_string()), Some(String::new())).unwrap();
    assert!(matches!(f.copy_plan("/dest"), Err(UnityPackageReaderError::CorruptEntry(_))));
}
