use std::io::Write;

use flate2::write::GzEncoder;
use flate2::Compression;
use unity_unpacker_lib::unity_package::{UnityPackage, UnpackAction, UnpackEvent};
use unity_unpacker_lib::unpacker_error::{ErrorKind, UnityPackageReaderError};

const GUID: &str = "1af567ac160bb164fb19b8cb9b55b34b";
const WORK: &str = "/work";

fn gz(data: &[u8]) -> Vec<u8> {
    let mut e = GzEncoder::new(Vec::new(), Compression::default());
    e.write_all(data).unwrap();
    e.finish().unwrap()
}

fn package(tmp: &str, target: &str) -> UnityPackage {
    UnityPackage::new(
        "/work/assets/test.unitypackage",
        Some(target.to_string()),
        Some(tmp.to_string()),
        Some(WORK.to_string()),
        true,
    )
    .unwrap()
}

fn expect_read_package(a: UnpackAction) -> String {
    match a {
        UnpackAction::ReadPackage(p) => p,
        _ => panic!("expected a read of the package"),
    }
}

/// Runs an extraction up to the listing of the staging directory.
fn run_to_listing(p: &mut UnityPackage, delete_tmp: bool) {
    let tar = b"tar bytes".to_vec();
    expect_read_package(p.unpack_package(delete_tmp));
    match p.resume(UnpackEvent::PackageRead(gz(&tar))) {
        UnpackAction::CreateStagingDirectory(d) => assert_eq!(d, p.get_tmp_dir()),
        _ => panic!("expected the staging directory"),
    }
    match p.resume(UnpackEvent::Succeeded) {
        UnpackAction::UnpackArchive(a, d) => {
            assert_eq!(a, tar);
            assert_eq!(d, p.get_tmp_dir());
        }
        _ => panic!("expected the archive to unpack"),
    }
    match p.resume(UnpackEvent::Succeeded) {
        UnpackAction::ListStagingDirectory(d) => assert_eq!(d, p.get_tmp_dir()),
        _ => panic!("expected the listing"),
    }
}

/// Places the one texture entry of the test package; returns the last action.
fn run_texture(p: &mut UnityPackage, delete_tmp: bool) -> UnpackAction {
    run_to_listing(p, delete_tmp);
    let dir = format!("/work/assets/tmp/{}", GUID);
    match p.resume(UnpackEvent::Listed(vec![dir.clone()])) {
        UnpackAction::ReadEntry(pn, m) => {
            assert_eq!(pn, format!("{}/pathname", dir));
            assert_eq!(m, format!("{}/asset.meta", dir));
        }
        _ => panic!("expected an entry read"),
    }
    let a = p.resume(UnpackEvent::EntryRead(
        Some("Assets/Textures/Ground/IMGP1287.jpg".to_string()),
        Some("fileFormatVersion: 2\nguid: 1af567ac160bb164fb19b8cb9b55b34b\n".to_string()),
    ));
    match a {
        UnpackAction::CreateDirectory(d) => assert_eq!(d, "/work/assets/target/Assets/Textures/Ground"),
        _ => panic!("expected the destination directory"),
    }
    match p.resume(UnpackEvent::Succeeded) {
        UnpackAction::MoveFile(f, t) => {
            assert_eq!(f, format!("{}/asset", dir));
            assert_eq!(t, "/work/assets/target/Assets/Textures/Ground/IMGP1287.jpg");
        }
        _ => panic!("expected the asset move"),
    }
    match p.resume(UnpackEvent::Succeeded) {
        UnpackAction::MoveFile(f, t) => {
            assert_eq!(f, format!("{}/asset.meta", dir));
            assert_eq!(t, "/work/assets/target/Assets/Textures/Ground/IMGP1287.jpg.unitymeta");
        }
        _ => panic!("expected the metadata move"),
    }
    p.resume(UnpackEvent::Succeeded)
}

fn finished_with(a: UnpackAction) -> Result<(), UnityPackageReaderError> {
    match a {
        UnpackAction::Finished(r) => r,
        _ => panic!("expected the end of the extraction"),
    }
}

#[test]
fn test_default_tmp_dir() {
    let item = UnityPackage::new("file.unitypackage", None, None, Some(WORK.to_string()), false).unwrap();
    assert_eq!(item.get_tmp_dir(), "/work/tmp");
    assert_eq!(item.get_target_dir(), "/work/file");
}

#[test]
fn test_new_function_with_file_name() {
    let n = "file_name.unitypackage";
    let package = UnityPackage::new(n, None, None, Some(WORK.to_string()), false).unwrap();
    assert_eq!(package.get_path(), "/work/file_name.unitypackage");
    assert_eq!(package.get_target_dir(), "/work/file_name");
}

#[test]
fn test_new_function_with_path() {
    let p = "/file_name.unitypackage";
    let subject = UnityPackage::new(p, None, None, Some(WORK.to_string()), false).unwrap();
    assert_eq!(subject.get_path(), p);
    assert_eq!(subject.get_target_dir(), "/work/file_name");
}

#[test]
fn test_new_function_with_tmp_path() {
    let p = String::from("./test/test/test");
    let subject =
        UnityPackage::new("test.unitypackage", None, Some(p.clone()), Some(WORK.to_string()), false).unwrap();
    assert_eq!(subject.get_tmp_dir(), p);
    assert_eq!(subject.get_target_dir(), "/work/test");
}

#[test]
fn test_new_function_with_target_path() {
    let origin = "/work/origin/file.unitypackage";
    let target = "/work/target";
    let subject = UnityPackage::new(origin, Some(target.to_string()), None, Some(WORK.to_string()), false).unwrap();
    assert_eq!(subject.get_target_dir(), target);
    assert_eq!(subject.get_package_file_name().unwrap(), "file");
    assert_eq!(subject.get_path(), origin);
}

#[test]
fn existing_file_is_taken_as_given() {
    let subject = UnityPackage::new("pkg/file.unitypackage", None, None, Some(WORK.to_string()), true).unwrap();
    assert_eq!(subject.get_path(), "pkg/file.unitypackage");
    assert_eq!(subject.get_target_dir(), "/work/file");
}

#[test]
fn given_locations_need_no_working_directory() {
    let subject = UnityPackage::new(
        "/p/file.unitypackage",
        Some("/t".to_string()),
        Some("/s".to_string()),
        None,
        true,
    )
    .unwrap();
    assert_eq!(subject.get_tmp_dir(), "/s");
    assert_eq!(subject.get_target_dir(), "/t");
}

#[test]
fn missing_working_directory() {
    let r = UnityPackage::new("file.unitypackage", None, None, None, false);
    assert!(matches!(r, Err(UnityPackageReaderError::WorkingDirectoryResolutionFailed(_))));
    let r = UnityPackage::new("/p/file.unitypackage", None, None, None, true);
    assert!(matches!(r, Err(UnityPackageReaderError::WorkingDirectoryResolutionFailed(_))));
}

#[test]
fn package_without_stem_is_invalid_path() {
    let r = UnityPackage::new("/", None, Some("/s".to_string()), Some(WORK.to_string()), true);
    assert!(matches!(r, Err(UnityPackageReaderError::InvalidPath(_))));
}

#[test]
fn test_asset_file_internals() {
    let mut subject = package("/work/assets/tmp", "/work/assets/target");
    match subject.resume(UnpackEvent::Succeeded) {
        UnpackAction::Finished(Err(e)) => assert_eq!(e.kind(), ErrorKind::InvalidState),
        _ => panic!("an extraction that never started"),
    }
    match run_texture(&mut subject, true) {
        UnpackAction::RemoveStagingDirectory(d) => assert_eq!(d, "/work/assets/tmp"),
        _ => panic!("expected the staging directory removal"),
    }
    assert!(finished_with(subject.resume(UnpackEvent::Succeeded)).is_ok());
    let file = match subject.get_file(&GUID.to_string()) {
        Some(f) => f,
        None => panic!("The file does not exist in this package."),
    };
    assert_eq!(file.get_guid(), GUID);
    assert_eq!(file.get_relative_asset_path(), "Assets/Textures/Ground/IMGP1287.jpg");
    assert!(subject.get_file(&"0000".to_string()).is_none());
}

#[test]
fn test_deleting_tmp_files() {
    let mut subject = package("/work/assets/tmp", "/work/assets/target");
    assert!(finished_with(run_texture(&mut subject, false)).is_ok());
    assert!(subject.get_file(&GUID.to_string()).is_some());
}

#[test]
fn second_extraction_is_refused() {
    let mut subject = package("/work/assets/tmp", "/work/assets/target");
    assert!(finished_with(run_texture(&mut subject, false)).is_ok());
    match subject.unpack_package(false) {
        UnpackAction::Finished(Err(UnityPackageReaderError::InvalidState(_))) => {}
        _ => panic!("a second extraction"),
    }
    assert!(subject.get_file(&GUID.to_string()).is_some());
}

#[test]
fn folder_entry_moves_nothing() {
    let mut subject = package("/s", "/t");
    run_to_listing(&mut subject, false);
    subject.resume(UnpackEvent::Listed(vec!["/s/ffff".to_string()]));
    let a = subject.resume(UnpackEvent::EntryRead(
        Some("Assets/Textures".to_string()),
        Some("folderAsset: yes\n".to_string()),
    ));
    assert!(finished_with(a).is_ok());
    assert!(subject.get_file(&"ffff".to_string()).unwrap().is_folder());
}

#[test]
fn missing_pathname_drops_all_records() {
    let mut subject = package("/s", "/t");
    run_to_listing(&mut subject, true);
    subject.resume(UnpackEvent::Listed(vec!["/s/ffff".to_string(), "/s/bad0".to_string()]));
    subject.resume(UnpackEvent::EntryRead(Some("Assets/F".to_string()), Some("folderAsset: yes".to_string())));
    assert!(subject.get_file(&"ffff".to_string()).is_some());
    let a = subject.resume(UnpackEvent::EntryRead(None, Some("fileFormatVersion: 2".to_string())));
    match finished_with(a) {
        Err(e) => assert_eq!(e.kind(), ErrorKind::CorruptEntry),
        Ok(()) => panic!("a corrupt entry"),
    }
    assert!(subject.get_file(&"ffff".to_string()).is_none());
    assert!(subject.get_file(&"bad0".to_string()).is_none());
}

#[test]
fn duplicate_identifier_last_wins() {
    let mut subject = package("/s", "/t");
    run_to_listing(&mut subject, false);
    subject.resume(UnpackEvent::Listed(vec!["/s/aaaa".to_string(), "/x/aaaa".to_string()]));
    subject.resume(UnpackEvent::EntryRead(Some("Assets/one".to_string()), Some("folderAsset: yes".to_string())));
    let a = subject.resume(UnpackEvent::EntryRead(Some("Assets/two".to_string()), Some("folderAsset: yes".to_string())));
    assert!(finished_with(a).is_ok());
    assert_eq!(subject.get_file(&"aaaa".to_string()).unwrap().get_relative_asset_path(), "Assets/two");
}

#[test]
fn empty_staging_directory() {
    let mut subject = package("/s", "/t");
    run_to_listing(&mut subject, false);
    assert!(finished_with(subject.resume(UnpackEvent::Listed(Vec::new()))).is_ok());
}

#[test]
fn missing_package() {
    let mut subject = package("/s", "/t");
    expect_read_package(subject.unpack_package(true));
    match finished_with(subject.resume(UnpackEvent::PackageMissing)) {
        Err(e) => assert_eq!(e.kind(), ErrorKind::PackageNotFound),
        Ok(()) => panic!("a missing package"),
    }
}

#[test]
fn package_that_is_no_gzip() {
    let mut subject = package("/s", "/t");
    assert_eq!(expect_read_package(subject.unpack_package(true)), "/work/assets/test.unitypackage");
    match finished_with(subject.resume(UnpackEvent::PackageRead(b"not gzip".to_vec()))) {
        Err(e) => assert_eq!(e.kind(), ErrorKind::CorruptPackage),
        Ok(()) => panic!("a corrupt package"),
    }
}

#[test]
fn unreadable_package() {
    let mut subject = package("/s", "/t");
    expect_read_package(subject.unpack_package(true));
    match finished_with(subject.resume(UnpackEvent::Failed("denied".to_string()))) {
        Err(UnityPackageReaderError::CorruptPackage(i)) => assert_eq!(i.message, Some("denied".to_string())),
        _ => panic!("an unreadable package"),
    }
}

#[test]
fn staging_directory_not_created() {
    let mut subject = package("/s", "/t");
    expect_read_package(subject.unpack_package(true));
    subject.resume(UnpackEvent::PackageRead(gz(b"x")));
    match finished_with(subject.resume(UnpackEvent::Failed("denied".to_string()))) {
        Err(e) => assert_eq!(e.kind(), ErrorKind::StagingDirectoryUnavailable),
        Ok(()) => panic!("no staging directory"),
    }
}

#[test]
fn archive_not_unpacked() {
    let mut subject = package("/s", "/t");
    expect_read_package(subject.unpack_package(true));
    subject.resume(UnpackEvent::PackageRead(gz(b"x")));
    subject.resume(UnpackEvent::Succeeded);
    match finished_with(subject.resume(UnpackEvent::Failed("bad tar".to_string()))) {
        Err(e) => assert_eq!(e.kind(), ErrorKind::CorruptPackage),
        Ok(()) => panic!("a corrupt archive"),
    }
}

#[test]
fn staging_not_listed() {
    let mut subject = package("/s", "/t");
    run_to_listing(&mut subject, true);
    match finished_with(subject.resume(UnpackEvent::Failed("gone".to_string()))) {
        Err(e) => assert_eq!(e.kind(), ErrorKind::StagingDirectoryUnavailable),
        Ok(()) => panic!("an unlisted staging directory"),
    }
}

#[test]
fn destination_not_created() {
    let mut subject = package("/s", "/t");
    run_to_listing(&mut subject, true);
    subject.resume(UnpackEvent::Listed(vec!["/s/aaaa".to_string()]));
    subject.resume(UnpackEvent::EntryRead(Some("A/b.png".to_string()), Some(String::new())));
    match finished_with(subject.resume(UnpackEvent::Failed("denied".to_string()))) {
        Err(e) => assert_eq!(e.kind(), ErrorKind::TargetDirectoryUnavailable),
        Ok(()) => panic!("no destination directory"),
    }
    assert!(subject.get_file(&"aaaa".to_string()).is_none());
}

#[test]
fn asset_not_moved() {
    let mut subject = package("/s", "/t");
    run_to_listing(&mut subject, true);
    subject.resume(UnpackEvent::Listed(vec!["/s/aaaa".to_string()]));
    subject.resume(UnpackEvent::EntryRead(Some("A/b.png".to_string()), Some(String::new())));
    subject.resume(UnpackEvent::Succeeded);
    match finished_with(subject.resume(UnpackEvent::Failed("cross-device".to_string()))) {
        Err(e) => assert_eq!(e.kind(), ErrorKind::CorruptEntry),
        Ok(()) => panic!("an asset that did not move"),
    }
}

#[test]
fn metadata_missing_in_entry() {
    let mut subject = package("/s", "/t");
    run_to_listing(&mut subject, true);
    subject.resume(UnpackEvent::Listed(vec!["/s/aaaa".to_string()]));
    match finished_with(subject.resume(UnpackEvent::EntryRead(Some("A/b.png".to_string()), None))) {
        Err(e) => assert_eq!(e.kind(), ErrorKind::MetadataUnreadable),
        Ok(()) => panic!("unreadable metadata"),
    }
}

#[test]
fn cleanup_failure_keeps_records() {
    let mut subject = package("/work/assets/tmp", "/work/assets/target");
    run_texture(&mut subject, true);
    match finished_with(subject.resume(UnpackEvent::Failed("busy".to_string()))) {
        Err(e) => assert_eq!(e.kind(), ErrorKind::StagingCleanupFailed),
        Ok(()) => panic!("a failed cleanup"),
    }
    assert!(subject.get_file(&GUID.to_string()).is_some());
}

#[test]
fn unexpected_event_fails_running_extraction() {
    let mut subject = package("/s", "/t");
    expect_read_package(subject.unpack_package(true));
    match finished_with(subject.resume(UnpackEvent::Listed(Vec::new()))) {
        Err(e) => assert_eq!(e.kind(), ErrorKind::InvalidState),
        Ok(()) => panic!("an unexpected event"),
    }
    match subject.unpack_package(true) {
        UnpackAction::Finished(Err(e)) => assert_eq!(e.kind(), ErrorKind::InvalidState),
        _ => panic!("a restart after failure"),
    }
}
