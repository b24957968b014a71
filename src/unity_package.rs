use crate::archive::{gunzip, gunzipped};
use crate::paths::{file_name_of, file_stem, file_stem_of, join, joined, parent_of, view_of_opt};
use crate::unity_asset_file::{
    can_place, entry_identifier, meta_member, pathname_member, spec_asset_destination,
    spec_placement, spec_record, AssetFileView, AssetPlacement, PlacementView, UnityAssetFile,
};
use crate::unpacker_error::{ErrorInformation, ErrorKind, UnityPackageReaderError};
use vstd::prelude::*;

verus! {

/// The records of `files`, looked up by identifier; a later record replaces
/// an earlier one with the same identifier.
pub open spec fn catalog_of(files: Seq<AssetFileView>) -> Map<Seq<char>, AssetFileView>
    decreases files.len(),
{
    if files.len() == 0 {
        Map::empty()
    } else {
        catalog_of(files.drop_last()).insert(files.last().guid, files.last())
    }
}

/// Where the package file is: `file_name` itself where a file is there,
/// else `file_name` under the working directory.
pub open spec fn resolved_package_path(
    file_name: Seq<char>,
    file_exists: bool,
    working_dir: Option<Seq<char>>,
) -> Option<Seq<char>> {
    if file_exists {
        Some(file_name)
    } else {
        match working_dir {
            Some(w) => Some(joined(w, file_name)),
            None => None,
        }
    }
}

/// The staging directory: the one given, else `tmp` under the working directory.
pub open spec fn resolved_staging_root(
    temp_directory: Option<Seq<char>>,
    working_dir: Option<Seq<char>>,
) -> Option<Seq<char>> {
    match temp_directory {
        Some(t) => Some(t),
        None => match working_dir {
            Some(w) => Some(joined(w, "tmp"@)),
            None => None,
        },
    }
}

/// The destination directory: the one given, else the package's file stem
/// under the working directory.
pub open spec fn resolved_destination_root(
    target_path: Option<Seq<char>>,
    package_path: Seq<char>,
    working_dir: Option<Seq<char>>,
) -> Option<Seq<char>> {
    match target_path {
        Some(t) => Some(t),
        None => match (file_stem_of(package_path), working_dir) {
            (Some(s), Some(w)) => Some(joined(w, s)),
            _ => None,
        },
    }
}

/// A package: where its file is, where it is staged and unpacked, and the
/// records of the assets unpacked so far, by identifier.
pub struct UnityPackage {
    /// Path of the package file.
    path: String,
    /// The destination directory, where the assets are placed.
    target_path: String,
    /// The staging directory, where the archive is unpacked first.
    temp_directory: String,
    /// The records found, in the order they were placed.
    files: Vec<UnityAssetFile>,
    /// Where the extraction stands.
    phase: UnpackPhase,
    /// Whether the staging directory is removed once every asset is placed.
    delete_staging: bool,
    /// The staging entries, as listed.
    entries: Vec<String>,
    /// The index of the staging entry being processed.
    next_entry: usize,
    /// The decompressed archive, held until it is unpacked.
    archive: Vec<u8>,
    /// The record being placed.
    current: Option<UnityAssetFile>,
    /// Where the files of the record being placed go.
    placement: Option<AssetPlacement>,
}

/// Where an extraction stands. It starts at `Created` and ends at
/// `Extracted` or `Failed`; the phases between wait for the outcome of one
/// action each.
#[derive(PartialEq, Eq, Structural, Clone, Copy, Debug)]
pub enum UnpackPhase {
    Created,
    ReadingPackage,
    CreatingStaging,
    Unpacking,
    ListingStaging,
    ReadingEntry,
    CreatingDirectory,
    MovingAsset,
    MovingMetadata,
    RemovingStaging,
    Extracted,
    Failed,
}

/// The outcome of the action asked for last.
pub enum UnpackEvent {
    /// The package file holds these bytes.
    PackageRead(Vec<u8>),
    /// There is no package file.
    PackageMissing,
    /// The action was carried out.
    Succeeded,
    /// The action failed, for the reason given.
    Failed(String),
    /// The staging directory holds these entries.
    Listed(Vec<String>),
    /// The contents of an entry's `pathname` and `asset.meta` members, `None`
    /// for one that could not be read.
    EntryRead(Option<String>, Option<String>),
}

/// What the caller is to do next.
pub enum UnpackAction {
    /// Read the package file.
    ReadPackage(String),
    /// Create the staging directory, with its missing ancestors.
    CreateStagingDirectory(String),
    /// Unpack the tar archive (first) into the staging directory (second).
    UnpackArchive(Vec<u8>, String),
    /// List the entries of the staging directory.
    ListStagingDirectory(String),
    /// Read the `pathname` member (first) and the `asset.meta` member (second) of an entry.
    ReadEntry(String, String),
    /// Create the directory, with its missing ancestors, unless it exists.
    CreateDirectory(String),
    /// Move the file (first) to its destination (second).
    MoveFile(String, String),
    /// Remove the staging directory and all it holds.
    RemoveStagingDirectory(String),
    /// The extraction is over, with this outcome.
    Finished(Result<(), UnityPackageReaderError>),
}

pub enum EventView {
    PackageRead(Seq<u8>),
    PackageMissing,
    Succeeded,
    Failed,
    Listed(Seq<Seq<char>>),
    EntryRead(Option<Seq<char>>, Option<Seq<char>>),
}

/// An action as plain values; an outcome as the kind of its error, if any.
pub enum ActionView {
    ReadPackage(Seq<char>),
    CreateStagingDirectory(Seq<char>),
    UnpackArchive(Seq<u8>, Seq<char>),
    ListStagingDirectory(Seq<char>),
    ReadEntry(Seq<char>, Seq<char>),
    CreateDirectory(Seq<char>),
    MoveFile(Seq<char>, Seq<char>),
    RemoveStagingDirectory(Seq<char>),
    Finished(Option<ErrorKind>),
}

pub open spec fn views_of_strings(v: Vec<String>) -> Seq<Seq<char>> {
    v@.map_values(|s: String| s@)
}

impl View for UnpackEvent {
    type V = EventView;

    open spec fn view(&self) -> EventView {
        match self {
            UnpackEvent::PackageRead(b) => EventView::PackageRead(b@),
            UnpackEvent::PackageMissing => EventView::PackageMissing,
            UnpackEvent::Succeeded => EventView::Succeeded,
            UnpackEvent::Failed(_) => EventView::Failed,
            UnpackEvent::Listed(v) => EventView::Listed(views_of_strings(*v)),
            UnpackEvent::EntryRead(p, m) => EventView::EntryRead(
                view_of_opt(*p),
                view_of_opt(*m),
            ),
        }
    }
}

impl View for UnpackAction {
    type V = ActionView;

    open spec fn view(&self) -> ActionView {
        match self {
            UnpackAction::ReadPackage(p) => ActionView::ReadPackage(p@),
            UnpackAction::CreateStagingDirectory(d) => ActionView::CreateStagingDirectory(d@),
            UnpackAction::UnpackArchive(a, d) => ActionView::UnpackArchive(a@, d@),
            UnpackAction::ListStagingDirectory(d) => ActionView::ListStagingDirectory(d@),
            UnpackAction::ReadEntry(p, m) => ActionView::ReadEntry(p@, m@),
            UnpackAction::CreateDirectory(d) => ActionView::CreateDirectory(d@),
            UnpackAction::MoveFile(f, t) => ActionView::MoveFile(f@, t@),
            UnpackAction::RemoveStagingDirectory(d) => ActionView::RemoveStagingDirectory(d@),
            UnpackAction::Finished(Ok(())) => ActionView::Finished(None),
            UnpackAction::Finished(Err(e)) => ActionView::Finished(Some(e.spec_kind())),
        }
    }
}

/// A package as plain values.
pub struct PackageView {
    pub path: Seq<char>,
    pub staging: Seq<char>,
    pub destination: Seq<char>,
    pub files: Map<Seq<char>, AssetFileView>,
    pub phase: UnpackPhase,
    pub delete_staging: bool,
    pub entries: Seq<Seq<char>>,
    pub next_entry: int,
    pub archive: Seq<u8>,
    pub current: Option<AssetFileView>,
    pub placement: Option<PlacementView>,
}

impl View for UnityPackage {
    type V = PackageView;

    closed spec fn view(&self) -> PackageView {
        PackageView {
            path: self.path@,
            staging: self.temp_directory@,
            destination: self.target_path@,
            files: catalog_of(self.records()),
            phase: self.phase,
            delete_staging: self.delete_staging,
            entries: views_of_strings(self.entries),
            next_entry: self.next_entry as int,
            archive: self.archive@,
            current: match self.current {
                Some(f) => Some(f@),
                None => None,
            },
            placement: match self.placement {
                Some(p) => Some(p@),
                None => None,
            },
        }
    }
}

/// An extraction that ends in failure: the records of the run are dropped.
pub open spec fn failed(s: PackageView, k: ErrorKind) -> (PackageView, ActionView) {
    (PackageView { phase: UnpackPhase::Failed, files: Map::empty(), ..s }, ActionView::Finished(Some(k)))
}

/// Goes on to the next staging entry; after the last, removes the staging
/// directory if asked to, and is done.
pub open spec fn advanced(s: PackageView) -> (PackageView, ActionView) {
    if s.next_entry < s.entries.len() {
        let dir = s.entries[s.next_entry];
        (
            PackageView { phase: UnpackPhase::ReadingEntry, ..s },
            ActionView::ReadEntry(pathname_member(dir), meta_member(dir)),
        )
    } else if s.delete_staging {
        (
            PackageView { phase: UnpackPhase::RemovingStaging, ..s },
            ActionView::RemoveStagingDirectory(s.staging),
        )
    } else {
        (PackageView { phase: UnpackPhase::Extracted, ..s }, ActionView::Finished(None))
    }
}

/// Builds the record of the current staging entry from its members' contents
/// and starts placing it. A folder has nothing to place and is recorded at once.
pub open spec fn entry_read(
    s: PackageView,
    pathname: Option<Seq<char>>,
    meta: Option<Seq<char>>,
) -> (PackageView, ActionView) {
    let dir = s.entries[s.next_entry];
    if entry_identifier(dir) is None {
        failed(s, ErrorKind::InvalidPath)
    } else if pathname is None {
        failed(s, ErrorKind::CorruptEntry)
    } else if meta is None {
        failed(s, ErrorKind::MetadataUnreadable)
    } else {
        let rec = spec_record(dir, pathname->Some_0, meta->Some_0);
        if rec.is_folder {
            advanced(
                PackageView {
                    files: s.files.insert(rec.guid, rec),
                    next_entry: s.next_entry + 1,
                    ..s
                },
            )
        } else {
            let t = spec_asset_destination(rec, s.destination);
            if parent_of(t) is None {
                failed(s, ErrorKind::TargetDirectoryUnavailable)
            } else if file_name_of(t) is None {
                failed(s, ErrorKind::CorruptEntry)
            } else {
                let p = spec_placement(rec, s.destination);
                (
                    PackageView {
                        phase: UnpackPhase::CreatingDirectory,
                        current: Some(rec),
                        placement: Some(p),
                        ..s
                    },
                    ActionView::CreateDirectory(p.directory),
                )
            }
        }
    }
}

/// The state and the next action after `event` comes in state `s`.
pub open spec fn resumed(s: PackageView, event: EventView) -> (PackageView, ActionView) {
    match (s.phase, event) {
        (UnpackPhase::ReadingPackage, EventView::PackageRead(bytes)) => match gunzipped(bytes) {
            Some(tar) => (
                PackageView { phase: UnpackPhase::CreatingStaging, archive: tar, ..s },
                ActionView::CreateStagingDirectory(s.staging),
            ),
            None => failed(s, ErrorKind::CorruptPackage),
        },
        (UnpackPhase::ReadingPackage, EventView::PackageMissing) => failed(s, ErrorKind::PackageNotFound),
        (UnpackPhase::ReadingPackage, EventView::Failed) => failed(s, ErrorKind::CorruptPackage),
        (UnpackPhase::CreatingStaging, EventView::Succeeded) => (
            PackageView { phase: UnpackPhase::Unpacking, archive: Seq::empty(), ..s },
            ActionView::UnpackArchive(s.archive, s.staging),
        ),
        (UnpackPhase::CreatingStaging, EventView::Failed) => failed(s, ErrorKind::StagingDirectoryUnavailable),
        (UnpackPhase::Unpacking, EventView::Succeeded) => (
            PackageView { phase: UnpackPhase::ListingStaging, ..s },
            ActionView::ListStagingDirectory(s.staging),
        ),
        (UnpackPhase::Unpacking, EventView::Failed) => failed(s, ErrorKind::CorruptPackage),
        (UnpackPhase::ListingStaging, EventView::Listed(entries)) => advanced(
            PackageView { entries, next_entry: 0, ..s },
        ),
        (UnpackPhase::ListingStaging, EventView::Failed) => failed(s, ErrorKind::StagingDirectoryUnavailable),
        (UnpackPhase::ReadingEntry, EventView::EntryRead(pathname, meta)) => entry_read(s, pathname, meta),
        (UnpackPhase::CreatingDirectory, EventView::Succeeded) => (
            PackageView { phase: UnpackPhase::MovingAsset, ..s },
            ActionView::MoveFile(s.placement->Some_0.asset_from, s.placement->Some_0.asset_to),
        ),
        (UnpackPhase::CreatingDirectory, EventView::Failed) => failed(s, ErrorKind::TargetDirectoryUnavailable),
        (UnpackPhase::MovingAsset, EventView::Succeeded) => (
            PackageView { phase: UnpackPhase::MovingMetadata, ..s },
            ActionView::MoveFile(s.placement->Some_0.meta_from, s.placement->Some_0.meta_to),
        ),
        (UnpackPhase::MovingAsset, EventView::Failed) => failed(s, ErrorKind::CorruptEntry),
        (UnpackPhase::MovingMetadata, EventView::Succeeded) => advanced(
            PackageView {
                files: s.files.insert(s.current->Some_0.guid, s.current->Some_0),
                next_entry: s.next_entry + 1,
                current: None,
                placement: None,
                ..s
            },
        ),
        (UnpackPhase::MovingMetadata, EventView::Failed) => failed(s, ErrorKind::CorruptEntry),
        (UnpackPhase::RemovingStaging, EventView::Succeeded) => (
            PackageView { phase: UnpackPhase::Extracted, ..s },
            ActionView::Finished(None),
        ),
        (UnpackPhase::RemovingStaging, EventView::Failed) => (
            PackageView { phase: UnpackPhase::Extracted, ..s },
            ActionView::Finished(Some(ErrorKind::StagingCleanupFailed)),
        ),
        _ => unexpected(s),
    }
}

/// An event that the state does not wait for: a finished or unstarted
/// extraction stays as it is, a running one fails.
pub open spec fn unexpected(s: PackageView) -> (PackageView, ActionView) {
    if s.phase == UnpackPhase::Created || s.phase == UnpackPhase::Extracted || s.phase
        == UnpackPhase::Failed {
        (s, ActionView::Finished(Some(ErrorKind::InvalidState)))
    } else {
        failed(s, ErrorKind::InvalidState)
    }
}

/// Starting an extraction: only a package that never started one may.
pub open spec fn started(s: PackageView, delete_staging: bool) -> (PackageView, ActionView) {
    if s.phase == UnpackPhase::Created {
        (
            PackageView { phase: UnpackPhase::ReadingPackage, delete_staging, ..s },
            ActionView::ReadPackage(s.path),
        )
    } else {
        (s, ActionView::Finished(Some(ErrorKind::InvalidState)))
    }
}

/// A record found with no later record of the same identifier is the one
/// the catalog holds.
proof fn lemma_catalog_last(files: Seq<AssetFileView>, g: Seq<char>, k: int)
    requires
        0 <= k <= files.len(),
        forall|j: int| k <= j < files.len() ==> (#[trigger] files[j]).guid != g,
    ensures
        catalog_of(files).contains_key(g) == catalog_of(files.take(k)).contains_key(g),
        catalog_of(files).contains_key(g) ==> catalog_of(files)[g] == catalog_of(files.take(k))[g],
    decreases files.len(),
{
    if k == files.len() {
        assert(files.take(k) =~= files);
    } else {
        let rest = files.drop_last();
        assert forall|j: int| k <= j < rest.len() implies (#[trigger] rest[j]).guid != g by {
            assert(rest[j] == files[j]);
        }
        lemma_catalog_last(rest, g, k);
        assert(rest.take(k) =~= files.take(k));
    }
}

/// Every record of a catalog is held under its own identifier.
proof fn lemma_catalog_keys(files: Seq<AssetFileView>)
    ensures
        forall|g: Seq<char>| #[trigger]
            catalog_of(files).contains_key(g) ==> catalog_of(files)[g].guid == g && exists|
                i: int,
            |
                0 <= i < files.len() && #[trigger] files[i] == catalog_of(files)[g],
    decreases files.len(),
{
    if files.len() > 0 {
        let rest = files.drop_last();
        lemma_catalog_keys(rest);
        assert forall|g: Seq<char>| #[trigger]
            catalog_of(files).contains_key(g) implies catalog_of(files)[g].guid == g && exists|
                i: int,
            |
                0 <= i < files.len() && #[trigger] files[i] == catalog_of(files)[g] by {
            if g == files.last().guid {
                assert(files[files.len() - 1] == catalog_of(files)[g]);
            } else {
                let i = choose|i: int| 0 <= i < rest.len() && #[trigger] rest[i] == catalog_of(rest)[g];
                assert(files[i] == rest[i]);
            }
        }
    }
}

impl UnityPackage {
    /// The records held, in order.
    pub closed spec fn records(&self) -> Seq<AssetFileView> {
        self.files@.map_values(|f: UnityAssetFile| f@)
    }

    /// Every record held has a non-empty identifier.
    closed spec fn records_wf(&self) -> bool {
        forall|i: int| 0 <= i < self.files@.len() ==> (#[trigger] self.files@[i])@.guid.len() > 0
    }

    /// Every record held has a non-empty identifier; the phase that
    /// processes an entry has one, and the phases that place a record hold it
    /// and its placement.
    pub closed spec fn wf(&self) -> bool {
        &&& self.records_wf()
        &&& self.next_entry <= self.entries@.len()
        &&& self.phase == UnpackPhase::ReadingEntry ==> self.next_entry < self.entries@.len()
        &&& (self.phase == UnpackPhase::CreatingDirectory || self.phase == UnpackPhase::MovingAsset
            || self.phase == UnpackPhase::MovingMetadata) ==> {
            &&& self.next_entry < self.entries@.len()
            &&& self.current is Some
            &&& self.placement is Some
            &&& self.current->Some_0@.guid.len() > 0
        }
    }

    /// Creates a package, resolving once where its file, its staging directory
    /// and its destination directory are. `file_exists` says whether a file is
    /// at `file_name`; `working_dir` is the working directory, `None` where it
    /// cannot be determined. It is needed only for what is not given.
    pub fn new(
        file_name: &str,
        target_path: Option<String>,
        temp_directory: Option<String>,
        working_dir: Option<String>,
        file_exists: bool,
    ) -> (r: Result<Self, UnityPackageReaderError>)
        ensures
            ({
                let path = resolved_package_path(file_name@, file_exists, view_of_opt(working_dir));
                let staging = resolved_staging_root(view_of_opt(temp_directory), view_of_opt(working_dir));
                let dest = resolved_destination_root(
                    view_of_opt(target_path),
                    path->Some_0,
                    view_of_opt(working_dir),
                );
                &&& r is Ok <==> path is Some && staging is Some && dest is Some
                &&& (r matches Err(UnityPackageReaderError::WorkingDirectoryResolutionFailed(_)))
                    <==> (path is None || (path is Some && staging is None) || (path is Some
                    && staging is Some && dest is None && file_stem_of(path->Some_0) is Some))
                &&& (r matches Err(UnityPackageReaderError::InvalidPath(_))) <==> path is Some
                    && staging is Some && dest is None && file_stem_of(path->Some_0) is None
                &&& r is Ok ==> r->Ok_0.wf() && r->Ok_0@ == PackageView {
                    path: path->Some_0,
                    staging: staging->Some_0,
                    destination: dest->Some_0,
                    files: Map::empty(),
                    phase: UnpackPhase::Created,
                    delete_staging: false,
                    entries: Seq::empty(),
                    next_entry: 0,
                    archive: Seq::empty(),
                    current: None,
                    placement: None,
                }
            }),
    {
        let path = if file_exists {
            file_name.to_owned()
        } else {
            match &working_dir {
                Some(w) => join(w.as_str(), file_name),
                None => {
                    return Err(
                        UnityPackageReaderError::WorkingDirectoryResolutionFailed(
                            ErrorInformation::new(None, file_name, 0),
                        ),
                    );
                },
            }
        };
        let staging = match temp_directory {
            Some(t) => t,
            None => match &working_dir {
                Some(w) => join(w.as_str(), "tmp"),
                None => {
                    return Err(
                        UnityPackageReaderError::WorkingDirectoryResolutionFailed(
                            ErrorInformation::new(None, "tmp", 0),
                        ),
                    );
                },
            },
        };
        let destination = match target_path {
            Some(t) => t,
            None => {
                let stem = match file_stem(path.as_str()) {
                    Some(s) => s,
                    None => {
                        return Err(
                            UnityPackageReaderError::InvalidPath(
                                ErrorInformation::new(None, path.as_str(), 0),
                            ),
                        );
                    },
                };
                match &working_dir {
                    Some(w) => join(w.as_str(), stem.as_str()),
                    None => {
                        return Err(
                            UnityPackageReaderError::WorkingDirectoryResolutionFailed(
                                ErrorInformation::new(None, stem.as_str(), 0),
                            ),
                        );
                    },
                }
            },
        };
        let r = UnityPackage {
            path,
            target_path: destination,
            temp_directory: staging,
            files: Vec::new(),
            phase: UnpackPhase::Created,
            delete_staging: false,
            entries: Vec::new(),
            next_entry: 0,
            archive: Vec::new(),
            current: None,
            placement: None,
        };
        assert(r.records() =~= Seq::<AssetFileView>::empty());
        assert(views_of_strings(r.entries) =~= Seq::<Seq<char>>::empty());
        Ok(r)
    }

    pub fn get_path(&self) -> (r: String)
        ensures
            r@ == self@.path,
    {
        self.path.clone()
    }

    /// The record of the asset with identifier `guid`, if the package holds one.
    pub fn get_file(&self, guid: &String) -> (r: Option<&UnityAssetFile>)
        ensures
            r is Some <==> self@.files.contains_key(guid@),
            r is Some ==> r->Some_0@ == self@.files[guid@],
    {
        let ghost recs = self.records();
        let mut i: usize = self.files.len();
        while i > 0
            invariant
                i <= self.files@.len(),
                recs == self.records(),
                forall|j: int| i <= j < recs.len() ==> (#[trigger] recs[j]).guid != guid@,
            decreases i,
        {
            i = i - 1;
            if *self.files[i].get_guid() == *guid {
                proof {
                    assert forall|j: int| i + 1 <= j < recs.len() implies (#[trigger] recs[j]).guid
                        != guid@ by {}
                    lemma_catalog_last(recs, guid@, i + 1);
                    assert(recs.take(i + 1).drop_last() =~= recs.take(i as int));
                    assert(recs[i as int] == self.files@[i as int]@);
                    assert(recs.take(i + 1).last() == recs[i as int]);
                }
                return Some(&self.files[i]);
            }
        }
        proof {
            lemma_catalog_last(recs, guid@, 0);
        }
        None
    }

    /// The staging directory.
    pub fn get_tmp_dir(&self) -> (r: String)
        ensures
            r@ == self@.staging,
    {
        self.temp_directory.clone()
    }

    /// The destination directory.
    pub fn get_target_dir(&self) -> (r: String)
        ensures
            r@ == self@.destination,
    {
        self.target_path.clone()
    }

    /// Every record a package can look up is held under its own identifier,
    /// which is not empty.
    pub proof fn lemma_lookup_identified(&self)
        requires
            self.wf(),
        ensures
            forall|g: Seq<char>| #[trigger]
                self@.files.contains_key(g) ==> self@.files[g].guid == g && g.len() > 0,
    {
        let recs = self.records();
        lemma_catalog_keys(recs);
        assert forall|g: Seq<char>| #[trigger] self@.files.contains_key(g) implies self@.files[g].guid
            == g && g.len() > 0 by {
            let i = choose|i: int| 0 <= i < recs.len() && #[trigger] recs[i] == catalog_of(recs)[g];
            assert(recs[i] == self.files@[i]@);
        }
    }

    /// Ends the extraction with error `e`, dropping the records of the run.
    fn fail(&mut self, e: UnityPackageReaderError) -> (a: UnpackAction)
        requires
            old(self).wf(),
        ensures
            final(self).wf(),
            (final(self)@, a@) == failed(old(self)@, e.spec_kind()),
    {
        self.phase = UnpackPhase::Failed;
        self.files = Vec::new();
        assert(self.records() =~= Seq::<AssetFileView>::empty());
        UnpackAction::Finished(Err(e))
    }

    /// Records `f`, which has been placed.
    fn record(&mut self, f: UnityAssetFile)
        requires
            old(self).records_wf(),
            f@.guid.len() > 0,
        ensures
            final(self).records_wf(),
            final(self).next_entry == old(self).next_entry,
            final(self).entries == old(self).entries,
            final(self).phase == old(self).phase,
            final(self).current == old(self).current,
            final(self).placement == old(self).placement,
            final(self)@ == (PackageView { files: old(self)@.files.insert(f@.guid, f@), ..old(self)@ }),
    {
        let ghost recs = self.records();
        self.files.push(f);
        proof {
            assert(self.records().drop_last() =~= recs);
            assert(self.records().last() == f@);
        }
    }

    /// Asks for the next staging entry, or ends the extraction after the last.
    fn advance(&mut self) -> (a: UnpackAction)
        requires
            old(self).records_wf(),
            old(self).next_entry <= old(self).entries@.len(),
        ensures
            final(self).wf(),
            (final(self)@, a@) == advanced(old(self)@),
    {
        if self.next_entry < self.entries.len() {
            let dir = &self.entries[self.next_entry];
            let pathname = join(dir.as_str(), "pathname");
            let meta = join(dir.as_str(), "asset.meta");
            self.phase = UnpackPhase::ReadingEntry;
            UnpackAction::ReadEntry(pathname, meta)
        } else if self.delete_staging {
            self.phase = UnpackPhase::RemovingStaging;
            UnpackAction::RemoveStagingDirectory(self.temp_directory.clone())
        } else {
            self.phase = UnpackPhase::Extracted;
            UnpackAction::Finished(Ok(()))
        }
    }

    /// Takes the contents of the current entry's members and goes on with it.
    fn read_entry(&mut self, pathname: Option<String>, meta: Option<String>) -> (a: UnpackAction)
        requires
            old(self).wf(),
            old(self).phase == UnpackPhase::ReadingEntry,
        ensures
            final(self).wf(),
            (final(self)@, a@) == entry_read(
                old(self)@,
                view_of_opt(pathname),
                view_of_opt(meta),
            ),
    {
        let f = match UnityAssetFile::from(self.entries[self.next_entry].as_str(), pathname, meta) {
            Ok(f) => f,
            Err(e) => {
                return self.fail(e);
            },
        };
        match f.copy_plan(self.target_path.as_str()) {
            Err(e) => self.fail(e),
            Ok(None) => {
                let n = self.entries.len();
                self.record(f);
                assert(self.next_entry < n);
                self.next_entry = self.next_entry + 1;
                self.advance()
            },
            Ok(Some(p)) => {
                let directory = p.directory.clone();
                self.current = Some(f);
                self.placement = Some(p);
                self.phase = UnpackPhase::CreatingDirectory;
                UnpackAction::CreateDirectory(directory)
            },
        }
    }

    /// Starts extracting the package; `delete_tmp` asks for the staging
    /// directory to be removed at the end. The caller carries out each action
    /// returned and hands its outcome to `resume`, until `Finished` comes.
    /// A package extracts at most once.
    pub fn unpack_package(&mut self, delete_tmp: bool) -> (a: UnpackAction)
        requires
            old(self).wf(),
        ensures
            final(self).wf(),
            (final(self)@, a@) == started(old(self)@, delete_tmp),
    {
        if self.phase == UnpackPhase::Created {
            self.phase = UnpackPhase::ReadingPackage;
            self.delete_staging = delete_tmp;
            UnpackAction::ReadPackage(self.path.clone())
        } else {
            UnpackAction::Finished(
                Err(UnityPackageReaderError::InvalidState(ErrorInformation::new(None, self.path.as_str(), 0))),
            )
        }
    }

    fn unexpected(&mut self) -> (a: UnpackAction)
        requires
            old(self).wf(),
        ensures
            final(self).wf(),
            (final(self)@, a@) == unexpected(old(self)@),
    {
        let e = UnityPackageReaderError::InvalidState(ErrorInformation::new(None, self.path.as_str(), 0));
        if self.phase == UnpackPhase::Created || self.phase == UnpackPhase::Extracted || self.phase
            == UnpackPhase::Failed {
            UnpackAction::Finished(Err(e))
        } else {
            self.fail(e)
        }
    }

    /// Takes the outcome of the action asked for last and returns the next one.
    pub fn resume(&mut self, event: UnpackEvent) -> (a: UnpackAction)
        requires
            old(self).wf(),
        ensures
            final(self).wf(),
            (final(self)@, a@) == resumed(old(self)@, event@),
    {
        let phase = self.phase;
        match event {
            UnpackEvent::PackageRead(bytes) => {
                if phase != UnpackPhase::ReadingPackage {
                    return self.unexpected();
                }
                match gunzip(bytes.as_slice()) {
                    Some(tar) => {
                        self.archive = tar;
                        self.phase = UnpackPhase::CreatingStaging;
                        UnpackAction::CreateStagingDirectory(self.temp_directory.clone())
                    },
                    None => self.fail(
                        UnityPackageReaderError::CorruptPackage(ErrorInformation::new(None, self.path.as_str(), 0)),
                    ),
                }
            },
            UnpackEvent::PackageMissing => {
                if phase != UnpackPhase::ReadingPackage {
                    return self.unexpected();
                }
                self.fail(
                    UnityPackageReaderError::PackageNotFound(ErrorInformation::new(None, self.path.as_str(), 0)),
                )
            },
            UnpackEvent::Listed(entries) => {
                if phase != UnpackPhase::ListingStaging {
                    return self.unexpected();
                }
                self.entries = entries;
                self.next_entry = 0;
                self.advance()
            },
            UnpackEvent::EntryRead(pathname, meta) => {
                if phase != UnpackPhase::ReadingEntry {
                    return self.unexpected();
                }
                self.read_entry(pathname, meta)
            },
            UnpackEvent::Succeeded => self.succeeded(),
            UnpackEvent::Failed(cause) => self.action_failed(cause),
        }
    }

    /// The action asked for last was carried out.
    fn succeeded(&mut self) -> (a: UnpackAction)
        requires
            old(self).wf(),
        ensures
            final(self).wf(),
            (final(self)@, a@) == resumed(old(self)@, EventView::Succeeded),
    {
        match self.phase {
            UnpackPhase::CreatingStaging => {
                let mut tar: Vec<u8> = Vec::new();
                std::mem::swap(&mut tar, &mut self.archive);
                self.phase = UnpackPhase::Unpacking;
                UnpackAction::UnpackArchive(tar, self.temp_directory.clone())
            },
            UnpackPhase::Unpacking => {
                self.phase = UnpackPhase::ListingStaging;
                UnpackAction::ListStagingDirectory(self.temp_directory.clone())
            },
            UnpackPhase::CreatingDirectory => {
                let a = match &self.placement {
                    Some(p) => UnpackAction::MoveFile(p.asset_from.clone(), p.asset_to.clone()),
                    None => {
                        return self.unexpected();
                    },
                };
                self.phase = UnpackPhase::MovingAsset;
                a
            },
            UnpackPhase::MovingAsset => {
                let a = match &self.placement {
                    Some(p) => UnpackAction::MoveFile(p.meta_from.clone(), p.meta_to.clone()),
                    None => {
                        return self.unexpected();
                    },
                };
                self.phase = UnpackPhase::MovingMetadata;
                a
            },
            UnpackPhase::MovingMetadata => {
                let mut current: Option<UnityAssetFile> = None;
                std::mem::swap(&mut current, &mut self.current);
                self.placement = None;
                match current {
                    Some(f) => {
                        let n = self.entries.len();
                        self.record(f);
                        assert(self.next_entry < n);
                        self.next_entry = self.next_entry + 1;
                        self.advance()
                    },
                    None => self.unexpected(),
                }
            },
            UnpackPhase::RemovingStaging => {
                self.phase = UnpackPhase::Extracted;
                UnpackAction::Finished(Ok(()))
            },
            _ => self.unexpected(),
        }
    }

    /// The action asked for last failed, for the reason `cause`.
    fn action_failed(&mut self, cause: String) -> (a: UnpackAction)
        requires
            old(self).wf(),
        ensures
            final(self).wf(),
            (final(self)@, a@) == resumed(old(self)@, EventView::Failed),
    {
        match self.phase {
            UnpackPhase::ReadingPackage => self.fail(
                UnityPackageReaderError::CorruptPackage(ErrorInformation::new(Some(cause), self.path.as_str(), 0)),
            ),
            UnpackPhase::CreatingStaging | UnpackPhase::ListingStaging => self.fail(
                UnityPackageReaderError::StagingDirectoryUnavailable(
                    ErrorInformation::new(Some(cause), self.temp_directory.as_str(), 0),
                ),
            ),
            UnpackPhase::Unpacking => self.fail(
                UnityPackageReaderError::CorruptPackage(
                    ErrorInformation::new(Some(cause), self.temp_directory.as_str(), 0),
                ),
            ),
            UnpackPhase::CreatingDirectory => {
                let e = match &self.placement {
                    Some(p) => UnityPackageReaderError::TargetDirectoryUnavailable(
                        ErrorInformation::new(Some(cause), p.directory.as_str(), 0),
                    ),
                    None => {
                        return self.unexpected();
                    },
                };
                self.fail(e)
            },
            UnpackPhase::MovingAsset => {
                let e = match &self.placement {
                    Some(p) => UnityPackageReaderError::CorruptEntry(
                        ErrorInformation::new(Some(cause), p.asset_from.as_str(), 0),
                    ),
                    None => {
                        return self.unexpected();
                    },
                };
                self.fail(e)
            },
            UnpackPhase::MovingMetadata => {
                let e = match &self.placement {
                    Some(p) => UnityPackageReaderError::CorruptEntry(
                        ErrorInformation::new(Some(cause), p.meta_from.as_str(), 0),
                    ),
                    None => {
                        return self.unexpected();
                    },
                };
                self.fail(e)
            },
            UnpackPhase::RemovingStaging => {
                self.phase = UnpackPhase::Extracted;
                UnpackAction::Finished(
                    Err(
                        UnityPackageReaderError::StagingCleanupFailed(
                            ErrorInformation::new(Some(cause), self.temp_directory.as_str(), 0),
                        ),
                    ),
                )
            },
            _ => self.unexpected(),
        }
    }

    /// The package's file name without its extension.
    pub fn get_package_file_name(&self) -> (r: Result<String, UnityPackageReaderError>)
        ensures
            r is Ok <==> file_stem_of(self@.path) is Some,
            r is Ok ==> r->Ok_0@ == file_stem_of(self@.path)->Some_0,
            r is Err ==> (r matches Err(UnityPackageReaderError::InvalidPath(_))),
    {
        match file_stem(self.path.as_str()) {
            Some(s) => Ok(s),
            None => Err(UnityPackageReaderError::InvalidPath(ErrorInformation::new(None, self.path.as_str(), 0))),
        }
    }
}

/// A path that stays under the directory it is pushed onto: not empty, and
/// not starting at a root.
pub open spec fn valid_relative_path(p: Seq<char>) -> bool {
    p.len() > 0 && p[0] != '/'
}

/// Every record is held under its own identifier, which is not empty, and has
/// a valid relative destination.
pub open spec fn records_valid(files: Map<Seq<char>, AssetFileView>) -> bool {
    forall|g: Seq<char>| #[trigger]
        files.contains_key(g) ==> files[g].guid == g && g.len() > 0 && valid_relative_path(
            files[g].target,
        )
}

/// The record being placed, if any, has a non-empty identifier and a valid
/// relative destination.
pub open spec fn current_valid(s: PackageView) -> bool {
    s.current matches Some(c) ==> c.guid.len() > 0 && valid_relative_path(c.target)
}

/// A package whose `pathname` members all hold valid relative paths keeps
/// every record it can look up identified by a non-empty identifier, under
/// that identifier, with a valid relative destination: each step of an
/// extraction preserves this.
pub proof fn lemma_records_stay_valid(s: PackageView, event: EventView)
    requires
        records_valid(s.files),
        current_valid(s),
        0 <= s.next_entry <= s.entries.len(),
        s.phase == UnpackPhase::ReadingEntry ==> s.next_entry < s.entries.len(),
        s.phase == UnpackPhase::MovingMetadata ==> s.current is Some,
        event matches EventView::EntryRead(Some(p), _) ==> valid_relative_path(p),
    ensures
        records_valid(resumed(s, event).0.files),
        current_valid(resumed(s, event).0),
{
    match (s.phase, event) {
        (UnpackPhase::ReadingEntry, EventView::EntryRead(pathname, meta)) => {
            let dir = s.entries[s.next_entry];
            if entry_identifier(dir) is Some && pathname is Some && meta is Some {
                let rec = spec_record(dir, pathname->Some_0, meta->Some_0);
                lemma_insert_valid(s.files, rec);
            }
        },
        (UnpackPhase::MovingMetadata, EventView::Succeeded) => {
            lemma_insert_valid(s.files, s.current->Some_0);
        },
        _ => {},
    }
}

proof fn lemma_insert_valid(files: Map<Seq<char>, AssetFileView>, rec: AssetFileView)
    requires
        records_valid(files),
        rec.guid.len() > 0,
        valid_relative_path(rec.target),
    ensures
        records_valid(files.insert(rec.guid, rec)),
{
}

/// Starting an extraction keeps the records as they are.
pub proof fn lemma_start_keeps_records(s: PackageView, delete_staging: bool)
    ensures
        started(s, delete_staging).0.files == s.files,
        started(s, delete_staging).0.current == s.current,
{
}

/// A running extraction that fails holds no records afterwards: one bad entry
/// leaves no partial catalog. Only a failure to remove the staging directory,
/// after every asset is placed, keeps them.
pub proof fn lemma_failure_leaves_no_records(s: PackageView, event: EventView)
    requires
        s.phase != UnpackPhase::Created,
        s.phase != UnpackPhase::Extracted,
        s.phase != UnpackPhase::Failed,
        0 <= s.next_entry <= s.entries.len(),
        s.phase == UnpackPhase::ReadingEntry ==> s.next_entry < s.entries.len(),
        resumed(s, event).1 matches ActionView::Finished(Some(k)) && k
            != ErrorKind::StagingCleanupFailed,
    ensures
        resumed(s, event).0.files == Map::<Seq<char>, AssetFileView>::empty(),
        resumed(s, event).0.phase == UnpackPhase::Failed,
{
}

/// A folder entry moves nothing: its record is kept at once and the next
/// action reads the next entry, removes the staging directory, or ends.
pub proof fn lemma_folder_moves_nothing(s: PackageView, pathname: Seq<char>, meta: Seq<char>)
    requires
        0 <= s.next_entry < s.entries.len(),
        entry_identifier(s.entries[s.next_entry]) is Some,
        spec_record(s.entries[s.next_entry], pathname, meta).is_folder,
    ensures
        ({
            let r = entry_read(s, Some(pathname), Some(meta));
            let rec = spec_record(s.entries[s.next_entry], pathname, meta);
            &&& !(r.1 is MoveFile)
            &&& !(r.1 is CreateDirectory)
            &&& r.0.files == s.files.insert(rec.guid, rec)
            &&& r.0.next_entry == s.next_entry + 1
        }),
{
}

/// What an entry asks to be done does not depend on the records placed
/// before it: entries that share a destination directory each ask for that
/// same directory, in whichever order they come.
pub proof fn lemma_entry_independent_of_records(
    s: PackageView,
    t: PackageView,
    pathname: Option<Seq<char>>,
    meta: Option<Seq<char>>,
)
    requires
        0 <= s.next_entry < s.entries.len(),
        t == (PackageView { files: t.files, ..s }),
    ensures
        entry_read(s, pathname, meta).1 == entry_read(t, pathname, meta).1,
        entry_read(s, pathname, meta).0.phase == entry_read(t, pathname, meta).0.phase,
{
}

/// Two records whose destinations share a parent directory ask for that one
/// directory, whichever is placed first.
pub proof fn lemma_shared_directory(f: AssetFileView, g: AssetFileView, root: Seq<char>)
    requires
        can_place(f, root),
        can_place(g, root),
        parent_of(spec_asset_destination(f, root)) == parent_of(spec_asset_destination(g, root)),
    ensures
        spec_placement(f, root).directory == spec_placement(g, root).directory,
{
}

/// The metadata of a placed asset lies beside it, named by the asset's whole
/// file name, extension included, followed by `.unitymeta`.
pub proof fn lemma_metadata_beside_asset(f: AssetFileView, root: Seq<char>)
    requires
        can_place(f, root),
    ensures
        ({
            let p = spec_placement(f, root);
            let name = file_name_of(p.asset_to)->Some_0;
            &&& parent_of(p.asset_to) == Some(p.directory)
            &&& p.meta_to == joined(p.directory, name + ".unitymeta"@)
            &&& (name + ".unitymeta"@).subrange(0, name.len() as int) == name
        }),
{
    let name = file_name_of(spec_placement(f, root).asset_to)->Some_0;
    assert((name + ".unitymeta"@).subrange(0, name.len() as int) =~= name);
}

/// Once the last entry is placed, the staging directory is removed exactly
/// when that was asked for; otherwise the extraction ends there.
pub proof fn lemma_cleanup_as_requested(s: PackageView)
    requires
        s.next_entry >= s.entries.len(),
    ensures
        s.delete_staging ==> advanced(s).1 == ActionView::RemoveStagingDirectory(s.staging),
        !s.delete_staging ==> advanced(s).1 == ActionView::Finished(None),
        advanced(s).0.files == s.files,
{
}

} // verus!
