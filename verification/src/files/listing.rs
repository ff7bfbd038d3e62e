//! Listings of the files of a bucket, sorted by what each entry stands for.
//!
//! The service lists files, unfinished large files, hide markers and folders in one
//! list, in the order of their names. A listing keeps each kind in a list of its
//! own, in that order.

use super::{FolderInfo, HideMarkerInfo};
use vstd::prelude::*;

verus! {

/// A file in a listing. `InfoType` is what the caller reads the info of a file as.
#[derive(Debug, Clone)]
pub struct FileInfo<InfoType> {
    pub file_id: String,
    pub file_name: String,
    pub content_length: u64,
    pub content_type: String,
    pub content_sha1: String,
    pub file_info: InfoType,
    pub upload_timestamp: u64,
}

/// All that the service tells of a file.
#[derive(Debug, Clone)]
pub struct MoreFileInfo<InfoType> {
    pub file_id: String,
    pub file_name: String,
    pub account_id: String,
    pub content_sha1: String,
    pub bucket_id: String,
    pub content_length: u64,
    pub content_type: String,
    pub file_info: InfoType,
    pub action: super::FileType,
    pub upload_timestamp: u64,
}

/// A large file in a listing whose upload was started and not finished.
#[derive(Debug, Clone)]
pub struct UnfinishedLargeFileInfo<InfoType> {
    pub file_id: String,
    pub file_name: String,
    pub content_type: String,
    pub file_info: InfoType,
    pub upload_timestamp: u64,
}

/// An entry of a listing of file names.
#[derive(Debug, Clone)]
pub enum NameEntry<InfoType> {
    Upload(FileInfo<InfoType>),
    Folder(FolderInfo),
}

/// An entry of a listing of file versions.
#[derive(Debug, Clone)]
pub enum VersionEntry<InfoType> {
    Upload(FileInfo<InfoType>),
    Start(UnfinishedLargeFileInfo<InfoType>),
    Hide(HideMarkerInfo),
    Folder(FolderInfo),
}

/// A version of a file: a file, an unfinished large file or a hide marker.
#[derive(Debug, Clone)]
pub enum B2FileVersion<InfoType> {
    File(FileInfo<InfoType>),
    Large(UnfinishedLargeFileInfo<InfoType>),
    Hide(HideMarkerInfo),
}

/// The files and folders of a listing of file names.
#[derive(Debug, Clone)]
pub struct FileNameListing<InfoType> {
    pub files: Vec<FileInfo<InfoType>>,
    pub folders: Vec<FolderInfo>,
}

/// The files, folders, hide markers and unfinished large files of a listing of file
/// versions.
#[derive(Debug, Clone)]
pub struct FileVersionListing<InfoType> {
    pub files: Vec<FileInfo<InfoType>>,
    pub folders: Vec<FolderInfo>,
    pub hide_markers: Vec<HideMarkerInfo>,
    pub unfinished_large_files: Vec<UnfinishedLargeFileInfo<InfoType>>,
}

impl<InfoType> VersionEntry<InfoType> {
    /// The version that the entry stands for, if it is not a folder.
    pub open spec fn spec_version(self) -> Option<B2FileVersion<InfoType>> {
        match self {
            VersionEntry::Upload(file) => Some(B2FileVersion::File(file)),
            VersionEntry::Start(large) => Some(B2FileVersion::Large(large)),
            VersionEntry::Hide(hide) => Some(B2FileVersion::Hide(hide)),
            VersionEntry::Folder(_) => None,
        }
    }

    /// The version that the entry stands for, if it is not a folder.
    pub fn to_file_version(self) -> (version: Option<B2FileVersion<InfoType>>)
        ensures
            version == self.spec_version(),
    {
        match self {
            VersionEntry::Upload(file) => Some(B2FileVersion::File(file)),
            VersionEntry::Start(large) => Some(B2FileVersion::Large(large)),
            VersionEntry::Hide(hide) => Some(B2FileVersion::Hide(hide)),
            VersionEntry::Folder(_) => None,
        }
    }
}

impl<InfoType> B2FileVersion<InfoType> {
    pub open spec fn spec_file_id(&self) -> Seq<char> {
        match self {
            B2FileVersion::File(file) => file.file_id@,
            B2FileVersion::Large(file) => file.file_id@,
            B2FileVersion::Hide(file) => file.file_id@,
        }
    }

    pub open spec fn spec_file_name(&self) -> Seq<char> {
        match self {
            B2FileVersion::File(file) => file.file_name@,
            B2FileVersion::Large(file) => file.file_name@,
            B2FileVersion::Hide(file) => file.file_name@,
        }
    }

    pub open spec fn spec_upload_timestamp(&self) -> u64 {
        match self {
            B2FileVersion::File(file) => file.upload_timestamp,
            B2FileVersion::Large(file) => file.upload_timestamp,
            B2FileVersion::Hide(file) => file.upload_timestamp,
        }
    }

    /// The id of the version.
    pub fn file_id(&self) -> (id: &str)
        ensures
            id@ == self.spec_file_id(),
    {
        match self {
            B2FileVersion::File(file) => file.file_id.as_str(),
            B2FileVersion::Large(file) => file.file_id.as_str(),
            B2FileVersion::Hide(file) => file.file_id.as_str(),
        }
    }

    /// The name of the file.
    pub fn file_name(&self) -> (name: &str)
        ensures
            name@ == self.spec_file_name(),
    {
        match self {
            B2FileVersion::File(file) => file.file_name.as_str(),
            B2FileVersion::Large(file) => file.file_name.as_str(),
            B2FileVersion::Hide(file) => file.file_name.as_str(),
        }
    }

    /// When the version was uploaded.
    pub fn upload_timestamp(&self) -> (time: u64)
        ensures
            time == self.spec_upload_timestamp(),
    {
        match self {
            B2FileVersion::File(file) => file.upload_timestamp,
            B2FileVersion::Large(file) => file.upload_timestamp,
            B2FileVersion::Hide(file) => file.upload_timestamp,
        }
    }
}

impl<InfoType> MoreFileInfo<InfoType> {
    /// What a listing tells of the file.
    pub fn into(self) -> (info: FileInfo<InfoType>)
        ensures
            info == (FileInfo {
                file_id: self.file_id,
                file_name: self.file_name,
                content_length: self.content_length,
                content_type: self.content_type,
                content_sha1: self.content_sha1,
                file_info: self.file_info,
                upload_timestamp: self.upload_timestamp,
            }),
    {
        FileInfo {
            file_id: self.file_id,
            file_name: self.file_name,
            content_length: self.content_length,
            content_type: self.content_type,
            content_sha1: self.content_sha1,
            file_info: self.file_info,
            upload_timestamp: self.upload_timestamp,
        }
    }
}

/// The files among the entries, in their order.
pub open spec fn name_files<T>(entries: Seq<NameEntry<T>>) -> Seq<FileInfo<T>>
    decreases entries.len(),
{
    if entries.len() == 0 {
        Seq::empty()
    } else {
        let before = name_files(entries.drop_last());
        match entries.last() {
            NameEntry::Upload(file) => before.push(file),
            _ => before,
        }
    }
}

/// The folders among the entries, in their order.
pub open spec fn name_folders<T>(entries: Seq<NameEntry<T>>) -> Seq<FolderInfo>
    decreases entries.len(),
{
    if entries.len() == 0 {
        Seq::empty()
    } else {
        let before = name_folders(entries.drop_last());
        match entries.last() {
            NameEntry::Folder(folder) => before.push(folder),
            _ => before,
        }
    }
}

/// The files among the entries, in their order.
pub open spec fn version_files<T>(entries: Seq<VersionEntry<T>>) -> Seq<FileInfo<T>>
    decreases entries.len(),
{
    if entries.len() == 0 {
        Seq::empty()
    } else {
        let before = version_files(entries.drop_last());
        match entries.last() {
            VersionEntry::Upload(file) => before.push(file),
            _ => before,
        }
    }
}

/// The unfinished large files among the entries, in their order.
pub open spec fn version_larges<T>(entries: Seq<VersionEntry<T>>) -> Seq<
    UnfinishedLargeFileInfo<T>,
>
    decreases entries.len(),
{
    if entries.len() == 0 {
        Seq::empty()
    } else {
        let before = version_larges(entries.drop_last());
        match entries.last() {
            VersionEntry::Start(large) => before.push(large),
            _ => before,
        }
    }
}

/// The hide markers among the entries, in their order.
pub open spec fn version_hides<T>(entries: Seq<VersionEntry<T>>) -> Seq<HideMarkerInfo>
    decreases entries.len(),
{
    if entries.len() == 0 {
        Seq::empty()
    } else {
        let before = version_hides(entries.drop_last());
        match entries.last() {
            VersionEntry::Hide(hide) => before.push(hide),
            _ => before,
        }
    }
}

/// The folders among the entries, in their order.
pub open spec fn version_folders<T>(entries: Seq<VersionEntry<T>>) -> Seq<FolderInfo>
    decreases entries.len(),
{
    if entries.len() == 0 {
        Seq::empty()
    } else {
        let before = version_folders(entries.drop_last());
        match entries.last() {
            VersionEntry::Folder(folder) => before.push(folder),
            _ => before,
        }
    }
}

impl<InfoType> FileNameListing<InfoType> {
    /// Sorts the entries of a listing of file names by their kind. The order within
    /// each kind is that of the entries.
    pub fn from_entries(entries: Vec<NameEntry<InfoType>>) -> (listing: FileNameListing<InfoType>)
        ensures
            listing.files@ == name_files(entries@),
            listing.folders@ == name_folders(entries@),
    {
        let mut files: Vec<FileInfo<InfoType>> = Vec::new();
        let mut folders: Vec<FolderInfo> = Vec::new();
        let ghost all = entries@;
        for entry in it: entries
            invariant
                it.seq() == all,
                files@ == name_files(all.take(it.index() as int)),
                folders@ == name_folders(all.take(it.index() as int)),
        {
            proof {
                let upto = all.take(it.index() + 1);
                assert(upto.drop_last() =~= all.take(it.index() as int));
                assert(upto.last() == entry);
            }
            match entry {
                NameEntry::Folder(folder) => folders.push(folder),
                NameEntry::Upload(file) => files.push(file),
            }
        }
        proof {
            assert(all.take(all.len() as int) =~= all);
        }
        FileNameListing { files, folders }
    }

    /// Puts the files and folders of the next page behind those at hand.
    pub fn extend(&mut self, more: FileNameListing<InfoType>)
        ensures
            final(self).files@ == old(self).files@ + more.files@,
            final(self).folders@ == old(self).folders@ + more.folders@,
    {
        let mut more = more;
        self.files.append(&mut more.files);
        self.folders.append(&mut more.folders);
    }
}

impl<InfoType> FileVersionListing<InfoType> {
    /// Sorts the entries of a listing of file versions by their kind. The order
    /// within each kind is that of the entries.
    pub fn from_entries(entries: Vec<VersionEntry<InfoType>>) -> (listing: FileVersionListing<
        InfoType,
    >)
        ensures
            listing.files@ == version_files(entries@),
            listing.unfinished_large_files@ == version_larges(entries@),
            listing.hide_markers@ == version_hides(entries@),
            listing.folders@ == version_folders(entries@),
    {
        let mut files: Vec<FileInfo<InfoType>> = Vec::new();
        let mut folders: Vec<FolderInfo> = Vec::new();
        let mut hides: Vec<HideMarkerInfo> = Vec::new();
        let mut larges: Vec<UnfinishedLargeFileInfo<InfoType>> = Vec::new();
        let ghost all = entries@;
        for entry in it: entries
            invariant
                it.seq() == all,
                files@ == version_files(all.take(it.index() as int)),
                larges@ == version_larges(all.take(it.index() as int)),
                hides@ == version_hides(all.take(it.index() as int)),
                folders@ == version_folders(all.take(it.index() as int)),
        {
            proof {
                let upto = all.take(it.index() + 1);
                assert(upto.drop_last() =~= all.take(it.index() as int));
                assert(upto.last() == entry);
            }
            match entry {
                VersionEntry::Folder(folder) => folders.push(folder),
                VersionEntry::Upload(file) => files.push(file),
                VersionEntry::Start(large) => larges.push(large),
                VersionEntry::Hide(hide) => hides.push(hide),
            }
        }
        proof {
            assert(all.take(all.len() as int) =~= all);
        }
        FileVersionListing {
            files,
            hide_markers: hides,
            unfinished_large_files: larges,
            folders,
        }
    }

    /// Puts the entries of the next page behind those at hand.
    pub fn extend(&mut self, more: FileVersionListing<InfoType>)
        ensures
            final(self).files@ == old(self).files@ + more.files@,
            final(self).folders@ == old(self).folders@ + more.folders@,
            final(self).hide_markers@ == old(self).hide_markers@ + more.hide_markers@,
            final(self).unfinished_large_files@ == old(self).unfinished_large_files@
                + more.unfinished_large_files@,
    {
        let mut more = more;
        self.files.append(&mut more.files);
        self.folders.append(&mut more.folders);
        self.hide_markers.append(&mut more.hide_markers);
        self.unfinished_large_files.append(&mut more.unfinished_large_files);
    }
}

/// Whether a listing of file names goes on: it does while the service names a file
/// to go on from.
pub fn names_go_on(next_file_name: &Option<String>) -> (more: bool)
    ensures
        more == next_file_name is Some,
{
    next_file_name.is_some()
}

/// Whether a listing of file versions goes on: it does while the service names a
/// file or a version to go on from.
pub fn versions_go_on(next_file_name: &Option<String>, next_file_id: &Option<String>) -> (more:
    bool)
    ensures
        more == (next_file_name is Some || next_file_id is Some),
{
    next_file_name.is_some() || next_file_id.is_some()
}

/// Sorting a listing loses no entry and invents none: the kinds together hold as
/// many entries as the listing.
pub proof fn lemma_versions_all_sorted<T>(entries: Seq<VersionEntry<T>>)
    ensures
        version_files(entries).len() + version_larges(entries).len() + version_hides(
            entries,
        ).len() + version_folders(entries).len() == entries.len(),
    decreases entries.len(),
{
    if entries.len() > 0 {
        lemma_versions_all_sorted(entries.drop_last());
    }
}

/// Sorting a listing of names loses no entry and invents none.
pub proof fn lemma_names_all_sorted<T>(entries: Seq<NameEntry<T>>)
    ensures
        name_files(entries).len() + name_folders(entries).len() == entries.len(),
    decreases entries.len(),
{
    if entries.len() > 0 {
        lemma_names_all_sorted(entries.drop_last());
    }
}

} // verus!
