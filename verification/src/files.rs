//! What the service stores: files, hide markers, unfinished large files, and the
//! folders that their names imply.

use crate::auth::B2Authorization;
use crate::text::same_text;
use vstd::prelude::*;

pub mod download;
pub mod listing;
pub mod upload;

verus! {

/// What an entry of a file listing stands for.
#[derive(Debug, Clone)]
#[non_exhaustive]
pub enum Action {
    /// A file that was uploaded whole.
    Upload,
    /// A large file whose upload was started and not finished.
    Start,
    /// A marker that hides the file of that name.
    Hide,
    /// A folder, which exists only as a part of file names.
    Folder,
    /// A kind that the service added later, under the name it sent.
    Other(String),
}

/// A file or a hide marker.
#[derive(Debug, Clone, Copy, PartialEq, Eq, Structural)]
pub enum FileType {
    File,
    HideMarker,
}

/// A file, a hide marker or a folder.
#[derive(Debug, Clone, Copy, PartialEq, Eq, Structural)]
pub enum FileFolderType {
    File,
    HideMarker,
    Folder,
}

/// What the service tells of a file, a hide marker, an unfinished large file or a
/// folder.
#[derive(Debug, Clone)]
pub struct File {
    pub account_id: String,
    pub action: Action,
    pub bucket_id: String,
    pub content_length: usize,
    pub content_sha1: String,
    pub content_type: String,
    pub file_id: String,
    /// The infos of the file as pairs of a name and a value, in the order of the
    /// names.
    pub file_info: Vec<(String, String)>,
    pub file_name: String,
    pub upload_timestamp: i64,
}

/// The answer of the service when a file was deleted.
#[derive(Debug)]
pub struct DeletedFile {
    pub file_id: String,
    pub file_name: String,
}

/// A folder in a listing.
#[derive(Debug, Clone)]
pub struct FolderInfo {
    pub file_name: String,
}

/// A hide marker in a listing.
#[derive(Debug, Clone)]
pub struct HideMarkerInfo {
    pub file_id: String,
    pub file_name: String,
    pub upload_timestamp: u64,
}

/// The action that the service calls `name`, if it is one of the four that the API
/// names.
pub open spec fn spec_action(name: Seq<char>) -> Option<Action> {
    if name == "upload"@ {
        Some(Action::Upload)
    } else if name == "start"@ {
        Some(Action::Start)
    } else if name == "hide"@ {
        Some(Action::Hide)
    } else if name == "folder"@ {
        Some(Action::Folder)
    } else {
        None
    }
}

/// The file type that the service calls `name`.
pub open spec fn spec_file_type(name: Seq<char>) -> Option<FileType> {
    if name == "upload"@ {
        Some(FileType::File)
    } else if name == "hide"@ {
        Some(FileType::HideMarker)
    } else {
        None
    }
}

/// The file or folder type that the service calls `name`.
pub open spec fn spec_file_folder_type(name: Seq<char>) -> Option<FileFolderType> {
    if name == "upload"@ {
        Some(FileFolderType::File)
    } else if name == "hide"@ {
        Some(FileFolderType::HideMarker)
    } else if name == "folder"@ {
        Some(FileFolderType::Folder)
    } else {
        None
    }
}

impl Action {
    /// The name by which the service calls the action.
    pub open spec fn spec_str(&self) -> Seq<char> {
        match self {
            Action::Upload => "upload"@,
            Action::Start => "start"@,
            Action::Hide => "hide"@,
            Action::Folder => "folder"@,
            Action::Other(s) => s@,
        }
    }

    /// The name by which the service calls the action.
    pub fn as_str(&self) -> (s: &str)
        ensures
            s@ == self.spec_str(),
    {
        match self {
            Action::Upload => "upload",
            Action::Start => "start",
            Action::Hide => "hide",
            Action::Folder => "folder",
            Action::Other(s) => s.as_str(),
        }
    }

    /// The action that the service calls `s`, if it is one of the four that the API
    /// names.
    pub fn from_str(s: &str) -> (a: Option<Action>)
        ensures
            a == spec_action(s@),
    {
        if same_text(s, "upload") {
            Some(Action::Upload)
        } else if same_text(s, "start") {
            Some(Action::Start)
        } else if same_text(s, "hide") {
            Some(Action::Hide)
        } else if same_text(s, "folder") {
            Some(Action::Folder)
        } else {
            None
        }
    }

    /// The action that the service calls `s`. A name that the API does not know is
    /// kept as it is.
    pub fn from(s: String) -> (a: Action)
        ensures
            a == match spec_action(s@) {
                Some(known) => known,
                None => Action::Other(s),
            },
    {
        match Action::from_str(s.as_str()) {
            Some(known) => known,
            None => Action::Other(s),
        }
    }
}

impl File {
    /// Whether this is a file that was uploaded whole.
    pub fn is_ordinary_file(&self) -> (r: bool)
        ensures
            r == self.action is Upload,
    {
        match &self.action {
            Action::Upload => true,
            _ => false,
        }
    }

    /// Whether this is a hide marker.
    pub fn is_hide_marker(&self) -> (r: bool)
        ensures
            r == self.action is Hide,
    {
        match &self.action {
            Action::Hide => true,
            _ => false,
        }
    }

    /// Whether this is a large file whose upload was not finished.
    pub fn is_unfinished_large_file(&self) -> (r: bool)
        ensures
            r == self.action is Start,
    {
        match &self.action {
            Action::Start => true,
            _ => false,
        }
    }

    /// Whether this is a folder.
    pub fn is_folder(&self) -> (r: bool)
        ensures
            r == self.action is Folder,
    {
        match &self.action {
            Action::Folder => true,
            _ => false,
        }
    }
}

impl FileType {
    pub open spec fn spec_str(&self) -> Seq<char> {
        match self {
            FileType::File => "upload"@,
            FileType::HideMarker => "hide"@,
        }
    }

    /// Reads `"upload"` as a file and `"hide"` as a hide marker.
    pub fn from_str(s: &str) -> (t: Option<FileType>)
        ensures
            t == spec_file_type(s@),
    {
        if same_text(s, "upload") {
            Some(FileType::File)
        } else if same_text(s, "hide") {
            Some(FileType::HideMarker)
        } else {
            None
        }
    }

    /// `"upload"` for a file, `"hide"` for a hide marker.
    pub fn as_str(&self) -> (s: &'static str)
        ensures
            s@ == self.spec_str(),
    {
        match self {
            FileType::File => "upload",
            FileType::HideMarker => "hide",
        }
    }

    /// The same as a file or folder type.
    pub fn into(self) -> (t: FileFolderType)
        ensures
            t.spec_into_file_type() == Some(self),
    {
        match self {
            FileType::File => FileFolderType::File,
            FileType::HideMarker => FileFolderType::HideMarker,
        }
    }
}

impl FileFolderType {
    pub open spec fn spec_str(&self) -> Seq<char> {
        match self {
            FileFolderType::File => "upload"@,
            FileFolderType::HideMarker => "hide"@,
            FileFolderType::Folder => "folder"@,
        }
    }

    /// The file type, of what is not a folder.
    pub open spec fn spec_into_file_type(self) -> Option<FileType> {
        match self {
            FileFolderType::File => Some(FileType::File),
            FileFolderType::HideMarker => Some(FileType::HideMarker),
            FileFolderType::Folder => None,
        }
    }

    /// Reads `"upload"`, `"hide"` and `"folder"`.
    pub fn from_str(s: &str) -> (t: Option<FileFolderType>)
        ensures
            t == spec_file_folder_type(s@),
    {
        if same_text(s, "upload") {
            Some(FileFolderType::File)
        } else if same_text(s, "hide") {
            Some(FileFolderType::HideMarker)
        } else if same_text(s, "folder") {
            Some(FileFolderType::Folder)
        } else {
            None
        }
    }

    /// `"upload"`, `"hide"` or `"folder"`.
    pub fn as_str(&self) -> (s: &'static str)
        ensures
            s@ == self.spec_str(),
    {
        match self {
            FileFolderType::File => "upload",
            FileFolderType::HideMarker => "hide",
            FileFolderType::Folder => "folder",
        }
    }

    /// The file type, of what is not a folder.
    pub fn into_file_type(self) -> (t: Option<FileType>)
        ensures
            t == self.spec_into_file_type(),
    {
        match self {
            FileFolderType::File => Some(FileType::File),
            FileFolderType::HideMarker => Some(FileType::HideMarker),
            FileFolderType::Folder => None,
        }
    }
}

/// The call that asks for what the service knows of a file.
#[derive(Debug, Clone)]
pub struct GetFileInfo<'a> {
    /// The authorization that the call is made with.
    pub auth: &'a B2Authorization,
    pub file_id: &'a str,
}

impl<'a> GetFileInfo<'a> {
    /// A call that asks for the file with this id.
    pub fn new(auth: &'a B2Authorization, file_id: &'a str) -> (call: Self)
        ensures
            call == (GetFileInfo { auth, file_id }),
    {
        GetFileInfo { auth, file_id }
    }

}

/// The call that lists the names of the files of a bucket.
#[derive(Debug, Clone)]
pub struct ListFileNames<'a> {
    /// The authorization that the call is made with.
    pub auth: &'a B2Authorization,
    pub bucket_id: &'a str,
    /// How many names to list at most.
    pub max_file_count: Option<usize>,
    /// The name to begin with.
    pub start_file_name: Option<&'a str>,
    /// The prefix of the names to list.
    pub prefix: Option<&'a str>,
    /// What parts the folders in a name.
    pub delimiter: Option<&'a str>,
}

impl<'a> ListFileNames<'a> {
    /// A call that lists the names from the first on.
    pub fn new(auth: &'a B2Authorization, bucket_id: &'a str) -> (call: Self)
        ensures
            call == (ListFileNames { auth, bucket_id, max_file_count: None, start_file_name: None, prefix: None, delimiter: None }),
    {
        ListFileNames { auth, bucket_id, max_file_count: None, start_file_name: None, prefix: None, delimiter: None }
    }

    /// Lists so many names at most.
    pub fn max_file_count(self, max_file_count: usize) -> (call: Self)
        ensures
            call == (ListFileNames { max_file_count: Some(max_file_count), ..self }),
    {
        ListFileNames { max_file_count: Some(max_file_count), ..self }
    }

    /// Begins with this name.
    pub fn start_file_name(self, start_file_name: &'a str) -> (call: Self)
        ensures
            call == (ListFileNames { start_file_name: Some(start_file_name), ..self }),
    {
        ListFileNames { start_file_name: Some(start_file_name), ..self }
    }

    /// Lists only the names that begin so.
    pub fn prefix(self, prefix: &'a str) -> (call: Self)
        ensures
            call == (ListFileNames { prefix: Some(prefix), ..self }),
    {
        ListFileNames { prefix: Some(prefix), ..self }
    }

    /// Lists a folder in place of the names that lie in it.
    pub fn delimiter(self, delimiter: &'a str) -> (call: Self)
        ensures
            call == (ListFileNames { delimiter: Some(delimiter), ..self }),
    {
        ListFileNames { delimiter: Some(delimiter), ..self }
    }

}

/// The names of the kinds differ from each other, so each name leads back to its
/// kind.
pub proof fn lemma_kind_names_round_trip(a: Action, t: FileType, f: FileFolderType)
    requires
        !(a is Other),
    ensures
        spec_action(a.spec_str()) == Some(a),
        spec_file_type(t.spec_str()) == Some(t),
        spec_file_folder_type(f.spec_str()) == Some(f),
{
    reveal_strlit("upload");
    reveal_strlit("start");
    reveal_strlit("hide");
    reveal_strlit("folder");
    assert("upload"@.len() == 6 && "upload"@[0] == 'u');
    assert("start"@.len() == 5);
    assert("hide"@.len() == 4);
    assert("folder"@.len() == 6 && "folder"@[0] == 'f');
}

} // verus!
