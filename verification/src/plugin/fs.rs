//! The file-system plugin's data model: well-known base directories, the
//! directory-entry tree a listing deserializes into, and the request each
//! call marshals for the host.
//!
//! A host call takes a path and an option record. Paths arrive as raw bytes;
//! a call is prepared by checking that every path is valid UTF-8 and packing
//! it with its options into an [`FsRequest`], the value the host function is
//! then invoked with. A path that fails the check is handed back unchanged in
//! [`Error::Utf8`](crate::Error::Utf8) and nothing is invoked.

use crate::text::is_valid_utf8;
use crate::Error;
use vstd::prelude::*;
use vstd::slice::slice_to_vec;
use vstd::string::StringExecFns;
use vstd::utf8::valid_utf8;

verus! {

/// A well-known directory root recognized by the host's file-system plugin.
///
/// On the wire each variant is a small integer code; [`BaseDirectory::code`]
/// gives the code and [`BaseDirectory::from_code`] reads one back.
#[derive(Debug, Clone, Copy, PartialEq, Eq, Structural)]
pub enum BaseDirectory {
    Audio,
    Cache,
    Config,
    Data,
    LocalData,
    Desktop,
    Document,
    Download,
    Executable,
    Font,
    Home,
    Picture,
    Public,
    Runtime,
    Template,
    Video,
    Resource,
    App,
    Log,
    Temp,
    AppConfig,
    AppData,
    AppLocalData,
    AppCache,
    AppLog,
}

impl BaseDirectory {
    /// The integer code that stands for this directory on the wire.
    pub open spec fn spec_code(self) -> u16 {
        match self {
            BaseDirectory::Audio => 1,
            BaseDirectory::Cache => 2,
            BaseDirectory::Config => 3,
            BaseDirectory::Data => 4,
            BaseDirectory::LocalData => 5,
            BaseDirectory::Desktop => 6,
            BaseDirectory::Document => 7,
            BaseDirectory::Download => 8,
            BaseDirectory::Executable => 9,
            BaseDirectory::Font => 10,
            BaseDirectory::Home => 11,
            BaseDirectory::Picture => 12,
            BaseDirectory::Public => 13,
            BaseDirectory::Runtime => 14,
            BaseDirectory::Template => 15,
            BaseDirectory::Video => 16,
            BaseDirectory::Resource => 17,
            BaseDirectory::App => 18,
            BaseDirectory::Log => 19,
            BaseDirectory::Temp => 20,
            BaseDirectory::AppConfig => 21,
            BaseDirectory::AppData => 22,
            BaseDirectory::AppLocalData => 23,
            BaseDirectory::AppCache => 24,
            BaseDirectory::AppLog => 25,
        }
    }

    /// The directory that a wire code stands for, if any.
    pub open spec fn spec_from_code(code: u16) -> Option<BaseDirectory> {
        match code {
            1u16 => Some(BaseDirectory::Audio),
            2u16 => Some(BaseDirectory::Cache),
            3u16 => Some(BaseDirectory::Config),
            4u16 => Some(BaseDirectory::Data),
            5u16 => Some(BaseDirectory::LocalData),
            6u16 => Some(BaseDirectory::Desktop),
            7u16 => Some(BaseDirectory::Document),
            8u16 => Some(BaseDirectory::Download),
            9u16 => Some(BaseDirectory::Executable),
            10u16 => Some(BaseDirectory::Font),
            11u16 => Some(BaseDirectory::Home),
            12u16 => Some(BaseDirectory::Picture),
            13u16 => Some(BaseDirectory::Public),
            14u16 => Some(BaseDirectory::Runtime),
            15u16 => Some(BaseDirectory::Template),
            16u16 => Some(BaseDirectory::Video),
            17u16 => Some(BaseDirectory::Resource),
            18u16 => Some(BaseDirectory::App),
            19u16 => Some(BaseDirectory::Log),
            20u16 => Some(BaseDirectory::Temp),
            21u16 => Some(BaseDirectory::AppConfig),
            22u16 => Some(BaseDirectory::AppData),
            23u16 => Some(BaseDirectory::AppLocalData),
            24u16 => Some(BaseDirectory::AppCache),
            25u16 => Some(BaseDirectory::AppLog),
            _ => None,
        }
    }

    /// The integer code that stands for this directory on the wire.
    pub fn code(&self) -> (c: u16)
        ensures
            c == self.spec_code(),
    {
        match self {
            BaseDirectory::Audio => 1,
            BaseDirectory::Cache => 2,
            BaseDirectory::Config => 3,
            BaseDirectory::Data => 4,
            BaseDirectory::LocalData => 5,
            BaseDirectory::Desktop => 6,
            BaseDirectory::Document => 7,
            BaseDirectory::Download => 8,
            BaseDirectory::Executable => 9,
            BaseDirectory::Font => 10,
            BaseDirectory::Home => 11,
            BaseDirectory::Picture => 12,
            BaseDirectory::Public => 13,
            BaseDirectory::Runtime => 14,
            BaseDirectory::Template => 15,
            BaseDirectory::Video => 16,
            BaseDirectory::Resource => 17,
            BaseDirectory::App => 18,
            BaseDirectory::Log => 19,
            BaseDirectory::Temp => 20,
            BaseDirectory::AppConfig => 21,
            BaseDirectory::AppData => 22,
            BaseDirectory::AppLocalData => 23,
            BaseDirectory::AppCache => 24,
            BaseDirectory::AppLog => 25,
        }
    }

    /// Read a wire code back into a directory; codes outside 1..=25 mean nothing.
    pub fn from_code(code: u16) -> (r: Option<BaseDirectory>)
        ensures
            r == Self::spec_from_code(code),
            r is Some <==> 1 <= code <= 25,
    {
        match code {
            1u16 => Some(BaseDirectory::Audio),
            2u16 => Some(BaseDirectory::Cache),
            3u16 => Some(BaseDirectory::Config),
            4u16 => Some(BaseDirectory::Data),
            5u16 => Some(BaseDirectory::LocalData),
            6u16 => Some(BaseDirectory::Desktop),
            7u16 => Some(BaseDirectory::Document),
            8u16 => Some(BaseDirectory::Download),
            9u16 => Some(BaseDirectory::Executable),
            10u16 => Some(BaseDirectory::Font),
            11u16 => Some(BaseDirectory::Home),
            12u16 => Some(BaseDirectory::Picture),
            13u16 => Some(BaseDirectory::Public),
            14u16 => Some(BaseDirectory::Runtime),
            15u16 => Some(BaseDirectory::Template),
            16u16 => Some(BaseDirectory::Video),
            17u16 => Some(BaseDirectory::Resource),
            18u16 => Some(BaseDirectory::App),
            19u16 => Some(BaseDirectory::Log),
            20u16 => Some(BaseDirectory::Temp),
            21u16 => Some(BaseDirectory::AppConfig),
            22u16 => Some(BaseDirectory::AppData),
            23u16 => Some(BaseDirectory::AppLocalData),
            24u16 => Some(BaseDirectory::AppCache),
            25u16 => Some(BaseDirectory::AppLog),
            _ => None,
        }
    }
}

/// Reading a directory's own wire code back always finds that directory: the
/// wire codes are distinct and cover exactly the range 1..=25.
pub proof fn lemma_base_directory_code_round_trip(d: BaseDirectory)
    ensures
        BaseDirectory::spec_from_code(d.spec_code()) == Some(d),
        1 <= d.spec_code() <= 25,
{
}

/// A directory listing entry handed back by the host: a path, an optional
/// display name, and, for directories read recursively, child entries.
#[derive(Debug, PartialEq)]
pub struct FileEntry {
    pub path: String,
    pub name: Option<String>,
    pub children: Option<Vec<FileEntry>>,
}

/// The option record marshalled for host calls that take a base directory.
#[derive(Debug, Clone, PartialEq, Eq, Structural)]
pub struct FsOptions {
    pub dir: Option<BaseDirectory>,
}

/// The option record marshalled for host calls on directories, which also
/// carry whether the operation applies recursively.
#[derive(Debug, Clone, PartialEq, Eq, Structural)]
pub struct FsDirOptions {
    pub dir: Option<BaseDirectory>,
    pub recursive: Option<bool>,
}

/// A fully prepared host call of the file-system plugin: which host function
/// to invoke, with which UTF-8-checked paths and which options. The payload
/// of a binary write travels beside the request, in the host's own buffer
/// representation.
#[derive(Debug, PartialEq)]
pub enum FsRequest {
    CopyFile { source: Vec<u8>, destination: Vec<u8>, options: FsOptions },
    CreateDir { dir: Vec<u8>, options: FsDirOptions },
    Exists { path: Vec<u8>, options: FsOptions },
    ReadBinaryFile { path: Vec<u8>, options: FsOptions },
    ReadTextFile { path: Vec<u8>, options: FsOptions },
    ReadDir { path: Vec<u8>, options: FsDirOptions },
    RemoveDir { dir: Vec<u8>, options: FsDirOptions },
    RemoveFile { file: Vec<u8>, options: FsOptions },
    RenameFile { old_path: Vec<u8>, new_path: Vec<u8>, options: FsOptions },
    WriteBinaryFile { path: Vec<u8>, options: FsOptions },
    WriteTextFile { path: Vec<u8>, contents: String, options: FsOptions },
}

/// Take a path for a host call, rejecting bytes that are not valid UTF-8.
fn path_checked(p: &[u8]) -> (r: Result<Vec<u8>, Error>)
    ensures
        valid_utf8(p@) ==> (r matches Ok(v) && v@ == p@),
        !valid_utf8(p@) ==> (r matches Err(e) && e matches Error::Utf8(v) && v@ == p@),
{
    if is_valid_utf8(p) {
        Ok(slice_to_vec(p))
    } else {
        Err(Error::Utf8(slice_to_vec(p)))
    }
}

/// Prepare the host call that copies `source` to `destination`. Both paths
/// must be valid UTF-8; the source is checked first.
pub fn copy_file(source: &[u8], destination: &[u8], dir: BaseDirectory) -> (r: Result<
    FsRequest,
    Error,
>)
    ensures
        r is Ok <==> valid_utf8(source@) && valid_utf8(destination@),
        r matches Ok(q) ==> (q matches FsRequest::CopyFile { source: s, destination: d, options: o }
            && s@ == source@ && d@ == destination@ && o == (FsOptions { dir: Some(dir) })),
        !valid_utf8(source@) ==> (r matches Err(e) && e matches Error::Utf8(p) && p@ == source@),
        valid_utf8(source@) && !valid_utf8(destination@) ==> (r matches Err(e) && e matches Error::Utf8(p)
            && p@ == destination@),
{
    let source = match path_checked(source) {
        Ok(v) => v,
        Err(e) => {
            return Err(e);
        },
    };
    let destination = match path_checked(destination) {
        Ok(v) => v,
        Err(e) => {
            return Err(e);
        },
    };
    Ok(FsRequest::CopyFile { source, destination, options: FsOptions { dir: Some(dir) } })
}

/// Prepare the host call that creates the directory `dir`, without parents.
pub fn create_dir(dir: &[u8], base_dir: BaseDirectory) -> (r: Result<FsRequest, Error>)
    ensures
        r is Ok <==> valid_utf8(dir@),
        r matches Ok(q) ==> (q matches FsRequest::CreateDir { dir: d, options: o } && d@ == dir@
            && o == (FsDirOptions { dir: Some(base_dir), recursive: Some(false) })),
        !valid_utf8(dir@) ==> (r matches Err(e) && e matches Error::Utf8(p) && p@ == dir@),
{
    let dir_path = match path_checked(dir) {
        Ok(v) => v,
        Err(e) => {
            return Err(e);
        },
    };
    Ok(
        FsRequest::CreateDir {
            dir: dir_path,
            options: FsDirOptions { dir: Some(base_dir), recursive: Some(false) },
        },
    )
}

/// Prepare the host call that creates the directory `dir` and any missing
/// parents.
pub fn create_dir_all(dir: &[u8], base_dir: BaseDirectory) -> (r: Result<FsRequest, Error>)
    ensures
        r is Ok <==> valid_utf8(dir@),
        r matches Ok(q) ==> (q matches FsRequest::CreateDir { dir: d, options: o } && d@ == dir@
            && o == (FsDirOptions { dir: Some(base_dir), recursive: Some(true) })),
        !valid_utf8(dir@) ==> (r matches Err(e) && e matches Error::Utf8(p) && p@ == dir@),
{
    let dir_path = match path_checked(dir) {
        Ok(v) => v,
        Err(e) => {
            return Err(e);
        },
    };
    Ok(
        FsRequest::CreateDir {
            dir: dir_path,
            options: FsDirOptions { dir: Some(base_dir), recursive: Some(true) },
        },
    )
}

/// Prepare the host call that asks whether `path` exists.
pub fn path_exists(path: &[u8], dir: BaseDirectory) -> (r: Result<FsRequest, Error>)
    ensures
        r is Ok <==> valid_utf8(path@),
        r matches Ok(q) ==> (q matches FsRequest::Exists { path: p, options: o } && p@ == path@
            && o == (FsOptions { dir: Some(dir) })),
        !valid_utf8(path@) ==> (r matches Err(e) && e matches Error::Utf8(p) && p@ == path@),
{
    let checked = match path_checked(path) {
        Ok(v) => v,
        Err(e) => {
            return Err(e);
        },
    };
    Ok(FsRequest::Exists { path: checked, options: FsOptions { dir: Some(dir) } })
}

/// Prepare the host call that reads `path` as a byte array.
pub fn read_binary_file(path: &[u8], dir: BaseDirectory) -> (r: Result<FsRequest, Error>)
    ensures
        r is Ok <==> valid_utf8(path@),
        r matches Ok(q) ==> (q matches FsRequest::ReadBinaryFile { path: p, options: o } && p@
            == path@ && o == (FsOptions { dir: Some(dir) })),
        !valid_utf8(path@) ==> (r matches Err(e) && e matches Error::Utf8(p) && p@ == path@),
{
    let checked = match path_checked(path) {
        Ok(v) => v,
        Err(e) => {
            return Err(e);
        },
    };
    Ok(FsRequest::ReadBinaryFile { path: checked, options: FsOptions { dir: Some(dir) } })
}

/// Prepare the host call that lists the directory `path`, without recursing.
pub fn read_dir(path: &[u8], dir: BaseDirectory) -> (r: Result<FsRequest, Error>)
    ensures
        r is Ok <==> valid_utf8(path@),
        r matches Ok(q) ==> (q matches FsRequest::ReadDir { path: p, options: o } && p@ == path@
            && o == (FsDirOptions { dir: Some(dir), recursive: Some(false) })),
        !valid_utf8(path@) ==> (r matches Err(e) && e matches Error::Utf8(p) && p@ == path@),
{
    let checked = match path_checked(path) {
        Ok(v) => v,
        Err(e) => {
            return Err(e);
        },
    };
    Ok(
        FsRequest::ReadDir {
            path: checked,
            options: FsDirOptions { dir: Some(dir), recursive: Some(false) },
        },
    )
}

/// Prepare the host call that lists the directory `path` recursively.
pub fn read_dir_all(path: &[u8], dir: BaseDirectory) -> (r: Result<FsRequest, Error>)
    ensures
        r is Ok <==> valid_utf8(path@),
        r matches Ok(q) ==> (q matches FsRequest::ReadDir { path: p, options: o } && p@ == path@
            && o == (FsDirOptions { dir: Some(dir), recursive: Some(true) })),
        !valid_utf8(path@) ==> (r matches Err(e) && e matches Error::Utf8(p) && p@ == path@),
{
    let checked = match path_checked(path) {
        Ok(v) => v,
        Err(e) => {
            return Err(e);
        },
    };
    Ok(
        FsRequest::ReadDir {
            path: checked,
            options: FsDirOptions { dir: Some(dir), recursive: Some(true) },
        },
    )
}

/// Prepare the host call that reads `path` as UTF-8 text.
pub fn read_text_file(path: &[u8], dir: BaseDirectory) -> (r: Result<FsRequest, Error>)
    ensures
        r is Ok <==> valid_utf8(path@),
        r matches Ok(q) ==> (q matches FsRequest::ReadTextFile { path: p, options: o } && p@
            == path@ && o == (FsOptions { dir: Some(dir) })),
        !valid_utf8(path@) ==> (r matches Err(e) && e matches Error::Utf8(p) && p@ == path@),
{
    let checked = match path_checked(path) {
        Ok(v) => v,
        Err(e) => {
            return Err(e);
        },
    };
    Ok(FsRequest::ReadTextFile { path: checked, options: FsOptions { dir: Some(dir) } })
}

/// Prepare the host call that removes the directory `dir`, which must be
/// empty.
pub fn remove_dir(dir: &[u8], base_dir: BaseDirectory) -> (r: Result<FsRequest, Error>)
    ensures
        r is Ok <==> valid_utf8(dir@),
        r matches Ok(q) ==> (q matches FsRequest::RemoveDir { dir: d, options: o } && d@ == dir@
            && o == (FsDirOptions { dir: Some(base_dir), recursive: Some(false) })),
        !valid_utf8(dir@) ==> (r matches Err(e) && e matches Error::Utf8(p) && p@ == dir@),
{
    let dir_path = match path_checked(dir) {
        Ok(v) => v,
        Err(e) => {
            return Err(e);
        },
    };
    Ok(
        FsRequest::RemoveDir {
            dir: dir_path,
            options: FsDirOptions { dir: Some(base_dir), recursive: Some(false) },
        },
    )
}

/// Prepare the host call that removes the directory `dir` and its contents.
pub fn remove_dir_all(dir: &[u8], base_dir: BaseDirectory) -> (r: Result<FsRequest, Error>)
    ensures
        r is Ok <==> valid_utf8(dir@),
        r matches Ok(q) ==> (q matches FsRequest::RemoveDir { dir: d, options: o } && d@ == dir@
            && o == (FsDirOptions { dir: Some(base_dir), recursive: Some(true) })),
        !valid_utf8(dir@) ==> (r matches Err(e) && e matches Error::Utf8(p) && p@ == dir@),
{
    let dir_path = match path_checked(dir) {
        Ok(v) => v,
        Err(e) => {
            return Err(e);
        },
    };
    Ok(
        FsRequest::RemoveDir {
            dir: dir_path,
            options: FsDirOptions { dir: Some(base_dir), recursive: Some(true) },
        },
    )
}

/// Prepare the host call that removes the file `file`.
pub fn remove_file(file: &[u8], dir: BaseDirectory) -> (r: Result<FsRequest, Error>)
    ensures
        r is Ok <==> valid_utf8(file@),
        r matches Ok(q) ==> (q matches FsRequest::RemoveFile { file: f, options: o } && f@ == file@
            && o == (FsOptions { dir: Some(dir) })),
        !valid_utf8(file@) ==> (r matches Err(e) && e matches Error::Utf8(p) && p@ == file@),
{
    let checked = match path_checked(file) {
        Ok(v) => v,
        Err(e) => {
            return Err(e);
        },
    };
    Ok(FsRequest::RemoveFile { file: checked, options: FsOptions { dir: Some(dir) } })
}

/// Prepare the host call that renames `old_path` to `new_path`. Both paths
/// must be valid UTF-8; the old path is checked first.
pub fn rename_file(old_path: &[u8], new_path: &[u8], dir: BaseDirectory) -> (r: Result<
    FsRequest,
    Error,
>)
    ensures
        r is Ok <==> valid_utf8(old_path@) && valid_utf8(new_path@),
        r matches Ok(q) ==> (q matches FsRequest::RenameFile { old_path: a, new_path: b, options: o }
            && a@ == old_path@ && b@ == new_path@ && o == (FsOptions { dir: Some(dir) })),
        !valid_utf8(old_path@) ==> (r matches Err(e) && e matches Error::Utf8(p) && p@
            == old_path@),
        valid_utf8(old_path@) && !valid_utf8(new_path@) ==> (r matches Err(e) && e matches Error::Utf8(p)
            && p@ == new_path@),
{
    let old_checked = match path_checked(old_path) {
        Ok(v) => v,
        Err(e) => {
            return Err(e);
        },
    };
    let new_checked = match path_checked(new_path) {
        Ok(v) => v,
        Err(e) => {
            return Err(e);
        },
    };
    Ok(
        FsRequest::RenameFile {
            old_path: old_checked,
            new_path: new_checked,
            options: FsOptions { dir: Some(dir) },
        },
    )
}

/// Prepare the host call that writes a byte buffer to `path`. The buffer
/// itself travels beside the request in the host's own representation.
pub fn write_binary_file(path: &[u8], dir: BaseDirectory) -> (r: Result<FsRequest, Error>)
    ensures
        r is Ok <==> valid_utf8(path@),
        r matches Ok(q) ==> (q matches FsRequest::WriteBinaryFile { path: p, options: o } && p@
            == path@ && o == (FsOptions { dir: Some(dir) })),
        !valid_utf8(path@) ==> (r matches Err(e) && e matches Error::Utf8(p) && p@ == path@),
{
    let checked = match path_checked(path) {
        Ok(v) => v,
        Err(e) => {
            return Err(e);
        },
    };
    Ok(FsRequest::WriteBinaryFile { path: checked, options: FsOptions { dir: Some(dir) } })
}

/// Prepare the host call that writes UTF-8 text to `path`.
pub fn write_text_file(path: &[u8], contents: &str, dir: BaseDirectory) -> (r: Result<
    FsRequest,
    Error,
>)
    ensures
        r is Ok <==> valid_utf8(path@),
        r matches Ok(q) ==> (q matches FsRequest::WriteTextFile { path: p, contents: c, options: o }
            && p@ == path@ && c@ == contents@ && o == (FsOptions { dir: Some(dir) })),
        !valid_utf8(path@) ==> (r matches Err(e) && e matches Error::Utf8(p) && p@ == path@),
{
    let checked = match path_checked(path) {
        Ok(v) => v,
        Err(e) => {
            return Err(e);
        },
    };
    Ok(
        FsRequest::WriteTextFile {
            path: checked,
            contents: String::from_str(contents),
            options: FsOptions { dir: Some(dir) },
        },
    )
}

} // verus!
