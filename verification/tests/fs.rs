use tauri_wasm::plugin::fs;
use tauri_wasm::plugin::fs::BaseDirectory;
use tauri_wasm::plugin::fs::FileEntry;
use tauri_wasm::plugin::fs::FsDirOptions;
use tauri_wasm::plugin::fs::FsOptions;
use tauri_wasm::plugin::fs::FsRequest;
use tauri_wasm::Error;

#[test]
fn base_directory_codes() {
    assert_eq!(BaseDirectory::Audio.code(), 1);
    assert_eq!(BaseDirectory::Download.code(), 8);
    assert_eq!(BaseDirectory::Temp.code(), 20);
    assert_eq!(BaseDirectory::AppLog.code(), 25);
}

#[test]
fn base_directory_from_code() {
    assert_eq!(BaseDirectory::from_code(8), Some(BaseDirectory::Download));
    assert_eq!(BaseDirectory::from_code(0), None);
    assert_eq!(BaseDirectory::from_code(26), None);
    assert_eq!(BaseDirectory::from_code(u16::MAX), None);
}

#[test]
fn base_directory_code_round_trip() {
    let all = [
        BaseDirectory::Audio,
        BaseDirectory::Cache,
        BaseDirectory::Config,
        BaseDirectory::Data,
        BaseDirectory::LocalData,
        BaseDirectory::Desktop,
        BaseDirectory::Document,
        BaseDirectory::Download,
        BaseDirectory::Executable,
        BaseDirectory::Font,
        BaseDirectory::Home,
        BaseDirectory::Picture,
        BaseDirectory::Public,
        BaseDirectory::Runtime,
        BaseDirectory::Template,
        BaseDirectory::Video,
        BaseDirectory::Resource,
        BaseDirectory::App,
        BaseDirectory::Log,
        BaseDirectory::Temp,
        BaseDirectory::AppConfig,
        BaseDirectory::AppData,
        BaseDirectory::AppLocalData,
        BaseDirectory::AppCache,
        BaseDirectory::AppLog,
    ];
    for d in all {
        assert_eq!(BaseDirectory::from_code(d.code()), Some(d));
    }
}

#[test]
fn copy_file_builds_request() {
    let r = fs::copy_file(b"a.txt", b"b.txt", BaseDirectory::Download).unwrap();
    assert_eq!(
        r,
        FsRequest::CopyFile {
            source: b"a.txt".to_vec(),
            destination: b"b.txt".to_vec(),
            options: FsOptions { dir: Some(BaseDirectory::Download) },
        }
    );
}

#[test]
fn copy_file_rejects_bad_source_first() {
    let r = fs::copy_file(b"\xff", b"\xfe", BaseDirectory::Download);
    assert_eq!(r, Err(Error::Utf8(vec![0xff])));
}

#[test]
fn copy_file_rejects_bad_destination() {
    let r = fs::copy_file(b"ok.txt", b"\xfe", BaseDirectory::Download);
    assert_eq!(r, Err(Error::Utf8(vec![0xfe])));
}

#[test]
fn create_dir_is_not_recursive() {
    let r = fs::create_dir(b"d", BaseDirectory::Home).unwrap();
    assert_eq!(
        r,
        FsRequest::CreateDir {
            dir: b"d".to_vec(),
            options: FsDirOptions { dir: Some(BaseDirectory::Home), recursive: Some(false) },
        }
    );
}

#[test]
fn create_dir_all_is_recursive() {
    let r = fs::create_dir_all(b"d/e", BaseDirectory::Home).unwrap();
    assert_eq!(
        r,
        FsRequest::CreateDir {
            dir: b"d/e".to_vec(),
            options: FsDirOptions { dir: Some(BaseDirectory::Home), recursive: Some(true) },
        }
    );
}

#[test]
fn path_exists_builds_request() {
    let r = fs::path_exists(b"x", BaseDirectory::Cache).unwrap();
    assert_eq!(
        r,
        FsRequest::Exists {
            path: b"x".to_vec(),
            options: FsOptions { dir: Some(BaseDirectory::Cache) },
        }
    );
}

#[test]
fn read_dir_variants_differ_in_recursion() {
    let flat = fs::read_dir(b"p", BaseDirectory::Data).unwrap();
    let deep = fs::read_dir_all(b"p", BaseDirectory::Data).unwrap();
    assert_eq!(
        flat,
        FsRequest::ReadDir {
            path: b"p".to_vec(),
            options: FsDirOptions { dir: Some(BaseDirectory::Data), recursive: Some(false) },
        }
    );
    assert_eq!(
        deep,
        FsRequest::ReadDir {
            path: b"p".to_vec(),
            options: FsDirOptions { dir: Some(BaseDirectory::Data), recursive: Some(true) },
        }
    );
}

#[test]
fn remove_dir_variants_differ_in_recursion() {
    let flat = fs::remove_dir(b"p", BaseDirectory::Data).unwrap();
    let deep = fs::remove_dir_all(b"p", BaseDirectory::Data).unwrap();
    assert_eq!(
        flat,
        FsRequest::RemoveDir {
            dir: b"p".to_vec(),
            options: FsDirOptions { dir: Some(BaseDirectory::Data), recursive: Some(false) },
        }
    );
    assert_eq!(
        deep,
        FsRequest::RemoveDir {
            dir: b"p".to_vec(),
            options: FsDirOptions { dir: Some(BaseDirectory::Data), recursive: Some(true) },
        }
    );
}

#[test]
fn remove_file_builds_request() {
    let r = fs::remove_file(b"junk", BaseDirectory::Temp).unwrap();
    assert_eq!(
        r,
        FsRequest::RemoveFile {
            file: b"junk".to_vec(),
            options: FsOptions { dir: Some(BaseDirectory::Temp) },
        }
    );
}

#[test]
fn rename_file_checks_old_path_first() {
    let r = fs::rename_file(b"\xc0\xaf", b"\x80", BaseDirectory::Document);
    assert_eq!(r, Err(Error::Utf8(vec![0xc0, 0xaf])));
}

#[test]
fn rename_file_builds_request() {
    let r = fs::rename_file(b"old", b"new", BaseDirectory::Document).unwrap();
    assert_eq!(
        r,
        FsRequest::RenameFile {
            old_path: b"old".to_vec(),
            new_path: b"new".to_vec(),
            options: FsOptions { dir: Some(BaseDirectory::Document) },
        }
    );
}

#[test]
fn read_and_write_file_requests() {
    let rb = fs::read_binary_file(b"f.bin", BaseDirectory::Download).unwrap();
    let rt = fs::read_text_file(b"f.txt", BaseDirectory::Download).unwrap();
    let wb = fs::write_binary_file(b"f.bin", BaseDirectory::Download).unwrap();
    let wt = fs::write_text_file(b"f.txt", "hello", BaseDirectory::Download).unwrap();
    assert_eq!(
        rb,
        FsRequest::ReadBinaryFile {
            path: b"f.bin".to_vec(),
            options: FsOptions { dir: Some(BaseDirectory::Download) },
        }
    );
    assert_eq!(
        rt,
        FsRequest::ReadTextFile {
            path: b"f.txt".to_vec(),
            options: FsOptions { dir: Some(BaseDirectory::Download) },
        }
    );
    assert_eq!(
        wb,
        FsRequest::WriteBinaryFile {
            path: b"f.bin".to_vec(),
            options: FsOptions { dir: Some(BaseDirectory::Download) },
        }
    );
    assert_eq!(
        wt,
        FsRequest::WriteTextFile {
            path: b"f.txt".to_vec(),
            contents: String::from("hello"),
            options: FsOptions { dir: Some(BaseDirectory::Download) },
        }
    );
}

#[test]
fn write_text_file_rejects_bad_path() {
    let r = fs::write_text_file(b"\xed\xa0\x80", "text", BaseDirectory::Download);
    assert_eq!(r, Err(Error::Utf8(vec![0xed, 0xa0, 0x80])));
}

#[test]
fn file_entry_holds_tree() {
    let child = FileEntry { path: String::from("dir/a"), name: Some(String::from("a")), children: None };
    let root = FileEntry {
        path: String::from("dir"),
        name: None,
        children: Some(vec![child]),
    };
    assert_eq!(root.children.as_ref().unwrap().len(), 1);
    assert_eq!(root.children.as_ref().unwrap()[0].path, "dir/a");
}
