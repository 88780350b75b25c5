use duckstore::{DirType, DirectoryOutcome, PathConfig, PersistError, ResolvedPaths, StoreStep};

fn duck_location() -> ResolvedPaths<'static> {
    let cfg = PathConfig { project_prefix: "duckstore", sub_folder: "data", file_name: "data.bin", dir_type: &DirType::Data };
    cfg.resolve_with_base(Some("/home/duck/.local/share".to_string()), "/".to_string()).unwrap()
}

#[test]
fn store_begins_with_the_directory() {
    let loc = duck_location();
    match loc.store_begin() {
        StoreStep::CreateDirectory(dir) => assert_eq!(dir, "/home/duck/.local/share/duckstore/data"),
        other => panic!("unexpected step {:?}", other),
    }
}

#[test]
fn existing_directory_is_no_failure() {
    let loc = duck_location();
    for outcome in [DirectoryOutcome::Created, DirectoryOutcome::AlreadyExists] {
        match loc.after_directory(outcome) {
            StoreStep::WriteFile(path) => assert_eq!(path, "/home/duck/.local/share/duckstore/data/data.bin"),
            other => panic!("unexpected step {:?}", other),
        }
    }
}

#[test]
fn failed_directory_ends_the_store() {
    let loc = duck_location();
    match loc.after_directory(DirectoryOutcome::Failed("Permission denied".to_string())) {
        StoreStep::Finish(Err(PersistError::Io(detail))) => assert_eq!(detail, "Permission denied"),
        other => panic!("unexpected step {:?}", other),
    }
}

#[test]
fn write_outcome_decides_the_store() {
    assert!(matches!(ResolvedPaths::after_write(Ok(())), StoreStep::Finish(Ok(()))));
    match ResolvedPaths::after_write(Err("No space left on device".to_string())) {
        StoreStep::Finish(Err(PersistError::Io(detail))) => assert_eq!(detail, "No space left on device"),
        other => panic!("unexpected step {:?}", other),
    }
}

#[test]
fn read_bytes_come_back_unchanged() {
    let loaded = ResolvedPaths::after_read(Ok(b"Yes".to_vec())).unwrap();
    assert_eq!("Yes", String::from_utf8(loaded).unwrap());
}

#[test]
fn missing_file_is_an_io_failure() {
    match ResolvedPaths::after_read(Err("No such file or directory".to_string())) {
        Err(PersistError::Io(detail)) => assert_eq!(detail, "No such file or directory"),
        Ok(bytes) => panic!("unexpected payload {:?}", bytes),
    }
}

#[test]
fn yes() {
    let cfg = PathConfig { project_prefix: "duckstore", sub_folder: "data", file_name: "data.bin", dir_type: &DirType::Data };
    let resolved = &cfg.resolve_with_base(Some("/home/duck/.local/share".to_string()), "/".to_string()).unwrap();
    let written = match resolved.store_begin() {
        StoreStep::CreateDirectory(dir) => {
            assert_eq!(dir, "/home/duck/.local/share/duckstore/data");
            match resolved.after_directory(DirectoryOutcome::Created) {
                StoreStep::WriteFile(path) => path,
                other => panic!("unexpected step {:?}", other),
            }
        }
        other => panic!("unexpected step {:?}", other),
    };
    assert_eq!(written, resolved.constructed_path);
    assert!(matches!(ResolvedPaths::after_write(Ok(())), StoreStep::Finish(Ok(()))));
    let loaded = ResolvedPaths::after_read(Ok(b"Yes".to_vec())).unwrap();
    println!("{}", resolved.constructed_path);
    assert_eq!("Yes", String::from_utf8(loaded).unwrap())
}
