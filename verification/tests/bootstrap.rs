use nsynk_cfg::{Cfg, EntryKind, Error, Init};
use std::path::Path;

/// Drives one initialization session against the real filesystem, probing
/// and creating as the session commands.
fn drive(cfg: &Cfg) -> Result<(), Error> {
    let mut session: Init = cfg.initialize();
    while session.pending() {
        if session.must_create() {
            let path = session.current_path().clone();
            let made = match session.current_kind() {
                EntryKind::Directory => fs_err::create_dir(&path).map_err(|e| e.to_string()),
                EntryKind::EmptyFile => {
                    fs_err::File::create(&path).map(|_| ()).map_err(|e| e.to_string())
                }
            };
            session.created(made)?;
        } else {
            let present = Path::new(session.current_path()).exists();
            session.observed(present);
        }
    }
    Ok(())
}

fn fresh_dir(path: &str) {
    let _ = fs_err::remove_dir_all(path);
    fs_err::create_dir_all(path).unwrap();
}

fn is_empty_file(path: &str) -> bool {
    match fs_err::metadata(path) {
        Ok(m) => m.is_file() && m.len() == 0,
        Err(_) => false,
    }
}

fn handle(data_base: &str, config_base: &str) -> Cfg {
    Cfg::from_base_dirs(Some(data_base.to_string()), Some(config_base.to_string())).unwrap()
}

#[test]
fn new_init_dirs() {
    // The host precondition: the standard base directories themselves exist.
    if let Some(base) = dirs::data_dir() {
        fs_err::create_dir_all(&base).unwrap();
    }
    if let Some(base) = dirs::config_dir() {
        fs_err::create_dir_all(&base).unwrap();
    }
    let cfg = Cfg::new();
    let cfg = cfg.unwrap_or_else(|e| panic!("{}", e.message()));
    drive(&cfg).unwrap_or_else(|e| panic!("{}", e.message()));
}

#[test]
fn new_returns_paths_under_the_app_subdirectory() {
    let cfg = Cfg::new().unwrap();
    assert!(!cfg.data_path.is_empty());
    assert!(!cfg.config_path.is_empty());
    assert!(cfg.data_path.ends_with("/nsynk"));
    assert!(cfg.config_path.ends_with("/nsynk"));
}

#[test]
fn from_base_dirs_appends_the_app_subdirectory() {
    let cfg = handle("/tmp/test-data", "/tmp/test-config");
    assert_eq!(cfg.data_path.as_str(), "/tmp/test-data/nsynk");
    assert_eq!(cfg.config_path.as_str(), "/tmp/test-config/nsynk");
}

#[test]
fn from_base_dirs_without_data_side_names_data() {
    let r = Cfg::from_base_dirs(None, Some("/tmp/test-config".to_string()));
    match r {
        Err(e) => {
            assert!(matches!(&e, Error::PathError(w) if w == "data"));
            assert_eq!(e.message().as_str(), "Could not find `data` folder");
        }
        Ok(_) => panic!("resolution succeeded without a data directory"),
    }
}

#[test]
fn from_base_dirs_without_config_side_names_config() {
    let r = Cfg::from_base_dirs(Some("/tmp/test-data".to_string()), None);
    match r {
        Err(e) => {
            assert!(matches!(&e, Error::PathError(w) if w == "config"));
            assert_eq!(e.message().as_str(), "Could not find `config` folder");
        }
        Ok(_) => panic!("resolution succeeded without a config directory"),
    }
}

#[test]
fn error_messages_render_as_display_text() {
    let parse = Error::ParseError("data".to_string());
    assert_eq!(parse.message().as_str(), "Could not parse path to `data` folder");
    let io = Error::IoError("permission denied".to_string());
    assert_eq!(io.message().as_str(), "permission denied");
}

#[test]
fn session_commands_the_four_targets_in_order() {
    let cfg = handle("/d", "/c");
    let mut s = cfg.initialize();

    assert!(s.pending());
    assert!(!s.must_create());
    assert_eq!(s.current_path().as_str(), "/d/nsynk");
    assert_eq!(s.current_kind(), EntryKind::Directory);
    s.observed(true);

    assert_eq!(s.current_path().as_str(), "/c/nsynk");
    assert_eq!(s.current_kind(), EntryKind::Directory);
    s.observed(false);
    assert!(s.must_create());
    assert_eq!(s.current_path().as_str(), "/c/nsynk");
    assert!(s.created(Ok(())).is_ok());

    assert!(!s.must_create());
    assert_eq!(s.current_path().as_str(), "/d/nsynk/nsynk.db");
    assert_eq!(s.current_kind(), EntryKind::EmptyFile);
    s.observed(true);

    assert_eq!(s.current_path().as_str(), "/c/nsynk/config.yml");
    assert_eq!(s.current_kind(), EntryKind::EmptyFile);
    s.observed(true);

    assert!(!s.pending());
    assert!(s.completed());
}

#[test]
fn session_failure_surfaces_io_error_and_halts() {
    let cfg = handle("/d", "/c");
    let mut s = cfg.initialize();
    s.observed(false);
    let r = s.created(Err("denied".to_string()));
    match r {
        Err(e) => {
            assert!(matches!(&e, Error::IoError(m) if m == "denied"));
            assert_eq!(e.message().as_str(), "denied");
        }
        Ok(()) => panic!("a failed creation was not surfaced"),
    }
    assert!(!s.pending());
    assert!(!s.completed());
}

#[test]
fn initialize_creates_the_full_layout_under_preexisting_bases() {
    fresh_dir("/tmp/test-data");
    fresh_dir("/tmp/test-config");
    let cfg = handle("/tmp/test-data", "/tmp/test-config");

    let r = drive(&cfg);
    assert!(r.is_ok());

    assert!(fs_err::metadata("/tmp/test-data/nsynk").unwrap().is_dir());
    assert!(fs_err::metadata("/tmp/test-config/nsynk").unwrap().is_dir());
    assert!(is_empty_file("/tmp/test-data/nsynk/nsynk.db"));
    assert!(is_empty_file("/tmp/test-config/nsynk/config.yml"));
}

#[test]
fn second_run_reports_no_error_and_keeps_file_contents() {
    fresh_dir("/tmp/nsynk-rerun-data");
    fresh_dir("/tmp/nsynk-rerun-config");
    let cfg = handle("/tmp/nsynk-rerun-data", "/tmp/nsynk-rerun-config");

    assert!(drive(&cfg).is_ok());
    fs_err::write("/tmp/nsynk-rerun-data/nsynk/nsynk.db", b"records").unwrap();
    fs_err::write("/tmp/nsynk-rerun-config/nsynk/config.yml", b"key: value").unwrap();

    assert!(drive(&cfg).is_ok());
    assert_eq!(fs_err::read("/tmp/nsynk-rerun-data/nsynk/nsynk.db").unwrap(), b"records");
    assert_eq!(
        fs_err::read("/tmp/nsynk-rerun-config/nsynk/config.yml").unwrap(),
        b"key: value"
    );
}

#[test]
fn missing_data_parent_fails_and_leaves_config_side_untouched() {
    let _ = fs_err::remove_dir_all("/tmp/nsynk-absent-parent");
    fresh_dir("/tmp/nsynk-p4-config");
    let cfg = handle("/tmp/nsynk-absent-parent/base", "/tmp/nsynk-p4-config");

    let r = drive(&cfg);
    match r {
        Err(e) => assert!(matches!(e, Error::IoError(_))),
        Ok(()) => panic!("initialization succeeded without the data parent"),
    }
    assert!(!Path::new("/tmp/nsynk-p4-config/nsynk").exists());
    assert!(!Path::new("/tmp/nsynk-p4-config/nsynk/config.yml").exists());
}
