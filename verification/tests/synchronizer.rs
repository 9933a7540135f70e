use dotsync::args::AppArgs;
use dotsync::error::AppError;
use dotsync::link::Link;
use dotsync::sync::{holder, removal, Action, Observed, Plan, Probe, Removal};

const ABSENT: Observed = Observed { exists: false, is_dir: false, is_file: false, is_symlink: false };
const FILE: Observed = Observed { exists: true, is_dir: false, is_file: true, is_symlink: false };
const DIRECTORY: Observed =
    Observed { exists: true, is_dir: true, is_file: false, is_symlink: false };
const LINK_TO_FILE: Observed =
    Observed { exists: true, is_dir: false, is_file: true, is_symlink: true };
const LINK_TO_DIRECTORY: Observed =
    Observed { exists: true, is_dir: true, is_file: false, is_symlink: true };
const DANGLING: Observed =
    Observed { exists: false, is_dir: false, is_file: false, is_symlink: true };
const SOCKET: Observed = Observed { exists: true, is_dir: false, is_file: false, is_symlink: false };

fn link(force: bool) -> Link {
    Link {
        name: "vim".to_string(),
        src: "dots/vimrc".to_string(),
        dest: "/home/u/.vimrc".to_string(),
        enable: true,
        force,
    }
}

fn args(update: bool) -> AppArgs {
    AppArgs { config: "config.lua".to_string(), update }
}

fn found(dest: Observed) -> Probe {
    Probe { src: Some("/repo/dots/vimrc".to_string()), dest_parent: true, dest }
}

fn plan(action: Action) -> Result<Plan, AppError> {
    Ok(Plan { src: "/repo/dots/vimrc".to_string(), dest: "/home/u/.vimrc".to_string(), action })
}

#[test]
fn absent_destination_is_created_whatever_the_flags() {
    for force in [false, true] {
        for update in [false, true] {
            assert_eq!(link(force).create_link(&args(update), &found(ABSENT)), plan(Action::Create));
        }
    }
}

#[test]
fn existing_destination_without_force_is_skipped() {
    for update in [false, true] {
        for dest in [FILE, DIRECTORY, LINK_TO_FILE, LINK_TO_DIRECTORY, SOCKET] {
            assert_eq!(link(false).create_link(&args(update), &found(dest)), plan(Action::Skip));
        }
    }
}

#[test]
fn update_mode_suppresses_force() {
    for dest in [FILE, DIRECTORY, LINK_TO_FILE, LINK_TO_DIRECTORY, SOCKET] {
        assert_eq!(link(true).create_link(&args(true), &found(dest)), plan(Action::Skip));
    }
}

#[test]
fn forced_link_replaces_a_file() {
    assert_eq!(
        link(true).create_link(&args(false), &found(FILE)),
        plan(Action::Replace(Removal::File))
    );
}

#[test]
fn forced_link_replaces_a_directory_as_a_tree() {
    assert_eq!(
        link(true).create_link(&args(false), &found(DIRECTORY)),
        plan(Action::Replace(Removal::Tree))
    );
}

#[test]
fn forced_link_replaces_a_symlink_as_a_file() {
    for dest in [LINK_TO_FILE, LINK_TO_DIRECTORY] {
        assert_eq!(
            link(true).create_link(&args(false), &found(dest)),
            plan(Action::Replace(Removal::File))
        );
    }
}

#[test]
fn forced_link_removes_nothing_that_is_neither_file_nor_directory() {
    assert_eq!(
        link(true).create_link(&args(false), &found(SOCKET)),
        plan(Action::Replace(Removal::Nothing))
    );
}

#[test]
fn symlink_that_leads_nowhere_stands_at_the_destination() {
    assert!(DANGLING.occupied());
    for update in [false, true] {
        assert_eq!(link(false).create_link(&args(update), &found(DANGLING)), plan(Action::Skip));
    }
    assert_eq!(link(true).create_link(&args(true), &found(DANGLING)), plan(Action::Skip));
}

#[test]
fn forced_link_replaces_a_symlink_that_leads_nowhere() {
    assert_eq!(
        link(true).create_link(&args(false), &found(DANGLING)),
        plan(Action::Replace(Removal::File))
    );
}

#[test]
fn occupied_by_what_was_observed() {
    assert!(!ABSENT.occupied());
    for dest in [FILE, DIRECTORY, LINK_TO_FILE, LINK_TO_DIRECTORY, DANGLING, SOCKET] {
        assert!(dest.occupied());
    }
}

#[test]
fn removal_by_what_was_observed() {
    assert_eq!(removal(DIRECTORY), Removal::Tree);
    assert_eq!(removal(FILE), Removal::File);
    assert_eq!(removal(LINK_TO_FILE), Removal::File);
    assert_eq!(removal(LINK_TO_DIRECTORY), Removal::File);
    assert_eq!(removal(DANGLING), Removal::File);
    assert_eq!(removal(SOCKET), Removal::Nothing);
    assert_eq!(removal(ABSENT), Removal::Nothing);
}

#[test]
fn unresolved_source_is_reported_for_src() {
    let probe = Probe { src: None, dest_parent: true, dest: ABSENT };
    let expected =
        Err(AppError::LocationNotFound { field_name: "src", table_name: "vim".to_string() });
    assert_eq!(link(true).create_link(&args(false), &probe), expected);
    assert_eq!(
        link(true).validate_location(&probe),
        Err(AppError::LocationNotFound { field_name: "src", table_name: "vim".to_string() })
    );
}

#[test]
fn unresolved_parent_is_reported_for_dest() {
    let probe = Probe { src: Some("/repo/dots/vimrc".to_string()), dest_parent: false, dest: ABSENT };
    assert_eq!(
        link(false).create_link(&args(false), &probe),
        Err(AppError::LocationNotFound { field_name: "dest", table_name: "vim".to_string() })
    );
}

#[test]
fn source_is_looked_at_before_the_destination() {
    let probe = Probe { src: None, dest_parent: false, dest: FILE };
    assert_eq!(
        link(true).create_link(&args(false), &probe),
        Err(AppError::LocationNotFound { field_name: "src", table_name: "vim".to_string() })
    );
}

#[test]
fn located_paths_are_the_resolved_source_and_the_declared_destination() {
    assert_eq!(
        link(false).validate_location(&found(FILE)),
        Ok(("/repo/dots/vimrc".to_string(), "/home/u/.vimrc".to_string()))
    );
}

#[test]
fn second_run_reports_that_the_link_exists() {
    let spec = link(false);
    let first = spec.create_link(&args(false), &found(ABSENT));
    assert_eq!(first, plan(Action::Create));
    let second = spec.create_link(&args(false), &found(LINK_TO_FILE));
    assert_eq!(second, plan(Action::Skip));
}

#[test]
fn forced_second_run_replaces_the_link_by_itself() {
    let spec = link(true);
    assert_eq!(spec.create_link(&args(false), &found(FILE)), plan(Action::Replace(Removal::File)));
    assert_eq!(
        spec.create_link(&args(false), &found(LINK_TO_FILE)),
        plan(Action::Replace(Removal::File))
    );
}

#[test]
fn args_clone_keeps_both_fields() {
    let one = args(true);
    assert_eq!(one.clone(), one);
}

#[test]
fn notice_of_a_creation_names_the_destination() {
    let made = plan(Action::Create).unwrap();
    assert_eq!(link(false).notice(&made), "[#] Creating symlink: \"/home/u/.vimrc\"");
}

#[test]
fn notice_of_a_replacement_names_the_destination() {
    for removal in [Removal::Tree, Removal::File, Removal::Nothing] {
        let replaced = plan(Action::Replace(removal)).unwrap();
        assert_eq!(link(true).notice(&replaced), "[#] Overwriting: \"/home/u/.vimrc\"");
    }
}

#[test]
fn notice_of_a_skip_names_the_link_and_the_field() {
    let skipped = plan(Action::Skip).unwrap();
    assert_eq!(
        link(false).notice(&skipped),
        "[!] Path already exists for field: \"dest\" for table: \"vim\", skipping!"
    );
}

#[test]
fn holder_of_a_path_with_a_parent_is_that_parent() {
    assert_eq!(holder(Some("/home/u")), Some("/home/u".to_string()));
    assert_eq!(holder(Some("dots")), Some("dots".to_string()));
    assert_eq!(holder(Some("/")), Some("/".to_string()));
}

#[test]
fn holder_of_a_path_of_one_part_is_the_current_directory() {
    assert_eq!(holder(Some("")), Some(".".to_string()));
}

#[test]
fn root_has_no_holder() {
    assert_eq!(holder(None), None);
}

#[test]
fn holder_takes_what_the_standard_library_gives_as_parent() {
    let parent = |path: &'static str| std::path::Path::new(path).parent().and_then(|p| p.to_str());
    assert_eq!(holder(parent("/home/u/.vimrc")), Some("/home/u".to_string()));
    assert_eq!(holder(parent(".vimrc")), Some(".".to_string()));
    assert_eq!(holder(parent("dots/.vimrc")), Some("dots".to_string()));
    assert_eq!(holder(parent("/")), None);
    assert_eq!(holder(parent("")), None);
}
