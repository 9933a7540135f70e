use dotsync::error::AppError;
use dotsync::link::{rejected, resolve, selected, Entry, Key, Link, Slot};

fn text(s: &str) -> Slot<String> {
    Slot::Filled(s.to_string())
}

fn table(name: &str, src: &str, dest: &str) -> Entry {
    Entry::Table { name: text(name), src: text(src), dest: text(dest), enable: Slot::Empty, force: Slot::Empty }
}

fn link(name: &str, src: &str, dest: &str, enable: bool, force: bool) -> Link {
    Link {
        name: name.to_string(),
        src: src.to_string(),
        dest: dest.to_string(),
        enable,
        force,
    }
}

#[test]
fn complete_table_resolves_with_defaults() {
    let outcome = Link::from_entry(0, &table("vim", "/src/vimrc", "/home/u/.vimrc"));
    assert_eq!(outcome, Ok(link("vim", "/src/vimrc", "/home/u/.vimrc", true, false)));
}

#[test]
fn declared_flags_are_kept() {
    let entry = Entry::Table {
        name: text("vim"),
        src: text("a"),
        dest: text("b"),
        enable: Slot::Filled(false),
        force: Slot::Filled(true),
    };
    assert_eq!(Link::from_entry(3, &entry), Ok(link("vim", "a", "b", false, true)));
}

#[test]
fn entry_that_is_no_table_is_known_by_position() {
    assert_eq!(Link::from_entry(4, &Entry::Other), Err(AppError::FieldHasNoName(4)));
}

#[test]
fn table_without_name_is_known_by_position() {
    let entry =
        Entry::Table { name: Slot::Empty, src: text("a"), dest: text("b"), enable: Slot::Empty, force: Slot::Empty };
    assert_eq!(Link::from_entry(2, &entry), Err(AppError::FieldHasNoName(2)));
}

#[test]
fn empty_name_counts_as_no_name() {
    assert_eq!(Link::from_entry(0, &table("", "a", "b")), Err(AppError::FieldHasNoName(0)));
}

#[test]
fn missing_src_is_reported_under_the_name() {
    let entry =
        Entry::Table { name: text("vim"), src: Slot::Empty, dest: text("b"), enable: Slot::Empty, force: Slot::Empty };
    assert_eq!(
        Link::from_entry(0, &entry),
        Err(AppError::MissingField { field_name: "src", table_name: "vim".to_string() })
    );
}

#[test]
fn missing_dest_is_reported_under_the_name() {
    let entry =
        Entry::Table { name: text("vim"), src: text("a"), dest: Slot::Empty, enable: Slot::Empty, force: Slot::Empty };
    assert_eq!(
        Link::from_entry(0, &entry),
        Err(AppError::MissingField { field_name: "dest", table_name: "vim".to_string() })
    );
}

#[test]
fn src_is_reported_before_dest() {
    let entry = Entry::Table { name: text("vim"), src: Slot::Empty, dest: Slot::Empty, enable: Slot::Empty, force: Slot::Empty };
    assert_eq!(
        Link::from_entry(0, &entry),
        Err(AppError::MissingField { field_name: "src", table_name: "vim".to_string() })
    );
}

#[test]
fn name_is_looked_at_before_the_paths() {
    let entry = Entry::Table { name: Slot::Empty, src: Slot::Empty, dest: Slot::Empty, enable: Slot::Empty, force: Slot::Empty };
    assert_eq!(Link::from_entry(9, &entry), Err(AppError::FieldHasNoName(9)));
}

#[test]
fn empty_paths_are_not_missing() {
    assert_eq!(Link::from_entry(0, &table("n", "", "")), Ok(link("n", "", "", true, false)));
}

#[test]
fn empty_collection_resolves_to_nothing() {
    assert_eq!(resolve(&vec![]), vec![]);
}

#[test]
fn second_of_three_without_src_costs_only_itself() {
    let entries = vec![
        table("first", "/s/1", "/d/1"),
        Entry::Table { name: text("second"), src: Slot::Empty, dest: text("/d/2"), enable: Slot::Empty, force: Slot::Empty },
        table("third", "/s/3", "/d/3"),
    ];
    let outcomes = resolve(&entries);
    assert_eq!(
        outcomes,
        vec![
            Ok(link("first", "/s/1", "/d/1", true, false)),
            Err(AppError::MissingField { field_name: "src", table_name: "second".to_string() }),
            Ok(link("third", "/s/3", "/d/3", true, false)),
        ]
    );
    assert_eq!(
        selected(&outcomes),
        vec![link("first", "/s/1", "/d/1", true, false), link("third", "/s/3", "/d/3", true, false)]
    );
    assert_eq!(
        rejected(&outcomes),
        vec![AppError::MissingField { field_name: "src", table_name: "second".to_string() }]
    );
}

#[test]
fn positions_count_from_zero_in_declaration_order() {
    let outcomes = resolve(&vec![Entry::Other, table("a", "s", "d"), Entry::Other]);
    assert_eq!(outcomes[0], Err(AppError::FieldHasNoName(0)));
    assert_eq!(outcomes[1], Ok(link("a", "s", "d", true, false)));
    assert_eq!(outcomes[2], Err(AppError::FieldHasNoName(2)));
}

#[test]
fn disabled_links_are_not_selected() {
    let outcomes = vec![
        Ok(link("a", "s", "d", true, false)),
        Ok(link("b", "s", "d", false, true)),
        Err(AppError::FieldHasNoName(2)),
        Ok(link("c", "s", "d", true, true)),
    ];
    assert_eq!(
        selected(&outcomes),
        vec![link("a", "s", "d", true, false), link("c", "s", "d", true, true)]
    );
    assert_eq!(rejected(&outcomes), vec![AppError::FieldHasNoName(2)]);
}

#[test]
fn batch_of_disabled_links_selects_nothing() {
    let outcomes = vec![Ok(link("a", "", "", false, false)), Ok(link("b", "", "", false, true))];
    assert_eq!(selected(&outcomes), vec![]);
    assert_eq!(rejected(&outcomes), vec![]);
}

#[test]
fn clone_keeps_every_field() {
    let one = link("a", "s", "d", false, true);
    assert_eq!(one.clone(), one);
}

#[test]
fn name_that_does_not_fit_counts_as_no_name() {
    let entry = Entry::Table {
        name: Slot::Unfit,
        src: text("a"),
        dest: text("b"),
        enable: Slot::Empty,
        force: Slot::Empty,
    };
    assert_eq!(Link::from_entry(1, &entry), Err(AppError::FieldHasNoName(1)));
}

#[test]
fn path_that_does_not_fit_counts_as_missing() {
    let entry = Entry::Table {
        name: text("vim"),
        src: Slot::Unfit,
        dest: text("b"),
        enable: Slot::Empty,
        force: Slot::Empty,
    };
    assert_eq!(
        Link::from_entry(0, &entry),
        Err(AppError::MissingField { field_name: "src", table_name: "vim".to_string() })
    );
    let entry = Entry::Table {
        name: text("vim"),
        src: text("a"),
        dest: Slot::Unfit,
        enable: Slot::Empty,
        force: Slot::Empty,
    };
    assert_eq!(
        Link::from_entry(0, &entry),
        Err(AppError::MissingField { field_name: "dest", table_name: "vim".to_string() })
    );
}

#[test]
fn flag_that_does_not_fit_takes_its_default() {
    let entry = Entry::Table {
        name: text("vim"),
        src: text("a"),
        dest: text("b"),
        enable: Slot::Unfit,
        force: Slot::Unfit,
    };
    assert_eq!(Link::from_entry(0, &entry), Ok(link("vim", "a", "b", true, false)));
}

#[test]
fn keys_as_the_script_writes_them() {
    assert_eq!(Key::Name.text(), "name");
    assert_eq!(Key::Src.text(), "src");
    assert_eq!(Key::Dest.text(), "dest");
    assert_eq!(Key::Enable.text(), "enable");
    assert_eq!(Key::Force.text(), "force");
}
