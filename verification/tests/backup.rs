use gantry_backend::backup::{
    backup_file_name, backup_file_name_at, backup_interval_secs, is_backup_file_name, select_backups_to_delete, vacuum_into_statement,
};

fn names(list: &[&str]) -> Vec<String> {
    list.iter().map(|s| s.to_string()).collect()
}

#[test]
fn rotation_keeps_retention_count() {
    let dir = names(&[
        "gantry_board_20260103_000000.db",
        "gantry_board_20260101_000000.db",
        "gantry_board_20260105_000000.db",
        "gantry_board_20260102_000000.db",
        "gantry_board_20260104_000000.db",
    ]);
    let victims = select_backups_to_delete(&dir, 3);
    assert_eq!(victims, names(&["gantry_board_20260101_000000.db", "gantry_board_20260102_000000.db"]));
}

#[test]
fn rotation_is_a_no_op_under_retention() {
    let dir = names(&["gantry_board_20260101_000000.db", "gantry_board_20260102_000000.db"]);
    assert!(select_backups_to_delete(&dir, 5).is_empty());
    assert!(select_backups_to_delete(&dir, 2).is_empty());
    assert!(select_backups_to_delete(&vec![], 3).is_empty());
}

#[test]
fn rotation_ignores_non_backup_files() {
    let dir = names(&[
        "gantry_board_20260101_000000.db",
        "other_file.txt",
        "README.md",
        "gantry_board_20260102_000000.db",
        "gantry_board_x.sqlite",
    ]);
    assert_eq!(select_backups_to_delete(&dir, 1), names(&["gantry_board_20260101_000000.db"]));
    assert_eq!(select_backups_to_delete(&dir, 0).len(), 2);
}

#[test]
fn backup_names_follow_the_pattern() {
    assert!(is_backup_file_name("gantry_board_20260101_000000.db"));
    assert!(!is_backup_file_name("gantry_board_20260101_000000.db.bak"));
    assert!(!is_backup_file_name("board_20260101.db"));
    assert_eq!(backup_file_name("20260101_120000"), "gantry_board_20260101_120000.db");
}

#[test]
fn vacuum_statement_doubles_quotes() {
    assert_eq!(vacuum_into_statement("/tmp/b.db"), "VACUUM INTO '/tmp/b.db'");
    assert_eq!(vacuum_into_statement("/tmp/o'neil/b.db"), "VACUUM INTO '/tmp/o''neil/b.db'");
}

#[test]
fn backups_run_at_most_once_a_minute() {
    assert_eq!(backup_interval_secs(10), 60);
    assert_eq!(backup_interval_secs(3600), 3600);
}

#[test]
fn backup_names_carry_the_utc_stamp() {
    assert_eq!(backup_file_name_at(0).as_deref(), Some("gantry_board_19700101_000000.db"));
    assert_eq!(backup_file_name_at(947638923004).as_deref(), Some("gantry_board_20000112_010203.db"));
    assert_eq!(backup_file_name_at(i64::MAX), None);
}

#[test]
fn a_second_rotation_deletes_nothing() {
    let all = names(&[
        "gantry_board_20240103_000000.db",
        "notes.txt",
        "gantry_board_20240101_000000.db",
        "gantry_board_20240104_000000.db",
        "gantry_board_20240102_000000.db",
    ]);
    let victims = select_backups_to_delete(&all, 2);
    assert_eq!(victims, names(&["gantry_board_20240101_000000.db", "gantry_board_20240102_000000.db"]));
    let left: Vec<String> = all.iter().filter(|n| !victims.contains(n)).cloned().collect();
    assert!(select_backups_to_delete(&left, 2).is_empty());
}
