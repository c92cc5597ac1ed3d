use auraed::names::{CellName, ExecutableName};
use auraed::table::{NameTable, TableError};
use auraed::tables::{CellTable, CgroupTable, ChildTable};

#[derive(Debug, Clone, PartialEq)]
struct TestCgroup {
    name: String,
}

fn test_cgroup() -> TestCgroup {
    TestCgroup { name: String::from("test-cell") }
}

#[derive(Debug, PartialEq)]
struct TestChild {
    pid: u32,
}

#[test]
fn cgroup_table_test_insert() {
    let mut table: CgroupTable<TestCgroup> = CgroupTable::new();
    assert!(table.is_empty());
    table.insert("test".to_string(), test_cgroup()).expect("inserted in table");
    assert!(table.contains("test"));
}

#[test]
fn test_dublicate_insert_is_error() {
    let mut table: CgroupTable<TestCgroup> = CgroupTable::new();
    assert!(table.is_empty());
    table.insert("test".to_string(), test_cgroup()).expect("inserted in table");
    assert!(table.insert("test".to_string(), test_cgroup()).is_err());
}

#[test]
fn test_get() {
    let mut table: CgroupTable<TestCgroup> = CgroupTable::new();
    assert!(table.is_empty());
    table.insert("test".to_string(), test_cgroup()).expect("inserted in table");
    assert!(table.get("test").is_some());
}

#[test]
fn test_get_missing_returns_none() {
    let table: CgroupTable<TestCgroup> = CgroupTable::new();
    assert!(table.is_empty());
    assert!(table.get("test").is_none());
}

#[test]
fn cgroup_table_test_remove() {
    let mut table: CgroupTable<TestCgroup> = CgroupTable::new();
    assert!(table.is_empty());
    table.insert("test".to_string(), test_cgroup()).expect("inserted in table");
    let removed = table.remove("test").expect("removed from table");
    assert_eq!(removed, test_cgroup());
    assert!(table.is_empty());
}

#[test]
fn cgroup_table_test_remove_missing_is_error() {
    let mut table: CgroupTable<TestCgroup> = CgroupTable::new();
    assert!(table.is_empty());
    assert!(table.remove("test").is_err());
}

#[test]
fn child_table_test_insert() {
    let mut table: ChildTable<TestChild> = ChildTable::new();
    assert!(table.is_empty());
    table.insert(CellName::new("test".to_string()), TestChild { pid: 7 }).expect("inserted in table");
    assert!(table.contains("test"));
}

#[test]
fn test_duplicate_insert_is_error() {
    let mut table: ChildTable<TestChild> = ChildTable::new();
    assert!(table.is_empty());
    table.insert(CellName::new("test".to_string()), TestChild { pid: 7 }).expect("inserted in table");
    assert!(table.insert(CellName::new("test".to_string()), TestChild { pid: 8 }).is_err());
}

#[test]
fn child_table_test_remove() {
    let mut table: ChildTable<TestChild> = ChildTable::new();
    assert!(table.is_empty());
    table.insert(CellName::new("test".to_string()), TestChild { pid: 7 }).expect("inserted in table");
    let child = table.remove(&CellName::new("test".to_string())).expect("removed from table");
    assert_eq!(child, TestChild { pid: 7 });
    assert!(table.is_empty());
}

#[test]
fn child_table_test_remove_missing_is_error() {
    let mut table: ChildTable<TestChild> = ChildTable::new();
    assert!(table.is_empty());
    assert!(table.remove(&CellName::new("test".to_string())).is_err());
}

#[test]
fn name_table_remove_undoes_insert() {
    let mut t: NameTable<u32> = NameTable::new();
    t.insert("a".to_string(), 1).expect("insert a");
    t.insert("b".to_string(), 2).expect("insert b");
    assert_eq!(t.remove("b").expect("remove b"), 2);
    assert!(!t.contains("b"));
    assert_eq!(t.get("a"), Some(&1));
}

#[test]
fn name_table_reports_errors_by_name() {
    let mut t: NameTable<u32> = NameTable::new();
    t.insert("a".to_string(), 1).expect("insert a");
    match t.insert("a".to_string(), 9) {
        Err(TableError::AlreadyExists { name }) => assert_eq!(name, "a"),
        _ => panic!("expected already exists"),
    }
    assert_eq!(t.get("a"), Some(&1));
    match t.remove("z") {
        Err(TableError::NotFound { name }) => assert_eq!(name, "z"),
        _ => panic!("expected not found"),
    }
}

#[test]
fn name_table_any_finds_a_match() {
    let mut t: NameTable<u32> = NameTable::new();
    assert!(!t.any(|v: &u32| *v > 1));
    t.insert("a".to_string(), 1).expect("insert a");
    assert!(!t.any(|v: &u32| *v > 1));
    t.insert("b".to_string(), 5).expect("insert b");
    assert!(t.any(|v: &u32| *v > 1));
}

#[test]
fn cell_table_tracks_cgroups_and_children() {
    let mut t: CellTable<TestCgroup, TestChild> = CellTable::new();
    let cell = CellName::new("c1".to_string());
    assert!(t.get_cgroup(&cell).is_none());
    assert!(t.add_child(&cell, ExecutableName::new("e".to_string()), TestChild { pid: 1 }).is_err());
    t.add_cgroup(CellName::new("c1".to_string()), test_cgroup()).expect("add cgroup");
    assert!(t.add_cgroup(CellName::new("c1".to_string()), test_cgroup()).is_err());
    assert_eq!(t.get_cgroup(&cell), Some(test_cgroup()));
    let exe = ExecutableName::new("e".to_string());
    assert_eq!(t.has_child(&cell, &exe).expect("cell exists"), false);
    t.add_child(&cell, ExecutableName::new("e".to_string()), TestChild { pid: 1 }).expect("add child");
    t.add_child(&cell, ExecutableName::new("e".to_string()), TestChild { pid: 2 }).expect("replace child");
    assert_eq!(t.has_child(&cell, &exe).expect("cell exists"), true);
    assert_eq!(t.rm_child(&cell, &exe).expect("remove child"), TestChild { pid: 2 });
    assert!(t.rm_child(&cell, &exe).is_err());
    assert_eq!(t.rm_cgroup(&cell).expect("remove cgroup"), test_cgroup());
    assert!(t.rm_cgroup(&cell).is_err());
}
