use umbrella::paths::{decimal_string, file_extension, file_name, join, parent};

#[test]
fn extensions() {
    assert_eq!(file_extension("a/b.PY").as_deref(), Some("PY"));
    assert_eq!(file_extension("a/b.tar.gz").as_deref(), Some("gz"));
    assert_eq!(file_extension(".bashrc"), None);
    assert_eq!(file_extension("dir.d/file"), None);
    assert_eq!(file_extension("a/b.py/").as_deref(), Some("py"));
    assert_eq!(file_extension("a/.."), None);
    assert_eq!(file_extension("a."), Some(String::new()));
}

#[test]
fn names_parents_and_joins() {
    assert_eq!(file_name("/x/y/z.ma"), "z.ma");
    assert_eq!(parent("/x/y/z.ma"), "/x/y");
    assert_eq!(parent("/z.ma"), "/");
    assert_eq!(parent("z.ma"), "");
    assert_eq!(join("", "n"), "n");
    assert_eq!(join("d/", "n"), "d/n");
    assert_eq!(join("d", "n"), "d/n");
    assert_eq!(decimal_string(0), "0");
    assert_eq!(decimal_string(1700000000), "1700000000");
    assert_eq!(decimal_string(u64::MAX), "18446744073709551615");
}
