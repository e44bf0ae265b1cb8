use env_report::json::{encode_object, push_quoted};
use env_report::page::render;
use env_report::service::capture;
use env_report::snapshot::Snapshot;

#[test]
fn set_replaces_in_place() {
    let mut s = Snapshot::new();
    s.set("A".to_string(), "1".to_string());
    s.set("B".to_string(), "2".to_string());
    s.set("A".to_string(), "9".to_string());
    assert_eq!(s.entries.len(), 2);
    assert_eq!(s.entries[0], ("A".to_string(), "9".to_string()));
    assert_eq!(s.get(&"A".to_string()), Some(&"9".to_string()));
    assert_eq!(s.get(&"C".to_string()), None);
    assert_eq!(s.find(&"B".to_string()), Some(1));
}

#[test]
fn from_vars_collects_in_order() {
    let v = vec![
        ("X".to_string(), "1".to_string()),
        ("Y".to_string(), "2".to_string()),
        ("X".to_string(), "3".to_string()),
    ];
    let s = Snapshot::from_vars(&v);
    assert_eq!(s.entries, vec![("X".to_string(), "3".to_string()), ("Y".to_string(), "2".to_string())]);
}

#[test]
fn capture_sets_synthetic_entries() {
    let v = vec![("PATH".to_string(), "/bin".to_string())];
    let s = capture(&v, "host-a".to_string(), "10.2.3.4".to_string());
    assert_eq!(s.entries.len(), 3);
    assert_eq!(s.get(&"HOSTNAME".to_string()), Some(&"host-a".to_string()));
    assert_eq!(s.get(&"LOCAL_IP".to_string()), Some(&"10.2.3.4".to_string()));
}

#[test]
fn render_without_synthetic_entries_leaves_blanks() {
    let s = Snapshot::new();
    let page = render(&s);
    assert!(page.contains("<title>Welcome </title>"));
    assert!(page.contains("<p></p>"));
    assert!(!page.contains("<tr><td>"));
}

#[test]
fn quoted_text() {
    let mut out = "x".to_string();
    push_quoted(&mut out, "a\"b");
    assert_eq!(out, "x\"a\\\"b\"");
}

#[test]
fn encode_empty_snapshot() {
    assert_eq!(encode_object(&Snapshot::new()), "{}");
}
