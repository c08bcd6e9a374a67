use issue_bot::utils::handler::{ContextMap, HashContext};

#[test]
fn read_after_write_gives_value() {
    let mut m = ContextMap::new();
    assert_eq!(m.get(7), None);
    m.insert(7, HashContext { is_issue: true });
    assert_eq!(m.get(7), Some(HashContext { is_issue: true }));
    m.insert(7, HashContext { is_issue: false });
    assert_eq!(m.get(7), Some(HashContext { is_issue: false }));
    assert_eq!(m.len(), 1);
}

#[test]
fn write_leaves_other_numbers() {
    let mut m = ContextMap::new();
    m.insert(1, HashContext { is_issue: true });
    m.insert(2, HashContext { is_issue: false });
    assert_eq!(m.get(1), Some(HashContext { is_issue: true }));
    assert_eq!(m.get(2), Some(HashContext { is_issue: false }));
    assert_eq!(m.get(3), None);
    assert_eq!(m.len(), 2);
}
