use sftpm::state::{classify_all, ClassifiedId, MountStatus};

fn v(ids: &[&str]) -> Vec<String> {
    ids.iter().map(|i| i.to_string()).collect()
}

fn sorted(mut r: Vec<ClassifiedId>) -> Vec<(String, MountStatus)> {
    r.sort_by(|a, b| a.id.cmp(&b.id));
    r.into_iter().map(|c| (c.id, c.status)).collect()
}

#[test]
fn known_and_mounted_are_classified() {
    let r = sorted(classify_all(&v(&["a", "b"]), &v(&["b", "c"])));
    assert_eq!(
        r,
        vec![
            ("a".to_string(), MountStatus::Available),
            ("b".to_string(), MountStatus::Mounted),
            ("c".to_string(), MountStatus::Orphaned),
        ]
    );
}

#[test]
fn each_id_classified_once() {
    let r = sorted(classify_all(&v(&["a", "a", "b"]), &v(&["c", "b", "c", "b"])));
    assert_eq!(
        r,
        vec![
            ("a".to_string(), MountStatus::Available),
            ("b".to_string(), MountStatus::Mounted),
            ("c".to_string(), MountStatus::Orphaned),
        ]
    );
}

#[test]
fn empty_inputs() {
    assert!(classify_all(&v(&[]), &v(&[])).is_empty());
    let r = sorted(classify_all(&v(&[]), &v(&["x"])));
    assert_eq!(r, vec![("x".to_string(), MountStatus::Orphaned)]);
    let r = sorted(classify_all(&v(&["x", "y"]), &v(&[])));
    assert_eq!(
        r,
        vec![("x".to_string(), MountStatus::Available), ("y".to_string(), MountStatus::Available)]
    );
}
