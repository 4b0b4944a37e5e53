use delta_snapshot::data::Data;
use delta_snapshot::error::Error;
use delta_snapshot::string_map::StringMap;
use delta_snapshot::text::{around, around_i64, around_u64, i64_text, join, u64_text};

#[test]
fn integers_are_shown_in_decimal() {
    for value in [0u64, 7, 10, 99, 100, 12345, u64::MAX] {
        assert_eq!(u64_text(value), value.to_string());
    }
    for value in [0i64, -1, 42, -987, i64::MIN, i64::MAX] {
        assert_eq!(i64_text(value), value.to_string());
    }
    assert_eq!(join("a", "b"), "ab");
    assert_eq!(around("a", "b", "c"), "abc");
    assert_eq!(around_i64("<", -5, ">"), "<-5>");
    assert_eq!(around_u64("<", 5, ">"), "<5>");
}

fn map(entries: &[(&str, i64)]) -> StringMap<i64> {
    let mut map = StringMap::new();
    for (key, value) in entries {
        map.insert(key.to_string(), *value);
    }
    map
}

#[test]
fn maps_hold_one_value_for_each_key() {
    let m = map(&[("a", 1), ("b", 2), ("a", 3)]);
    assert_eq!(m.len(), 2);
    assert_eq!(m.get(&"a".to_string()), Some(&3));
    assert_eq!(m.get(&"c".to_string()), None);
    assert_eq!(m.key_at(1), "b");
    assert_eq!(m.value_at(1), &2);
    assert!(m.contains_key(&"b".to_string()));
}

#[test]
fn maps_are_compared_by_their_entries() {
    let m = map(&[("a", 1), ("b", 2)]);
    assert!(m.same(&map(&[("b", 2), ("a", 1)])));
    assert!(!m.same(&map(&[("a", 1)])));
    assert!(!m.same(&map(&[("a", 1), ("b", 3)])));
    assert!(!map(&[("a", 1)]).same(&m));
    assert!(m.dup().same(&m));
}

#[test]
fn errors_have_a_text() {
    let text = |e: Error| e.to_text();
    let m = || "m".to_string();
    assert_eq!(text(Error::InvalidCheckpoint(m())), "Invalid Checkpoint: m");
    assert_eq!(text(Error::InvalidSnapshotHint(m())), "Invalid snapshot hint: m");
    assert_eq!(text(Error::Cancelled), "Operation cancelled");
    assert_eq!(
        text(Error::LogTailVersionsNotContiguous {
            first_version: 1,
            second_version: 3
        }),
        "Log tail versions are not contiguous: 1 is followed by 3"
    );
    assert_eq!(
        text(Error::Backtraced {
            source: Box::new(Error::Other(m())),
            backtrace: "b".to_string()
        }),
        "m\nb"
    );
}
