use type_metadata::type_id::{Namespace, NamespaceError};

fn owned(segments: &[&str]) -> Vec<String> {
    segments.iter().map(|s| s.to_string()).collect()
}

#[test]
fn namespace_ok() {
    assert_eq!(
        Namespace::new(owned(&["hello"])),
        Ok(Namespace {
            segments: owned(&["hello"])
        })
    );
    assert_eq!(
        Namespace::new(owned(&["Hello", "World"])),
        Ok(Namespace {
            segments: owned(&["Hello", "World"])
        })
    );
    assert_eq!(
        Namespace::new(owned(&["_"])),
        Ok(Namespace {
            segments: owned(&["_"])
        })
    );
}

#[test]
fn namespace_err() {
    assert_eq!(Namespace::new(vec![]), Err(NamespaceError::MissingSegments));
    assert_eq!(
        Namespace::new(owned(&[""])),
        Err(NamespaceError::InvalidIdentifier { segment: 0 })
    );
    assert_eq!(
        Namespace::new(owned(&["1"])),
        Err(NamespaceError::InvalidIdentifier { segment: 0 })
    );
    assert_eq!(
        Namespace::new(owned(&["Hello", ", World!"])),
        Err(NamespaceError::InvalidIdentifier { segment: 1 })
    );
}

#[test]
fn namespace_from_str() {
    assert_eq!(
        Namespace::from_str("hello::world"),
        Ok(Namespace {
            segments: owned(&["hello", "world"])
        })
    );
    assert_eq!(
        Namespace::from_str("::world"),
        Err(NamespaceError::InvalidIdentifier { segment: 0 })
    );
}

#[test]
fn namespace_round_trips_segments() {
    let segments = owned(&["my_crate", "inner", "types2"]);
    let ns = Namespace::new(segments.clone()).unwrap();
    assert_eq!(ns.segments(), &segments);
}

#[test]
fn namespace_reports_first_invalid_segment() {
    assert_eq!(
        Namespace::new(owned(&["ok", "1bad", "2bad"])),
        Err(NamespaceError::InvalidIdentifier { segment: 1 })
    );
    assert_eq!(
        Namespace::new(owned(&["a", "b", ""])),
        Err(NamespaceError::InvalidIdentifier { segment: 2 })
    );
}

#[test]
fn namespace_rejects_non_ascii_segment() {
    assert_eq!(
        Namespace::new(owned(&["héllo"])),
        Err(NamespaceError::InvalidIdentifier { segment: 0 })
    );
    assert_eq!(
        Namespace::new(owned(&["a-b"])),
        Err(NamespaceError::InvalidIdentifier { segment: 0 })
    );
}

#[test]
fn namespace_prelude_is_empty() {
    let ns = Namespace::prelude();
    assert_eq!(ns.segments().len(), 0);
}

#[test]
fn namespace_from_str_trailing_separator() {
    assert_eq!(
        Namespace::from_str("hello::"),
        Err(NamespaceError::InvalidIdentifier { segment: 1 })
    );
    assert_eq!(
        Namespace::from_str("a:::b"),
        Err(NamespaceError::InvalidIdentifier { segment: 1 })
    );
}
