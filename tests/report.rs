use wsg::report::Severity;

#[test]
fn codes_name_severities() {
    assert_eq!(Severity::from_code("f"), Severity::Error);
    assert_eq!(Severity::from_code("s"), Severity::Success);
    assert_eq!(Severity::from_code("i"), Severity::Indexing);
    assert_eq!(Severity::from_code("g"), Severity::Generating);
    assert_eq!(Severity::from_code("c"), Severity::Completed);
    assert_eq!(Severity::from_code("starting"), Severity::Plain);
}

#[test]
fn labels_are_distinct_and_aligned() {
    let all = [Severity::Error, Severity::Success, Severity::Indexing, Severity::Generating, Severity::Completed];
    for (i, a) in all.iter().enumerate() {
        assert_eq!(a.label().len(), 11);
        for b in all.iter().skip(i + 1) {
            assert_ne!(a.label(), b.label());
        }
    }
    assert_eq!(Severity::Error.label(), "Error      ");
    assert_eq!(Severity::Plain.label(), "");
    assert_eq!(Severity::Error.title().as_deref(), Some("Wing Error"));
    assert_eq!(Severity::Success.title(), None);
}
