use githut::types::IssueFilter;

#[test]
fn filter_cycle_has_three_steps() {
    let f = IssueFilter::Open;
    assert_eq!(f.next(), IssueFilter::Closed);
    assert_eq!(f.next().next(), IssueFilter::All);
    assert_eq!(f.next().next().next(), IssueFilter::Open);
    assert_eq!(IssueFilter::Closed.next().next().next(), IssueFilter::Closed);
}

#[test]
fn filter_query_and_label() {
    assert_eq!(IssueFilter::Open.as_str(), "open");
    assert_eq!(IssueFilter::Closed.as_str(), "closed");
    assert_eq!(IssueFilter::All.as_str(), "all");
    assert_eq!(IssueFilter::Open.label(), "Open");
    assert_eq!(IssueFilter::All.label(), "All");
}
