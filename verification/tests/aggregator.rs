use barr::aggregator::Aggregator;

#[test]
fn new_table_is_empty() {
    let table = Aggregator::new(3);
    assert_eq!(table.len(), 3);
    assert_eq!(table.line(), "");
}

#[test]
fn table_without_slots_publishes_nothing() {
    let table = Aggregator::new(0);
    assert_eq!(table.len(), 0);
    assert_eq!(table.line(), "");
}

#[test]
fn line_joins_slots_in_registration_order() {
    let mut table = Aggregator::new(3);
    assert_eq!(table.receive(2, "c".to_string()), "c");
    assert_eq!(table.receive(0, "a".to_string()), "ac");
    assert_eq!(table.receive(1, "b".to_string()), "abc");
    assert_eq!(table.len(), 3);
}

#[test]
fn last_writer_wins_per_slot() {
    let mut table = Aggregator::new(2);
    table.receive(0, "old".to_string());
    table.receive(1, "x".to_string());
    assert_eq!(table.receive(0, "new".to_string()), "newx");
    assert_eq!(table.line(), "newx");
}

#[test]
fn arrival_order_does_not_change_the_line() {
    let mut first = Aggregator::new(3);
    first.receive(0, "a".to_string());
    first.receive(1, "b".to_string());
    first.receive(2, "c".to_string());

    let mut second = Aggregator::new(3);
    second.receive(2, "zzz".to_string());
    second.receive(1, "b".to_string());
    second.receive(2, "c".to_string());
    second.receive(0, "a".to_string());

    assert_eq!(first.line(), "abc");
    assert_eq!(second.line(), "abc");
}

#[test]
fn every_arrival_publishes_all_slots() {
    let mut table = Aggregator::new(3);
    let mut lines = Vec::new();
    lines.push(table.receive(1, "m".to_string()));
    lines.push(table.receive(1, "n".to_string()));
    lines.push(table.receive(0, "a".to_string()));
    assert_eq!(lines, vec!["m".to_string(), "n".to_string(), "an".to_string()]);
}

#[test]
fn slots_are_joined_without_separator() {
    let mut table = Aggregator::new(2);
    table.receive(0, " a ".to_string());
    assert_eq!(table.receive(1, " b ".to_string()), " a  b ");
}
