use rastreador::counts::CountTable;
use rastreador::names::syscall_name;

#[test]
fn fresh_table_counts_zero() {
    let t = CountTable::new();
    assert_eq!(t.get_count(0), 0);
    assert_eq!(t.get_count(-5), 0);
    assert_eq!(t.distinct_len(), 0);
}

#[test]
fn increment_bumps_only_its_key() {
    let mut t = CountTable::new();
    t.increment(1);
    t.increment(1);
    t.increment(231);
    assert_eq!(t.get_count(1), 2);
    assert_eq!(t.get_count(231), 1);
    assert_eq!(t.get_count(0), 0);
    assert_eq!(t.distinct_len(), 2);
}

#[test]
fn summary_orders_by_count_then_number() {
    // counts {open: 3, read: 3, close: 1}: read and open tie on count,
    // read (number 0) precedes open (number 2), close follows.
    let mut t = CountTable::new();
    for _ in 0..3 {
        t.increment(2);
    }
    for _ in 0..3 {
        t.increment(0);
    }
    t.increment(3);
    let rows = t.sorted_entries();
    assert_eq!(rows, vec![(0, 3), (2, 3), (3, 1)]);
    assert_eq!(syscall_name(rows[0].0), "read");
    assert_eq!(syscall_name(rows[1].0), "open");
    assert_eq!(syscall_name(rows[2].0), "close");
}

#[test]
fn summary_breaks_all_ties_by_ascending_number() {
    let mut t = CountTable::new();
    t.increment(9);
    t.increment(9);
    t.increment(1);
    t.increment(1);
    t.increment(5);
    t.increment(5);
    assert_eq!(t.sorted_entries(), vec![(1, 2), (5, 2), (9, 2)]);
}

#[test]
fn summary_descends_by_count() {
    let mut t = CountTable::new();
    t.increment(12);
    t.increment(3);
    t.increment(3);
    t.increment(3);
    t.increment(-7);
    t.increment(-7);
    assert_eq!(t.sorted_entries(), vec![(3, 3), (-7, 2), (12, 1)]);
}
