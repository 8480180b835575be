use rvemu_harness::profile::{sort_by_count, FreqEntry};

fn entry(name: &str, count: u64) -> FreqEntry {
    FreqEntry { name: name.to_string(), count }
}

#[test]
fn sort_orders_by_count_descending() {
    let table = vec![entry("addi", 1), entry("ld", 3), entry("sd", 2)];
    let sorted = sort_by_count(table);
    assert_eq!(sorted.len(), 3);
    assert_eq!(sorted[0].name, "ld");
    assert_eq!(sorted[0].count, 3);
    assert_eq!(sorted[1].name, "sd");
    assert_eq!(sorted[1].count, 2);
    assert_eq!(sorted[2].name, "addi");
    assert_eq!(sorted[2].count, 1);
}

#[test]
fn sort_keeps_incoming_order_of_ties() {
    let table = vec![entry("beq", 2), entry("jal", 2), entry("lw", 5), entry("or", 2)];
    let sorted = sort_by_count(table);
    assert_eq!(sorted.len(), 4);
    assert_eq!(sorted[0].name, "lw");
    assert_eq!(sorted[1].name, "beq");
    assert_eq!(sorted[2].name, "jal");
    assert_eq!(sorted[3].name, "or");
}

#[test]
fn sort_of_empty_table_is_empty() {
    let sorted = sort_by_count(Vec::new());
    assert_eq!(sorted.len(), 0);
}

#[test]
fn sort_of_single_entry_is_unchanged() {
    let sorted = sort_by_count(vec![entry("ecall", 7)]);
    assert_eq!(sorted.len(), 1);
    assert_eq!(sorted[0].name, "ecall");
    assert_eq!(sorted[0].count, 7);
}

#[test]
fn sort_result_is_nonincreasing() {
    let table = vec![
        entry("a", 4),
        entry("b", 9),
        entry("c", 1),
        entry("d", 9),
        entry("e", 3),
    ];
    let sorted = sort_by_count(table);
    assert_eq!(sorted.len(), 5);
    for w in sorted.windows(2) {
        assert!(w[0].count >= w[1].count);
    }
}
