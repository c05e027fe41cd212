use chorus_prayers::address::Address;
use chorus_prayers::state::Claim;
use chorus_prayers::table::Table;

fn holder(n: u8) -> Address {
    Address::new([n; 32])
}

fn entry(prayer_id: u64, claimer: u8, claimed_at: i64) -> Claim {
    Claim { prayer_id, claimer: holder(claimer), content_delivered: false, claimed_at }
}

#[test]
fn an_empty_table_has_no_rows() {
    let table: Table<Claim> = Table::new();
    assert_eq!(table.len(), 0);
    assert!(!table.contains(&(0, holder(1))));
    assert_eq!(table.get(&(0, holder(1))), None);
}

#[test]
fn a_row_is_found_by_its_whole_key() {
    let mut table: Table<Claim> = Table::new();
    table.insert(entry(1, 7, 100));
    table.insert(entry(2, 7, 200));
    table.insert(entry(1, 8, 300));
    assert_eq!(table.len(), 3);
    assert_eq!(table.get(&(1, holder(7))), Some(&entry(1, 7, 100)));
    assert_eq!(table.get(&(2, holder(7))), Some(&entry(2, 7, 200)));
    assert_eq!(table.get(&(1, holder(8))), Some(&entry(1, 8, 300)));
    assert_eq!(table.get(&(2, holder(8))), None);
    assert!(table.contains(&(1, holder(8))));
    assert!(!table.contains(&(3, holder(7))));
    assert_eq!(*table.row(0), entry(1, 7, 100));
    assert_eq!(*table.row(2), entry(1, 8, 300));
}

#[test]
fn replace_changes_one_row_and_keeps_the_others() {
    let mut table: Table<Claim> = Table::new();
    table.insert(entry(1, 7, 100));
    table.insert(entry(2, 7, 200));
    let mut changed = entry(1, 7, 100);
    changed.content_delivered = true;
    table.replace(&(1, holder(7)), changed);
    assert_eq!(table.len(), 2);
    assert_eq!(table.get(&(1, holder(7))), Some(&changed));
    assert_eq!(table.get(&(2, holder(7))), Some(&entry(2, 7, 200)));
}

#[test]
fn remove_takes_out_the_row_with_the_key() {
    let mut table: Table<Claim> = Table::new();
    table.insert(entry(1, 7, 100));
    table.insert(entry(2, 7, 200));
    table.insert(entry(1, 8, 300));
    assert_eq!(table.remove(&(2, holder(7))), Some(entry(2, 7, 200)));
    assert_eq!(table.len(), 2);
    assert_eq!(table.get(&(2, holder(7))), None);
    assert_eq!(table.get(&(1, holder(7))), Some(&entry(1, 7, 100)));
    assert_eq!(table.get(&(1, holder(8))), Some(&entry(1, 8, 300)));
    assert_eq!(table.remove(&(2, holder(7))), None);
    assert_eq!(table.len(), 2);
    // The key is free again.
    table.insert(entry(2, 7, 400));
    assert_eq!(table.get(&(2, holder(7))), Some(&entry(2, 7, 400)));
}
