use game_session::ident::{CorrelationId, Identity};
use game_session::outcome::Outcome;
use game_session::record::{SessionRecord, SessionStatus};
use game_session::table::SessionTable;

fn table_user(n: u8) -> Identity {
    Identity::new([n; 32])
}

#[test]
fn new_table_is_empty() {
    let table = SessionTable::new();
    assert_eq!(table.len(), 0);
    assert!(table.get(table_user(1)).is_none());
}

#[test]
fn get_does_not_create() {
    let table = SessionTable::new();
    assert!(table.get(table_user(1)).is_none());
    assert!(table.get(table_user(1)).is_none());
    assert_eq!(table.len(), 0);
}

#[test]
fn get_mut_does_not_create() {
    let mut table = SessionTable::new();
    assert!(table.get_mut(table_user(1)).is_none());
    assert_eq!(table.len(), 0);
    assert!(table.get(table_user(1)).is_none());
}

#[test]
fn get_or_create_makes_a_fresh_record_once() {
    let mut table = SessionTable::new();
    assert_eq!(*table.get_or_create(table_user(1)), SessionRecord::new());
    assert_eq!(table.len(), 1);
    table.get_or_create(table_user(1)).attempts = 3;
    assert_eq!(table.len(), 1);
    assert_eq!(table.get_or_create(table_user(1)).attempts, 3);
    assert_eq!(table.get(table_user(1)).unwrap().attempts, 3);
    assert_eq!(table.len(), 1);
}

#[test]
fn records_of_different_users_are_independent() {
    let mut table = SessionTable::new();
    table.get_or_create(table_user(1)).status = SessionStatus::AwaitingUserInput;
    table.get_or_create(table_user(2)).status = SessionStatus::Finished(Outcome::Win);
    table.get_or_create(table_user(1)).round_id = CorrelationId::new([5; 32]);
    assert_eq!(table.len(), 2);
    assert_eq!(table.get(table_user(1)).unwrap().status, SessionStatus::AwaitingUserInput);
    assert_eq!(table.get(table_user(1)).unwrap().round_id, CorrelationId::new([5; 32]));
    assert_eq!(table.get(table_user(2)).unwrap().status, SessionStatus::Finished(Outcome::Win));
    assert_eq!(table.get(table_user(2)).unwrap().round_id, CorrelationId::zero());
    assert!(table.get(table_user(3)).is_none());
}

#[test]
fn get_mut_changes_the_record_in_place() {
    let mut table = SessionTable::new();
    table.get_or_create(table_user(1));
    table.get_or_create(table_user(2));
    table.get_mut(table_user(2)).unwrap().attempts = 4;
    assert_eq!(table.get(table_user(1)).unwrap().attempts, 0);
    assert_eq!(table.get(table_user(2)).unwrap().attempts, 4);
    assert_eq!(table.len(), 2);
}

#[test]
fn entries_come_in_the_order_of_first_contact() {
    let mut table = SessionTable::new();
    table.get_or_create(table_user(7));
    table.get_or_create(table_user(3));
    table.get_or_create(table_user(7)).attempts = 2;
    table.get_or_create(table_user(9));
    assert_eq!(table.len(), 3);
    let (first, first_record) = table.entry(0).unwrap();
    let (second, _) = table.entry(1).unwrap();
    let (third, _) = table.entry(2).unwrap();
    assert_eq!(first, table_user(7));
    assert_eq!(first_record.attempts, 2);
    assert_eq!(second, table_user(3));
    assert_eq!(third, table_user(9));
    assert!(table.entry(3).is_none());
    assert!(table.entry(usize::MAX).is_none());
}

#[test]
fn empty_table_has_no_entries() {
    let table = SessionTable::new();
    assert!(table.entry(0).is_none());
}

#[test]
fn users_that_differ_in_one_byte_have_separate_records() {
    let mut a = [0u8; 32];
    let mut b = [0u8; 32];
    a[31] = 1;
    b[30] = 1;
    let mut table = SessionTable::new();
    table.get_or_create(Identity::new(a)).attempts = 1;
    table.get_or_create(Identity::new(b)).attempts = 2;
    assert_eq!(table.len(), 2);
    assert_eq!(table.get(Identity::new(a)).unwrap().attempts, 1);
    assert_eq!(table.get(Identity::new(b)).unwrap().attempts, 2);
}
