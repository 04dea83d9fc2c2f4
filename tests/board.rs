use ic_stable_structures::memory_manager::{MemoryId, MemoryManager};
use ic_stable_structures::{Cell, DefaultMemoryImpl, StableBTreeMap};
use message_board::{
    _get_message, check_size, do_insert, Board, BoardError, CounterCell, Fault, Message,
    MessagePayload, Operation, RecordMap, Region, MAX_RECORD_SIZE,
};

fn payload(title: &str, body: &str, url: &str) -> MessagePayload {
    MessagePayload {
        title: title.to_string(),
        body: body.to_string(),
        attachment_url: url.to_string(),
    }
}

fn fresh_on(memory: DefaultMemoryImpl) -> Board {
    let manager = MemoryManager::init(memory);
    let counter = Region { memory: manager.get(MemoryId::new(0)) };
    let records = Region { memory: manager.get(MemoryId::new(1)) };
    match Board::fresh(counter, records) {
        Ok(b) => b,
        Err(f) => panic!("cannot open a fresh board: {:?}", f),
    }
}

fn fresh() -> Board {
    fresh_on(DefaultMemoryImpl::default())
}

fn reopen(memory: DefaultMemoryImpl) -> Board {
    let manager = MemoryManager::init(memory);
    let counter = CounterCell { cell: Cell::init(manager.get(MemoryId::new(0)), 0).unwrap() };
    let records = RecordMap { map: StableBTreeMap::init(manager.get(MemoryId::new(1))) };
    Board::new(counter, records)
}

fn same(a: &Message, b: &Message) -> bool {
    a.id == b.id
        && a.title == b.title
        && a.body == b.body
        && a.attachment_url == b.attachment_url
        && a.created_at == b.created_at
        && a.updated_at == b.updated_at
}

#[test]
fn scenario_create_delete_read() {
    let mut board = fresh();
    let first = board.add_message(payload("hi", "world", ""), 10).unwrap();
    assert_eq!(first.id, 1);
    assert_eq!(first.title, "hi");
    assert_eq!(first.body, "world");
    assert_eq!(first.attachment_url, "");
    assert_eq!(first.created_at, 10);
    assert_eq!(first.updated_at, None);
    let second = board.add_message(payload("second", "text", "http://x/a.png"), 11).unwrap();
    assert_eq!(second.id, 2);
    let removed = board.delete_message(1).unwrap();
    assert_eq!(removed.id, 1);
    assert!(same(&removed, &first));
    assert_eq!(
        board.get_message(1).unwrap_err(),
        BoardError::NotFound { id: 1, operation: Operation::Read }
    );
    let read = board.get_message(2).unwrap();
    assert!(same(&read, &second));
}

#[test]
fn ids_increase_over_creates() {
    let mut board = fresh();
    assert_eq!(board.last_id(), 0);
    let mut last = 0u64;
    for i in 0..20u64 {
        let m = board.add_message(payload("t", "b", ""), 100 + i).unwrap();
        assert!(m.id > last);
        assert_eq!(m.id, i + 1);
        last = m.id;
    }
    assert_eq!(board.last_id(), 20);
}

#[test]
fn ids_not_reused_after_delete() {
    let mut board = fresh();
    let a = board.add_message(payload("a", "", ""), 1).unwrap();
    board.delete_message(a.id).unwrap();
    let b = board.add_message(payload("b", "", ""), 2).unwrap();
    assert_eq!(b.id, 2);
}

#[test]
fn read_after_create() {
    let mut board = fresh();
    let m = board.add_message(payload("title", "body", "url"), 42).unwrap();
    let r = board.get_message(m.id).unwrap();
    assert!(same(&r, &m));
}

#[test]
fn update_replaces_fields_and_stamps() {
    let mut board = fresh();
    let m = board.add_message(payload("old", "old body", "old url"), 5).unwrap();
    let u = board.update_message(m.id, payload("new", "new body", ""), 9).unwrap();
    assert_eq!(u.id, m.id);
    assert_eq!(u.title, "new");
    assert_eq!(u.body, "new body");
    assert_eq!(u.attachment_url, "");
    assert_eq!(u.created_at, 5);
    assert_eq!(u.updated_at, Some(9));
    let r = board.get_message(m.id).unwrap();
    assert!(same(&r, &u));
    let u2 = board.update_message(m.id, payload("x", "y", "z"), 12).unwrap();
    assert_eq!(u2.created_at, 5);
    assert_eq!(u2.updated_at, Some(12));
}

#[test]
fn delete_then_read_is_not_found() {
    let mut board = fresh();
    let m = board.add_message(payload("a", "b", "c"), 3).unwrap();
    let d = board.delete_message(m.id).unwrap();
    assert!(same(&d, &m));
    assert_eq!(
        board.get_message(m.id).unwrap_err(),
        BoardError::NotFound { id: m.id, operation: Operation::Read }
    );
    assert_eq!(
        board.delete_message(m.id).unwrap_err(),
        BoardError::NotFound { id: m.id, operation: Operation::Delete }
    );
}

#[test]
fn absent_id_is_not_found_everywhere() {
    let mut board = fresh();
    board.add_message(payload("a", "b", "c"), 3).unwrap();
    assert_eq!(
        board.get_message(999).unwrap_err(),
        BoardError::NotFound { id: 999, operation: Operation::Read }
    );
    assert_eq!(
        board.update_message(999, payload("p", "q", "r"), 4).unwrap_err(),
        BoardError::NotFound { id: 999, operation: Operation::Update }
    );
    assert_eq!(
        board.delete_message(999).unwrap_err(),
        BoardError::NotFound { id: 999, operation: Operation::Delete }
    );
    assert!(board.get_message(1).is_ok());
}

#[test]
fn oversized_create_is_refused() {
    let mut board = fresh();
    let big = "x".repeat(2000);
    assert_eq!(
        board.add_message(payload("t", &big, ""), 1).unwrap_err(),
        BoardError::Internal { fault: Fault::TooLarge }
    );
    // the minted id is skipped, not reused
    let m = board.add_message(payload("t", "small", ""), 2).unwrap();
    assert_eq!(m.id, 2);
    assert_eq!(
        board.get_message(1).unwrap_err(),
        BoardError::NotFound { id: 1, operation: Operation::Read }
    );
}

#[test]
fn oversized_update_leaves_record() {
    let mut board = fresh();
    let m = board.add_message(payload("t", "b", "u"), 1).unwrap();
    let big = "y".repeat(1500);
    assert_eq!(
        board.update_message(m.id, payload(&big, "", ""), 2).unwrap_err(),
        BoardError::Internal { fault: Fault::TooLarge }
    );
    let r = board.get_message(m.id).unwrap();
    assert!(same(&r, &m));
}

#[test]
fn codec_round_trip() {
    let m = Message {
        id: 7,
        title: "title".to_string(),
        body: "a body with ünïcode".to_string(),
        attachment_url: "https://example.org/f.png".to_string(),
        created_at: 123,
        updated_at: Some(456),
    };
    let bytes = m.to_bytes().unwrap();
    assert!(bytes.len() <= MAX_RECORD_SIZE);
    assert_eq!(&bytes[..4], b"DIDL");
    let back = Message::from_bytes(&bytes).unwrap();
    assert!(same(&back, &m));
}

#[test]
fn codec_keeps_absent_update_time_distinct() {
    let mut m = Message {
        id: 1,
        title: String::new(),
        body: String::new(),
        attachment_url: String::new(),
        created_at: 0,
        updated_at: None,
    };
    let none_bytes = m.to_bytes().unwrap();
    m.updated_at = Some(0);
    let some_bytes = m.to_bytes().unwrap();
    assert_ne!(none_bytes, some_bytes);
    assert_eq!(Message::from_bytes(&none_bytes).unwrap().updated_at, None);
    assert_eq!(Message::from_bytes(&some_bytes).unwrap().updated_at, Some(0));
}

#[test]
fn codec_refuses_garbage() {
    assert_eq!(Message::from_bytes(b"not candid").unwrap_err(), Fault::Decode);
    assert_eq!(Message::from_bytes(&[]).unwrap_err(), Fault::Decode);
}

#[test]
fn codec_refuses_oversized() {
    let m = Message {
        id: 1,
        title: "z".repeat(1100),
        body: String::new(),
        attachment_url: String::new(),
        created_at: 0,
        updated_at: None,
    };
    assert_eq!(m.to_bytes().unwrap_err(), Fault::TooLarge);
}

#[test]
fn size_bound_edges() {
    assert_eq!(check_size(vec![0u8; 1024]).unwrap().len(), 1024);
    assert_eq!(check_size(vec![]).unwrap().len(), 0);
    assert_eq!(check_size(vec![0u8; 1025]).unwrap_err(), Fault::TooLarge);
}

#[test]
fn insert_and_lookup_helpers() {
    let mut board = fresh();
    assert!(_get_message(&board, &3).unwrap().is_none());
    let m = Message {
        id: 3,
        title: "t".to_string(),
        body: "b".to_string(),
        attachment_url: String::new(),
        created_at: 1,
        updated_at: None,
    };
    do_insert(&mut board, &m).unwrap();
    let got = _get_message(&board, &3).unwrap().unwrap();
    assert!(same(&got, &m));
    let mut m2 = m.clone();
    m2.title = "replaced".to_string();
    do_insert(&mut board, &m2).unwrap();
    assert_eq!(_get_message(&board, &3).unwrap().unwrap().title, "replaced");
}

#[test]
fn state_survives_reopen() {
    let memory = DefaultMemoryImpl::default();
    {
        let mut board = fresh_on(memory.clone());
        board.add_message(payload("one", "1", ""), 1).unwrap();
        board.add_message(payload("two", "2", ""), 2).unwrap();
        board.delete_message(1).unwrap();
    }
    let mut board = reopen(memory);
    assert_eq!(board.last_id(), 2);
    assert_eq!(board.get_message(2).unwrap().title, "two");
    assert!(board.get_message(1).is_err());
    assert_eq!(board.add_message(payload("three", "3", ""), 3).unwrap().id, 3);
}

#[test]
fn fresh_overwrites_old_board() {
    let memory = DefaultMemoryImpl::default();
    {
        let mut board = fresh_on(memory.clone());
        board.add_message(payload("one", "1", ""), 1).unwrap();
    }
    let mut board = fresh_on(memory);
    assert_eq!(board.last_id(), 0);
    assert!(board.get_message(1).is_err());
    assert_eq!(board.add_message(payload("a", "b", "c"), 2).unwrap().id, 1);
}

#[test]
fn reopen_of_empty_memory_starts_at_zero() {
    let mut board = reopen(DefaultMemoryImpl::default());
    assert_eq!(board.last_id(), 0);
    assert_eq!(board.add_message(payload("hi", "world", ""), 1).unwrap().id, 1);
}
