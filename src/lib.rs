//! A durable message board: records keyed by ascending ids, persisted in stable
//! memory regions, with create/read/update/delete over them.

pub mod board;
pub mod laws;
pub mod message;
pub mod storage;

pub use board::{_get_message, do_insert, Board, BoardError, Operation};
pub use storage::{CounterCell, RecordMap, Region};
pub use message::{check_size, Fault, Message, MessagePayload, MAX_RECORD_SIZE};
