//! The board: a durable id counter and a durable record map, with the four record
//! operations over them.
use crate::message::{
    candid_bytes, Fault, Message, MessagePayload, MessageView, PayloadView, MAX_RECORD_SIZE,
};
use crate::storage::{
    cell_get, cell_new, cell_set, cell_value, map_contents, map_get, map_insert, map_new,
    map_remove, CounterCell, RecordMap, Region,
};
use vstd::prelude::*;

verus! {

/// The operation that found no record.
#[derive(Clone, Copy, Debug, PartialEq, Eq, Structural)]
pub enum Operation {
    Read,
    Update,
    Delete,
}

/// What a record operation can fail with.
#[derive(Clone, Copy, Debug, PartialEq, Eq, Structural)]
pub enum BoardError {
    /// No record has the id.
    NotFound { id: u64, operation: Operation },
    /// A storage or encoding invariant broke; the operation was abandoned.
    Internal { fault: Fault },
}

/// The board's durable state: the last id handed out, and the bytes stored under each id.
pub struct BoardModel {
    pub next_id: u64,
    pub stored: Map<u64, Seq<u8>>,
}

/// The record operations over one durable memory.
pub struct Board {
    counter: CounterCell,
    records: RecordMap,
}

impl View for Board {
    type V = BoardModel;

    closed spec fn view(&self) -> BoardModel {
        BoardModel { next_id: cell_value(self.counter), stored: map_contents(self.records) }
    }
}

/// The board stores `v` under `id`.
pub open spec fn holds(s: BoardModel, id: u64, v: MessageView) -> bool {
    s.stored.contains_key(id) && s.stored[id] == candid_bytes(v)
}

/// The record that a create builds from `p` at time `now`.
pub open spec fn created(s: BoardModel, p: PayloadView, now: u64) -> MessageView {
    MessageView {
        id: (s.next_id + 1) as u64,
        title: p.title,
        body: p.body,
        attachment_url: p.attachment_url,
        created_at: now,
        updated_at: None,
    }
}

/// The state after a create of `p` at time `now` succeeded.
pub open spec fn after_create(s: BoardModel, p: PayloadView, now: u64) -> BoardModel {
    let m = created(s, p, now);
    BoardModel { next_id: m.id, stored: s.stored.insert(m.id, candid_bytes(m)) }
}

/// The record that an update with `p` at time `now` makes of `v`.
pub open spec fn updated(v: MessageView, p: PayloadView, now: u64) -> MessageView {
    MessageView {
        id: v.id,
        title: p.title,
        body: p.body,
        attachment_url: p.attachment_url,
        created_at: v.created_at,
        updated_at: Some(now),
    }
}

/// The state after `v` was written under `id`.
pub open spec fn after_write(s: BoardModel, id: u64, v: MessageView) -> BoardModel {
    BoardModel { next_id: s.next_id, stored: s.stored.insert(id, candid_bytes(v)) }
}

/// The state after the record under `id` was deleted.
pub open spec fn after_delete(s: BoardModel, id: u64) -> BoardModel {
    BoardModel { next_id: s.next_id, stored: s.stored.remove(id) }
}

/// Writes `message` under `key`; on failure nothing changes.
fn store_at(board: &mut Board, key: u64, message: &Message) -> (r: Result<(), Fault>)
    ensures
        candid_bytes(message@).len() <= MAX_RECORD_SIZE ==> r is Ok && final(board)@
            == after_write(old(board)@, key, message@),
        candid_bytes(message@).len() > MAX_RECORD_SIZE ==> r == Err::<(), Fault>(
            Fault::TooLarge,
        ) && final(board)@ == old(board)@,
{
    let bytes = message.to_bytes()?;
    let _ = map_insert(&mut board.records, key, bytes);
    Ok(())
}

/// Writes `message` under its own id, replacing what was there; on failure nothing
/// changes.
pub fn do_insert(board: &mut Board, message: &Message) -> (r: Result<(), Fault>)
    ensures
        candid_bytes(message@).len() <= MAX_RECORD_SIZE ==> r is Ok && final(board)@
            == after_write(old(board)@, message.id, message@),
        candid_bytes(message@).len() > MAX_RECORD_SIZE ==> r == Err::<(), Fault>(
            Fault::TooLarge,
        ) && final(board)@ == old(board)@,
{
    store_at(board, message.id, message)
}

/// The record stored under `id`, if there is one.
pub fn _get_message(board: &Board, id: &u64) -> (r: Result<Option<Message>, Fault>)
    ensures
        !board@.stored.contains_key(*id) ==> r matches Ok(None),
        forall|v: MessageView| #[trigger]
            holds(board@, *id, v) ==> (r matches Ok(Some(m)) && m@ == v),
        board@.stored.contains_key(*id) ==> (r matches Ok(Some(_)) || r == Err::<
            Option<Message>,
            Fault,
        >(Fault::Decode)),
{
    match map_get(&board.records, *id) {
        Some(bytes) => match Message::from_bytes(bytes.as_slice()) {
            Ok(m) => Ok(Some(m)),
            Err(f) => Err(f),
        },
        None => Ok(None),
    }
}

impl Board {
    /// A board over a counter and a record map that the embedding program opened.
    /// One durable memory backs one board at a time: two boards over the same regions
    /// would hand out the same ids.
    pub fn new(counter: CounterCell, records: RecordMap) -> (r: Board)
        ensures
            r@ == (BoardModel { next_id: cell_value(counter), stored: map_contents(records) }),
    {
        Board { counter, records }
    }

    /// A new board written over two regions: the counter at 0 and no records. It fails
    /// only where the counter region cannot be written.
    pub fn fresh(counter_region: Region, records_region: Region) -> (r: Result<Board, Fault>)
        ensures
            r matches Ok(b) ==> b@ == (BoardModel {
                next_id: 0,
                stored: Map::<u64, Seq<u8>>::empty(),
            }),
            r is Err ==> r == Err::<Board, Fault>(Fault::CounterInit),
    {
        let counter = match cell_new(counter_region, 0) {
            Ok(c) => c,
            Err(_) => return Err(Fault::CounterInit),
        };
        let records = map_new(records_region);
        Ok(Board { counter, records })
    }

    /// The last id handed out; 0 before the first create.
    pub fn last_id(&self) -> (r: u64)
        ensures
            r == self@.next_id,
    {
        cell_get(&self.counter)
    }

    /// Advances the counter and returns the new id.
    fn next_id(&mut self) -> (r: Result<u64, Fault>)
        ensures
            old(self)@.next_id < u64::MAX ==> (r is Ok ==> r == Ok::<u64, Fault>(
                (old(self)@.next_id + 1) as u64,
            )),
            r is Ok ==> final(self)@ == (BoardModel {
                next_id: r->Ok_0,
                stored: old(self)@.stored,
            }),
            r is Err ==> final(self)@ == old(self)@,
            old(self)@.next_id == u64::MAX <==> r == Err::<u64, Fault>(Fault::IdsExhausted),
            r is Err ==> r == Err::<u64, Fault>(Fault::IdsExhausted) || r == Err::<u64, Fault>(
                Fault::CounterPersist,
            ),
    {
        let current = cell_get(&self.counter);
        if current == u64::MAX {
            return Err(Fault::IdsExhausted);
        }
        let id = current + 1;
        match cell_set(&mut self.counter, id) {
            Ok(_) => Ok(id),
            Err(_) => Err(Fault::CounterPersist),
        }
    }
    /// Creates a record from `payload` at time `now` under a freshly minted id.
    /// A failure after the id was minted leaves a gap in the ids, and no record.
    pub fn add_message(&mut self, payload: MessagePayload, now: u64) -> (r: Result<
        Message,
        BoardError,
    >)
        ensures
            r matches Ok(m) ==> m@ == created(old(self)@, payload@, now) && final(self)@
                == after_create(old(self)@, payload@, now),
            r matches Ok(m) ==> candid_bytes(m@).len() <= MAX_RECORD_SIZE,
            old(self)@.next_id == u64::MAX ==> r == Err::<Message, BoardError>(
                BoardError::Internal { fault: Fault::IdsExhausted },
            ) && final(self)@ == old(self)@,
            r == Err::<Message, BoardError>(BoardError::Internal { fault: Fault::IdsExhausted })
                ==> old(self)@.next_id == u64::MAX,
            old(self)@.next_id < u64::MAX && candid_bytes(
                created(old(self)@, payload@, now),
            ).len() <= MAX_RECORD_SIZE ==> r is Ok || (r == Err::<Message, BoardError>(
                BoardError::Internal { fault: Fault::CounterPersist },
            ) && final(self)@ == old(self)@),
            old(self)@.next_id < u64::MAX && candid_bytes(
                created(old(self)@, payload@, now),
            ).len() > MAX_RECORD_SIZE ==> r is Err,
            r is Err ==> r matches Err(BoardError::Internal { .. }),
            r is Err ==> final(self)@.stored == old(self)@.stored,
            r is Err ==> final(self)@.next_id == old(self)@.next_id || final(self)@.next_id
                == old(self)@.next_id + 1,
            r is Err && final(self)@.next_id != old(self)@.next_id ==> r == Err::<
                Message,
                BoardError,
            >(BoardError::Internal { fault: Fault::TooLarge }) && candid_bytes(
                created(old(self)@, payload@, now),
            ).len() > MAX_RECORD_SIZE,
            final(self)@.next_id >= old(self)@.next_id,
    {
        let id = match self.next_id() {
            Ok(id) => id,
            Err(fault) => return Err(BoardError::Internal { fault }),
        };
        let message = Message {
            id,
            title: payload.title,
            body: payload.body,
            attachment_url: payload.attachment_url,
            created_at: now,
            updated_at: None,
        };
        match do_insert(self, &message) {
            Ok(()) => Ok(message),
            Err(fault) => Err(BoardError::Internal { fault }),
        }
    }

    /// The record under `id`.
    pub fn get_message(&self, id: u64) -> (r: Result<Message, BoardError>)
        ensures
            !self@.stored.contains_key(id) ==> r == Err::<Message, BoardError>(
                BoardError::NotFound { id, operation: Operation::Read },
            ),
            forall|v: MessageView| #[trigger]
                holds(self@, id, v) ==> (r matches Ok(m) && m@ == v),
            self@.stored.contains_key(id) ==> (r is Ok || r == Err::<Message, BoardError>(
                BoardError::Internal { fault: Fault::Decode },
            )),
    {
        match _get_message(self, &id) {
            Ok(Some(m)) => Ok(m),
            Ok(None) => Err(BoardError::NotFound { id, operation: Operation::Read }),
            Err(fault) => Err(BoardError::Internal { fault }),
        }
    }

    /// Replaces the text fields of the record under `id` with those of `payload`, and
    /// stamps it as updated at `now`; its id and creation time stay.
    pub fn update_message(&mut self, id: u64, payload: MessagePayload, now: u64) -> (r: Result<
        Message,
        BoardError,
    >)
        ensures
            !old(self)@.stored.contains_key(id) ==> r == Err::<Message, BoardError>(
                BoardError::NotFound { id, operation: Operation::Update },
            ),
            forall|v: MessageView| #[trigger]
                holds(old(self)@, id, v) ==> (r matches Ok(m) ==> m@ == updated(
                    v,
                    payload@,
                    now,
                )),
            forall|v: MessageView| #[trigger]
                holds(old(self)@, id, v) && candid_bytes(updated(v, payload@, now)).len()
                    <= MAX_RECORD_SIZE ==> (r matches Ok(m) && m@ == updated(v, payload@, now)
                    && final(self)@ == after_write(old(self)@, id, m@)),
            forall|v: MessageView| #[trigger]
                holds(old(self)@, id, v) && candid_bytes(updated(v, payload@, now)).len()
                    > MAX_RECORD_SIZE ==> r == Err::<Message, BoardError>(
                    BoardError::Internal { fault: Fault::TooLarge },
                ),
            final(self)@.next_id == old(self)@.next_id,
            r matches Ok(m) ==> m@.title == payload@.title && m@.body == payload@.body
                && m@.attachment_url == payload@.attachment_url && m@.updated_at == Some(now)
                && final(self)@ == after_write(old(self)@, id, m@),
            r matches Ok(m) ==> candid_bytes(m@).len() <= MAX_RECORD_SIZE,
            r is Err ==> final(self)@ == old(self)@,
            old(self)@.stored.contains_key(id) && r is Err ==> r matches Err(
                BoardError::Internal { .. },
            ),
    {
        match _get_message(self, &id) {
            Ok(Some(found)) => {
                let message = Message {
                    id: found.id,
                    title: payload.title,
                    body: payload.body,
                    attachment_url: payload.attachment_url,
                    created_at: found.created_at,
                    updated_at: Some(now),
                };
                match store_at(self, id, &message) {
                    Ok(()) => Ok(message),
                    Err(fault) => Err(BoardError::Internal { fault }),
                }
            },
            Ok(None) => Err(BoardError::NotFound { id, operation: Operation::Update }),
            Err(fault) => Err(BoardError::Internal { fault }),
        }
    }

    /// Removes the record under `id` and returns it.
    pub fn delete_message(&mut self, id: u64) -> (r: Result<Message, BoardError>)
        ensures
            !old(self)@.stored.contains_key(id) ==> r == Err::<Message, BoardError>(
                BoardError::NotFound { id, operation: Operation::Delete },
            ),
            forall|v: MessageView| #[trigger]
                holds(old(self)@, id, v) ==> (r matches Ok(m) && m@ == v),
            old(self)@.stored.contains_key(id) ==> (r is Ok || r == Err::<Message, BoardError>(
                BoardError::Internal { fault: Fault::Decode },
            )),
            r is Ok ==> final(self)@ == after_delete(old(self)@, id),
            final(self)@.next_id == old(self)@.next_id,
            r is Err ==> final(self)@ == old(self)@,
    {
        match _get_message(self, &id) {
            Ok(Some(m)) => {
                let _ = map_remove(&mut self.records, id);
                Ok(m)
            },
            Ok(None) => Err(BoardError::NotFound { id, operation: Operation::Delete }),
            Err(fault) => Err(BoardError::Internal { fault }),
        }
    }
}

} // verus!
