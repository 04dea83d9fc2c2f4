//! The record type, its input payload, and the bounded codec between records and bytes.
use vstd::prelude::*;

verus! {

/// The largest number of bytes that one encoded record may take.
pub const MAX_RECORD_SIZE: usize = 1024;

/// A stored message.
#[derive(Clone, Debug)]
pub struct Message {
    pub id: u64,
    pub title: String,
    pub body: String,
    pub attachment_url: String,
    pub created_at: u64,
    pub updated_at: Option<u64>,
}

/// The input of a create or an update: the three text fields of a message.
#[derive(Clone, Debug)]
pub struct MessagePayload {
    pub title: String,
    pub body: String,
    pub attachment_url: String,
}

/// What a message is, as a mathematical value.
pub struct MessageView {
    pub id: u64,
    pub title: Seq<char>,
    pub body: Seq<char>,
    pub attachment_url: Seq<char>,
    pub created_at: u64,
    pub updated_at: Option<u64>,
}

/// What a payload is, as a mathematical value.
pub struct PayloadView {
    pub title: Seq<char>,
    pub body: Seq<char>,
    pub attachment_url: Seq<char>,
}

impl View for Message {
    type V = MessageView;

    open spec fn view(&self) -> MessageView {
        MessageView {
            id: self.id,
            title: self.title@,
            body: self.body@,
            attachment_url: self.attachment_url@,
            created_at: self.created_at,
            updated_at: self.updated_at,
        }
    }
}

impl View for MessagePayload {
    type V = PayloadView;

    open spec fn view(&self) -> PayloadView {
        PayloadView {
            title: self.title@,
            body: self.body@,
            attachment_url: self.attachment_url@,
        }
    }
}

/// An internal failure: a broken storage or encoding invariant, not a user error.
#[derive(Clone, Copy, Debug, PartialEq, Eq, Structural)]
pub enum Fault {
    /// A record's encoding is longer than `MAX_RECORD_SIZE`.
    TooLarge,
    /// Stored bytes are not the encoding of a record.
    Decode,
    /// The counter region holds a layout that cannot be loaded.
    CounterInit,
    /// The counter could not be written back.
    CounterPersist,
    /// Every id has been handed out.
    IdsExhausted,
}

/// Why candid could not encode or decode a value.
#[verifier::external_type_specification]
#[verifier::external_body]
pub struct ExCandidError(candid::Error);

/// The candid bytes of a record: its six fields as one tuple value.
pub uninterp spec fn candid_bytes(m: MessageView) -> Seq<u8>;

/// Relies on `candid::encode_one`: the candid bytes of the record's fields. For integers,
/// strings and an optional integer the serializer fails only where writing into a `Vec`
/// fails, which it does not.
#[verifier::external_body]
fn encode_fields(m: &Message) -> (r: Result<Vec<u8>, candid::Error>)
    ensures
        r is Ok && r->Ok_0@ == candid_bytes(m@),
{
    candid::encode_one(
        (m.id, &m.title, &m.body, &m.attachment_url, m.created_at, m.updated_at),
    )
}

/// Relies on `candid::decode_one`: decoding the candid bytes of a record gives that
/// record back.
#[verifier::external_body]
fn decode_fields(bytes: &[u8]) -> (r: Result<Message, candid::Error>)
    ensures
        forall|v: MessageView|
            #[trigger] candid_bytes(v) == bytes@ ==> r is Ok && r->Ok_0@ == v,
{
    candid::decode_one::<(u64, String, String, String, u64, Option<u64>)>(bytes).map(
        |(id, title, body, attachment_url, created_at, updated_at)|
            Message { id, title, body, attachment_url, created_at, updated_at },
    )
}

/// Accepts an encoding of at most `MAX_RECORD_SIZE` bytes.
pub fn check_size(bytes: Vec<u8>) -> (r: Result<Vec<u8>, Fault>)
    ensures
        bytes@.len() <= MAX_RECORD_SIZE ==> (r matches Ok(b) && b@ == bytes@),
        bytes@.len() > MAX_RECORD_SIZE ==> r == Err::<Vec<u8>, Fault>(Fault::TooLarge),
{
    if bytes.len() <= MAX_RECORD_SIZE {
        Ok(bytes)
    } else {
        Err(Fault::TooLarge)
    }
}

impl Message {
    /// Encodes the record, refusing an encoding longer than `MAX_RECORD_SIZE`.
    pub fn to_bytes(&self) -> (r: Result<Vec<u8>, Fault>)
        ensures
            candid_bytes(self@).len() <= MAX_RECORD_SIZE ==> (r matches Ok(b) && b@
                == candid_bytes(self@)),
            candid_bytes(self@).len() > MAX_RECORD_SIZE ==> r == Err::<Vec<u8>, Fault>(
                Fault::TooLarge,
            ),
    {
        match encode_fields(self) {
            Ok(bytes) => check_size(bytes),
            Err(_) => Err(Fault::TooLarge),
        }
    }

    /// Decodes a record; the bytes that `to_bytes` gave for a record decode to it.
    pub fn from_bytes(bytes: &[u8]) -> (r: Result<Message, Fault>)
        ensures
            forall|v: MessageView| #[trigger]
                candid_bytes(v) == bytes@ ==> (r matches Ok(m) && m@ == v),
            r is Err ==> r == Err::<Message, Fault>(Fault::Decode),
    {
        match decode_fields(bytes) {
            Ok(m) => Ok(m),
            Err(_) => Err(Fault::Decode),
        }
    }
}

} // verus!
