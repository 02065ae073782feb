//! The chat's wire vocabulary and its byte encoding.
//!
//! A message is written as one kind byte, the 32 bytes of the author, the
//! payload length as a little-endian `u64`, and the payload. Text payloads
//! are UTF-8.
use vstd::prelude::*;
use vstd::utf8::{decode_utf8, encode_utf8, encode_utf8_decode_utf8, encode_utf8_valid_utf8, valid_utf8};

verus! {

broadcast use {encode_utf8_valid_utf8, encode_utf8_decode_utf8};

/// Length in bytes of an author identifier.
pub const AUTHOR_LEN: usize = 32;

/// Bytes in front of the payload: kind, author, payload length.
pub const HEADER_LEN: usize = 41;

/// The identity of a participant, as the 32 bytes of its public key.
#[derive(Clone, Copy, Debug, PartialEq, Eq, Hash)]
pub struct AuthorId {
    pub bytes: [u8; 32],
}

impl View for AuthorId {
    type V = Seq<u8>;

    open spec fn view(&self) -> Seq<u8> {
        self.bytes@
    }
}

impl AuthorId {
    pub fn from_bytes(bytes: [u8; 32]) -> (r: AuthorId)
        ensures
            r@ == bytes@,
    {
        AuthorId { bytes }
    }

    pub fn to_bytes(&self) -> (r: [u8; 32])
        ensures
            r@ == self@,
    {
        self.bytes
    }
}

/// A chat message: every variant names the author it comes from.
#[derive(Clone, Debug, PartialEq, Eq)]
pub enum Message {
    TextMessage { author: AuthorId, content: String },
    BlobMessage { author: AuthorId, content: Vec<u8> },
    AuthorMessage { author: AuthorId, content: String },
    ChatTicket { author: AuthorId, content: String },
}

/// The mathematical value of a message.
pub enum MessageModel {
    Text { author: Seq<u8>, content: Seq<char> },
    Blob { author: Seq<u8>, content: Seq<u8> },
    Author { author: Seq<u8>, content: Seq<char> },
    Ticket { author: Seq<u8>, content: Seq<char> },
}

/// The message's bytes could not be read as a message.
#[derive(Clone, Copy, Debug, PartialEq, Eq)]
pub struct DecodeError;

impl View for Message {
    type V = MessageModel;

    open spec fn view(&self) -> MessageModel {
        match self {
            Message::TextMessage { author, content } => MessageModel::Text {
                author: author@,
                content: content@,
            },
            Message::BlobMessage { author, content } => MessageModel::Blob {
                author: author@,
                content: content@,
            },
            Message::AuthorMessage { author, content } => MessageModel::Author {
                author: author@,
                content: content@,
            },
            Message::ChatTicket { author, content } => MessageModel::Ticket {
                author: author@,
                content: content@,
            },
        }
    }
}

impl MessageModel {
    pub open spec fn kind(self) -> u8 {
        match self {
            MessageModel::Text { .. } => 0,
            MessageModel::Blob { .. } => 1,
            MessageModel::Author { .. } => 2,
            MessageModel::Ticket { .. } => 3,
        }
    }

    pub open spec fn author(self) -> Seq<u8> {
        match self {
            MessageModel::Text { author, .. } => author,
            MessageModel::Blob { author, .. } => author,
            MessageModel::Author { author, .. } => author,
            MessageModel::Ticket { author, .. } => author,
        }
    }

    /// The payload bytes: UTF-8 for the text variants, raw for a blob.
    pub open spec fn payload(self) -> Seq<u8> {
        match self {
            MessageModel::Text { content, .. } => encode_utf8(content),
            MessageModel::Blob { content, .. } => content,
            MessageModel::Author { content, .. } => encode_utf8(content),
            MessageModel::Ticket { content, .. } => encode_utf8(content),
        }
    }

    /// What every message built from values satisfies.
    pub open spec fn wf(self) -> bool {
        &&& self.author().len() == AUTHOR_LEN
        &&& self.payload().len() <= u64::MAX
    }
}

/// `n` as eight little-endian bytes.
pub open spec fn le64(n: u64) -> Seq<u8> {
    seq![
        n as u8,
        (n >> 8u64) as u8,
        (n >> 16u64) as u8,
        (n >> 24u64) as u8,
        (n >> 32u64) as u8,
        (n >> 40u64) as u8,
        (n >> 48u64) as u8,
        (n >> 56u64) as u8,
    ]
}

/// The `u64` whose little-endian bytes are the first eight of `b`.
pub open spec fn from_le64(b: Seq<u8>) -> u64 {
    (b[0] as u64) | ((b[1] as u64) << 8u64) | ((b[2] as u64) << 16u64) | ((b[3] as u64)
        << 24u64) | ((b[4] as u64) << 32u64) | ((b[5] as u64) << 40u64) | ((b[6] as u64)
        << 48u64) | ((b[7] as u64) << 56u64)
}

/// The bytes that a message is written as.
pub open spec fn encode(m: MessageModel) -> Seq<u8> {
    seq![m.kind()] + m.author() + le64(m.payload().len() as u64) + m.payload()
}

/// The message that bytes stand for, if any.
pub open spec fn decode(b: Seq<u8>) -> Option<MessageModel> {
    if b.len() < HEADER_LEN || b[0] > 3 {
        None
    } else {
        let author = b.subrange(1, 33);
        let payload = b.subrange(HEADER_LEN as int, b.len() as int);
        if payload.len() != from_le64(b.subrange(33, 41)) {
            None
        } else if b[0] == 1 {
            Some(MessageModel::Blob { author, content: payload })
        } else if !valid_utf8(payload) {
            None
        } else if b[0] == 0 {
            Some(MessageModel::Text { author, content: decode_utf8(payload) })
        } else if b[0] == 2 {
            Some(MessageModel::Author { author, content: decode_utf8(payload) })
        } else {
            Some(MessageModel::Ticket { author, content: decode_utf8(payload) })
        }
    }
}

pub proof fn lemma_le64_round_trip(n: u64)
    ensures
        from_le64(le64(n)) == n,
{
    let b = le64(n);
    let (b0, b1, b2, b3, b4, b5, b6, b7) = (b[0], b[1], b[2], b[3], b[4], b[5], b[6], b[7]);
    assert(b0 == n as u8 && b1 == (n >> 8u64) as u8 && b2 == (n >> 16u64) as u8 && b3 == (n
        >> 24u64) as u8 && b4 == (n >> 32u64) as u8 && b5 == (n >> 40u64) as u8 && b6 == (n
        >> 48u64) as u8 && b7 == (n >> 56u64) as u8);
    assert((n as u8 as u64) | (((n >> 8u64) as u8 as u64) << 8u64) | (((n >> 16u64) as u8 as u64)
        << 16u64) | (((n >> 24u64) as u8 as u64) << 24u64) | (((n >> 32u64) as u8 as u64)
        << 32u64) | (((n >> 40u64) as u8 as u64) << 40u64) | (((n >> 48u64) as u8 as u64)
        << 48u64) | (((n >> 56u64) as u8 as u64) << 56u64) == n) by (bit_vector);
}

/// Decoding the bytes that a message is written as gives the message back.
pub proof fn lemma_round_trip(m: MessageModel)
    requires
        m.wf(),
    ensures
        decode(encode(m)) == Some(m),
{
    let b = encode(m);
    let p = m.payload();
    lemma_le64_round_trip(p.len() as u64);
    assert(b.subrange(1, 33) =~= m.author());
    assert(b.subrange(33, 41) =~= le64(p.len() as u64));
    assert(b.subrange(HEADER_LEN as int, b.len() as int) =~= p);
}

/// Relies on `String::from_utf8`: it accepts exactly the byte sequences that
/// are valid UTF-8, and the string it returns holds those bytes.
#[verifier::external_body]
pub(crate) fn string_from_utf8(v: Vec<u8>) -> (r: Option<String>)
    ensures
        r is Some <==> valid_utf8(v@),
        r is Some ==> r->0@ == decode_utf8(v@),
{
    String::from_utf8(v).ok()
}

fn push_le64(out: &mut Vec<u8>, n: u64)
    ensures
        final(out)@ == old(out)@ + le64(n),
{
    out.push(n as u8);
    out.push((n >> 8u64) as u8);
    out.push((n >> 16u64) as u8);
    out.push((n >> 24u64) as u8);
    out.push((n >> 32u64) as u8);
    out.push((n >> 40u64) as u8);
    out.push((n >> 48u64) as u8);
    out.push((n >> 56u64) as u8);
    assert(final(out)@ =~= old(out)@ + le64(n));
}

fn push_all(out: &mut Vec<u8>, b: &[u8])
    ensures
        final(out)@ == old(out)@ + b@,
{
    let ghost start = out@;
    let mut i: usize = 0;
    while i < b.len()
        invariant
            i <= b@.len(),
            out@ == start + b@.subrange(0, i as int),
        decreases b@.len() - i,
    {
        out.push(b[i]);
        i = i + 1;
        assert(out@ =~= start + b@.subrange(0, i as int));
    }
    assert(b@.subrange(0, i as int) =~= b@);
}

fn copy_range(b: &[u8], lo: usize, hi: usize) -> (r: Vec<u8>)
    requires
        lo <= hi <= b@.len(),
    ensures
        r@ == b@.subrange(lo as int, hi as int),
{
    let mut r: Vec<u8> = Vec::new();
    let mut i: usize = lo;
    while i < hi
        invariant
            lo <= i <= hi <= b@.len(),
            r@ == b@.subrange(lo as int, i as int),
        decreases hi - i,
    {
        r.push(b[i]);
        i = i + 1;
        assert(r@ =~= b@.subrange(lo as int, i as int));
    }
    r
}

impl Message {
    pub fn new_text(author: AuthorId, content: String) -> (r: Self)
        ensures
            r@ == (MessageModel::Text { author: author@, content: content@ }),
    {
        Message::TextMessage { author, content }
    }

    pub fn new_blob(author: AuthorId, content: &[u8]) -> (r: Self)
        ensures
            r@ == (MessageModel::Blob { author: author@, content: content@ }),
    {
        let c = copy_range(content, 0, content.len());
        assert(content@.subrange(0, content@.len() as int) =~= content@);
        Message::BlobMessage { author, content: c }
    }

    pub fn set_username(author: AuthorId, content: String) -> (r: Self)
        ensures
            r@ == (MessageModel::Author { author: author@, content: content@ }),
    {
        Message::AuthorMessage { author, content }
    }

    pub fn set_ticket(author: AuthorId, content: String) -> (r: Self)
        ensures
            r@ == (MessageModel::Ticket { author: author@, content: content@ }),
    {
        Message::ChatTicket { author, content }
    }

    pub fn author(&self) -> (r: AuthorId)
        ensures
            r@ == self@.author(),
    {
        match self {
            Message::TextMessage { author, .. } => *author,
            Message::BlobMessage { author, .. } => *author,
            Message::AuthorMessage { author, .. } => *author,
            Message::ChatTicket { author, .. } => *author,
        }
    }

    fn payload_bytes(&self) -> (r: &[u8])
        ensures
            r@ == self@.payload(),
    {
        match self {
            Message::TextMessage { content, .. } => content.as_str().as_bytes(),
            Message::BlobMessage { content, .. } => content.as_slice(),
            Message::AuthorMessage { content, .. } => content.as_str().as_bytes(),
            Message::ChatTicket { content, .. } => content.as_str().as_bytes(),
        }
    }

    fn kind(&self) -> (r: u8)
        ensures
            r == self@.kind(),
    {
        match self {
            Message::TextMessage { .. } => 0,
            Message::BlobMessage { .. } => 1,
            Message::AuthorMessage { .. } => 2,
            Message::ChatTicket { .. } => 3,
        }
    }

    /// The bytes this message is written as in the shared document.
    pub fn serialize(&self) -> (r: Vec<u8>)
        ensures
            r@ == encode(self@),
            decode(r@) == Some(self@),
            self@.wf(),
    {
        let mut out: Vec<u8> = Vec::new();
        out.push(self.kind());
        let author = self.author().to_bytes();
        push_all(&mut out, author.as_slice());
        let payload = self.payload_bytes();
        push_le64(&mut out, payload.len() as u64);
        push_all(&mut out, payload);
        assert(out@ =~= encode(self@));
        proof {
            lemma_round_trip(self@);
        }
        out
    }

    /// Reads a message back from its bytes; fails on bytes that no message is written as.
    pub fn deserialize(bytes: &[u8]) -> (r: Result<Message, DecodeError>)
        ensures
            match decode(bytes@) {
                Some(m) => r is Ok && r->Ok_0@ == m,
                None => r is Err,
            },
    {
        if bytes.len() < HEADER_LEN || bytes[0] > 3 {
            return Err(DecodeError);
        }
        let kind = bytes[0];
        let mut author: [u8; 32] = [0u8; 32];
        let mut i: usize = 0;
        while i < AUTHOR_LEN
            invariant
                i <= AUTHOR_LEN,
                bytes@.len() >= HEADER_LEN,
                forall|j: int| 0 <= j < i ==> author@[j] == bytes@[1 + j],
            decreases AUTHOR_LEN - i,
        {
            author[i] = bytes[1 + i];
            i = i + 1;
        }
        assert(author@ =~= bytes@.subrange(1, 33));
        let author = AuthorId { bytes: author };
        let len: u64 = (bytes[33] as u64) | ((bytes[34] as u64) << 8u64) | ((bytes[35] as u64)
            << 16u64) | ((bytes[36] as u64) << 24u64) | ((bytes[37] as u64) << 32u64) | ((
        bytes[38] as u64) << 40u64) | ((bytes[39] as u64) << 48u64) | ((bytes[40] as u64)
            << 56u64);
        assert(len == from_le64(bytes@.subrange(33, 41)));
        if (bytes.len() - HEADER_LEN) as u64 != len {
            return Err(DecodeError);
        }
        let payload = copy_range(bytes, HEADER_LEN, bytes.len());
        if kind == 1 {
            return Ok(Message::BlobMessage { author, content: payload });
        }
        match string_from_utf8(payload) {
            None => Err(DecodeError),
            Some(content) => {
                if kind == 0 {
                    Ok(Message::TextMessage { author, content })
                } else if kind == 2 {
                    Ok(Message::AuthorMessage { author, content })
                } else {
                    Ok(Message::ChatTicket { author, content })
                }
            },
        }
    }
}

} // verus!
