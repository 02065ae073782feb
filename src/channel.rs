//! The send side: keys that keep a sender's messages in order, and the
//! entries that a send or a ticket announcement writes.
use vstd::prelude::*;
use crate::entry::{DocModel, Entry};
use crate::message::{encode, AuthorId, Message, MessageModel, AUTHOR_LEN};
use crate::names::{lemma_hex_len, lemma_resolution_stable, name_key, resolution, stored_name};

verus! {

/// Decimal digits in a message key: enough for every `u64`.
pub const KEY_DIGITS: usize = 20;

pub open spec fn pow10(w: nat) -> nat
    decreases w,
{
    if w == 0 {
        1
    } else {
        10 * pow10((w - 1) as nat)
    }
}

/// `n` as `w` decimal digits in ASCII, zero-padded on the left.
pub open spec fn decimal(n: nat, w: nat) -> Seq<u8>
    decreases w,
{
    if w == 0 {
        seq![]
    } else {
        decimal(n / 10, (w - 1) as nat) + seq![(48 + n % 10) as u8]
    }
}

/// The key of the entry that a message sent at `stamp` is written under.
pub open spec fn message_key(stamp: u64) -> Seq<u8> {
    decimal(stamp as nat, KEY_DIGITS as nat)
}

/// The key under which a participant announces the ticket it joined with.
pub open spec fn ticket_key() -> Seq<u8> {
    seq![99u8, 104, 97, 116, 45, 116, 105, 99, 107, 101, 116]
}

/// Byte-wise lexicographic order, the order of the document's keys.
pub open spec fn lex_lt(a: Seq<u8>, b: Seq<u8>) -> bool {
    exists|i: int|
        0 <= i < a.len() && i < b.len() && #[trigger] a.subrange(0, i) == b.subrange(0, i) && a[i]
            < b[i]
}

/// The stamp that a send at time `now` gets, after a send stamped `last`.
pub open spec fn stamp_after(last: Option<u64>, now: u64) -> Option<u64> {
    match last {
        None => Some(now),
        Some(l) => if now > l {
            Some(now)
        } else if l < u64::MAX {
            Some((l + 1) as u64)
        } else {
            None
        },
    }
}

pub proof fn lemma_decimal_len(n: nat, w: nat)
    ensures
        decimal(n, w).len() == w,
    decreases w,
{
    if w > 0 {
        lemma_decimal_len(n / 10, (w - 1) as nat);
    }
}

/// Zero-padded decimals of the same width order as the numbers do.
pub proof fn lemma_decimal_order(n1: nat, n2: nat, w: nat)
    requires
        n1 < n2 < pow10(w),
    ensures
        lex_lt(decimal(n1, w), decimal(n2, w)),
    decreases w,
{
    let w1 = (w - 1) as nat;
    assert(w > 0);
    let (q1, q2) = (n1 / 10, n2 / 10);
    assert(q1 <= q2 < pow10(w1)) by (nonlinear_arith)
        requires
            n1 < n2 < 10 * pow10(w1),
            q1 == n1 / 10,
            q2 == n2 / 10,
    ;
    let (a, b) = (decimal(n1, w), decimal(n2, w));
    lemma_decimal_len(q1, w1);
    lemma_decimal_len(q2, w1);
    if q1 < q2 {
        lemma_decimal_order(q1, q2, w1);
        let i = choose|i: int|
            0 <= i < decimal(q1, w1).len() && i < decimal(q2, w1).len() && #[trigger] decimal(
                q1,
                w1,
            ).subrange(0, i) == decimal(q2, w1).subrange(0, i) && decimal(q1, w1)[i] < decimal(
                q2,
                w1,
            )[i];
        assert(a.subrange(0, i) =~= decimal(q1, w1).subrange(0, i));
        assert(b.subrange(0, i) =~= decimal(q2, w1).subrange(0, i));
        assert(a.subrange(0, i) == b.subrange(0, i) && a[i] < b[i]);
    } else {
        assert(n1 % 10 < n2 % 10);
        assert(a.subrange(0, w1 as int) =~= decimal(q1, w1));
        assert(b.subrange(0, w1 as int) =~= decimal(q2, w1));
        assert(a.subrange(0, w1 as int) == b.subrange(0, w1 as int) && a[w1 as int] < b[w1 as int]);
    }
}

/// A later stamp gives a key that sorts after an earlier one.
pub proof fn lemma_message_key_order(s1: u64, s2: u64)
    requires
        s1 < s2,
    ensures
        lex_lt(message_key(s1), message_key(s2)),
{
    reveal_with_fuel(pow10, 21);
    assert(pow10(20) == 100000000000000000000nat);
    lemma_decimal_order(s1 as nat, s2 as nat, KEY_DIGITS as nat);
}

/// Two sends one after the other, from the same clock, get keys in the
/// order they were sent, whatever the wall clock said at each.
pub proof fn lemma_send_order(last: Option<u64>, now1: u64, now2: u64)
    requires
        stamp_after(last, now1) is Some,
        stamp_after(stamp_after(last, now1), now2) is Some,
    ensures
        lex_lt(
            message_key(stamp_after(last, now1)->0),
            message_key(stamp_after(stamp_after(last, now1), now2)->0),
        ),
{
    lemma_message_key_order(stamp_after(last, now1)->0, stamp_after(stamp_after(last, now1), now2)->0);
}

/// Sending a message leaves every author's display name as it was.
pub proof fn lemma_send_keeps_names(doc: DocModel, author: Seq<u8>, stamp: u64, value: Seq<u8>)
    requires
        author.len() == AUTHOR_LEN,
    ensures
        resolution(author, stored_name(doc.insert(message_key(stamp), value), author))
            == resolution(author, stored_name(doc, author)),
{
    lemma_hex_len(author);
    lemma_decimal_len(stamp as nat, KEY_DIGITS as nat);
    lemma_resolution_stable(doc, author, message_key(stamp), value);
}

/// Announcing a ticket leaves every author's display name as it was.
pub proof fn lemma_ticket_keeps_names(doc: DocModel, author: Seq<u8>, value: Seq<u8>)
    requires
        author.len() == AUTHOR_LEN,
    ensures
        resolution(author, stored_name(doc.insert(ticket_key(), value), author)) == resolution(
            author,
            stored_name(doc, author),
        ),
{
    lemma_hex_len(author);
    lemma_resolution_stable(doc, author, ticket_key(), value);
}

fn push_decimal(out: &mut Vec<u8>, n: u64, w: usize)
    ensures
        final(out)@ == old(out)@ + decimal(n as nat, w as nat),
    decreases w,
{
    if w == 0 {
        assert(old(out)@ + decimal(n as nat, 0) =~= old(out)@);
    } else {
        push_decimal(out, n / 10, w - 1);
        out.push(48 + (n % 10) as u8);
        assert(final(out)@ =~= old(out)@ + decimal(n as nat, w as nat));
    }
}

/// The key of the entry for a message sent at `stamp`.
pub fn message_key_of(stamp: u64) -> (r: Vec<u8>)
    ensures
        r@ == message_key(stamp),
{
    let mut r: Vec<u8> = Vec::new();
    push_decimal(&mut r, stamp, KEY_DIGITS);
    assert(r@ =~= message_key(stamp));
    r
}

/// Hands out the stamps of a sender's messages: the wall-clock time in
/// microseconds, moved past the previous stamp where the clock has not.
pub struct SendClock {
    pub last: Option<u64>,
}

impl SendClock {
    pub fn new() -> (r: SendClock)
        ensures
            r.last is None,
    {
        SendClock { last: None }
    }

    /// The stamp for a send at time `now`; `None` once no later stamp exists.
    pub fn next_stamp(&mut self, now: u64) -> (r: Option<u64>)
        ensures
            r == stamp_after(old(self).last, now),
            r is Some ==> r->0 >= now,
            old(self).last is Some && r is Some ==> r->0 > old(self).last->0,
            final(self).last == (if r is Some {
                r
            } else {
                old(self).last
            }),
    {
        let r = match self.last {
            None => Some(now),
            Some(l) => if now > l {
                Some(now)
            } else if l < u64::MAX {
                Some(l + 1)
            } else {
                None
            },
        };
        if r.is_some() {
            self.last = r;
        }
        r
    }

    /// The entry that sends `m` at time `now`: the message's bytes under the
    /// key of its stamp. `None` only when the stamps are used up.
    pub fn send_entry(&mut self, now: u64, m: &Message) -> (r: Option<Entry>)
        ensures
            r is Some <==> stamp_after(old(self).last, now) is Some,
            r is Some ==> r->0.key@ == message_key(stamp_after(old(self).last, now)->0),
            r is Some ==> r->0.value@ == encode(m@),
            final(self).last == (if r is Some {
                stamp_after(old(self).last, now)
            } else {
                old(self).last
            }),
    {
        match self.next_stamp(now) {
            None => None,
            Some(stamp) => Some(Entry { key: message_key_of(stamp), value: m.serialize() }),
        }
    }
}

/// The key "chat-ticket".
pub fn ticket_key_of() -> (r: Vec<u8>)
    ensures
        r@ == ticket_key(),
{
    let r: Vec<u8> = vec![99u8, 104, 97, 116, 45, 116, 105, 99, 107, 101, 116];
    assert(r@ =~= ticket_key());
    r
}

/// The entry by which `author` announces the ticket of the session it is in.
pub fn ticket_entry(author: AuthorId, ticket: String) -> (r: Entry)
    ensures
        r.key@ == ticket_key(),
        r.value@ == encode(MessageModel::Ticket { author: author@, content: ticket@ }),
{
    let m = Message::set_ticket(author, ticket);
    Entry { key: ticket_key_of(), value: m.serialize() }
}

} // verus!
