//! Display names: where an author's name is kept, and how a lookup resolves.
use vstd::prelude::*;
use vstd::utf8::{decode_utf8, encode_utf8, encode_utf8_decode_utf8, encode_utf8_valid_utf8, valid_utf8};
use crate::entry::{bytes_of_str, DocModel, Entry};
use crate::message::{AuthorId, AUTHOR_LEN};

verus! {

broadcast use {encode_utf8_valid_utf8, encode_utf8_decode_utf8};

/// Bytes of the identifier shown when an author has no name.
pub const SHORT_LEN: usize = 5;

/// The lower-case hex digit, as ASCII, of `n` below 16.
pub open spec fn hex_digit(n: u8) -> u8 {
    if n < 10 {
        (48 + n) as u8
    } else {
        (87 + n) as u8
    }
}

/// Two lower-case hex digits for each byte, as ASCII.
pub open spec fn hex_bytes(b: Seq<u8>) -> Seq<u8>
    decreases b.len(),
{
    if b.len() == 0 {
        seq![]
    } else {
        hex_bytes(b.drop_last()) + seq![hex_digit(b.last() / 16), hex_digit(b.last() % 16)]
    }
}

/// The same digits as characters.
pub open spec fn hex_chars(b: Seq<u8>) -> Seq<char> {
    hex_bytes(b).map_values(|d: u8| d as char)
}

/// The key under which an author's display name is stored.
pub open spec fn name_key(author: Seq<u8>) -> Seq<u8> {
    hex_bytes(author)
}

/// What a lookup of an author's name finds in the document.
pub open spec fn stored_name(doc: DocModel, author: Seq<u8>) -> Option<Seq<u8>> {
    if doc.contains_key(name_key(author)) {
        Some(doc[name_key(author)])
    } else {
        None
    }
}

/// The name, if the stored bytes are text; otherwise the author itself.
pub open spec fn resolution(author: Seq<u8>, stored: Option<Seq<u8>>) -> Result<Seq<char>, Seq<u8>> {
    match stored {
        Some(b) => if valid_utf8(b) {
            Ok(decode_utf8(b))
        } else {
            Err(author)
        },
        None => Err(author),
    }
}

pub proof fn lemma_hex_len(b: Seq<u8>)
    ensures
        hex_bytes(b).len() == 2 * b.len(),
    decreases b.len(),
{
    if b.len() > 0 {
        lemma_hex_len(b.drop_last());
    }
}

/// Relies on `String::push`: the character is appended at the end.
#[verifier::external_body]
fn push_char(s: &mut String, c: char)
    ensures
        final(s)@ == old(s)@.push(c),
{
    s.push(c)
}

fn hex_digit_exec(n: u8) -> (r: u8)
    requires
        n < 16,
    ensures
        r == hex_digit(n),
{
    if n < 10 {
        48 + n
    } else {
        87 + n
    }
}

fn hex_of(b: &[u8], count: usize) -> (r: Vec<u8>)
    requires
        count <= b@.len(),
    ensures
        r@ == hex_bytes(b@.subrange(0, count as int)),
{
    let mut r: Vec<u8> = Vec::new();
    let mut i: usize = 0;
    while i < count
        invariant
            i <= count <= b@.len(),
            r@ == hex_bytes(b@.subrange(0, i as int)),
        decreases count - i,
    {
        let x = b[i];
        r.push(hex_digit_exec(x / 16));
        r.push(hex_digit_exec(x % 16));
        let ghost next = b@.subrange(0, i + 1);
        assert(next.drop_last() =~= b@.subrange(0, i as int));
        assert(r@ =~= hex_bytes(next));
        i = i + 1;
    }
    r
}

impl AuthorId {
    /// The key of the document entry that holds this author's display name.
    pub fn name_key(&self) -> (r: Vec<u8>)
        ensures
            r@ == name_key(self@),
    {
        let b = self.bytes.as_slice();
        let r = hex_of(b, AUTHOR_LEN);
        assert(b@.subrange(0, AUTHOR_LEN as int) =~= self@);
        r
    }

    /// A short printable form: the hex digits of the first bytes.
    pub fn short(&self) -> (r: String)
        ensures
            r@ == hex_chars(self@.subrange(0, SHORT_LEN as int)),
    {
        let digits = hex_of(self.bytes.as_slice(), SHORT_LEN);
        let ghost want = hex_chars(self@.subrange(0, SHORT_LEN as int));
        let mut s = String::new();
        let mut i: usize = 0;
        while i < digits.len()
            invariant
                i <= digits@.len(),
                digits@ == hex_bytes(self@.subrange(0, SHORT_LEN as int)),
                want == digits@.map_values(|d: u8| d as char),
                s@ == want.subrange(0, i as int),
            decreases digits@.len() - i,
        {
            push_char(&mut s, digits[i] as char);
            i = i + 1;
            assert(s@ =~= want.subrange(0, i as int));
        }
        assert(s@ =~= want);
        s
    }
}

/// The entry that announces `name` as the display name of `author`.
pub fn name_entry(author: &AuthorId, name: &str) -> (r: Entry)
    ensures
        r.key@ == name_key(author@),
        r.value@ == encode_utf8(name@),
{
    Entry { key: author.name_key(), value: bytes_of_str(name) }
}

/// Resolves an author's display name from what the lookup of its name entry
/// found (`None` when the entry is absent or could not be read). Every
/// failure gives the author back, so that the caller can show its short form.
pub fn resolve_name(author: AuthorId, stored: Option<Vec<u8>>) -> (r: Result<String, AuthorId>)
    ensures
        r is Ok <==> (stored is Some && valid_utf8(stored->0@)),
        r is Ok ==> r->Ok_0@ == decode_utf8(stored->0@),
        r is Err ==> r->Err_0 == author,
        match r {
            Ok(name) => resolution(author@, match stored { Some(b) => Some(b@), None => None }) == Ok::<Seq<char>, Seq<u8>>(name@),
            Err(a) => resolution(author@, match stored { Some(b) => Some(b@), None => None }) == Err::<Seq<char>, Seq<u8>>(a@),
        },
{
    match stored {
        None => Err(author),
        Some(b) => match crate::message::string_from_utf8(b) {
            Some(name) => Ok(name),
            None => Err(author),
        },
    }
}

/// What to show for an author: its name, or else its short form.
pub fn display_name(resolved: &Result<String, AuthorId>) -> (r: String)
    ensures
        match resolved {
            Ok(name) => r@ == name@,
            Err(a) => r@ == hex_chars(a@.subrange(0, SHORT_LEN as int)),
        },
{
    match resolved {
        Ok(name) => name.clone(),
        Err(a) => a.short(),
    }
}

/// A name lookup resolves to the author itself when no name was announced.
pub proof fn lemma_no_name_falls_back(doc: DocModel, author: Seq<u8>)
    requires
        !doc.contains_key(name_key(author)),
    ensures
        resolution(author, stored_name(doc, author)) == Err::<Seq<char>, Seq<u8>>(author),
{
}

/// After `name` is announced for an author, a lookup of that author's name
/// gives `name`.
pub proof fn lemma_announced_name_resolves(doc: DocModel, author: Seq<u8>, name: Seq<char>)
    ensures
        resolution(author, stored_name(doc.insert(name_key(author), encode_utf8(name)), author))
            == Ok::<Seq<char>, Seq<u8>>(name),
{
}

/// Writing under any other key leaves the result of a name lookup as it was:
/// two lookups with no announcement between them agree.
pub proof fn lemma_resolution_stable(doc: DocModel, author: Seq<u8>, key: Seq<u8>, value: Seq<u8>)
    requires
        key != name_key(author),
    ensures
        resolution(author, stored_name(doc.insert(key, value), author)) == resolution(
            author,
            stored_name(doc, author),
        ),
{
    assert(doc.insert(key, value).contains_key(name_key(author)) == doc.contains_key(name_key(author)));
}

} // verus!
