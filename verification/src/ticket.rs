//! Title keys, as read from a decrypted ticket.
//!
//! Only tickets that carry the shared "common" kind of title key are
//! understood. Nothing in a ticket is validated: a ticket with a
//! personalized key is read at the same two places and yields a key that
//! is of no use.

use vstd::prelude::*;
use vstd::slice::slice_subrange;
use crate::error::Error;
use crate::hexfmt::{encode, hex_text};

verus! {

/// The number of bytes of a title id, and of a common title key.
pub const COMMON_KEY_SIZE: usize = 16;

/// The number of hexadecimal digits of a short title id.
pub const SHORT_TITLEID_LEN: usize = 16;

/// Where the title id starts in a ticket.
pub const TITLE_ID_OFFSET: usize = 0x2a0;

/// Where the title key starts in a ticket.
pub const TITLE_KEY_OFFSET: usize = 0x180;

/// The length of the shortest ticket that holds both fields.
pub const TICKET_MIN_LEN: usize = 0x2b0;

/// A title id together with the key of that title.
#[derive(Debug, Clone, Copy, PartialEq, Eq)]
pub struct TitleKey {
    title_id: [u8; 16],
    key: [u8; 16],
}

/// The mathematical value of a [`TitleKey`]: two sequences of sixteen bytes.
pub struct TitleKeyView {
    pub title_id: Seq<u8>,
    pub key: Seq<u8>,
}

impl TitleKeyView {
    /// The textual form: the title id and the key in lowercase hexadecimal
    /// digits, with `=` between them.
    pub open spec fn text(self) -> Seq<char> {
        hex_text(self.title_id) + seq!['='] + hex_text(self.key)
    }
}

impl View for TitleKey {
    type V = TitleKeyView;

    closed spec fn view(&self) -> TitleKeyView {
        TitleKeyView { title_id: self.title_id@, key: self.key@ }
    }
}

/// The title key that a ticket of at least [`TICKET_MIN_LEN`] bytes holds.
pub open spec fn ticket_title_key(ticket: Seq<u8>) -> TitleKeyView {
    TitleKeyView {
        title_id: ticket.subrange(
            TITLE_ID_OFFSET as int,
            TITLE_ID_OFFSET as int + COMMON_KEY_SIZE as int,
        ),
        key: ticket.subrange(
            TITLE_KEY_OFFSET as int,
            TITLE_KEY_OFFSET as int + COMMON_KEY_SIZE as int,
        ),
    }
}

/// Copies sixteen bytes of `ticket`, from `start` on.
fn field(ticket: &[u8], start: usize) -> (bytes: [u8; 16])
    requires
        start + 16 <= ticket@.len(),
    ensures
        bytes@ == ticket@.subrange(start as int, start as int + 16),
{
    let len = ticket.len();
    let mut bytes: [u8; 16] = [0u8; 16];
    let mut i: usize = 0;
    while i < 16
        invariant
            i <= 16,
            start + 16 <= len,
            len == ticket@.len(),
            forall|j: int| 0 <= j < i ==> bytes@[j] == ticket@[start as int + j],
        decreases 16 - i,
    {
        bytes[i] = ticket[start + i];
        i = i + 1;
    }
    assert(bytes@ =~= ticket@.subrange(start as int, start as int + 16));
    bytes
}

impl Default for TitleKey {
    fn default() -> (key: TitleKey)
        ensures
            key@.title_id == Seq::new(16, |i: int| 0u8),
            key@.key == Seq::new(16, |i: int| 0u8),
    {
        let key = TitleKey { title_id: [0u8; 16], key: [0u8; 16] };
        assert(key@.title_id =~= Seq::new(16, |i: int| 0u8));
        assert(key@.key =~= Seq::new(16, |i: int| 0u8));
        key
    }
}

impl TitleKey {
    /// Reads the title key out of the bytes of a decrypted ticket.
    ///
    /// A ticket shorter than [`TICKET_MIN_LEN`] bytes is an I/O error, and
    /// no part of it is returned.
    pub fn new(ticket: &[u8]) -> (res: Result<TitleKey, Error>)
        ensures
            ticket@.len() >= TICKET_MIN_LEN ==> res is Ok && res->Ok_0@ == ticket_title_key(
                ticket@,
            ),
            ticket@.len() < TICKET_MIN_LEN ==> res is Err && res->Err_0@ == crate::error::ErrorView::Io,
    {
        if ticket.len() < TICKET_MIN_LEN {
            return Err(Error::Io);
        }
        let title_id = field(ticket, TITLE_ID_OFFSET);
        let key = field(ticket, TITLE_KEY_OFFSET);
        Ok(TitleKey { title_id, key })
    }

    /// The sixteen bytes of the title id.
    pub fn title_id(&self) -> (bytes: [u8; 16])
        ensures
            bytes@ == self@.title_id,
    {
        self.title_id
    }

    /// The sixteen bytes of the key.
    pub fn key(&self) -> (bytes: [u8; 16])
        ensures
            bytes@ == self@.key,
    {
        self.key
    }

    /// The textual form, as one line of a key record holds it.
    pub fn to_string(&self) -> (text: String)
        ensures
            text@ == self@.text(),
    {
        let mut text = encode(self.title_id.as_slice());
        text.append("=");
        let key = encode(self.key.as_slice());
        text.append(key.as_str());
        proof {
            reveal_strlit("=");
            assert("="@ =~= seq!['=']);
        }
        text
    }
}

/// A title key is two fields of sixteen bytes.
pub proof fn lemma_title_key_lengths(k: TitleKey)
    ensures
        k@.title_id.len() == COMMON_KEY_SIZE,
        k@.key.len() == COMMON_KEY_SIZE,
        k@.text().len() == 4 * COMMON_KEY_SIZE + 1,
{
}

} // verus!
