//! Identifiers.

use vstd::prelude::*;

use crate::log::Log;

verus! {

pub open spec fn is_lower_hex(c: char) -> bool {
    ('0' <= c && c <= '9') || ('a' <= c && c <= 'f')
}

/// Where the text of a UUID holds a hyphen.
pub open spec fn is_hyphen_position(i: int) -> bool {
    i == 8 || i == 13 || i == 18 || i == 23
}

/// `text` is a random (version 4) UUID, hyphenated and in lower case.
pub open spec fn is_uuid_v4(text: Seq<char>) -> bool {
    &&& text.len() == 36
    &&& forall|i: int|
        0 <= i < 36 ==> if is_hyphen_position(i) {
            #[trigger] text[i] == '-'
        } else {
            is_lower_hex(text[i])
        }
    &&& text[14] == '4'
    &&& (text[19] == '8' || text[19] == '9' || text[19] == 'a' || text[19] == 'b')
}

/// A fresh identifier: the text of `uuid::Uuid::new_v4`.
///
/// Trusted: the text is hyphenated and in lower case, and its version and variant
/// digits are those of a random UUID. The other digits are random. That no two
/// identifiers are equal is likely and not stated. The text, whole and unchanged, becomes
/// the next entry of `drawn`, which is ghost state.
#[verifier::external_body]
fn new_uuid(drawn: &mut Log<Seq<char>>) -> (text: String)
    ensures
        is_uuid_v4(text@),
        final(drawn)@ == old(drawn)@.push(text@),
{
    uuid::Uuid::new_v4().to_string()
}

/// A source of identifiers. Its view is the list of those that were drawn from it, each by
/// its own call for a random UUID, from the first to the last.
pub struct IdSource {
    pub drawn: Log<Seq<char>>,
}

impl View for IdSource {
    type V = Seq<Seq<char>>;

    open spec fn view(&self) -> Seq<Seq<char>> {
        self.drawn@
    }
}

impl IdSource {
    /// A source that nothing was drawn from.
    pub fn new() -> (source: IdSource)
        ensures
            source@ == Seq::<Seq<char>>::empty(),
    {
        IdSource { drawn: Log::new() }
    }

    /// Draws an identifier.
    pub fn draw(&mut self) -> (id: String)
        ensures
            final(self)@ == old(self)@.push(id@),
            final(self).drawn@ == old(self).drawn@.push(id@),
            is_uuid_v4(id@),
    {
        new_uuid(&mut self.drawn)
    }
}

} // verus!
