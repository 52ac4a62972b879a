//! Identifiers for traces, observations and events.
use vstd::prelude::*;

verus! {

/// Whether a character is a hexadecimal digit in lower case.
pub open spec fn is_lower_hex(c: char) -> bool {
    ||| '0' <= c <= '9'
    ||| 'a' <= c <= 'f'
}

/// Whether a text is a random (version 4) UUID in its hyphenated form, in lower
/// case: groups of 8, 4, 4, 4 and 12 digits, the third beginning with the
/// version, the fourth with the variant.
pub open spec fn is_uuid(text: Seq<char>) -> bool {
    &&& text.len() == 36
    &&& forall|i: int|
        #![trigger text[i]]
        0 <= i < 36 ==> if i == 8 || i == 13 || i == 18 || i == 23 {
            text[i] == '-'
        } else {
            is_lower_hex(text[i])
        }
    &&& text[14] == '4'
    &&& (text[19] == '8' || text[19] == '9' || text[19] == 'a' || text[19] == 'b')
}

/// `uuid::Uuid::new_v4`, written out by its `Display`: a random UUID of version 4
/// in hyphenated lower case. Nothing is said of how two draws relate. Without a
/// working source of randomness in the operating system there is no draw.
#[verifier::external_body]
pub(crate) fn fresh_id() -> (id: String)
    ensures
        is_uuid(id@),
{
    uuid::Uuid::new_v4().to_string()
}

/// What an identifier is drawn for.
#[derive(Clone, Copy, Debug, PartialEq, Eq, Structural)]
pub enum Purpose {
    /// A trace.
    Trace,
    /// The event that announces a trace.
    Announcement,
    /// A span.
    Span,
    /// The observation of a span.
    Observation,
    /// Any other event.
    Event,
}

/// Whether an identifier came of a draw.
pub closed spec fn is_random(id: String) -> bool {
    call_ensures(fresh_id, (), id)
}

/// Whether a text is an identifier that a draw for the given purpose gave.
pub open spec fn is_drawn(purpose: Purpose, text: Seq<char>) -> bool {
    &&& is_uuid(text)
    &&& exists|id: String| #[trigger] call_ensures(draw_id, (purpose,), id) && id@ == text
}

/// Draws an identifier. Each use has a draw of its own.
pub fn draw_id(_purpose: Purpose) -> (id: String)
    ensures
        is_uuid(id@),
        is_random(id),
{
    fresh_id()
}

/// An identifier that was drawn, for whatever purpose, came of the source of random
/// identifiers, and has the form of one.
pub(crate) proof fn law_drawn_identifier_is_random(purpose: Purpose, id: String)
    requires
        call_ensures(draw_id, (purpose,), id),
    ensures
        call_ensures(fresh_id, (), id),
        is_uuid(id@),
        is_drawn(purpose, id@),
{
}

} // verus!
