//! The time at which something happened, and how it is written.
use vstd::prelude::*;

verus! {

/// An instant: whole seconds since the start of 1970 in UTC, and the
/// nanoseconds since the last of them.
#[derive(Clone, Copy, Debug, PartialEq, Eq, Structural)]
pub struct Moment {
    pub seconds: i64,
    pub nanos: u32,
}

/// The last second that a calendar date can name: the end of the year 262142.
pub const LAST_SECOND: i64 = 8_210_266_876_799;

/// The text that RFC 3339 gives to an instant in UTC.
pub uninterp spec fn rfc3339_of(seconds: i64, nanos: u32) -> Seq<char>;

/// Whether an instant is one that the clock gave.
pub closed spec fn is_read(moment: Moment) -> bool {
    call_ensures(read_clock, (), moment)
}

/// Whether a text is the RFC 3339 form, in UTC, of an instant that the clock gave
/// as the present one.
pub open spec fn is_timestamp(text: Seq<char>) -> bool {
    exists|moment: Moment| #[trigger]
        call_ensures(now, (), moment) && moment.valid() && text == moment.text()
}

impl Moment {
    /// Whether the instant lies between the start of 1970 and the last second
    /// that a calendar date can name.
    pub open spec fn valid(self) -> bool {
        &&& 0 <= self.seconds <= LAST_SECOND
        &&& self.nanos < 1_000_000_000
    }

    /// The RFC 3339 form of the instant, in UTC.
    pub open spec fn text(self) -> Seq<char> {
        rfc3339_of(self.seconds, self.nanos)
    }

    /// Writes the instant as RFC 3339 does, in UTC.
    pub fn to_rfc3339(&self) -> (text: String)
        requires
            self.valid(),
        ensures
            text@ == self.text(),
    {
        format_rfc3339(self.seconds, self.nanos)
    }
}

/// `chrono::Utc::now`, taken apart by `timestamp` and `timestamp_subsec_nanos`:
/// an instant that a calendar date can name, not before 1970. Which instant it is
/// rests on the machine's clock; with a clock that is set before 1970 there is none.
#[verifier::external_body]
pub(crate) fn read_clock() -> (now: Moment)
    ensures
        now.valid(),
{
    let now = chrono::Utc::now();
    Moment { seconds: now.timestamp(), nanos: now.timestamp_subsec_nanos() }
}

/// `chrono::DateTime::to_rfc3339` on the instant in UTC that
/// `chrono::DateTime::from_timestamp` makes of seconds and nanoseconds: a text
/// that depends on nothing else. What the text is for a given instant is left
/// unsaid.
#[verifier::external_body]
fn format_rfc3339(seconds: i64, nanos: u32) -> (text: String)
    requires
        0 <= seconds <= LAST_SECOND,
        nanos < 1_000_000_000,
    ensures
        text@ == rfc3339_of(seconds, nanos),
{
    chrono::DateTime::from_timestamp(seconds, nanos).unwrap().to_rfc3339()
}

/// The present instant.
pub fn now() -> (moment: Moment)
    ensures
        moment.valid(),
        is_read(moment),
{
    read_clock()
}

/// The present time, as RFC 3339 writes it.
pub fn timestamp_now() -> (text: String)
    ensures
        is_timestamp(text@),
{
    let moment = now();
    moment.to_rfc3339()
}

/// An instant that counts as the present one came of the clock.
pub(crate) proof fn law_present_instant_is_read(moment: Moment)
    requires
        call_ensures(now, (), moment),
    ensures
        call_ensures(read_clock, (), moment),
        moment.valid(),
{
}

} // verus!
