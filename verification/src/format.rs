//! The countdown label: a span of whole seconds as `MM:SS` or `HH:MM:SS`.

use vstd::prelude::*;
use vstd::string::StringExecFns;
use crate::decimal::{all_digits, digits_value, lemma_padded_text, padded_text, push_padded};

verus! {

/// The text of a span of `seconds`: hours, minutes and seconds separated by
/// colons, each zero-padded to two digits, the hours left out below one hour.
pub open spec fn time_text(seconds: nat) -> Seq<char> {
    let hours = seconds / 3600;
    let minutes = (seconds % 3600) / 60;
    let secs = seconds % 60;
    if hours > 0 {
        padded_text(hours) + seq![':'] + padded_text(minutes) + seq![':'] + padded_text(secs)
    } else {
        padded_text(minutes) + seq![':'] + padded_text(secs)
    }
}

/// The hours field of a formatted span: what precedes `:MM:SS`, empty in `MM:SS`.
pub open spec fn hours_field(text: Seq<char>) -> Seq<char> {
    if text.len() >= 6 {
        text.subrange(0, text.len() - 6)
    } else {
        Seq::empty()
    }
}

/// The minutes field of a formatted span: the two characters before the last colon.
pub open spec fn minutes_field(text: Seq<char>) -> Seq<char>
    recommends
        text.len() >= 5,
{
    text.subrange(text.len() - 5, text.len() - 3)
}

/// The seconds field of a formatted span: its last two characters.
pub open spec fn seconds_field(text: Seq<char>) -> Seq<char>
    recommends
        text.len() >= 5,
{
    text.subrange(text.len() - 2, text.len() as int)
}

/// The span that a formatted text denotes, read back field by field. An empty
/// hours field counts as zero hours.
pub open spec fn seconds_of_text(text: Seq<char>) -> int
    recommends
        text.len() >= 5,
{
    3600 * digits_value(hours_field(text)) + 60 * digits_value(minutes_field(text))
        + digits_value(seconds_field(text))
}

/// Formats a span of whole seconds as `HH:MM:SS` from one hour on, and as
/// `MM:SS` below.
pub fn format_time(seconds: u64) -> (text: String)
    ensures
        text@ == time_text(seconds as nat),
{
    let hours = seconds / 3600;
    let minutes = (seconds % 3600) / 60;
    let secs = seconds % 60;
    let mut text = String::new();
    proof {
        reveal_strlit(":");
    }
    if hours > 0 {
        push_padded(&mut text, hours);
        text.append(":");
    }
    push_padded(&mut text, minutes);
    text.append(":");
    push_padded(&mut text, secs);
    assert(":"@ =~= seq![':']);
    assert(text@ =~= time_text(seconds as nat));
    text
}

/// Formatting keeps every field and its width: the text ends in `MM:SS`, both
/// fields exactly two digits; from one hour on a colon and an hours field of at
/// least two digits precede them, and below one hour nothing does. Each field
/// reads back as the number it was written from, so the whole text reads back
/// as the span.
pub proof fn law_format_round_trip(seconds: nat)
    ensures
        ({
            let text = time_text(seconds);
            let n = text.len() as int;
            &&& n >= 5
            &&& text[n - 3] == ':'
            &&& all_digits(seconds_field(text))
            &&& digits_value(seconds_field(text)) == seconds % 60
            &&& all_digits(minutes_field(text))
            &&& digits_value(minutes_field(text)) == (seconds % 3600) / 60
            &&& all_digits(hours_field(text))
            &&& digits_value(hours_field(text)) == seconds / 3600
            &&& seconds < 3600 <==> n == 5
            &&& seconds >= 3600 ==> n >= 8 && text[n - 6] == ':'
            &&& 3600 <= seconds < 360000 ==> n == 8
            &&& seconds_of_text(text) == seconds
        }),
{
    let hours = seconds / 3600;
    let minutes = (seconds % 3600) / 60;
    let secs = seconds % 60;
    lemma_padded_text(hours);
    lemma_padded_text(minutes);
    lemma_padded_text(secs);
    let text = time_text(seconds);
    let n = text.len() as int;
    assert(seconds_field(text) =~= padded_text(secs));
    assert(minutes_field(text) =~= padded_text(minutes));
    if hours > 0 {
        assert(hours_field(text) =~= padded_text(hours));
    } else {
        assert(hours_field(text) =~= Seq::<char>::empty());
    }
}

} // verus!
