//! Subtitle events: what the recognition worker hands to the user interface.

use vstd::prelude::*;

verus! {

/// One subtitle update.
#[derive(Debug)]
pub struct SubtitleEvent {
    /// The recognized text.
    pub text: String,
    /// Whether the utterance is complete.
    pub is_final: bool,
    /// When the event was made, in milliseconds since the Unix epoch.
    pub timestamp: u64,
}

/// A subtitle event as plain values.
pub ghost struct SubtitleView {
    pub text: Seq<char>,
    pub is_final: bool,
    pub timestamp: u64,
}

impl View for SubtitleEvent {
    type V = SubtitleView;

    open spec fn view(&self) -> SubtitleView {
        SubtitleView { text: self.text@, is_final: self.is_final, timestamp: self.timestamp }
    }
}

/// The text and finality of each event, in order, without the timestamps.
pub open spec fn captions(events: Seq<SubtitleEvent>) -> Seq<(Seq<char>, bool)> {
    events.map_values(|e: SubtitleEvent| (e.text@, e.is_final))
}

/// Reads the system clock with `std::time::SystemTime::now` and gives the
/// time since the Unix epoch in milliseconds, or `None` where the clock
/// stands before the epoch. Nothing is claimed of the value.
#[verifier::external_body]
fn unix_millis() -> (r: Option<u64>) {
    match std::time::SystemTime::now().duration_since(std::time::UNIX_EPOCH) {
        Ok(elapsed) => Some(elapsed.as_millis() as u64),
        Err(_) => None,
    }
}

/// The current time in milliseconds since the Unix epoch; 0 where the system
/// clock stands before the epoch. Which time that is, the clock decides.
pub(crate) fn now_millis() -> u64 {
    stamp_of(unix_millis())
}

/// The timestamp for a reading of the clock: the reading itself, and 0 for
/// a clock that stands before the epoch.
pub fn stamp_of(reading: Option<u64>) -> (r: u64)
    ensures
        r == match reading {
            Some(ms) => ms,
            None => 0,
        },
{
    match reading {
        Some(ms) => ms,
        None => 0,
    }
}

impl SubtitleEvent {
    /// An event with the given timestamp.
    pub fn at(text: String, is_final: bool, timestamp: u64) -> (r: Self)
        ensures
            r.text == text,
            r.is_final == is_final,
            r.timestamp == timestamp,
    {
        SubtitleEvent { text, is_final, timestamp }
    }

    /// An event stamped with the current time of the system clock; with 0
    /// where the clock stands before the Unix epoch.
    pub fn new(text: String, is_final: bool) -> (r: Self)
        ensures
            r.text == text,
            r.is_final == is_final,
    {
        SubtitleEvent::at(text, is_final, now_millis())
    }

    /// A copy of this event.
    pub fn duplicate(&self) -> (r: Self)
        ensures
            r == *self,
    {
        SubtitleEvent {
            text: self.text.clone(),
            is_final: self.is_final,
            timestamp: self.timestamp,
        }
    }
}

} // verus!
