//! The age of a contact, in words, as it is told once a second.

use chrono::Duration;
use chrono_humanize::{Accuracy, HumanTime, Tense};
use vstd::prelude::*;

verus! {

/// The time zone in which a birthday is read where the viewer names none.
pub const DEFAULT_TIME_ZONE: &'static str = "UTC";

/// The longest span, in seconds, that can be put in words: spans are
/// counted in milliseconds, in 64 bits.
pub const MAX_AGE_SECONDS: i64 = 9_223_372_036_854_775;

/// The rough English wording of a span of `seconds` seconds, without "ago"
/// or "in": "now", "42 seconds", "a minute", "3 weeks", "29 years".
pub uninterp spec fn rough_wording(seconds: int) -> Seq<char>;

/// Whether a span of `seconds` seconds can be put in words.
pub open spec fn wordable(seconds: i64) -> bool {
    -MAX_AGE_SECONDS <= seconds <= MAX_AGE_SECONDS
}

/// Calls `HumanTime::to_text_en` of `chrono_humanize`, with rough accuracy
/// and in the present tense, on the span made by `chrono::Duration::seconds`.
/// The contract gives the text a name: it depends on the number of seconds
/// alone. `Duration::seconds` panics outside the range that is required.
#[verifier::external_body]
fn humanize(seconds: i64) -> (text: String)
    requires
        wordable(seconds),
    ensures
        text@ == rough_wording(seconds as int),
{
    HumanTime::from(Duration::seconds(seconds)).to_text_en(Accuracy::Rough, Tense::Present)
}

/// The subscriptions that a viewer can take out.
#[derive(Clone, Copy, Debug, Default)]
pub struct Subscription;

impl Subscription {
    /// The viewer's age in words, for an age of `seconds` whole seconds.
    /// There are no words for a span beyond `MAX_AGE_SECONDS`.
    pub fn my_age(&self, seconds: i64) -> (age: Option<String>)
        ensures
            age is Some <==> wordable(seconds),
            age matches Some(text) ==> text@ == rough_wording(seconds as int),
    {
        if -MAX_AGE_SECONDS <= seconds && seconds <= MAX_AGE_SECONDS {
            Some(humanize(seconds))
        } else {
            None
        }
    }
}

} // verus!
