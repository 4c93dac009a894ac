//! The object surfaced to the UI layer: an integer counter and a text
//! value, with an increment operation and a greeting that builds a
//! diagnostic line. Property-change notification belongs to the hosting UI
//! runtime and is not modelled here.

use crate::text::int_rep;
use crate::text::i64_to_string;
use vstd::prelude::*;
use vstd::string::StringExecFns;

verus! {

/// What one increment does to the counter: the value plus one, wrapping to
/// the smallest value after the largest. Wrapping is this library's
/// explicit overflow policy for the counter.
pub open spec fn next_counter(n: int) -> int {
    if n == i32::MAX {
        i32::MIN as int
    } else {
        n + 1
    }
}

/// The counter after `n` increments from the default state.
pub open spec fn counter_after(n: nat) -> int
    decreases n,
{
    if n == 0 {
        0
    } else {
        next_counter(counter_after((n - 1) as nat))
    }
}

/// Incrementing `n` times from the default state yields exactly `n`, for
/// every `n` the counter can hold before the wrap policy engages.
pub proof fn lemma_counter_counts(n: nat)
    requires
        n <= i32::MAX,
    ensures
        counter_after(n) == n,
    decreases n,
{
    if n > 0 {
        lemma_counter_counts((n - 1) as nat);
    }
}

/// The diagnostic line `say_hi` produces for the given text and number.
pub open spec fn say_hi_message(text: Seq<char>, number: int) -> Seq<char> {
    "Hi from Rust! String is '"@ + text + "' and number is "@ + int_rep(number)
}

/// The state behind the UI-exposed object: an integer counter (default 0)
/// and a text value (default empty).
pub struct MyObjectRust {
    pub number: i32,
    pub string: String,
}

impl Default for MyObjectRust {
    /// The default state: counter 0 and empty text.
    fn default() -> (d: MyObjectRust)
        ensures
            d.number == 0,
            d.string@ == Seq::<char>::empty(),
    {
        MyObjectRust { number: 0, string: String::new() }
    }
}

impl MyObjectRust {
    /// Reads the current counter value and writes back the value plus one,
    /// wrapping after the largest value; the text is untouched.
    pub fn increment_number(&mut self)
        ensures
            final(self).number == next_counter(old(self).number as int),
            final(self).string == old(self).string,
    {
        if self.number == i32::MAX {
            self.number = i32::MIN;
        } else {
            self.number = self.number + 1;
        }
    }

    /// Builds the diagnostic line containing the given text and number.
    /// It mutates nothing and cannot fail; emitting the line is the
    /// caller's side of the work.
    pub fn say_hi(&self, string: &str, number: i32) -> (msg: String)
        ensures
            msg@ == say_hi_message(string@, number as int),
    {
        let mut msg = String::from_str("Hi from Rust! String is '");
        msg.append(string);
        msg.append("' and number is ");
        let digits = i64_to_string(number as i64);
        msg.append(digits.as_str());
        msg
    }
}

} // verus!
