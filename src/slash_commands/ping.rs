//! `ping`: tells the caller the bot is alive.

use vstd::prelude::*;
use vstd::string::*;

verus! {

/// Answers `ping`, privately to the caller.
pub fn execute(is_ephemeral: &mut bool) -> (r: String)
    ensures
        *final(is_ephemeral),
        r@ == "Hey, I'm alive!"@,
{
    *is_ephemeral = true;
    String::from_str("Hey, I'm alive!")
}

} // verus!
