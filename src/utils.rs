//! Small text helpers for log entries.

use vstd::prelude::*;
use vstd::string::*;
use crate::text::{decimal, decimal_text};

verus! {

/// The address of a user's avatar image, or the empty text when the user has
/// none.
pub fn get_avatar_url(user_id: u64, avatar: &Option<String>) -> (r: String)
    ensures
        avatar is None ==> r@.len() == 0,
        avatar matches Some(h) ==> r@ == "https://cdn.discordapp.com/avatars/"@ + decimal_text(
            user_id as nat,
        ) + "/"@ + h@ + ".png"@,
{
    match avatar {
        None => String::new(),
        Some(h) => {
            let mut out = String::from_str("https://cdn.discordapp.com/avatars/");
            let id = decimal(user_id);
            out.append(id.as_str());
            out.append("/");
            out.append(h.as_str());
            out.append(".png");
            out
        },
    }
}

/// A part of an age: `m` in decimal, negative when `negative` and not zero.
pub open spec fn age_part(negative: bool, m: nat) -> Seq<char> {
    if negative && m > 0 {
        "-"@ + decimal_text(m)
    } else {
        decimal_text(m)
    }
}

/// An age of `days` days, counted in years of 365 days and months of 30,
/// with division that truncates toward zero.
pub open spec fn age_text(days: int) -> Seq<char> {
    let negative = days < 0;
    let m: nat = (if negative { -days } else { days }) as nat;
    age_part(negative, m / 365) + " years "@ + age_part(negative, (m % 365) / 30) + " months "@
        + age_part(negative, (m % 365) % 30) + " days"@
}

fn part(negative: bool, m: u64) -> (r: String)
    ensures
        r@ == age_part(negative, m as nat),
{
    let digits = decimal(m);
    if negative && m > 0 {
        let mut out = String::from_str("-");
        out.append(digits.as_str());
        out
    } else {
        digits
    }
}

/// How old an account is, from the number of days since it was made.
pub fn date_diff(days: i64) -> (r: String)
    ensures
        r@ == age_text(days as int),
{
    let negative = days < 0;
    let m: u64 = if negative {
        (0i128 - days as i128) as u64
    } else {
        days as u64
    };
    let mut out = part(negative, m / 365);
    out.append(" years ");
    let months = part(negative, (m % 365) / 30);
    out.append(months.as_str());
    out.append(" months ");
    let rest = part(negative, (m % 365) % 30);
    out.append(rest.as_str());
    out.append(" days");
    out
}

} // verus!
