//! What the log channels need from the store, and the text of role updates.

use vstd::prelude::*;
use vstd::string::*;
use crate::text::{id_of, parse_id, role_mention, role_mention_text};

verus! {

/// Why an event could not be logged.
#[derive(Debug)]
pub enum LogChannelError {
    RedisError(String),
    Other(String),
}

/// Reads a log channel id from what the store returned; `which` names the channel.
fn unpack_channel_id(lookup: Result<Option<String>, String>, which: &str) -> (r: Result<u64, LogChannelError>)
    ensures
        lookup matches Err(e) ==> (r matches Err(LogChannelError::Other(m)) && m@ == e@),
        lookup is Ok && lookup->Ok_0 is None ==> (r matches Err(LogChannelError::RedisError(m)) && m@
            == "Could not resolve "@ + which@ + " log channel id"@),
        lookup matches Ok(Some(t)) ==> (id_of(t@) matches Ok(v) ==> r == Ok::<u64, LogChannelError>(v)),
        lookup matches Ok(Some(t)) ==> (id_of(t@) is Err ==> (r matches Err(LogChannelError::Other(m))
            && m@ == "Could not parse "@ + which@ + " log channel id into u64"@)),
{
    match lookup {
        Err(e) => Err(LogChannelError::Other(e)),
        Ok(None) => {
            let mut m = String::from_str("Could not resolve ");
            m.append(which);
            m.append(" log channel id");
            Err(LogChannelError::RedisError(m))
        },
        Ok(Some(t)) => match parse_id(t.as_str()) {
            Ok(v) => Ok(v),
            Err(_) => {
                let mut m = String::from_str("Could not parse ");
                m.append(which);
                m.append(" log channel id into u64");
                Err(LogChannelError::Other(m))
            },
        },
    }
}

/// Reads the major log channel id from what the store returned.
pub fn unpack_major_channel_id(lookup: Result<Option<String>, String>) -> (r: Result<u64, LogChannelError>)
    ensures
        lookup matches Err(e) ==> (r matches Err(LogChannelError::Other(m)) && m@ == e@),
        lookup is Ok && lookup->Ok_0 is None ==> (r matches Err(LogChannelError::RedisError(m)) && m@
            == "Could not resolve major log channel id"@),
        lookup matches Ok(Some(t)) ==> (id_of(t@) matches Ok(v) ==> r == Ok::<u64, LogChannelError>(v)),
        lookup matches Ok(Some(t)) ==> (id_of(t@) is Err ==> (r matches Err(LogChannelError::Other(m))
            && m@ == "Could not parse major log channel id into u64"@)),
{
    proof {
        reveal_strlit("major");
        reveal_strlit("Could not resolve ");
        reveal_strlit(" log channel id");
        reveal_strlit("Could not resolve major log channel id");
        reveal_strlit("Could not parse ");
        reveal_strlit(" log channel id into u64");
        reveal_strlit("Could not parse major log channel id into u64");
    }
    let r = unpack_channel_id(lookup, "major");
    proof {
        assert("Could not resolve "@ + "major"@ + " log channel id"@ =~= "Could not resolve major log channel id"@);
        assert("Could not parse "@ + "major"@ + " log channel id into u64"@ =~= "Could not parse major log channel id into u64"@);
    }
    r
}

/// Reads the minor log channel id from what the store returned.
pub fn unpack_minor_channel_id(lookup: Result<Option<String>, String>) -> (r: Result<u64, LogChannelError>)
    ensures
        lookup matches Err(e) ==> (r matches Err(LogChannelError::Other(m)) && m@ == e@),
        lookup is Ok && lookup->Ok_0 is None ==> (r matches Err(LogChannelError::RedisError(m)) && m@
            == "Could not resolve minor log channel id"@),
        lookup matches Ok(Some(t)) ==> (id_of(t@) matches Ok(v) ==> r == Ok::<u64, LogChannelError>(v)),
        lookup matches Ok(Some(t)) ==> (id_of(t@) is Err ==> (r matches Err(LogChannelError::Other(m))
            && m@ == "Could not parse minor log channel id into u64"@)),
{
    proof {
        reveal_strlit("minor");
        reveal_strlit("Could not resolve ");
        reveal_strlit(" log channel id");
        reveal_strlit("Could not resolve minor log channel id");
        reveal_strlit("Could not parse ");
        reveal_strlit(" log channel id into u64");
        reveal_strlit("Could not parse minor log channel id into u64");
    }
    let r = unpack_channel_id(lookup, "minor");
    proof {
        assert("Could not resolve "@ + "minor"@ + " log channel id"@ =~= "Could not resolve minor log channel id"@);
        assert("Could not parse "@ + "minor"@ + " log channel id into u64"@ =~= "Could not parse minor log channel id into u64"@);
    }
    r
}

/// The mentions of `ids`, separated by single spaces.
pub open spec fn joined_mentions(ids: Seq<u64>) -> Seq<char>
    decreases ids.len(),
{
    if ids.len() == 0 {
        Seq::empty()
    } else if ids.len() == 1 {
        role_mention_text(ids[0])
    } else {
        joined_mentions(ids.drop_last()) + " "@ + role_mention_text(ids.last())
    }
}

/// The field of a role-update log that lists `ids`: "None" when there are none.
pub fn roles_field(ids: &Vec<u64>) -> (r: String)
    ensures
        ids@.len() == 0 ==> r@ == "None"@,
        ids@.len() > 0 ==> r@ == joined_mentions(ids@),
{
    if ids.len() == 0 {
        return String::from_str("None");
    }
    let mut out = role_mention(ids[0]);
    let mut i: usize = 1;
    assert(ids@.take(1) =~= seq![ids@[0]]);
    while i < ids.len()
        invariant
            1 <= i <= ids@.len(),
            out@ == joined_mentions(ids@.take(i as int)),
        decreases ids@.len() - i,
    {
        assert(ids@.take(i + 1).drop_last() =~= ids@.take(i as int));
        out.append(" ");
        let m = role_mention(ids[i]);
        out.append(m.as_str());
        i = i + 1;
    }
    assert(ids@.take(ids@.len() as int) =~= ids@);
    out
}

} // verus!
