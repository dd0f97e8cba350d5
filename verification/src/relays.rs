//! Relay configuration: the fixed list of public pub/sub relays the service
//! connects to.

use vstd::prelude::*;

verus! {

/// Default list of public relays.
pub fn default_relays() -> (r: Vec<String>)
    ensures
        r@.len() == 3,
        r@[0]@ == "wss://relay.damus.io"@,
        r@[1]@ == "wss://nos.lol"@,
        r@[2]@ == "wss://relay.snort.social"@,
{
    let mut r: Vec<String> = Vec::new();
    r.push(String::from_str("wss://relay.damus.io"));
    r.push(String::from_str("wss://nos.lol"));
    r.push(String::from_str("wss://relay.snort.social"));
    r
}

/// The list of relays to use; currently the defaults.
pub fn get_relays() -> (r: Vec<String>)
    ensures
        r@.len() == 3,
        r@[0]@ == "wss://relay.damus.io"@,
        r@[1]@ == "wss://nos.lol"@,
        r@[2]@ == "wss://relay.snort.social"@,
{
    default_relays()
}

} // verus!
