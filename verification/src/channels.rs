//! Information a plugin reports about one of its audio channels.

use vstd::prelude::*;

verus! {

/// What a plugin answers when the host asks about an input or output
/// channel.
#[derive(Clone, PartialEq, Eq, Debug)]
pub struct ChannelInfo {
    /// Full channel name.
    pub name: String,
    /// Short channel name for narrow displays; the full name doubles as the
    /// short one when none is given.
    pub short_name: String,
    /// Whether the channel is active.
    pub active: bool,
}

impl ChannelInfo {
    /// Assemble channel information; a missing short name falls back to the
    /// full name.
    pub fn new(name: String, short_name: Option<String>, active: bool) -> (r: ChannelInfo)
        ensures
            r.name@ == name@,
            short_name matches Some(s) ==> r.short_name@ == s@,
            short_name is None ==> r.short_name@ == name@,
            r.active == active,
    {
        let short = match short_name {
            Some(s) => s,
            None => name.clone(),
        };
        ChannelInfo { name, short_name: short, active }
    }
}

} // verus!
