//! The closed set of channels on which the manager itself looks for updates.

use vstd::prelude::*;
use crate::strutil::str_eq;

verus! {

#[derive(Clone, Copy, PartialEq, Eq, Structural, Debug, Hash)]
pub enum SelfUpdateChannel {
    Stable,
    Beta,
}

/// The stable serialization identifier of a channel; it doubles as the
/// display label.
pub open spec fn channel_identifier_spec(c: SelfUpdateChannel) -> Seq<char> {
    match c {
        SelfUpdateChannel::Stable => "Stable"@,
        SelfUpdateChannel::Beta => "Beta"@,
    }
}

/// The channel whose identifier is `s`, if any.
pub open spec fn channel_of_identifier_spec(s: Seq<char>) -> Option<SelfUpdateChannel> {
    if s == channel_identifier_spec(SelfUpdateChannel::Stable) {
        Some(SelfUpdateChannel::Stable)
    } else if s == channel_identifier_spec(SelfUpdateChannel::Beta) {
        Some(SelfUpdateChannel::Beta)
    } else {
        None
    }
}

impl SelfUpdateChannel {
    /// The exhaustive ordered list of both channels.
    pub fn all() -> (r: [SelfUpdateChannel; 2])
        ensures
            r@ == seq![SelfUpdateChannel::Stable, SelfUpdateChannel::Beta],
    {
        let r = [SelfUpdateChannel::Stable, SelfUpdateChannel::Beta];
        proof {
            assert(r@ =~= seq![SelfUpdateChannel::Stable, SelfUpdateChannel::Beta]);
        }
        r
    }

    /// The stable serialization identifier.
    pub fn identifier(self) -> (r: &'static str)
        ensures
            r@ == channel_identifier_spec(self),
    {
        match self {
            SelfUpdateChannel::Stable => "Stable",
            SelfUpdateChannel::Beta => "Beta",
        }
    }

    /// The display label; the channels are labelled by their identifiers.
    pub fn label(self) -> (r: &'static str)
        ensures
            r@ == channel_identifier_spec(self),
    {
        self.identifier()
    }

    /// Parses a stable identifier back into its channel.
    pub fn from_identifier(s: &str) -> (r: Option<SelfUpdateChannel>)
        ensures
            r == channel_of_identifier_spec(s@),
    {
        if str_eq(s, "Stable") {
            Some(SelfUpdateChannel::Stable)
        } else if str_eq(s, "Beta") {
            Some(SelfUpdateChannel::Beta)
        } else {
            None
        }
    }
}

impl Default for SelfUpdateChannel {
    /// The channel used when persisted data names none.
    fn default() -> (r: SelfUpdateChannel)
        ensures
            r == SelfUpdateChannel::Stable,
    {
        SelfUpdateChannel::Stable
    }
}

/// Every channel's identifier parses back to that same channel: the mapping
/// is total and one-to-one.
pub proof fn lemma_channel_identifier_round_trip(c: SelfUpdateChannel)
    ensures
        channel_of_identifier_spec(channel_identifier_spec(c)) == Some(c),
{
    reveal_strlit("Stable");
    reveal_strlit("Beta");
    assert("Stable"@.len() == 6);
    assert("Beta"@.len() == 4);
}

} // verus!
