//! The release channel a request targets.

use std::str::FromStr;
use vstd::prelude::*;

use crate::error::StringError;
use crate::text::{join, str_eq};

verus! {

/// Which toolchain variant a request targets; it selects the sandbox image.
#[derive(Debug, Hash, PartialEq, Eq, Copy, Clone, Structural)]
pub enum ReleaseChannel {
    Stable,
    Beta,
    Nightly,
}

impl ReleaseChannel {
    /// The channel's name, which is also the suffix of its image's name.
    pub open spec fn name(self) -> Seq<char> {
        match self {
            ReleaseChannel::Stable => "stable"@,
            ReleaseChannel::Beta => "beta"@,
            ReleaseChannel::Nightly => "nightly"@,
        }
    }

    /// The number under which the channel is filed in a cache key.
    pub open spec fn ordinal(self) -> u8 {
        match self {
            ReleaseChannel::Stable => 0,
            ReleaseChannel::Beta => 1,
            ReleaseChannel::Nightly => 2,
        }
    }

    /// The name of the sandbox image for the channel: `rust-` and the channel's name.
    pub open spec fn image_name(self) -> Seq<char> {
        "rust-"@ + self.name()
    }

    /// The channel that a text names, if it names one. Exact and case-sensitive.
    pub open spec fn parse(text: Seq<char>) -> Option<ReleaseChannel> {
        if text == "stable"@ {
            Some(ReleaseChannel::Stable)
        } else if text == "beta"@ {
            Some(ReleaseChannel::Beta)
        } else if text == "nightly"@ {
            Some(ReleaseChannel::Nightly)
        } else {
            None
        }
    }

    /// What the error says of a text that names no channel.
    pub open spec fn parse_failure(text: Seq<char>) -> Seq<char> {
        "unknown release channel "@ + text
    }

    /// The channel's name.
    pub fn as_str(&self) -> (name: &'static str)
        ensures
            name@ == self.name(),
    {
        match *self {
            ReleaseChannel::Stable => "stable",
            ReleaseChannel::Beta => "beta",
            ReleaseChannel::Nightly => "nightly",
        }
    }

    /// The number under which the channel is filed in a cache key.
    pub fn code(&self) -> (ordinal: u8)
        ensures
            ordinal == self.ordinal(),
    {
        match *self {
            ReleaseChannel::Stable => 0,
            ReleaseChannel::Beta => 1,
            ReleaseChannel::Nightly => 2,
        }
    }

    /// The name of the sandbox image for the channel.
    pub fn image(&self) -> (image: String)
        ensures
            image@ == self.image_name(),
    {
        join("rust-", self.as_str())
    }

    /// A text parses to a channel exactly when it is that channel's name.
    pub proof fn lemma_parse_inverts_name(text: Seq<char>, channel: ReleaseChannel)
        ensures
            Self::parse(text) == Some(channel) <==> text == channel.name(),
    {
        Self::lemma_channels_distinct(ReleaseChannel::Stable, ReleaseChannel::Beta);
        Self::lemma_channels_distinct(ReleaseChannel::Stable, ReleaseChannel::Nightly);
        Self::lemma_channels_distinct(ReleaseChannel::Beta, ReleaseChannel::Nightly);
    }

    /// Two channels with one name, one ordinal or one image are the same channel.
    pub proof fn lemma_channels_distinct(a: ReleaseChannel, b: ReleaseChannel)
        ensures
            a.name() == b.name() ==> a == b,
            a.ordinal() == b.ordinal() ==> a == b,
            a.image_name() == b.image_name() ==> a == b,
    {
        reveal_strlit("stable");
        reveal_strlit("beta");
        reveal_strlit("nightly");
        reveal_strlit("rust-");
        if a.image_name() == b.image_name() {
            assert(a.image_name().len() == b.image_name().len());
        }
    }
}

impl FromStr for ReleaseChannel {
    type Err = StringError;

    fn from_str(s: &str) -> (parsed: Result<Self, Self::Err>)
        ensures
            match parsed {
                Ok(channel) => Self::parse(s@) == Some(channel),
                Err(error) => Self::parse(s@) is None && error@ == Self::parse_failure(s@),
            },
    {
        if str_eq(s, "stable") {
            Ok(ReleaseChannel::Stable)
        } else if str_eq(s, "beta") {
            Ok(ReleaseChannel::Beta)
        } else if str_eq(s, "nightly") {
            Ok(ReleaseChannel::Nightly)
        } else {
            Err(StringError(join("unknown release channel ", s)))
        }
    }
}

} // verus!
