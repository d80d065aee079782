use vstd::prelude::*;

verus! {

/// An instant on the UTC time line: whole seconds since the Unix epoch and
/// the nanoseconds into that second. During a leap second `nanos` runs past
/// 999,999,999, so instants are ordered by the pair, never by a sum.
#[derive(Clone, Copy, Debug, PartialEq, Eq, Structural)]
pub struct Timestamp {
    pub secs: i64,
    pub nanos: u32,
}

impl Timestamp {
    /// `self` is strictly earlier than `other`.
    pub open spec fn is_before(self, other: Timestamp) -> bool {
        self.secs < other.secs || (self.secs == other.secs && self.nanos < other.nanos)
    }

    /// `self` is `other` or later.
    pub open spec fn is_at_or_after(self, other: Timestamp) -> bool {
        !self.is_before(other)
    }

    /// `self` is strictly later than the instant `seconds` after `start`,
    /// where `seconds` may be negative and the sum need not fit any machine
    /// integer.
    pub open spec fn is_after_shifted(self, start: Timestamp, seconds: int) -> bool {
        self.secs > start.secs + seconds || (self.secs == start.secs + seconds && self.nanos
            > start.nanos)
    }

    pub fn new(secs: i64, nanos: u32) -> (at: Timestamp)
        ensures
            at == (Timestamp { secs, nanos }),
    {
        Timestamp { secs, nanos }
    }

    /// Tells whether `self` is strictly earlier than `other`.
    pub fn before(&self, other: &Timestamp) -> (earlier: bool)
        ensures
            earlier == self.is_before(*other),
    {
        self.secs < other.secs || (self.secs == other.secs && self.nanos < other.nanos)
    }
}

/// One entry of the feed.
#[derive(Clone, Debug, PartialEq, Eq)]
pub struct Video {
    pub url: String,
    pub video_id: String,
    pub published_at: Timestamp,
    pub title: String,
    pub thumbnail: String,
    pub channel_title: String,
}

/// What a [`Video`] holds, as mathematical values.
pub struct VideoView {
    pub url: Seq<char>,
    pub video_id: Seq<char>,
    pub published_at: Timestamp,
    pub title: Seq<char>,
    pub thumbnail: Seq<char>,
    pub channel_title: Seq<char>,
}

impl View for Video {
    type V = VideoView;

    open spec fn view(&self) -> VideoView {
        VideoView {
            url: self.url@,
            video_id: self.video_id@,
            published_at: self.published_at,
            title: self.title@,
            thumbnail: self.thumbnail@,
            channel_title: self.channel_title@,
        }
    }
}

/// The safety margin, in seconds, within which a credential that is about to
/// expire is refreshed before use.
pub const REFRESH_MARGIN_SECONDS: u64 = 300;

/// A delegated credential as one request carries it.
#[derive(Clone, Debug, PartialEq, Eq)]
pub struct SavedToken {
    pub access_token: String,
    pub refresh_token: Option<String>,
    pub expires_in: Option<u64>,
    pub issued_at: Timestamp,
}

/// What a [`SavedToken`] holds, as mathematical values.
pub struct SavedTokenView {
    pub access_token: Seq<char>,
    pub refresh_token: Option<Seq<char>>,
    pub expires_in: Option<u64>,
    pub issued_at: Timestamp,
}

impl View for SavedToken {
    type V = SavedTokenView;

    open spec fn view(&self) -> SavedTokenView {
        SavedTokenView {
            access_token: self.access_token@,
            refresh_token: match self.refresh_token {
                Some(token) => Some(token@),
                None => None,
            },
            expires_in: self.expires_in,
            issued_at: self.issued_at,
        }
    }
}

impl SavedTokenView {
    /// The credential can be refreshed and, at `now`, is past the point
    /// `margin` seconds before its expiry.
    pub open spec fn is_stale(self, now: Timestamp, margin: u64) -> bool {
        self.refresh_token.is_some() && match self.expires_in {
            Some(lifetime) => now.is_after_shifted(self.issued_at, lifetime - margin),
            None => false,
        }
    }
}

impl SavedToken {
    /// Tells whether the credential has to be refreshed before it is used at
    /// `now`: it carries a refresh token and a lifetime, and `now` is later
    /// than `margin` seconds before the end of that lifetime.
    pub fn needs_refresh(&self, now: &Timestamp, margin: u64) -> (stale: bool)
        ensures
            stale == self@.is_stale(*now, margin),
    {
        if self.refresh_token.is_none() {
            return false;
        }
        match self.expires_in {
            None => false,
            Some(lifetime) => {
                let deadline: i128 = self.issued_at.secs as i128 + lifetime as i128 - margin as i128;
                let seconds: i128 = now.secs as i128;
                seconds > deadline || (seconds == deadline && now.nanos > self.issued_at.nanos)
            },
        }
    }
}

impl SavedTokenView {
    /// The refresh token to use before the credential is used at `now`: the
    /// credential's own if the credential is stale, none otherwise.
    pub open spec fn refresh_due(self, now: Timestamp, margin: u64) -> Option<Seq<char>> {
        if self.is_stale(now, margin) {
            self.refresh_token
        } else {
            None
        }
    }
}

impl SavedToken {
    /// Hands out the refresh token if the credential has to be refreshed
    /// before it is used at `now`.
    pub fn refresh_token_if_stale(&self, now: &Timestamp, margin: u64) -> (token: Option<String>)
        ensures
            match token {
                Some(token) => self@.refresh_due(*now, margin) == Some(token@),
                None => self@.refresh_due(*now, margin).is_none(),
            },
    {
        if self.needs_refresh(now, margin) {
            match &self.refresh_token {
                Some(token) => Some(token.clone()),
                None => None,
            }
        } else {
            None
        }
    }
}

} // verus!
