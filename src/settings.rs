//! The settings record, the table that gives each field its timing and its
//! bounds, and single-field edits of the record.
use vstd::prelude::*;

verus! {

/// The light or dark rendering palette.
#[derive(Clone, Copy, Debug, PartialEq, Eq, Structural)]
pub enum Theme {
    Light,
    Dark,
}

/// When a change of a field takes effect.
#[derive(Clone, Copy, Debug, PartialEq, Eq, Structural)]
pub enum EffectTiming {
    /// At once, while it is edited.
    Immediate,
    /// When the settings are saved.
    OnSave,
    /// When the application next starts.
    OnRestart,
}

/// Every configuration field.
#[derive(Clone, Copy, Debug, PartialEq, Eq, Structural)]
pub enum Field {
    NumRelaysPerPerson,
    MaxRelays,
    FeedChunk,
    RepliesChunk,
    Overlap,
    FeedRecomputeIntervalMs,
    Reactions,
    Reposts,
    DirectRepliesOnly,
    Pow,
    SetClientTag,
    Offline,
    LoadAvatars,
    CheckNip05,
    SetUserAgent,
    Theme,
    OverrideDpi,
    MaxFps,
}

/// The whole configuration.
#[derive(Clone, Copy, Debug, PartialEq, Eq, Structural)]
pub struct Settings {
    /// Relays queried per contact.
    pub num_relays_per_person: u8,
    /// Relays kept connected for the following feed.
    pub max_relays: u8,
    /// Seconds back from now from which the feed is loaded.
    pub feed_chunk: u64,
    /// Seconds back from now from which replies are loaded.
    pub replies_chunk: u64,
    /// Seconds of overlap with what was loaded before a restart.
    pub overlap: u64,
    pub feed_recompute_interval_ms: u32,
    pub reactions: bool,
    pub reposts: bool,
    pub direct_replies_only: bool,
    /// Proof-of-work difficulty of new posts, in leading zero bits.
    pub pow: u8,
    /// Tag posts with the client's identity.
    pub set_client_tag: bool,
    pub offline: bool,
    pub load_avatars: bool,
    /// Verify identity proofs.
    pub check_nip05: bool,
    /// Send the client's identification to relays.
    pub set_user_agent: bool,
    pub theme: Theme,
    /// Dots per inch of the display, when the reported value is overridden.
    pub override_dpi: Option<u32>,
    pub max_fps: u32,
}

/// A new value for one field of `Settings` that is edited in place. The DPI
/// override is edited through its toggle and its preview instead, see
/// `SettingsController`.
#[derive(Clone, Copy, Debug, PartialEq, Eq, Structural)]
pub enum FieldEdit {
    NumRelaysPerPerson(u8),
    MaxRelays(u8),
    FeedChunk(u64),
    RepliesChunk(u64),
    Overlap(u64),
    FeedRecomputeIntervalMs(u32),
    Reactions(bool),
    Reposts(bool),
    DirectRepliesOnly(bool),
    Pow(u8),
    SetClientTag(bool),
    Offline(bool),
    LoadAvatars(bool),
    CheckNip05(bool),
    SetUserAgent(bool),
    Theme(Theme),
    MaxFps(u32),
}

/// The timing that each field declares.
pub open spec fn field_timing(f: Field) -> EffectTiming {
    match f {
        Field::NumRelaysPerPerson => EffectTiming::OnRestart,
        Field::MaxRelays => EffectTiming::OnRestart,
        Field::FeedChunk => EffectTiming::OnRestart,
        Field::RepliesChunk => EffectTiming::OnRestart,
        Field::Overlap => EffectTiming::OnRestart,
        Field::FeedRecomputeIntervalMs => EffectTiming::OnSave,
        Field::Reactions => EffectTiming::OnSave,
        Field::Reposts => EffectTiming::OnSave,
        Field::DirectRepliesOnly => EffectTiming::OnSave,
        Field::Pow => EffectTiming::OnSave,
        Field::SetClientTag => EffectTiming::Immediate,
        Field::Offline => EffectTiming::OnRestart,
        Field::LoadAvatars => EffectTiming::OnSave,
        Field::CheckNip05 => EffectTiming::OnSave,
        Field::SetUserAgent => EffectTiming::OnSave,
        Field::Theme => EffectTiming::Immediate,
        Field::OverrideDpi => EffectTiming::Immediate,
        Field::MaxFps => EffectTiming::Immediate,
    }
}

/// The inclusive bounds of each field that has them.
pub open spec fn field_bounds(f: Field) -> Option<(u64, u64)> {
    match f {
        Field::NumRelaysPerPerson => Some((1, 4)),
        Field::MaxRelays => Some((5, 100)),
        Field::FeedChunk => Some((600, 86400)),
        Field::RepliesChunk => Some((86400, 2592000)),
        Field::Overlap => Some((0, 3600)),
        Field::FeedRecomputeIntervalMs => Some((250, 5000)),
        Field::Pow => Some((0, 40)),
        Field::OverrideDpi => Some((72, 250)),
        Field::MaxFps => Some((2, 60)),
        _ => None,
    }
}

/// Whether `v` lies within the bounds of `f`; always so for a field without
/// bounds.
pub open spec fn in_bounds(f: Field, v: u64) -> bool {
    match field_bounds(f) {
        Some((lo, hi)) => lo <= v <= hi,
        None => true,
    }
}

impl Field {
    /// The timing that this field declares.
    pub fn timing(self) -> (r: EffectTiming)
        ensures
            r == field_timing(self),
    {
        match self {
            Field::NumRelaysPerPerson => EffectTiming::OnRestart,
            Field::MaxRelays => EffectTiming::OnRestart,
            Field::FeedChunk => EffectTiming::OnRestart,
            Field::RepliesChunk => EffectTiming::OnRestart,
            Field::Overlap => EffectTiming::OnRestart,
            Field::FeedRecomputeIntervalMs => EffectTiming::OnSave,
            Field::Reactions => EffectTiming::OnSave,
            Field::Reposts => EffectTiming::OnSave,
            Field::DirectRepliesOnly => EffectTiming::OnSave,
            Field::Pow => EffectTiming::OnSave,
            Field::SetClientTag => EffectTiming::Immediate,
            Field::Offline => EffectTiming::OnRestart,
            Field::LoadAvatars => EffectTiming::OnSave,
            Field::CheckNip05 => EffectTiming::OnSave,
            Field::SetUserAgent => EffectTiming::OnSave,
            Field::Theme => EffectTiming::Immediate,
            Field::OverrideDpi => EffectTiming::Immediate,
            Field::MaxFps => EffectTiming::Immediate,
        }
    }

    /// The inclusive bounds of this field, `None` where it has none.
    pub fn bounds(self) -> (r: Option<(u64, u64)>)
        ensures
            r == field_bounds(self),
    {
        match self {
            Field::NumRelaysPerPerson => Some((1, 4)),
            Field::MaxRelays => Some((5, 100)),
            Field::FeedChunk => Some((600, 86400)),
            Field::RepliesChunk => Some((86400, 2592000)),
            Field::Overlap => Some((0, 3600)),
            Field::FeedRecomputeIntervalMs => Some((250, 5000)),
            Field::Pow => Some((0, 40)),
            Field::OverrideDpi => Some((72, 250)),
            Field::MaxFps => Some((2, 60)),
            _ => None,
        }
    }
}

impl FieldEdit {
    pub open spec fn spec_field(self) -> Field {
        match self {
            FieldEdit::NumRelaysPerPerson(_) => Field::NumRelaysPerPerson,
            FieldEdit::MaxRelays(_) => Field::MaxRelays,
            FieldEdit::FeedChunk(_) => Field::FeedChunk,
            FieldEdit::RepliesChunk(_) => Field::RepliesChunk,
            FieldEdit::Overlap(_) => Field::Overlap,
            FieldEdit::FeedRecomputeIntervalMs(_) => Field::FeedRecomputeIntervalMs,
            FieldEdit::Reactions(_) => Field::Reactions,
            FieldEdit::Reposts(_) => Field::Reposts,
            FieldEdit::DirectRepliesOnly(_) => Field::DirectRepliesOnly,
            FieldEdit::Pow(_) => Field::Pow,
            FieldEdit::SetClientTag(_) => Field::SetClientTag,
            FieldEdit::Offline(_) => Field::Offline,
            FieldEdit::LoadAvatars(_) => Field::LoadAvatars,
            FieldEdit::CheckNip05(_) => Field::CheckNip05,
            FieldEdit::SetUserAgent(_) => Field::SetUserAgent,
            FieldEdit::Theme(_) => Field::Theme,
            FieldEdit::MaxFps(_) => Field::MaxFps,
        }
    }

    /// The field that this edit writes.
    pub fn field(&self) -> (r: Field)
        ensures
            r == self.spec_field(),
    {
        match self {
            FieldEdit::NumRelaysPerPerson(_) => Field::NumRelaysPerPerson,
            FieldEdit::MaxRelays(_) => Field::MaxRelays,
            FieldEdit::FeedChunk(_) => Field::FeedChunk,
            FieldEdit::RepliesChunk(_) => Field::RepliesChunk,
            FieldEdit::Overlap(_) => Field::Overlap,
            FieldEdit::FeedRecomputeIntervalMs(_) => Field::FeedRecomputeIntervalMs,
            FieldEdit::Reactions(_) => Field::Reactions,
            FieldEdit::Reposts(_) => Field::Reposts,
            FieldEdit::DirectRepliesOnly(_) => Field::DirectRepliesOnly,
            FieldEdit::Pow(_) => Field::Pow,
            FieldEdit::SetClientTag(_) => Field::SetClientTag,
            FieldEdit::Offline(_) => Field::Offline,
            FieldEdit::LoadAvatars(_) => Field::LoadAvatars,
            FieldEdit::CheckNip05(_) => Field::CheckNip05,
            FieldEdit::SetUserAgent(_) => Field::SetUserAgent,
            FieldEdit::Theme(_) => Field::Theme,
            FieldEdit::MaxFps(_) => Field::MaxFps,
        }
    }

    /// Whether the new value lies within its field's bounds.
    pub open spec fn within_bounds(self) -> bool {
        match self {
            FieldEdit::NumRelaysPerPerson(v) => in_bounds(Field::NumRelaysPerPerson, v as u64),
            FieldEdit::MaxRelays(v) => in_bounds(Field::MaxRelays, v as u64),
            FieldEdit::FeedChunk(v) => in_bounds(Field::FeedChunk, v),
            FieldEdit::RepliesChunk(v) => in_bounds(Field::RepliesChunk, v),
            FieldEdit::Overlap(v) => in_bounds(Field::Overlap, v),
            FieldEdit::FeedRecomputeIntervalMs(v) => in_bounds(
                Field::FeedRecomputeIntervalMs,
                v as u64,
            ),
            FieldEdit::Pow(v) => in_bounds(Field::Pow, v as u64),
            FieldEdit::MaxFps(v) => in_bounds(Field::MaxFps, v as u64),
            _ => true,
        }
    }
}

impl Settings {
    /// Whether every bounded field lies within its bounds.
    pub open spec fn within_bounds(self) -> bool {
        &&& in_bounds(Field::NumRelaysPerPerson, self.num_relays_per_person as u64)
        &&& in_bounds(Field::MaxRelays, self.max_relays as u64)
        &&& in_bounds(Field::FeedChunk, self.feed_chunk)
        &&& in_bounds(Field::RepliesChunk, self.replies_chunk)
        &&& in_bounds(Field::Overlap, self.overlap)
        &&& in_bounds(Field::FeedRecomputeIntervalMs, self.feed_recompute_interval_ms as u64)
        &&& in_bounds(Field::Pow, self.pow as u64)
        &&& match self.override_dpi {
            Some(v) => in_bounds(Field::OverrideDpi, v as u64),
            None => true,
        }
        &&& in_bounds(Field::MaxFps, self.max_fps as u64)
    }

    /// These settings with the field of `e` set to its value, all others kept.
    pub open spec fn with_edit(self, e: FieldEdit) -> Settings {
        match e {
            FieldEdit::NumRelaysPerPerson(v) => Settings { num_relays_per_person: v, ..self },
            FieldEdit::MaxRelays(v) => Settings { max_relays: v, ..self },
            FieldEdit::FeedChunk(v) => Settings { feed_chunk: v, ..self },
            FieldEdit::RepliesChunk(v) => Settings { replies_chunk: v, ..self },
            FieldEdit::Overlap(v) => Settings { overlap: v, ..self },
            FieldEdit::FeedRecomputeIntervalMs(v) => Settings {
                feed_recompute_interval_ms: v,
                ..self
            },
            FieldEdit::Reactions(v) => Settings { reactions: v, ..self },
            FieldEdit::Reposts(v) => Settings { reposts: v, ..self },
            FieldEdit::DirectRepliesOnly(v) => Settings { direct_replies_only: v, ..self },
            FieldEdit::Pow(v) => Settings { pow: v, ..self },
            FieldEdit::SetClientTag(v) => Settings { set_client_tag: v, ..self },
            FieldEdit::Offline(v) => Settings { offline: v, ..self },
            FieldEdit::LoadAvatars(v) => Settings { load_avatars: v, ..self },
            FieldEdit::CheckNip05(v) => Settings { check_nip05: v, ..self },
            FieldEdit::SetUserAgent(v) => Settings { set_user_agent: v, ..self },
            FieldEdit::Theme(v) => Settings { theme: v, ..self },
            FieldEdit::MaxFps(v) => Settings { max_fps: v, ..self },
        }
    }

    /// Whether the field of `e` holds the value of `e`.
    pub open spec fn holds(self, e: FieldEdit) -> bool {
        match e {
            FieldEdit::NumRelaysPerPerson(v) => self.num_relays_per_person == v,
            FieldEdit::MaxRelays(v) => self.max_relays == v,
            FieldEdit::FeedChunk(v) => self.feed_chunk == v,
            FieldEdit::RepliesChunk(v) => self.replies_chunk == v,
            FieldEdit::Overlap(v) => self.overlap == v,
            FieldEdit::FeedRecomputeIntervalMs(v) => self.feed_recompute_interval_ms == v,
            FieldEdit::Reactions(v) => self.reactions == v,
            FieldEdit::Reposts(v) => self.reposts == v,
            FieldEdit::DirectRepliesOnly(v) => self.direct_replies_only == v,
            FieldEdit::Pow(v) => self.pow == v,
            FieldEdit::SetClientTag(v) => self.set_client_tag == v,
            FieldEdit::Offline(v) => self.offline == v,
            FieldEdit::LoadAvatars(v) => self.load_avatars == v,
            FieldEdit::CheckNip05(v) => self.check_nip05 == v,
            FieldEdit::SetUserAgent(v) => self.set_user_agent == v,
            FieldEdit::Theme(v) => self.theme == v,
            FieldEdit::MaxFps(v) => self.max_fps == v,
        }
    }

    /// Writes the value of `e` into its field. The value is taken as given:
    /// the control that produced it keeps it within bounds.
    pub fn apply(&mut self, e: FieldEdit)
        ensures
            *final(self) == old(self).with_edit(e),
    {
        match e {
            FieldEdit::NumRelaysPerPerson(v) => self.num_relays_per_person = v,
            FieldEdit::MaxRelays(v) => self.max_relays = v,
            FieldEdit::FeedChunk(v) => self.feed_chunk = v,
            FieldEdit::RepliesChunk(v) => self.replies_chunk = v,
            FieldEdit::Overlap(v) => self.overlap = v,
            FieldEdit::FeedRecomputeIntervalMs(v) => self.feed_recompute_interval_ms = v,
            FieldEdit::Reactions(v) => self.reactions = v,
            FieldEdit::Reposts(v) => self.reposts = v,
            FieldEdit::DirectRepliesOnly(v) => self.direct_replies_only = v,
            FieldEdit::Pow(v) => self.pow = v,
            FieldEdit::SetClientTag(v) => self.set_client_tag = v,
            FieldEdit::Offline(v) => self.offline = v,
            FieldEdit::LoadAvatars(v) => self.load_avatars = v,
            FieldEdit::CheckNip05(v) => self.check_nip05 = v,
            FieldEdit::SetUserAgent(v) => self.set_user_agent = v,
            FieldEdit::Theme(v) => self.theme = v,
            FieldEdit::MaxFps(v) => self.max_fps = v,
        }
    }
}

/// After an edit the edited field holds the new value, and an edit within
/// bounds keeps settings within bounds.
pub proof fn lemma_edit_holds(s: Settings, e: FieldEdit)
    ensures
        s.with_edit(e).holds(e),
        s.within_bounds() && e.within_bounds() ==> s.with_edit(e).within_bounds(),
{
    match e {
        FieldEdit::NumRelaysPerPerson(_) => {},
        FieldEdit::MaxRelays(_) => {},
        FieldEdit::FeedChunk(_) => {},
        FieldEdit::RepliesChunk(_) => {},
        FieldEdit::Overlap(_) => {},
        FieldEdit::FeedRecomputeIntervalMs(_) => {},
        FieldEdit::Reactions(_) => {},
        FieldEdit::Reposts(_) => {},
        FieldEdit::DirectRepliesOnly(_) => {},
        FieldEdit::Pow(_) => {},
        FieldEdit::SetClientTag(_) => {},
        FieldEdit::Offline(_) => {},
        FieldEdit::LoadAvatars(_) => {},
        FieldEdit::CheckNip05(_) => {},
        FieldEdit::SetUserAgent(_) => {},
        FieldEdit::Theme(_) => {},
        FieldEdit::MaxFps(_) => {},
    }
}

} // verus!
