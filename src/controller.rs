//! The settings controller: it stages edits in the draft, performs the live
//! side of immediate-effect actions, commits the draft as one whole value and
//! tells the background coordinator.
use vstd::prelude::*;
use crate::dispatch::{Command, Dispatcher};
use crate::settings::{EffectTiming, FieldEdit, Settings, Theme, field_timing};

verus! {

/// The status text posted when a prune is requested.
pub const PRUNE_NOTICE: &'static str = "Pruning database, please wait (this takes a long time)...";

/// A change of the live rendering, to be made by the rendering layer at once.
#[derive(Clone, Copy, Debug, PartialEq, Eq, Structural)]
pub enum LiveEffect {
    /// Switch to this palette.
    Palette(Theme),
    /// Scale the display by `dpi / 72`.
    DisplayScale(u32),
    /// Redraw at most this many frames per second.
    FrameRateLimit(u32),
    /// Tag new posts with the client's identity, or stop doing so.
    ClientTag(bool),
}

/// The live effect of an edit of a field whose timing is immediate.
pub open spec fn live_effect_of(e: FieldEdit) -> Option<LiveEffect> {
    match e {
        FieldEdit::Theme(t) => Some(LiveEffect::Palette(t)),
        FieldEdit::MaxFps(n) => Some(LiveEffect::FrameRateLimit(n)),
        FieldEdit::SetClientTag(b) => Some(LiveEffect::ClientTag(b)),
        _ => None,
    }
}

/// The draft settings owned by the interactive layer. The DPI override is
/// kept as a toggle and a value while it is edited; the two are folded into
/// the single optional field once, when the draft is committed.
pub struct SettingsController {
    /// The draft. Its `override_dpi` field is refreshed only by a commit.
    pub draft: Settings,
    /// Whether the DPI override is switched on.
    pub override_dpi: bool,
    /// The DPI value last previewed.
    pub override_dpi_value: u32,
}

impl SettingsController {
    /// The settings that a commit now would install: the draft with the DPI
    /// toggle and value folded into one optional field.
    pub open spec fn committed_form(self) -> Settings {
        Settings {
            override_dpi: if self.override_dpi {
                Some(self.override_dpi_value)
            } else {
                None
            },
            ..self.draft
        }
    }

    pub open spec fn after_edit(self, e: FieldEdit) -> SettingsController {
        SettingsController { draft: self.draft.with_edit(e), ..self }
    }

    pub open spec fn after_commit(self) -> SettingsController {
        SettingsController { draft: self.committed_form(), ..self }
    }

    /// A draft that starts as a copy of `committed`. With no override stored,
    /// the override value starts at `display_dpi`, the display's own.
    pub fn new(committed: &Settings, display_dpi: u32) -> (r: SettingsController)
        ensures
            r.draft == *committed,
            r.override_dpi == committed.override_dpi.is_some(),
            r.override_dpi_value == match committed.override_dpi {
                Some(v) => v,
                None => display_dpi,
            },
            r.committed_form() == *committed,
    {
        let (enabled, value) = match committed.override_dpi {
            Some(v) => (true, v),
            None => (false, display_dpi),
        };
        SettingsController { draft: *committed, override_dpi: enabled, override_dpi_value: value }
    }

    /// Writes the value of `e` into the draft. For a field whose timing is
    /// immediate it also returns the live change that goes with the value, so
    /// that the draft and what is shown agree. The committed settings are
    /// not involved.
    pub fn edit_field(&mut self, e: FieldEdit) -> (r: Option<LiveEffect>)
        ensures
            *final(self) == old(self).after_edit(e),
            r == live_effect_of(e),
            r.is_some() <==> field_timing(e.spec_field()) == EffectTiming::Immediate,
    {
        self.draft.apply(e);
        match e {
            FieldEdit::Theme(t) => Some(LiveEffect::Palette(t)),
            FieldEdit::MaxFps(n) => Some(LiveEffect::FrameRateLimit(n)),
            FieldEdit::SetClientTag(b) => Some(LiveEffect::ClientTag(b)),
            _ => None,
        }
    }

    /// Switches the live palette to `mode` and stores `mode` in the draft, to
    /// be persisted by the next commit.
    pub fn apply_theme(&mut self, mode: Theme) -> (r: LiveEffect)
        ensures
            *final(self) == old(self).after_edit(FieldEdit::Theme(mode)),
            final(self).draft.theme == mode,
            r == LiveEffect::Palette(mode),
    {
        self.draft.apply(FieldEdit::Theme(mode));
        LiveEffect::Palette(mode)
    }

    /// Switches the DPI override on or off in the draft.
    pub fn set_dpi_override(&mut self, enabled: bool)
        ensures
            *final(self) == (SettingsController { override_dpi: enabled, ..*old(self) }),
    {
        self.override_dpi = enabled;
    }

    /// Scales the live display by `dpi / 72` and keeps `dpi` as the value that
    /// the next commit stores, if the override is then switched on.
    pub fn preview_dpi(&mut self, dpi: u32) -> (r: LiveEffect)
        ensures
            *final(self) == (SettingsController { override_dpi_value: dpi, ..*old(self) }),
            r == LiveEffect::DisplayScale(dpi),
    {
        self.override_dpi_value = dpi;
        LiveEffect::DisplayScale(dpi)
    }

    /// Replaces `committed` as one value with the draft, DPI override
    /// folded in, and then sends `SaveSettings`. The caller holds `committed`
    /// exclusively for the call, so no reader sees part of the change.
    pub fn commit(&mut self, committed: &mut Settings, dispatcher: &mut Dispatcher)
        ensures
            *final(self) == old(self).after_commit(),
            *final(committed) == old(self).committed_form(),
            final(dispatcher)@ == old(dispatcher)@.push(Command::SaveSettings),
    {
        self.draft.override_dpi = if self.override_dpi {
            Some(self.override_dpi_value)
        } else {
            None
        };
        *committed = self.draft;
        dispatcher.send(Command::SaveSettings);
    }

    /// Posts the prune notice as the status text, in place of what it held,
    /// and then sends `PruneDatabase`. No setting changes.
    pub fn request_prune(&self, status: &mut String, dispatcher: &mut Dispatcher)
        ensures
            final(status)@ == PRUNE_NOTICE@,
            final(dispatcher)@ == old(dispatcher)@.push(Command::PruneDatabase),
    {
        *status = String::from_str(PRUNE_NOTICE);
        dispatcher.send(Command::PruneDatabase);
    }
}

/// An edit changes the draft alone: the settings that a commit would
/// install differ from before only in the edited field, and once committed
/// that field holds the new value.
pub proof fn lemma_edit_is_draft_local(c: SettingsController, e: FieldEdit)
    ensures
        c.after_edit(e).committed_form() == c.committed_form().with_edit(e),
        c.after_edit(e).committed_form().holds(e),
{
    match e {
        FieldEdit::NumRelaysPerPerson(_) => {},
        FieldEdit::MaxRelays(_) => {},
        FieldEdit::FeedChunk(_) => {},
        FieldEdit::RepliesChunk(_) => {},
        FieldEdit::Overlap(_) => {},
        FieldEdit::FeedRecomputeIntervalMs(_) => {},
        FieldEdit::Reactions(_) => {},
        FieldEdit::Reposts(_) => {},
        FieldEdit::DirectRepliesOnly(_) => {},
        FieldEdit::Pow(_) => {},
        FieldEdit::SetClientTag(_) => {},
        FieldEdit::Offline(_) => {},
        FieldEdit::LoadAvatars(_) => {},
        FieldEdit::CheckNip05(_) => {},
        FieldEdit::SetUserAgent(_) => {},
        FieldEdit::Theme(_) => {},
        FieldEdit::MaxFps(_) => {},
    }
}

/// A second commit with no edit in between installs the same settings as the
/// first and leaves the draft as it was (each commit still sends its own
/// `SaveSettings`).
pub proof fn lemma_commit_idempotent(c: SettingsController)
    ensures
        c.after_commit().committed_form() == c.committed_form(),
        c.after_commit().after_commit() == c.after_commit(),
{
}

/// A DPI preview leaves the draft settings as they were, its stored override
/// included; the value reaches the settings only through the next commit,
/// and then only while the override is switched on.
pub proof fn lemma_dpi_preview_waits_for_commit(c: SettingsController, dpi: u32)
    ensures
        ({
            let p = SettingsController { override_dpi_value: dpi, ..c };
            &&& p.draft == c.draft
            &&& p.committed_form().override_dpi == if c.override_dpi {
                Some(dpi)
            } else {
                None
            }
            &&& p.after_commit().draft.override_dpi == p.committed_form().override_dpi
        }),
{
}

} // verus!
