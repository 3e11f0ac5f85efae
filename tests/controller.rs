use gossip_settings::controller::{LiveEffect, SettingsController, PRUNE_NOTICE};
use gossip_settings::dispatch::{Command, Dispatcher};
use gossip_settings::settings::{EffectTiming, Field, FieldEdit, Settings, Theme};
use std::sync::RwLock;

fn stored() -> Settings {
    Settings {
        num_relays_per_person: 2,
        max_relays: 15,
        feed_chunk: 43200,
        replies_chunk: 604800,
        overlap: 300,
        feed_recompute_interval_ms: 3500,
        reactions: true,
        reposts: true,
        direct_replies_only: true,
        pow: 0,
        set_client_tag: false,
        offline: false,
        load_avatars: true,
        check_nip05: true,
        set_user_agent: false,
        theme: Theme::Light,
        override_dpi: None,
        max_fps: 15,
    }
}

#[test]
fn new_draft_copies_committed() {
    let c = SettingsController::new(&stored(), 96);
    assert_eq!(c.draft, stored());
    assert!(!c.override_dpi);
    assert_eq!(c.override_dpi_value, 96);

    let mut with_dpi = stored();
    with_dpi.override_dpi = Some(120);
    let c = SettingsController::new(&with_dpi, 96);
    assert!(c.override_dpi);
    assert_eq!(c.override_dpi_value, 120);
}

#[test]
fn edit_stays_in_draft_until_commit() {
    let mut committed = stored();
    let mut d = Dispatcher::new();
    let mut c = SettingsController::new(&committed, 96);
    assert_eq!(c.edit_field(FieldEdit::Overlap(600)), None);
    assert_eq!(c.edit_field(FieldEdit::Offline(true)), None);
    assert_eq!(c.draft.overlap, 600);
    assert_eq!(committed.overlap, 300);
    assert!(!committed.offline);
    assert_eq!(d.len(), 0);

    c.commit(&mut committed, &mut d);
    assert_eq!(committed.overlap, 600);
    assert!(committed.offline);
    assert_eq!(committed.feed_chunk, 43200);
    assert_eq!(d.drain(), vec![Command::SaveSettings]);
}

#[test]
fn commit_twice_same_state_two_saves() {
    let mut committed = stored();
    let mut d = Dispatcher::new();
    let mut c = SettingsController::new(&committed, 96);
    c.edit_field(FieldEdit::MaxRelays(30));
    c.commit(&mut committed, &mut d);
    let first = committed;
    c.commit(&mut committed, &mut d);
    assert_eq!(committed, first);
    assert_eq!(committed.max_relays, 30);
    assert_eq!(d.drain(), vec![Command::SaveSettings, Command::SaveSettings]);
    assert_eq!(d.len(), 0);
}

#[test]
fn theme_applies_before_commit() {
    let committed = stored();
    let mut c = SettingsController::new(&committed, 96);
    assert_eq!(c.apply_theme(Theme::Dark), LiveEffect::Palette(Theme::Dark));
    assert_eq!(c.draft.theme, Theme::Dark);
    assert_eq!(committed.theme, Theme::Light);
}

#[test]
fn immediate_fields_return_live_effect() {
    let mut c = SettingsController::new(&stored(), 96);
    assert_eq!(c.edit_field(FieldEdit::Theme(Theme::Dark)), Some(LiveEffect::Palette(Theme::Dark)));
    assert_eq!(c.edit_field(FieldEdit::MaxFps(30)), Some(LiveEffect::FrameRateLimit(30)));
    assert_eq!(c.edit_field(FieldEdit::SetClientTag(true)), Some(LiveEffect::ClientTag(true)));
    assert_eq!(c.edit_field(FieldEdit::Pow(20)), None);
    assert_eq!(c.edit_field(FieldEdit::FeedChunk(600)), None);
    assert_eq!(c.draft.max_fps, 30);
    assert_eq!(c.draft.pow, 20);
    assert!(c.draft.set_client_tag);
}

#[test]
fn dpi_preview_does_not_persist() {
    let mut committed = stored();
    let mut d = Dispatcher::new();
    let mut c = SettingsController::new(&committed, 96);
    c.set_dpi_override(true);
    let effect = c.preview_dpi(150);
    assert_eq!(effect, LiveEffect::DisplayScale(150));
    if let LiveEffect::DisplayScale(dpi) = effect {
        let scale = dpi as f32 / 72.0;
        assert!((scale - 2.0833).abs() < 0.001);
    }
    assert_eq!(committed.override_dpi, None);
    assert_eq!(c.draft.override_dpi, None);

    c.commit(&mut committed, &mut d);
    assert_eq!(committed.override_dpi, Some(150));
    assert_eq!(c.draft.override_dpi, Some(150));
}

#[test]
fn dpi_override_off_commits_none() {
    let mut with_dpi = stored();
    with_dpi.override_dpi = Some(120);
    let mut committed = with_dpi;
    let mut d = Dispatcher::new();
    let mut c = SettingsController::new(&committed, 96);
    c.preview_dpi(200);
    c.set_dpi_override(false);
    c.commit(&mut committed, &mut d);
    assert_eq!(committed.override_dpi, None);
}

#[test]
fn prune_posts_notice_and_one_command() {
    let committed = stored();
    let c = SettingsController::new(&committed, 96);
    let mut status = String::from("Loaded 20 events");
    let mut d = Dispatcher::new();
    c.request_prune(&mut status, &mut d);
    assert_eq!(status, "Pruning database, please wait (this takes a long time)...");
    assert_eq!(status, PRUNE_NOTICE);
    assert_eq!(d.drain(), vec![Command::PruneDatabase]);
    assert_eq!(c.draft, committed);
}

#[test]
fn readers_never_see_a_partial_commit() {
    let lock = RwLock::new(stored());
    let mut c = SettingsController::new(&stored(), 96);
    let mut d = Dispatcher::new();
    for round in 0..200u64 {
        let chunk = 600 + round;
        c.edit_field(FieldEdit::FeedChunk(chunk));
        c.edit_field(FieldEdit::Overlap(round));
        let mut guard = lock.write().unwrap();
        c.commit(&mut guard, &mut d);
        drop(guard);
        let seen = *lock.read().unwrap();
        assert_eq!(seen.feed_chunk, seen.overlap + 600);
    }
    assert_eq!(d.len(), 200);
}

#[test]
fn field_table() {
    assert_eq!(Field::Theme.timing(), EffectTiming::Immediate);
    assert_eq!(Field::MaxFps.timing(), EffectTiming::Immediate);
    assert_eq!(Field::OverrideDpi.timing(), EffectTiming::Immediate);
    assert_eq!(Field::SetClientTag.timing(), EffectTiming::Immediate);
    assert_eq!(Field::Pow.timing(), EffectTiming::OnSave);
    assert_eq!(Field::LoadAvatars.timing(), EffectTiming::OnSave);
    assert_eq!(Field::Offline.timing(), EffectTiming::OnRestart);
    assert_eq!(Field::MaxRelays.timing(), EffectTiming::OnRestart);
    assert_eq!(Field::NumRelaysPerPerson.bounds(), Some((1, 4)));
    assert_eq!(Field::RepliesChunk.bounds(), Some((86400, 2592000)));
    assert_eq!(Field::OverrideDpi.bounds(), Some((72, 250)));
    assert_eq!(Field::Reactions.bounds(), None);
    assert_eq!(FieldEdit::Pow(3).field(), Field::Pow);
    assert_eq!(FieldEdit::Theme(Theme::Dark).field(), Field::Theme);
}

#[test]
fn apply_writes_one_field() {
    let mut s = stored();
    s.apply(FieldEdit::Reposts(false));
    let mut expected = stored();
    expected.reposts = false;
    assert_eq!(s, expected);
}

#[test]
fn dispatcher_keeps_send_order() {
    let mut d = Dispatcher::new();
    d.send(Command::PruneDatabase);
    d.send(Command::SaveSettings);
    d.send(Command::PruneDatabase);
    assert_eq!(d.len(), 3);
    assert_eq!(
        d.drain(),
        vec![Command::PruneDatabase, Command::SaveSettings, Command::PruneDatabase]
    );
    assert_eq!(d.drain(), Vec::<Command>::new());
}

#[test]
fn edit_takes_value_as_given() {
    let mut committed = stored();
    let mut d = Dispatcher::new();
    let mut c = SettingsController::new(&committed, 96);
    assert_eq!(c.edit_field(FieldEdit::MaxFps(500)), Some(LiveEffect::FrameRateLimit(500)));
    c.commit(&mut committed, &mut d);
    let mut expected = stored();
    expected.max_fps = 500;
    assert_eq!(committed, expected);
}

#[test]
fn prune_then_commit_sends_both_in_order() {
    let mut committed = stored();
    let mut status = String::new();
    let mut d = Dispatcher::new();
    let mut c = SettingsController::new(&committed, 96);
    c.request_prune(&mut status, &mut d);
    c.commit(&mut committed, &mut d);
    assert_eq!(committed, stored());
    assert_eq!(d.drain(), vec![Command::PruneDatabase, Command::SaveSettings]);
}
