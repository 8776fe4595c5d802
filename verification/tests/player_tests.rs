use storystream::player_controls::{
    tui_command, TuiCommand, TuiInput,
    action_for_key, ends_playback, next_view, progress_bar, seek_backward, seek_forward,
    volume_down, volume_up, PlayerAction, PlayerKey, TuiView,
};
use storystream::time::Duration;

#[test]
fn test_playback_state_persistence() {
    let position = Duration::from_std_millis(125_000);
    let forward = seek_forward(position.as_millis());
    assert_eq!(seek_backward(forward), position.as_millis());
}

#[test]
fn keys_map_to_actions() {
    assert_eq!(action_for_key(PlayerKey::Char(' ')), PlayerAction::TogglePlayPause);
    assert_eq!(action_for_key(PlayerKey::Char('q')), PlayerAction::Quit);
    assert_eq!(action_for_key(PlayerKey::Escape), PlayerAction::Quit);
    assert_eq!(action_for_key(PlayerKey::Char('Q')), PlayerAction::Ignore);
    assert_eq!(action_for_key(PlayerKey::ArrowLeft), PlayerAction::SeekBackward);
    assert_eq!(action_for_key(PlayerKey::ArrowRight), PlayerAction::SeekForward);
    assert_eq!(action_for_key(PlayerKey::Char('N')), PlayerAction::NextChapter);
    assert_eq!(action_for_key(PlayerKey::Char('p')), PlayerAction::PreviousChapter);
    assert_eq!(action_for_key(PlayerKey::Char('=')), PlayerAction::VolumeUp);
    assert_eq!(action_for_key(PlayerKey::Char('_')), PlayerAction::VolumeDown);
    assert_eq!(action_for_key(PlayerKey::Char('[')), PlayerAction::SpeedDown);
    assert_eq!(action_for_key(PlayerKey::Char(']')), PlayerAction::SpeedUp);
    assert_eq!(action_for_key(PlayerKey::Other), PlayerAction::Ignore);
    assert!(ends_playback(PlayerAction::Quit));
    assert!(!ends_playback(PlayerAction::TogglePlayPause));
}

#[test]
fn volume_and_seek_steps() {
    assert_eq!(volume_up(70), 75);
    assert_eq!(volume_up(98), 100);
    assert_eq!(volume_down(3), 0);
    assert_eq!(volume_down(50), 45);
    assert_eq!(seek_backward(4_000), 0);
    assert_eq!(seek_backward(60_000), 50_000);
    assert_eq!(seek_forward(60_000), 70_000);
}

#[test]
fn progress_bar_draws_cells() {
    let bar = progress_bar(50);
    assert_eq!(bar, format!("  [{}{}] 50%", "=".repeat(25), " ".repeat(25)));
    let bar = progress_bar(0);
    assert_eq!(bar, format!("  [{}] 0%", " ".repeat(50)));
    let bar = progress_bar(250);
    assert_eq!(bar, format!("  [{}] 250%", "=".repeat(50)));
}

#[test]
fn tab_cycles_views() {
    let mut view = TuiView::Library;
    let mut seen = Vec::new();
    for _ in 0..8 {
        seen.push(view);
        view = next_view(view);
    }
    assert_eq!(view, TuiView::Library);
    assert_eq!(seen.len(), 8);
    assert_eq!(next_view(TuiView::Help), TuiView::Library);
    assert_eq!(next_view(TuiView::Plugin), TuiView::Library);
    assert_eq!(next_view(TuiView::Library), TuiView::Player);
}

#[test]
fn interface_bindings() {
    assert_eq!(tui_command(TuiInput::Char('q', false), TuiView::Library), TuiCommand::Quit);
    assert_eq!(tui_command(TuiInput::Char('c', true), TuiView::Library), TuiCommand::Quit);
    assert_eq!(tui_command(TuiInput::Char('c', false), TuiView::Library), TuiCommand::Nothing);
    assert_eq!(tui_command(TuiInput::Tab, TuiView::Search), TuiCommand::NextView);
    assert_eq!(
        tui_command(TuiInput::Char('h', false), TuiView::Help),
        TuiCommand::ShowView(TuiView::Library)
    );
    assert_eq!(
        tui_command(TuiInput::Char('h', false), TuiView::Player),
        TuiCommand::ShowView(TuiView::Help)
    );
    assert_eq!(tui_command(TuiInput::Char('t', false), TuiView::Player), TuiCommand::NextTheme);
    assert_eq!(tui_command(TuiInput::Char('k', false), TuiView::Library), TuiCommand::SelectPrevious);
    assert_eq!(tui_command(TuiInput::ScrollDown, TuiView::Library), TuiCommand::SelectNext);
    assert_eq!(tui_command(TuiInput::Char(' ', false), TuiView::Player), TuiCommand::TogglePlayback);
    assert_eq!(tui_command(TuiInput::Char(' ', false), TuiView::Library), TuiCommand::Nothing);
}
