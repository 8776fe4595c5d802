//! The terminal player's decisions: what a key asks for, how volume and
//! position change, how the progress bar looks, and how views follow each
//! other.

use vstd::prelude::*;
use crate::text::{cat4, decimal, push_char, u64_decimal};
use crate::time::{std_duration_millis, std_millis_of, Duration};

verus! {

/// A key press, as the terminal reports it.
#[derive(Debug, Clone, Copy, PartialEq, Eq, Structural)]
pub enum PlayerKey {
    Char(char),
    Escape,
    ArrowLeft,
    ArrowRight,
    Other,
}

/// What a key press asks the player to do.
#[derive(Debug, Clone, Copy, PartialEq, Eq, Structural)]
pub enum PlayerAction {
    TogglePlayPause,
    Quit,
    SeekBackward,
    SeekForward,
    NextChapter,
    PreviousChapter,
    VolumeUp,
    VolumeDown,
    SpeedDown,
    SpeedUp,
    Ignore,
}

/// The player's key bindings.
pub open spec fn key_action(key: PlayerKey) -> PlayerAction {
    match key {
        PlayerKey::Char(' ') => PlayerAction::TogglePlayPause,
        PlayerKey::Char('q') | PlayerKey::Escape => PlayerAction::Quit,
        PlayerKey::ArrowLeft => PlayerAction::SeekBackward,
        PlayerKey::ArrowRight => PlayerAction::SeekForward,
        PlayerKey::Char('n') | PlayerKey::Char('N') => PlayerAction::NextChapter,
        PlayerKey::Char('p') | PlayerKey::Char('P') => PlayerAction::PreviousChapter,
        PlayerKey::Char('+') | PlayerKey::Char('=') => PlayerAction::VolumeUp,
        PlayerKey::Char('-') | PlayerKey::Char('_') => PlayerAction::VolumeDown,
        PlayerKey::Char('[') => PlayerAction::SpeedDown,
        PlayerKey::Char(']') => PlayerAction::SpeedUp,
        _ => PlayerAction::Ignore,
    }
}

/// What a key press asks for.
pub fn action_for_key(key: PlayerKey) -> (r: PlayerAction)
    ensures
        r == key_action(key),
{
    match key {
        PlayerKey::Char(' ') => PlayerAction::TogglePlayPause,
        PlayerKey::Char('q') | PlayerKey::Escape => PlayerAction::Quit,
        PlayerKey::ArrowLeft => PlayerAction::SeekBackward,
        PlayerKey::ArrowRight => PlayerAction::SeekForward,
        PlayerKey::Char('n') | PlayerKey::Char('N') => PlayerAction::NextChapter,
        PlayerKey::Char('p') | PlayerKey::Char('P') => PlayerAction::PreviousChapter,
        PlayerKey::Char('+') | PlayerKey::Char('=') => PlayerAction::VolumeUp,
        PlayerKey::Char('-') | PlayerKey::Char('_') => PlayerAction::VolumeDown,
        PlayerKey::Char('[') => PlayerAction::SpeedDown,
        PlayerKey::Char(']') => PlayerAction::SpeedUp,
        _ => PlayerAction::Ignore,
    }
}

/// Whether an action ends the player.
pub fn ends_playback(action: PlayerAction) -> (r: bool)
    ensures
        r == (action == PlayerAction::Quit),
{
    match action {
        PlayerAction::Quit => true,
        _ => false,
    }
}

/// The volume after a step up: five more, at most 100.
pub fn volume_up(volume: u8) -> (r: u8)
    requires
        volume <= 250,
    ensures
        r == (if volume + 5 > 100 { 100 } else { volume + 5 }),
{
    let raised = volume + 5;
    if raised > 100 {
        100
    } else {
        raised
    }
}

/// The volume after a step down: five less, at least 0.
pub fn volume_down(volume: u8) -> (r: u8)
    ensures
        r == (if volume < 5 { 0 } else { volume - 5 }),
{
    volume.saturating_sub(5)
}

/// Volume steps keep a volume between 0 and 100 there.
pub proof fn law_volume_steps_stay_in_range(volume: u8)
    requires
        volume <= 100,
    ensures
        (if volume + 5 > 100 { 100 } else { volume + 5 }) <= 100,
        (if volume < 5 { 0 } else { volume - 5 }) <= 100,
{
}

/// The volume after a key press asking for `action`, where `accepted` says
/// whether the audio engine took the new volume: a step up or down when it
/// did, the volume unchanged otherwise and for every other action.
pub open spec fn volume_after(action: PlayerAction, volume: u8, accepted: bool) -> u8 {
    match action {
        PlayerAction::VolumeUp => if !accepted {
            volume
        } else if volume + 5 > 100 {
            100
        } else {
            (volume + 5) as u8
        },
        PlayerAction::VolumeDown => if !accepted {
            volume
        } else if volume < 5 {
            0
        } else {
            (volume - 5) as u8
        },
        _ => volume,
    }
}

/// What one key press does to the player's integer state: whether it quits,
/// and the volume it leaves.
#[derive(Debug, Clone, Copy, PartialEq, Eq)]
pub struct KeyStep {
    pub quit: bool,
    pub volume: u8,
}

/// Handles one key press, given the volume before it and whether the audio
/// engine accepted the volume it was asked to set. The step up adds in `u8`,
/// so a volume above 250 is refused for it, as the addition would overflow.
pub fn key_press_step(key: PlayerKey, volume: u8, engine_accepted: bool) -> (r: KeyStep)
    requires
        key_action(key) == PlayerAction::VolumeUp ==> volume <= 250,
    ensures
        r.quit == (key_action(key) == PlayerAction::Quit),
        r.volume == volume_after(key_action(key), volume, engine_accepted),
{
    let action = action_for_key(key);
    let quit = ends_playback(action);
    let new_volume = match action {
        PlayerAction::VolumeUp => {
            let raised = volume_up(volume);
            if engine_accepted {
                raised
            } else {
                volume
            }
        },
        PlayerAction::VolumeDown => {
            let lowered = volume_down(volume);
            if engine_accepted {
                lowered
            } else {
                volume
            }
        },
        _ => volume,
    };
    KeyStep { quit, volume: new_volume }
}

/// Handling a key press quits exactly on `q` or Escape, and keeps a volume
/// between 0 and 100 there, whatever the engine answers.
pub proof fn law_key_press_keeps_volume_in_range(key: PlayerKey, volume: u8, accepted: bool)
    requires
        volume <= 100,
    ensures
        volume_after(key_action(key), volume, accepted) <= 100,
        (key_action(key) == PlayerAction::Quit) <==> (key == PlayerKey::Char('q') || key
            == PlayerKey::Escape),
{
}

/// How far one seek moves, in milliseconds.
pub const SEEK_STEP_MILLIS: u64 = 10000;

/// The position after seeking back: ten seconds earlier, at least 0.
pub fn seek_backward(position_millis: u64) -> (r: u64)
    ensures
        r == (if position_millis < SEEK_STEP_MILLIS { 0 } else { position_millis
            - SEEK_STEP_MILLIS }),
{
    position_millis.saturating_sub(SEEK_STEP_MILLIS)
}

/// The position after seeking forward: ten seconds later, at most the
/// largest duration (the stored position is clamped there).
pub fn seek_forward(position_millis: u64) -> (r: u64)
    ensures
        r == (if position_millis + SEEK_STEP_MILLIS > u64::MAX {
            u64::MAX as int
        } else {
            position_millis + SEEK_STEP_MILLIS
        }),
{
    position_millis.saturating_add(SEEK_STEP_MILLIS)
}

/// The width of the progress bar, in characters.
pub const BAR_WIDTH: usize = 50;

/// How many cells of the bar a progress percentage fills.
pub open spec fn filled_cells(progress: nat) -> nat {
    if progress * 50 / 100 > 50 {
        50
    } else {
        progress * 50 / 100
    }
}

/// The progress bar line: the filled cells as `=`, the rest as spaces, then
/// the percentage.
pub open spec fn progress_bar_text(progress: nat) -> Seq<char> {
    "  ["@ + Seq::new(filled_cells(progress), |i: int| '=') + Seq::new(
        (50 - filled_cells(progress)) as nat,
        |i: int| ' ',
    ) + "] "@ + decimal(progress) + "%"@
}

/// Draws the progress bar for a percentage.
pub fn progress_bar(progress: usize) -> (r: String)
    requires
        progress * 50 <= usize::MAX,
    ensures
        r@ == progress_bar_text(progress as nat),
{
    let scaled = progress * BAR_WIDTH / 100;
    let filled = if scaled > BAR_WIDTH {
        BAR_WIDTH
    } else {
        scaled
    };
    let mut cells = String::new();
    let mut i: usize = 0;
    while i < BAR_WIDTH
        invariant
            i <= BAR_WIDTH,
            filled == filled_cells(progress as nat),
            filled <= BAR_WIDTH,
            cells@ == Seq::new(
                if i <= filled { i as nat } else { filled as nat },
                |k: int| '=',
            ) + Seq::new(if i <= filled { 0 } else { (i - filled) as nat }, |k: int| ' '),
        decreases BAR_WIDTH - i,
    {
        let ghost before = cells@;
        if i < filled {
            push_char(&mut cells, '=');
            proof {
                assert(cells@ =~= Seq::new((i + 1) as nat, |k: int| '=') + Seq::new(
                    0,
                    |k: int| ' ',
                ));
            }
        } else {
            push_char(&mut cells, ' ');
            proof {
                assert(cells@ =~= Seq::new(filled as nat, |k: int| '=') + Seq::new(
                    (i + 1 - filled) as nat,
                    |k: int| ' ',
                ));
            }
        }
        i = i + 1;
    }
    proof {
        reveal_strlit("  [");
        reveal_strlit("] ");
        reveal_strlit("%");
    }
    let text = cat4("  [", cells.as_str(), "] ", u64_decimal(progress as u64).as_str());
    let mut out = text;
    push_char(&mut out, '%');
    proof {
        assert(out@ =~= progress_bar_text(progress as nat));
    }
    out
}

/// The views of the terminal interface.
#[derive(Debug, Clone, Copy, PartialEq, Eq, Structural)]
pub enum TuiView {
    Library,
    Player,
    Bookmarks,
    Search,
    Playlists,
    Statistics,
    Settings,
    Help,
    Plugin,
}

/// The view that Tab leads to.
pub open spec fn view_after(v: TuiView) -> TuiView {
    match v {
        TuiView::Library => TuiView::Player,
        TuiView::Player => TuiView::Bookmarks,
        TuiView::Bookmarks => TuiView::Search,
        TuiView::Search => TuiView::Playlists,
        TuiView::Playlists => TuiView::Statistics,
        TuiView::Statistics => TuiView::Settings,
        TuiView::Settings => TuiView::Help,
        TuiView::Help => TuiView::Library,
        TuiView::Plugin => TuiView::Library,
    }
}

/// The view that follows `view` when the user presses Tab.
pub fn next_view(view: TuiView) -> (r: TuiView)
    ensures
        r == view_after(view),
{
    match view {
        TuiView::Library => TuiView::Player,
        TuiView::Player => TuiView::Bookmarks,
        TuiView::Bookmarks => TuiView::Search,
        TuiView::Search => TuiView::Playlists,
        TuiView::Playlists => TuiView::Statistics,
        TuiView::Statistics => TuiView::Settings,
        TuiView::Settings => TuiView::Help,
        TuiView::Help => TuiView::Library,
        TuiView::Plugin => TuiView::Library,
    }
}

/// The views Tab goes through, in order.
pub open spec fn view_cycle() -> Seq<TuiView> {
    seq![
        TuiView::Library,
        TuiView::Player,
        TuiView::Bookmarks,
        TuiView::Search,
        TuiView::Playlists,
        TuiView::Statistics,
        TuiView::Settings,
        TuiView::Help,
    ]
}

/// Tab goes round the eight main views in a fixed cycle: each leads to the
/// next one, the last back to the first; the plugin view leads to the library.
pub proof fn law_tab_cycles_through_main_views()
    ensures
        forall|i: int| 0 <= i < 8 ==> #[trigger] view_after(view_cycle()[i]) == view_cycle()[(i
            + 1) % 8],
        view_after(TuiView::Plugin) == TuiView::Library,
{
    assert forall|i: int| 0 <= i < 8 implies #[trigger] view_after(view_cycle()[i])
        == view_cycle()[(i + 1) % 8] by {
        if i == 0 {
        } else if i == 1 {
        } else if i == 2 {
        } else if i == 3 {
        } else if i == 4 {
        } else if i == 5 {
        } else if i == 6 {
        } else {
        }
    }
}

/// An input event of the terminal interface: a key (with whether Control
/// was held), a scroll of the mouse wheel, or anything else.
#[derive(Debug, Clone, Copy, PartialEq, Eq, Structural)]
pub enum TuiInput {
    Tab,
    Up,
    Down,
    Char(char, bool),
    ScrollUp,
    ScrollDown,
    Other,
}

/// What an input asks of the terminal interface.
#[derive(Debug, Clone, Copy, PartialEq, Eq, Structural)]
pub enum TuiCommand {
    Quit,
    NextView,
    ShowView(TuiView),
    NextTheme,
    SelectPrevious,
    SelectNext,
    TogglePlayback,
    Nothing,
}

/// The view that `h` leads to: out of the help view to the library, from
/// any other view to the help view.
pub open spec fn help_toggled(v: TuiView) -> TuiView {
    if v == TuiView::Help {
        TuiView::Library
    } else {
        TuiView::Help
    }
}

/// The interface's bindings: `q` or Control-C quits; Tab goes to the next
/// view; `h` toggles help; `t` changes the theme; Up, `k` and the wheel
/// up select the previous entry, Down, `j` and the wheel down the next;
/// Space toggles playback in the player view.
pub open spec fn tui_binding(input: TuiInput, view: TuiView) -> TuiCommand {
    match input {
        TuiInput::Char('q', _) | TuiInput::Char('c', true) => TuiCommand::Quit,
        TuiInput::Tab => TuiCommand::NextView,
        TuiInput::Char('h', _) => TuiCommand::ShowView(help_toggled(view)),
        TuiInput::Char('t', _) => TuiCommand::NextTheme,
        TuiInput::Up | TuiInput::Char('k', _) | TuiInput::ScrollUp => TuiCommand::SelectPrevious,
        TuiInput::Down | TuiInput::Char('j', _) | TuiInput::ScrollDown => TuiCommand::SelectNext,
        TuiInput::Char(' ', _) => if view == TuiView::Player {
            TuiCommand::TogglePlayback
        } else {
            TuiCommand::Nothing
        },
        _ => TuiCommand::Nothing,
    }
}

/// What an input asks of the interface in the given view.
pub fn tui_command(input: TuiInput, view: TuiView) -> (r: TuiCommand)
    ensures
        r == tui_binding(input, view),
{
    match input {
        TuiInput::Char('q', _) | TuiInput::Char('c', true) => TuiCommand::Quit,
        TuiInput::Tab => TuiCommand::NextView,
        TuiInput::Char('h', _) => {
            let target = match view {
                TuiView::Help => TuiView::Library,
                _ => TuiView::Help,
            };
            TuiCommand::ShowView(target)
        },
        TuiInput::Char('t', _) => TuiCommand::NextTheme,
        TuiInput::Up | TuiInput::Char('k', _) | TuiInput::ScrollUp => TuiCommand::SelectPrevious,
        TuiInput::Down | TuiInput::Char('j', _) | TuiInput::ScrollDown => TuiCommand::SelectNext,
        TuiInput::Char(' ', _) => match view {
            TuiView::Player => TuiCommand::TogglePlayback,
            _ => TuiCommand::Nothing,
        },
        _ => TuiCommand::Nothing,
    }
}

/// The player's position as a library duration: the whole milliseconds of a
/// std duration, clamped to the largest duration rather than wrapped.
pub fn core_duration_from_std(duration: std::time::Duration) -> (r: Duration)
    ensures
        r@ == (if std_millis_of(duration) > u64::MAX as u128 {
            u64::MAX
        } else {
            std_millis_of(duration) as u64
        }),
{
    let millis = std_duration_millis(&duration);
    Duration::from_std_millis(millis)
}

/// Chapter keys ignore case: `n` and `N` both go to the next chapter, `p`
/// and `P` both to the previous one.
pub proof fn law_chapter_keys_ignore_case()
    ensures
        key_action(PlayerKey::Char('n')) == key_action(PlayerKey::Char('N')),
        key_action(PlayerKey::Char('n')) == PlayerAction::NextChapter,
        key_action(PlayerKey::Char('p')) == key_action(PlayerKey::Char('P')),
        key_action(PlayerKey::Char('p')) == PlayerAction::PreviousChapter,
        key_action(PlayerKey::Char('n')) != key_action(PlayerKey::Char('p')),
{
}

/// In every view, the down arrow, `j` and the wheel down select the next
/// entry, the up arrow, `k` and the wheel up the previous one, and the two
/// directions never give the same command.
pub proof fn law_arrows_move_the_selection(view: TuiView, ctrl: bool)
    ensures
        tui_binding(TuiInput::Down, view) == TuiCommand::SelectNext,
        tui_binding(TuiInput::Char('j', ctrl), view) == tui_binding(TuiInput::Down, view),
        tui_binding(TuiInput::ScrollDown, view) == tui_binding(TuiInput::Down, view),
        tui_binding(TuiInput::Up, view) == TuiCommand::SelectPrevious,
        tui_binding(TuiInput::Char('k', ctrl), view) == tui_binding(TuiInput::Up, view),
        tui_binding(TuiInput::ScrollUp, view) == tui_binding(TuiInput::Up, view),
        tui_binding(TuiInput::Up, view) != tui_binding(TuiInput::Down, view),
{
}

} // verus!
