//! Menus and the text of the head-up display, as plain values for whatever
//! draws them.
use crate::geometry::{Field, Pos};
use crate::level::{GameOverTimer, Level};
use crate::player::Lives;
use crate::score::Score;
use crate::state::AppState;
use vstd::prelude::*;

verus! {

#[derive(Clone, Copy, Debug, PartialEq, Eq, Structural)]
pub enum ButtonType {
    Play,
    Quit,
    Restart,
    MainMenu,
}

/// The button the menu cursor is on.
#[derive(Clone, Copy, Debug, PartialEq, Eq, Structural)]
pub struct SelectedButton(pub ButtonType);

/// What a menu asks of the game.
#[derive(Clone, Copy, Debug, PartialEq, Eq, Structural)]
pub enum MenuAction {
    Nothing,
    StartGame,
    Quit,
    GoToMainMenu,
}

/// The other button of the same menu: the main menu holds Play and Quit,
/// the game-over screen Restart and Main Menu.
pub open spec fn other_button(b: ButtonType) -> ButtonType {
    match b {
        ButtonType::Play => ButtonType::Quit,
        ButtonType::Quit => ButtonType::Play,
        ButtonType::Restart => ButtonType::MainMenu,
        ButtonType::MainMenu => ButtonType::Restart,
    }
}

pub open spec fn belongs_to(b: ButtonType, state: AppState) -> bool {
    match state {
        AppState::MainMenu => b == ButtonType::Play || b == ButtonType::Quit,
        AppState::GameOver => b == ButtonType::Restart || b == ButtonType::MainMenu,
        AppState::InGame => false,
    }
}

/// Up or down moves the cursor to the other button of the menu on screen;
/// a cursor left on a button of another menu stays put.
pub fn handle_button_navigation(selected: &mut SelectedButton, state: AppState, up_or_down: bool)
    ensures
        final(selected).0 == (if up_or_down && belongs_to(old(selected).0, state) {
            other_button(old(selected).0)
        } else {
            old(selected).0
        }),
{
    if !up_or_down {
        return;
    }
    let next = match (state, selected.0) {
        (AppState::MainMenu, ButtonType::Play) => ButtonType::Quit,
        (AppState::MainMenu, ButtonType::Quit) => ButtonType::Play,
        (AppState::GameOver, ButtonType::Restart) => ButtonType::MainMenu,
        (AppState::GameOver, ButtonType::MainMenu) => ButtonType::Restart,
        (_, b) => b,
    };
    selected.0 = next;
}

/// On entering a menu the cursor starts on its first button.
pub fn set_default_button_selection(selected: &mut SelectedButton, state: AppState)
    requires
        state != AppState::InGame,
    ensures
        final(selected).0 == (if state == AppState::MainMenu {
            ButtonType::Play
        } else {
            ButtonType::Restart
        }),
{
    match state {
        AppState::MainMenu => selected.0 = ButtonType::Play,
        _ => selected.0 = ButtonType::Restart,
    }
}

/// Which of the given buttons are drawn highlighted: exactly the selected one.
pub fn update_button_colors(buttons: &Vec<ButtonType>, selected: SelectedButton) -> (lit: Vec<bool>)
    ensures
        lit@.len() == buttons@.len(),
        forall|i: int| 0 <= i < buttons@.len() ==> #[trigger] lit@[i] == (buttons@[i] == selected.0),
{
    let mut lit: Vec<bool> = Vec::new();
    let mut i: usize = 0;
    while i < buttons.len()
        invariant
            i <= buttons@.len(),
            lit@.len() == i,
            forall|j: int| 0 <= j < i ==> #[trigger] lit@[j] == (buttons@[j] == selected.0),
        decreases buttons@.len() - i,
    {
        lit.push(buttons[i] == selected.0);
        i = i + 1;
    }
    lit
}

/// The shoot key presses the selected button; Restart is ignored until the
/// game-over timer has run out, so a held key does not restart at once.
/// The timer advances every call.
pub fn handle_button_actions(
    selected: SelectedButton,
    shoot_pressed: bool,
    game_over_timer: &mut GameOverTimer,
    dt: u64,
) -> (action: MenuAction)
    requires
        old(game_over_timer).0.wf(),
        dt <= 1_000_000,
    ensures
        final(game_over_timer).0 == old(game_over_timer).0.ticked(dt),
        final(game_over_timer).0.wf(),
        action == (if !shoot_pressed {
            MenuAction::Nothing
        } else {
            match selected.0 {
                ButtonType::Play => MenuAction::StartGame,
                ButtonType::Quit => MenuAction::Quit,
                ButtonType::MainMenu => MenuAction::GoToMainMenu,
                ButtonType::Restart => if final(game_over_timer).0.is_finished() {
                    MenuAction::StartGame
                } else {
                    MenuAction::Nothing
                },
            }
        }),
{
    game_over_timer.0.tick(dt);
    if !shoot_pressed {
        return MenuAction::Nothing;
    }
    match selected.0 {
        ButtonType::Play => MenuAction::StartGame,
        ButtonType::Quit => MenuAction::Quit,
        ButtonType::MainMenu => MenuAction::GoToMainMenu,
        ButtonType::Restart => {
            if game_over_timer.0.finished() {
                MenuAction::StartGame
            } else {
                MenuAction::Nothing
            }
        },
    }
}

pub open spec fn digit_char(d: nat) -> char {
    if d == 0 {
        '0'
    } else if d == 1 {
        '1'
    } else if d == 2 {
        '2'
    } else if d == 3 {
        '3'
    } else if d == 4 {
        '4'
    } else if d == 5 {
        '5'
    } else if d == 6 {
        '6'
    } else if d == 7 {
        '7'
    } else if d == 8 {
        '8'
    } else {
        '9'
    }
}

/// The decimal digits of `n`, without leading zeros.
pub open spec fn decimal(n: nat) -> Seq<char>
    decreases n,
{
    if n < 10 {
        seq![digit_char(n)]
    } else {
        decimal(n / 10).push(digit_char(n % 10))
    }
}

fn digit(d: u32) -> (c: char)
    requires
        d < 10,
    ensures
        c == digit_char(d as nat),
{
    if d == 0 {
        '0'
    } else if d == 1 {
        '1'
    } else if d == 2 {
        '2'
    } else if d == 3 {
        '3'
    } else if d == 4 {
        '4'
    } else if d == 5 {
        '5'
    } else if d == 6 {
        '6'
    } else if d == 7 {
        '7'
    } else if d == 8 {
        '8'
    } else {
        '9'
    }
}

/// Appends the decimal digits of `n`.
fn push_decimal(n: u32, out: &mut Vec<char>)
    ensures
        final(out)@ == old(out)@ + decimal(n as nat),
    decreases n,
{
    if n >= 10 {
        push_decimal(n / 10, out);
    }
    out.push(digit(n % 10));
    proof {
        if n < 10 {
            assert(decimal(n as nat) == seq![digit_char(n as nat)]);
        }
        assert(out@ =~= old(out)@ + decimal(n as nat));
    }
}

pub open spec fn lives_text(n: u8) -> Seq<char> {
    seq!['x', ' '] + decimal(n as nat)
}

pub open spec fn level_text(n: u32) -> Seq<char> {
    seq!['L', 'e', 'v', 'e', 'l', ' '] + decimal(n as nat)
}

/// The score in at least seven digits, padded with zeros on the left.
pub open spec fn score_text(n: u32) -> Seq<char> {
    let d = decimal(n as nat);
    if d.len() < 7 {
        Seq::new((7 - d.len()) as nat, |i: int| '0') + d
    } else {
        d
    }
}

/// The lives counter of the display: "x" and the number of lives.
pub fn update_lives_ui(lives: Lives) -> (text: Vec<char>)
    ensures
        text@ == lives_text(lives.0),
{
    let mut text = vec!['x', ' '];
    push_decimal(lives.0 as u32, &mut text);
    assert(text@ =~= lives_text(lives.0));
    text
}

/// The level counter of the display: "Level" and the level number.
pub fn update_level_ui(level: Level) -> (text: Vec<char>)
    ensures
        text@ == level_text(level.0),
{
    let mut text = vec!['L', 'e', 'v', 'e', 'l', ' '];
    push_decimal(level.0, &mut text);
    assert(text@ =~= level_text(level.0));
    text
}

/// The score of the display, padded with zeros to seven digits.
pub fn update_score_ui(score: Score) -> (text: Vec<char>)
    ensures
        text@ == score_text(score.0),
{
    let mut digits: Vec<char> = Vec::new();
    push_decimal(score.0, &mut digits);
    assert(digits@ =~= decimal(score.0 as nat));
    let mut text: Vec<char> = Vec::new();
    let pad: usize = if digits.len() < 7 {
        7 - digits.len()
    } else {
        0
    };
    let mut i: usize = 0;
    while i < pad
        invariant
            i <= pad,
            text@ == Seq::new(i as nat, |k: int| '0'),
        decreases pad - i,
    {
        text.push('0');
        assert(text@ =~= Seq::new((i + 1) as nat, |k: int| '0'));
        i = i + 1;
    }
    let mut j: usize = 0;
    while j < digits.len()
        invariant
            j <= digits@.len(),
            text@ == Seq::new(pad as nat, |k: int| '0') + digits@.subrange(0, j as int),
        decreases digits@.len() - j,
    {
        text.push(digits[j]);
        assert(digits@.subrange(0, j + 1) =~= digits@.subrange(0, j as int).push(digits@[j as int]));
        assert(text@ =~= Seq::new(pad as nat, |k: int| '0') + digits@.subrange(0, j + 1));
        j = j + 1;
    }
    assert(digits@.subrange(0, digits@.len() as int) =~= digits@);
    assert(text@ =~= score_text(score.0));
    text
}

/// Where a floating score is anchored for points earned at `p`: left of and
/// above the place, pulled in from the edges of the field so that it stays
/// readable.
pub open spec fn floating_anchor(p: Pos, field: Field) -> Pos {
    let dx: int = (if p.x > field.width - 21_000 {
        -20_000int
    } else {
        0
    }) + (if p.x < 21_000 {
        13_000int
    } else {
        0
    });
    let dy: int = (if p.y > field.height - 20_000 {
        -20_000int
    } else {
        0
    }) + (if p.y < 10_000 {
        10_000int
    } else {
        0
    });
    Pos { x: (p.x - 10_000 + dx) as i64, y: (p.y + 5_000 + dy) as i64 }
}

pub fn score_event(p: Pos, field: Field) -> (anchor: Pos)
    requires
        p.wf(),
        field.wf(),
    ensures
        anchor == floating_anchor(p, field),
{
    let mut dx: i64 = 0;
    let mut dy: i64 = 0;
    if p.x > field.width - 21_000 {
        dx = dx - 20_000;
    }
    if p.x < 21_000 {
        dx = dx + 13_000;
    }
    if p.y > field.height - 20_000 {
        dy = dy - 20_000;
    }
    if p.y < 10_000 {
        dy = dy + 10_000;
    }
    Pos { x: p.x - 10_000 + dx, y: p.y + 5_000 + dy }
}

} // verus!
