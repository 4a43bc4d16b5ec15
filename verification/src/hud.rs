//! The heads-up display: the message line, the score label and the start button.

use vstd::prelude::*;

verus! {

/// One thing the display asks the engine to do.
#[derive(Debug, PartialEq, Eq)]
pub enum HudCommand {
    /// Replace the text of the message line.
    SetMessageText(String),
    /// Make the message line visible.
    ShowMessage,
    /// Hide the message line.
    HideMessage,
    /// Start the timer that hides the message line when it runs out.
    StartMessageTimer,
    /// Replace the text of the score label.
    SetScoreText(String),
    /// Make the start button visible.
    ShowStartButton,
    /// Hide the start button.
    HideStartButton,
    /// Bring the start button back after the given number of seconds.
    ScheduleStartButton { seconds: u32 },
    /// Tell every listener that a game has started.
    EmitStartGame,
}

/// What a [`HudCommand`] says, with its text as a sequence of characters.
pub enum HudCommandView {
    SetMessageText(Seq<char>),
    ShowMessage,
    HideMessage,
    StartMessageTimer,
    SetScoreText(Seq<char>),
    ShowStartButton,
    HideStartButton,
    ScheduleStartButton { seconds: u32 },
    EmitStartGame,
}

impl View for HudCommand {
    type V = HudCommandView;

    open spec fn view(&self) -> HudCommandView {
        match *self {
            HudCommand::SetMessageText(text) => HudCommandView::SetMessageText(text@),
            HudCommand::ShowMessage => HudCommandView::ShowMessage,
            HudCommand::HideMessage => HudCommandView::HideMessage,
            HudCommand::StartMessageTimer => HudCommandView::StartMessageTimer,
            HudCommand::SetScoreText(text) => HudCommandView::SetScoreText(text@),
            HudCommand::ShowStartButton => HudCommandView::ShowStartButton,
            HudCommand::HideStartButton => HudCommandView::HideStartButton,
            HudCommand::ScheduleStartButton { seconds } => HudCommandView::ScheduleStartButton {
                seconds,
            },
            HudCommand::EmitStartGame => HudCommandView::EmitStartGame,
        }
    }
}

/// The views of a list of commands, in the same order.
pub open spec fn views(cmds: Seq<HudCommand>) -> Seq<HudCommandView> {
    Seq::new(cmds.len(), |i: int| cmds[i]@)
}

/// The character that stands for a single decimal digit.
pub open spec fn digit(d: nat) -> char {
    if d == 0 {
        '0'
    } else if d == 1 {
        '1'
    } else if d == 2 {
        '2'
    } else if d == 3 {
        '3'
    } else if d == 4 {
        '4'
    } else if d == 5 {
        '5'
    } else if d == 6 {
        '6'
    } else if d == 7 {
        '7'
    } else if d == 8 {
        '8'
    } else {
        '9'
    }
}

/// A number written in base ten, without leading zeros.
pub open spec fn decimal(n: nat) -> Seq<char>
    decreases n,
{
    if n < 10 {
        seq![digit(n)]
    } else {
        decimal(n / 10).push(digit(n % 10))
    }
}

/// Seconds between the end of a game and the return of the start button.
pub const START_BUTTON_DELAY: u32 = 2;

/// Formats the score with `u32`'s `ToString::to_string`. Trusted: the text is
/// the score in base ten, most significant digit first, with no sign, no
/// separators and no leading zeros, and "0" for zero.
#[verifier::external_body]
fn score_text(score: u32) -> (text: String)
    ensures
        text@ == decimal(score as nat),
{
    score.to_string()
}

/// The heads-up display. It keeps no state of its own.
#[derive(Debug, Clone, Copy, PartialEq, Eq)]
pub struct Hud;

impl Hud {
    /// Puts `text` on the message line, shows the line and starts the timer
    /// that will hide it again.
    pub fn show_message(&self, text: String) -> (cmds: Vec<HudCommand>)
        ensures
            views(cmds@) == seq![
                HudCommandView::SetMessageText(text@),
                HudCommandView::ShowMessage,
                HudCommandView::StartMessageTimer,
            ],
    {
        let mut cmds: Vec<HudCommand> = Vec::new();
        cmds.push(HudCommand::SetMessageText(text));
        cmds.push(HudCommand::ShowMessage);
        cmds.push(HudCommand::StartMessageTimer);
        assert(views(cmds@) =~= seq![
            HudCommandView::SetMessageText(text@),
            HudCommandView::ShowMessage,
            HudCommandView::StartMessageTimer,
        ]);
        cmds
    }

    /// Announces the end of the game and arranges for the start button to
    /// come back after [`START_BUTTON_DELAY`] seconds.
    pub fn show_gameover(&self) -> (cmds: Vec<HudCommand>)
        ensures
            views(cmds@) == seq![
                HudCommandView::SetMessageText("Game over"@),
                HudCommandView::ShowMessage,
                HudCommandView::StartMessageTimer,
                HudCommandView::ScheduleStartButton { seconds: START_BUTTON_DELAY },
            ],
    {
        let mut cmds = self.show_message("Game over".to_owned());
        let ghost before = views(cmds@);
        cmds.push(HudCommand::ScheduleStartButton { seconds: START_BUTTON_DELAY });
        assert(views(cmds@) =~= before.push(
            HudCommandView::ScheduleStartButton { seconds: START_BUTTON_DELAY },
        ));
        cmds
    }

    /// Shows the title on the message line, and the start button under it.
    /// The message timer is not started, so the title stays.
    pub fn show_start_button(&self) -> (cmds: Vec<HudCommand>)
        ensures
            views(cmds@) == seq![
                HudCommandView::SetMessageText("Dodge the creeps!"@),
                HudCommandView::ShowMessage,
                HudCommandView::ShowStartButton,
            ],
    {
        let mut cmds: Vec<HudCommand> = Vec::new();
        cmds.push(HudCommand::SetMessageText("Dodge the creeps!".to_owned()));
        cmds.push(HudCommand::ShowMessage);
        cmds.push(HudCommand::ShowStartButton);
        assert(views(cmds@) =~= seq![
            HudCommandView::SetMessageText("Dodge the creeps!"@),
            HudCommandView::ShowMessage,
            HudCommandView::ShowStartButton,
        ]);
        cmds
    }

    /// Writes the score on the score label, in base ten.
    pub fn update_score(&self, score: u32) -> (cmds: Vec<HudCommand>)
        ensures
            views(cmds@) == seq![HudCommandView::SetScoreText(decimal(score as nat))],
    {
        let mut cmds: Vec<HudCommand> = Vec::new();
        cmds.push(HudCommand::SetScoreText(score_text(score)));
        assert(views(cmds@) =~= seq![HudCommandView::SetScoreText(decimal(score as nat))]);
        cmds
    }

    /// The start button was pressed: hide it and announce the new game.
    pub fn on_start_button_pressed(&self) -> (cmds: Vec<HudCommand>)
        ensures
            views(cmds@) == seq![HudCommandView::HideStartButton, HudCommandView::EmitStartGame],
    {
        let mut cmds: Vec<HudCommand> = Vec::new();
        cmds.push(HudCommand::HideStartButton);
        cmds.push(HudCommand::EmitStartGame);
        assert(views(cmds@) =~= seq![
            HudCommandView::HideStartButton,
            HudCommandView::EmitStartGame,
        ]);
        cmds
    }

    /// The message timer ran out: hide the message line.
    pub fn on_message_timer_timeout(&self) -> (cmds: Vec<HudCommand>)
        ensures
            views(cmds@) == seq![HudCommandView::HideMessage],
    {
        let mut cmds: Vec<HudCommand> = Vec::new();
        cmds.push(HudCommand::HideMessage);
        assert(views(cmds@) =~= seq![HudCommandView::HideMessage]);
        cmds
    }
}

} // verus!
