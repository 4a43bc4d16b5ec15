//! The main scene: it keeps the score and ties the player, the creeps, the
//! display, the timers and the sound together.

use crate::chance::draw_below;
use vstd::prelude::*;

verus! {

/// One thing the main scene asks the engine to do.
#[derive(Debug, PartialEq, Eq)]
pub enum SceneCommand {
    /// Hide the player.
    HidePlayer,
    /// Stop the player from colliding, once the engine is done with the
    /// collisions of this frame.
    DisablePlayerCollision,
    /// Start the player at the start position.
    StartPlayer,
    /// Start the timer that delays the beginning of a game.
    StartStartTimer,
    /// Start the timer that ticks once for every point.
    StartScoreTimer,
    /// Start the timer that ticks once for every creep.
    StartMobTimer,
    /// Stop the timer that ticks once for every point.
    StopScoreTimer,
    /// Stop the timer that ticks once for every creep.
    StopMobTimer,
    /// Have the display announce the end of the game.
    ShowGameOver,
    /// Have the display show this score.
    UpdateScore(u32),
    /// Have the display show this message.
    ShowMessage(String),
    /// Start the music.
    PlayMusic,
    /// Stop the music.
    StopMusic,
    /// Play the sound of the player's end.
    PlayDeathSound,
    /// Send a new creep off from the point this far along the spawn path.
    SpawnMob { progress: u32 },
}

/// What a [`SceneCommand`] says, with its text as a sequence of characters.
pub enum SceneCommandView {
    HidePlayer,
    DisablePlayerCollision,
    StartPlayer,
    StartStartTimer,
    StartScoreTimer,
    StartMobTimer,
    StopScoreTimer,
    StopMobTimer,
    ShowGameOver,
    UpdateScore(u32),
    ShowMessage(Seq<char>),
    PlayMusic,
    StopMusic,
    PlayDeathSound,
    SpawnMob { progress: u32 },
}

impl View for SceneCommand {
    type V = SceneCommandView;

    open spec fn view(&self) -> SceneCommandView {
        match *self {
            SceneCommand::HidePlayer => SceneCommandView::HidePlayer,
            SceneCommand::DisablePlayerCollision => SceneCommandView::DisablePlayerCollision,
            SceneCommand::StartPlayer => SceneCommandView::StartPlayer,
            SceneCommand::StartStartTimer => SceneCommandView::StartStartTimer,
            SceneCommand::StartScoreTimer => SceneCommandView::StartScoreTimer,
            SceneCommand::StartMobTimer => SceneCommandView::StartMobTimer,
            SceneCommand::StopScoreTimer => SceneCommandView::StopScoreTimer,
            SceneCommand::StopMobTimer => SceneCommandView::StopMobTimer,
            SceneCommand::ShowGameOver => SceneCommandView::ShowGameOver,
            SceneCommand::UpdateScore(score) => SceneCommandView::UpdateScore(score),
            SceneCommand::ShowMessage(text) => SceneCommandView::ShowMessage(text@),
            SceneCommand::PlayMusic => SceneCommandView::PlayMusic,
            SceneCommand::StopMusic => SceneCommandView::StopMusic,
            SceneCommand::PlayDeathSound => SceneCommandView::PlayDeathSound,
            SceneCommand::SpawnMob { progress } => SceneCommandView::SpawnMob { progress },
        }
    }
}

/// The views of a list of commands, in the same order.
pub open spec fn views(cmds: Seq<SceneCommand>) -> Seq<SceneCommandView> {
    Seq::new(cmds.len(), |i: int| cmds[i]@)
}

/// What ends a game: the player and its collisions go, both timers stop, the
/// display announces the end, and the music gives way to the death sound.
pub open spec fn game_over_commands() -> Seq<SceneCommandView> {
    seq![
        SceneCommandView::HidePlayer,
        SceneCommandView::DisablePlayerCollision,
        SceneCommandView::StopScoreTimer,
        SceneCommandView::StopMobTimer,
        SceneCommandView::ShowGameOver,
        SceneCommandView::StopMusic,
        SceneCommandView::PlayDeathSound,
    ]
}

/// The main scene.
#[derive(Debug, Clone, Copy, PartialEq, Eq)]
pub struct MainScene {
    /// The points of the game that is running, or of the last one.
    pub score: u32,
}

impl MainScene {
    /// A scene in which no point has been scored.
    pub fn new() -> (scene: MainScene)
        ensures
            scene.score == 0,
    {
        MainScene { score: 0 }
    }

    /// The player was hit, or gave up: the game ends. The score stays.
    pub fn game_over(&self) -> (cmds: Vec<SceneCommand>)
        ensures
            views(cmds@) == game_over_commands(),
    {
        let mut cmds: Vec<SceneCommand> = Vec::new();
        cmds.push(SceneCommand::HidePlayer);
        cmds.push(SceneCommand::DisablePlayerCollision);
        cmds.push(SceneCommand::StopScoreTimer);
        cmds.push(SceneCommand::StopMobTimer);
        cmds.push(SceneCommand::ShowGameOver);
        cmds.push(SceneCommand::StopMusic);
        cmds.push(SceneCommand::PlayDeathSound);
        assert(views(cmds@) =~= game_over_commands());
        cmds
    }

    /// A game begins: the score goes back to zero, the player starts, the
    /// start timer runs, and the display shows the score and "Get Ready".
    pub fn new_game(&mut self) -> (cmds: Vec<SceneCommand>)
        ensures
            final(self).score == 0,
            views(cmds@) == seq![
                SceneCommandView::StartPlayer,
                SceneCommandView::StartStartTimer,
                SceneCommandView::UpdateScore(0),
                SceneCommandView::ShowMessage("Get Ready"@),
                SceneCommandView::PlayMusic,
            ],
    {
        self.score = 0;
        let mut cmds: Vec<SceneCommand> = Vec::new();
        cmds.push(SceneCommand::StartPlayer);
        cmds.push(SceneCommand::StartStartTimer);
        cmds.push(SceneCommand::UpdateScore(self.score));
        cmds.push(SceneCommand::ShowMessage("Get Ready".to_owned()));
        cmds.push(SceneCommand::PlayMusic);
        assert(views(cmds@) =~= seq![
            SceneCommandView::StartPlayer,
            SceneCommandView::StartStartTimer,
            SceneCommandView::UpdateScore(0),
            SceneCommandView::ShowMessage("Get Ready"@),
            SceneCommandView::PlayMusic,
        ]);
        cmds
    }

    /// Whether the score can still grow.
    pub fn can_score(&self) -> (ok: bool)
        ensures
            ok == (self.score < u32::MAX),
    {
        self.score < u32::MAX
    }

    /// The score timer ticked: one more point, and the display shows the new
    /// score.
    pub fn on_score_timer_timeout(&mut self) -> (cmds: Vec<SceneCommand>)
        requires
            old(self).score < u32::MAX,
        ensures
            final(self).score == old(self).score + 1,
            views(cmds@) == seq![SceneCommandView::UpdateScore(final(self).score)],
    {
        self.score = self.score + 1;
        let mut cmds: Vec<SceneCommand> = Vec::new();
        cmds.push(SceneCommand::UpdateScore(self.score));
        assert(views(cmds@) =~= seq![SceneCommandView::UpdateScore(self.score)]);
        cmds
    }

    /// The start timer ran out: points and creeps begin to come.
    pub fn on_start_timer_timeout(&self) -> (cmds: Vec<SceneCommand>)
        ensures
            views(cmds@) == seq![
                SceneCommandView::StartScoreTimer,
                SceneCommandView::StartMobTimer,
            ],
    {
        let mut cmds: Vec<SceneCommand> = Vec::new();
        cmds.push(SceneCommand::StartScoreTimer);
        cmds.push(SceneCommand::StartMobTimer);
        assert(views(cmds@) =~= seq![
            SceneCommandView::StartScoreTimer,
            SceneCommandView::StartMobTimer,
        ]);
        cmds
    }

    /// Sends a creep off from the point `progress` along the spawn path.
    pub fn spawn_mob(progress: u32) -> (cmds: Vec<SceneCommand>)
        ensures
            views(cmds@) == seq![SceneCommandView::SpawnMob { progress }],
    {
        let mut cmds: Vec<SceneCommand> = Vec::new();
        cmds.push(SceneCommand::SpawnMob { progress });
        assert(views(cmds@) =~= seq![SceneCommandView::SpawnMob { progress }]);
        cmds
    }

    /// The mob timer ticked: a creep is sent off from a point drawn at
    /// random along the spawn path. Every value of `u32` but the largest can
    /// be drawn.
    pub fn on_mob_timer_timeout(&self) -> (cmds: Vec<SceneCommand>)
        ensures
            cmds@.len() == 1,
            cmds@[0]@ is SpawnMob,
            cmds@[0]@->progress < u32::MAX,
    {
        let progress = draw_below(u32::MIN, u32::MAX);
        let cmds = Self::spawn_mob(progress);
        assert(views(cmds@).len() == 1);
        assert(views(cmds@)[0] == cmds@[0]@);
        cmds
    }

    /// One frame: the game ends if the key that ends it is held down, and
    /// nothing happens otherwise.
    pub fn process(&self, end_game_pressed: bool) -> (cmds: Vec<SceneCommand>)
        ensures
            end_game_pressed ==> views(cmds@) == game_over_commands(),
            !end_game_pressed ==> cmds@.len() == 0,
    {
        if end_game_pressed {
            self.game_over()
        } else {
            Vec::new()
        }
    }
}

} // verus!
