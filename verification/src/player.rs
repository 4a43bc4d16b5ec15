//! The player: from the keys that are held down to a heading, and from the
//! heading to what the sprite shows.

use vstd::prelude::*;

verus! {

/// The movement keys, each `true` while it is held down.
#[derive(Debug, Clone, Copy, PartialEq, Eq)]
pub struct Controls {
    pub move_right: bool,
    pub move_left: bool,
    pub move_up: bool,
    pub move_down: bool,
}

/// Where the player is heading on the screen. `x` grows to the right and `y`
/// grows downwards; each is -1, 0 or 1.
#[derive(Debug, Clone, Copy, PartialEq, Eq, Structural)]
pub struct Heading {
    pub x: i8,
    pub y: i8,
}

/// The animations of the player's sprite.
#[derive(Debug, Clone, Copy, PartialEq, Eq, Structural)]
pub enum Animation {
    /// Walking sideways.
    Walk,
    /// Walking up or down the screen.
    Up,
}

/// One thing the player asks the engine to do.
#[derive(Debug, Clone, Copy, PartialEq, Eq, Structural)]
pub enum PlayerCommand {
    /// Mirror the sprite top to bottom, or undo that.
    SetFlipV(bool),
    /// Mirror the sprite left to right, or undo that.
    SetFlipH(bool),
    /// Play this animation.
    Play(Animation),
    /// Stop the animation that is playing.
    StopAnimation,
    /// Move along `heading` at `speed` pixels per second for the time that
    /// has passed since the last frame, and stay on the screen.
    Advance { heading: Heading, speed: u32 },
    /// Put the player at the position where a game starts.
    MoveToStart,
    /// Make the player visible.
    Show,
    /// Hide the player.
    Hide,
    /// Let the player collide with creeps again.
    EnableCollision,
}

/// One step along an axis: forward if only `forward` is held, backward if
/// only `backward` is held, none if both or neither are.
pub open spec fn axis(forward: bool, backward: bool) -> int {
    (if forward { 1int } else { 0int }) - (if backward { 1int } else { 0int })
}

/// The heading that the held keys add up to. Opposite keys cancel.
pub open spec fn heading_of(controls: Controls) -> Heading {
    Heading {
        x: axis(controls.move_right, controls.move_left) as i8,
        y: axis(controls.move_down, controls.move_up) as i8,
    }
}

/// What the sprite does for a heading. Sideways movement decides if there is
/// any: the sprite walks, upright, and faces left when heading left, while a
/// purely vertical heading plays the other animation, upside down when
/// heading down, and leaves the left-to-right mirroring as it was. Standing
/// still stops the animation.
pub open spec fn sprite_commands(heading: Heading) -> Seq<PlayerCommand> {
    if heading.x != 0 {
        seq![
            PlayerCommand::SetFlipV(false),
            PlayerCommand::SetFlipH(heading.x < 0),
            PlayerCommand::Play(Animation::Walk),
        ]
    } else if heading.y != 0 {
        seq![PlayerCommand::SetFlipV(heading.y > 0), PlayerCommand::Play(Animation::Up)]
    } else {
        seq![PlayerCommand::StopAnimation]
    }
}

impl Animation {
    /// The name under which the sprite knows this animation.
    pub fn name(&self) -> (name: &'static str)
        ensures
            *self == Animation::Walk ==> name@ == "walk"@,
            *self == Animation::Up ==> name@ == "up"@,
    {
        match self {
            Animation::Walk => "walk",
            Animation::Up => "up",
        }
    }
}

impl Heading {
    /// Whether the player moves at all.
    pub fn is_moving(&self) -> (moving: bool)
        ensures
            moving == (self.x != 0 || self.y != 0),
    {
        self.x != 0 || self.y != 0
    }
}

/// The player. Its speed is in whole pixels per second.
#[derive(Debug, Clone, Copy, PartialEq, Eq)]
pub struct Player {
    pub speed: u32,
}

impl Player {
    /// A player with the usual speed, 400.
    pub fn new() -> (player: Player)
        ensures
            player.speed == 400,
    {
        Player { speed: 400 }
    }

    /// The player entered the scene: it stays hidden until a game starts.
    pub fn ready(&self) -> (cmds: Vec<PlayerCommand>)
        ensures
            cmds@ == seq![PlayerCommand::Hide],
    {
        let mut cmds: Vec<PlayerCommand> = Vec::new();
        cmds.push(PlayerCommand::Hide);
        assert(cmds@ =~= seq![PlayerCommand::Hide]);
        cmds
    }

    /// A game starts: the player goes to the start position, shows itself
    /// and can be hit.
    pub fn start(&self) -> (cmds: Vec<PlayerCommand>)
        ensures
            cmds@ == seq![
                PlayerCommand::MoveToStart,
                PlayerCommand::Show,
                PlayerCommand::EnableCollision,
            ],
    {
        let mut cmds: Vec<PlayerCommand> = Vec::new();
        cmds.push(PlayerCommand::MoveToStart);
        cmds.push(PlayerCommand::Show);
        cmds.push(PlayerCommand::EnableCollision);
        assert(cmds@ =~= seq![
            PlayerCommand::MoveToStart,
            PlayerCommand::Show,
            PlayerCommand::EnableCollision,
        ]);
        cmds
    }

    /// The heading that the held keys add up to.
    pub fn heading(controls: Controls) -> (heading: Heading)
        ensures
            heading == heading_of(controls),
            -1 <= heading.x <= 1,
            -1 <= heading.y <= 1,
    {
        let mut x: i8 = 0;
        let mut y: i8 = 0;
        if controls.move_right {
            x = x + 1;
        }
        if controls.move_left {
            x = x - 1;
        }
        if controls.move_up {
            y = y - 1;
        }
        if controls.move_down {
            y = y + 1;
        }
        Heading { x, y }
    }

    /// One frame: sets the sprite for the heading that the held keys add up
    /// to, then moves the player along it.
    pub fn process(&self, controls: Controls) -> (cmds: Vec<PlayerCommand>)
        ensures
            cmds@ == sprite_commands(heading_of(controls)).push(
                PlayerCommand::Advance { heading: heading_of(controls), speed: self.speed },
            ),
    {
        let heading = Self::heading(controls);
        let mut cmds: Vec<PlayerCommand> = Vec::new();
        if heading.is_moving() {
            if heading.x != 0 {
                cmds.push(PlayerCommand::SetFlipV(false));
                cmds.push(PlayerCommand::SetFlipH(heading.x < 0));
                cmds.push(PlayerCommand::Play(Animation::Walk));
            } else {
                cmds.push(PlayerCommand::SetFlipV(heading.y > 0));
                cmds.push(PlayerCommand::Play(Animation::Up));
            }
        } else {
            cmds.push(PlayerCommand::StopAnimation);
        }
        assert(cmds@ =~= sprite_commands(heading));
        cmds.push(PlayerCommand::Advance { heading, speed: self.speed });
        cmds
    }
}

} // verus!
