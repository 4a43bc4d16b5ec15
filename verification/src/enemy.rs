//! A creep: how fast it may move and which of its animations it plays.

use crate::chance::choose_one;
use vstd::prelude::*;

verus! {

/// One thing a creep asks the engine to do.
#[derive(Debug, PartialEq, Eq)]
pub enum EnemyCommand {
    /// Start the sprite's animation.
    PlayAnimation,
    /// Switch the sprite to the animation of this name.
    SetAnimation(String),
}

/// What an [`EnemyCommand`] says, with its text as a sequence of characters.
pub enum EnemyCommandView {
    PlayAnimation,
    SetAnimation(Seq<char>),
}

impl View for EnemyCommand {
    type V = EnemyCommandView;

    open spec fn view(&self) -> EnemyCommandView {
        match *self {
            EnemyCommand::PlayAnimation => EnemyCommandView::PlayAnimation,
            EnemyCommand::SetAnimation(name) => EnemyCommandView::SetAnimation(name@),
        }
    }
}

/// The views of a list of commands, in the same order.
pub open spec fn views(cmds: Seq<EnemyCommand>) -> Seq<EnemyCommandView> {
    Seq::new(cmds.len(), |i: int| cmds[i]@)
}

/// Whether `text` is one of `names`.
pub open spec fn is_listed(names: Seq<String>, text: Seq<char>) -> bool {
    exists|i: int| 0 <= i < names.len() && #[trigger] names[i]@ == text
}

/// A creep. Its speeds are whole pixels per second.
#[derive(Debug, Clone, Copy, PartialEq, Eq)]
pub struct Enemy {
    /// The slowest a creep is sent off.
    pub min_speed: u32,
    /// The bound that a creep's speed stays under.
    pub max_speed: u32,
}

impl Enemy {
    /// A speed can be drawn only from a range that is not empty.
    pub open spec fn wf(&self) -> bool {
        self.min_speed < self.max_speed
    }

    /// A creep with the usual speed range, 150 to 250.
    pub fn new() -> (enemy: Enemy)
        ensures
            enemy.min_speed == 150,
            enemy.max_speed == 250,
            enemy.wf(),
    {
        Enemy { min_speed: 150, max_speed: 250 }
    }

    /// Whether a speed can be drawn from this creep's range.
    pub fn has_speed_range(&self) -> (ok: bool)
        ensures
            ok == self.wf(),
    {
        self.min_speed < self.max_speed
    }

    /// Starts the sprite and switches it to the animation called `name`.
    pub fn animate(name: String) -> (cmds: Vec<EnemyCommand>)
        ensures
            views(cmds@) == seq![
                EnemyCommandView::PlayAnimation,
                EnemyCommandView::SetAnimation(name@),
            ],
    {
        let mut cmds: Vec<EnemyCommand> = Vec::new();
        cmds.push(EnemyCommand::PlayAnimation);
        cmds.push(EnemyCommand::SetAnimation(name));
        assert(views(cmds@) =~= seq![
            EnemyCommandView::PlayAnimation,
            EnemyCommandView::SetAnimation(name@),
        ]);
        cmds
    }

    /// The creep entered the scene: start its sprite with one of the sprite's
    /// animations, picked at random. The sprite must have an animation.
    pub fn ready(&self, animation_names: &Vec<String>) -> (cmds: Vec<EnemyCommand>)
        requires
            animation_names@.len() > 0,
        ensures
            cmds@.len() == 2,
            cmds@[0]@ == EnemyCommandView::PlayAnimation,
            cmds@[1]@ is SetAnimation,
            is_listed(animation_names@, cmds@[1]@->SetAnimation_0),
    {
        let name = choose_one(animation_names).unwrap();
        let ghost i = animation_names@.index_of(*name);
        assert(animation_names@[i]@ == name@);
        let cmds = Self::animate(name.clone());
        assert(views(cmds@).len() == 2);
        assert(views(cmds@)[0] == cmds@[0]@);
        assert(views(cmds@)[1] == cmds@[1]@);
        cmds
    }
}

} // verus!
