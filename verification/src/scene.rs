use vstd::prelude::*;

use crate::runner::{engine_entry, EngineRunner, Platform};

verus! {

/// A scene that a game hands to the engine.
pub trait UserScene: Send {
    /// Sets the scene up.
    fn setup(&mut self);
}

/// The game's scene.
#[derive(Debug, Clone, Copy, PartialEq, Eq, Structural)]
pub struct MyScene;

impl UserScene for MyScene {
    fn setup(&mut self) {
    }
}

/// The game's entry: the engine started on the game's scene.
pub fn entry<E>(platform: Platform) -> (runner: EngineRunner<E, MyScene>)
    ensures
        runner.engine is None,
        runner.scene == Some(MyScene),
        runner.platform == platform,
{
    engine_entry(MyScene, platform)
}

} // verus!
