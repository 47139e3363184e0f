//! The game data the renderer reads, and the output mode it renders in.

use vstd::prelude::*;

verus! {

/// How verbose the output is. Plain mode wins over quiet mode.
#[derive(Clone, Copy, PartialEq, Eq, Debug, Structural)]
pub struct OutputMode {
    pub quiet: bool,
    pub plain: bool,
}

/// The output mode chosen at startup.
pub fn init(quiet: bool, plain: bool) -> (r: OutputMode)
    ensures
        r.quiet == quiet,
        r.plain == plain,
{
    OutputMode { quiet, plain }
}

impl OutputMode {
    /// Verbose output, the mode in use when none was chosen.
    pub fn verbose() -> (r: OutputMode)
        ensures
            !r.quiet,
            !r.plain,
    {
        OutputMode { quiet: false, plain: false }
    }
}

/// The outcome of one attack.
#[derive(Clone, Copy, PartialEq, Eq, Debug, Structural)]
pub enum Attack {
    Regular(i32),
    Critical(i32),
    Miss,
}

/// A player or an enemy, with the figures the renderer shows.
#[derive(Clone, Debug)]
pub struct Character {
    pub name: String,
    pub level: i32,
    pub current_hp: i32,
    pub max_hp: i32,
    pub xp: i32,
    /// Experience needed for the next level.
    pub xp_for_next: i32,
    /// Attack, equipment included.
    pub attack: i32,
    /// Defense, equipment included.
    pub defense: i32,
    pub speed: i32,
    pub is_player: bool,
    /// The equipped sword, as it is displayed.
    pub sword: Option<String>,
    /// The equipped shield, as it is displayed.
    pub shield: Option<String>,
}

/// The state of a game: the player, where they are, gold and inventory.
#[derive(Clone, Debug)]
pub struct Game {
    pub player: Character,
    /// The current location, as it is displayed.
    pub location: String,
    pub gold: i32,
    /// Item names with their counts.
    pub inventory: Vec<(String, i32)>,
}

/// Something on sale: how it is displayed and what it costs.
#[derive(Clone, Debug)]
pub struct ShopItem {
    pub display: String,
    pub cost: i32,
}

} // verus!
