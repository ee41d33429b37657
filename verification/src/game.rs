//! Game flow: the screens, what menu input does on each, and level progress.
use vstd::prelude::*;

verus! {

/// The screens of the game.
#[derive(Debug, Clone, Copy, PartialEq, Eq, Hash, Structural)]
pub enum GameState {
    Title,
    LevelSelect,
    Playing,
    GameOver,
    Victory,
}

impl Default for GameState {
    /// The game opens on the title screen.
    fn default() -> (state: GameState)
        ensures
            state == GameState::Title,
    {
        GameState::Title
    }
}

/// What the player touched on a frame outside of play: each field is true when
/// the control was pressed on that frame.
#[derive(Debug, Clone, Copy)]
pub struct MenuInput {
    /// The space bar.
    pub space: bool,
    /// The left mouse button.
    pub left_click: bool,
    /// The escape key.
    pub escape: bool,
    /// The level keys 1 to 5 (top-row digit or keypad).
    pub level_keys: [bool; 5],
}

/// Which level is being played and how many there are.
#[derive(Debug, Clone, Copy, PartialEq, Eq, Structural)]
pub struct LevelProgress {
    pub current_level: u32,
    pub total_levels: u32,
}

/// The number of levels of the campaign.
pub const TOTAL_LEVELS: u32 = 5;

/// The lowest index of a pressed level key, if any.
pub open spec fn first_pressed(keys: [bool; 5]) -> Option<int> {
    if keys[0] {
        Some(0)
    } else if keys[1] {
        Some(1)
    } else if keys[2] {
        Some(2)
    } else if keys[3] {
        Some(3)
    } else if keys[4] {
        Some(4)
    } else {
        None
    }
}

/// Whether the player asked to go on (space or left click).
pub open spec fn confirms(input: MenuInput) -> bool {
    input.space || input.left_click
}

impl LevelProgress {
    /// Every level of the campaign has been cleared.
    pub open spec fn campaign_cleared(self) -> bool {
        self.current_level > self.total_levels
    }

    /// The progress with which a level starts: the campaign has five levels,
    /// and no level chosen yet means the first.
    pub open spec fn started(self) -> LevelProgress {
        LevelProgress {
            current_level: if self.current_level == 0 {
                1
            } else {
                self.current_level
            },
            total_levels: TOTAL_LEVELS,
        }
    }

    /// The progress after the current level is cleared: the next level, or
    /// the same one when it is the last.
    pub open spec fn advanced(self) -> LevelProgress {
        LevelProgress {
            current_level: if self.current_level < self.total_levels {
                (self.current_level + 1) as u32
            } else {
                self.current_level
            },
            total_levels: self.total_levels,
        }
    }

    /// Sets up the progress for the level that is about to be played.
    pub fn start_level(&mut self)
        ensures
            *final(self) == old(self).started(),
    {
        self.total_levels = TOTAL_LEVELS;
        if self.current_level == 0 {
            self.current_level = 1;
        }
    }

    /// Records that the current level was cleared.
    pub fn complete_level(&mut self)
        ensures
            *final(self) == old(self).advanced(),
    {
        if self.current_level < self.total_levels {
            self.current_level = self.current_level + 1;
        }
    }

    /// Whether every level of the campaign has been cleared.
    pub fn is_campaign_cleared(&self) -> (cleared: bool)
        ensures
            cleared == self.campaign_cleared(),
    {
        self.current_level > self.total_levels
    }
}

/// Clearing a level never moves past the last level, so a level that was in
/// range stays in range.
pub proof fn lemma_advance_stays_in_range(p: LevelProgress)
    requires
        1 <= p.current_level <= p.total_levels,
    ensures
        1 <= p.advanced().current_level <= p.advanced().total_levels,
        p.advanced().total_levels == p.total_levels,
        p.current_level < p.total_levels ==> p.advanced().current_level == p.current_level + 1,
{
}

/// A started level is a level of the five-level campaign whenever the chosen
/// level was one.
pub proof fn lemma_start_in_range(p: LevelProgress)
    requires
        p.current_level <= TOTAL_LEVELS,
    ensures
        1 <= p.started().current_level <= p.started().total_levels,
        p.started().total_levels == TOTAL_LEVELS,
{
}

/// Starting or clearing levels from progress within the campaign never
/// reports the campaign as cleared.
pub proof fn lemma_campaign_never_cleared(p: LevelProgress)
    requires
        p.current_level <= TOTAL_LEVELS,
    ensures
        !p.started().campaign_cleared(),
        !p.started().advanced().campaign_cleared(),
{
}

/// The screen that menu input leads to, and the level then chosen.
pub open spec fn menu_step(state: GameState, input: MenuInput, level: u32, total: u32) -> (
    Option<GameState>,
    u32,
) {
    match state {
        GameState::Title => if confirms(input) {
            (Some(GameState::LevelSelect), level)
        } else {
            (None, level)
        },
        GameState::LevelSelect => match first_pressed(input.level_keys) {
            Some(i) => (Some(GameState::Playing), (i + 1) as u32),
            None => if input.escape {
                (Some(GameState::Title), level)
            } else {
                (None, level)
            },
        },
        GameState::GameOver => if confirms(input) {
            (Some(GameState::Playing), level)
        } else if input.escape {
            (Some(GameState::LevelSelect), level)
        } else {
            (None, level)
        },
        GameState::Victory => if confirms(input) {
            if level > total {
                (Some(GameState::LevelSelect), 1)
            } else {
                (Some(GameState::Playing), level)
            }
        } else if input.escape {
            (Some(GameState::LevelSelect), level)
        } else {
            (None, level)
        },
        GameState::Playing => (None, level),
    }
}

/// Menu input never chooses a level past the campaign: together with
/// [`lemma_start_in_range`] and [`lemma_advance_stays_in_range`], a game whose
/// level starts at 0 keeps it at most [`TOTAL_LEVELS`] on every screen.
pub proof fn lemma_menu_keeps_level_in_campaign(state: GameState, input: MenuInput, level: u32, total: u32)
    requires
        level <= TOTAL_LEVELS,
    ensures
        menu_step(state, input, level, total).1 <= TOTAL_LEVELS,
{
}

/// The first pressed level key is the pressed key with no pressed key
/// below it, and there is none when no key is pressed.
pub proof fn lemma_first_pressed_is_lowest(keys: [bool; 5], i: int)
    ensures
        0 <= i < 5 && keys[i] && (forall|j: int| 0 <= j < i ==> !keys[j]) ==> first_pressed(keys)
            == Some(i),
        (forall|j: int| 0 <= j < 5 ==> !keys[j]) ==> first_pressed(keys) == None::<int>,
        first_pressed(keys) == Some(i) ==> 0 <= i < 5 && keys[i] && forall|j: int|
            0 <= j < i ==> !keys[j],
{
    if 0 <= i < 5 && keys[i] && (forall|j: int| 0 <= j < i ==> !keys[j]) {
        assert(i >= 1 ==> !keys[0]);
        assert(i >= 2 ==> !keys[1]);
        assert(i >= 3 ==> !keys[2]);
        assert(i >= 4 ==> !keys[3]);
    }
    if forall|j: int| 0 <= j < 5 ==> !keys[j] {
        assert(!keys[0] && !keys[1] && !keys[2] && !keys[3] && !keys[4]);
    }
}

/// On the level-select screen, pressing level key `i + 1` (with no lower key
/// pressed) starts level `i + 1`; with no level key pressed, escape goes back
/// to the title screen and anything else stays put, keeping the level.
pub proof fn lemma_level_select_starts_pressed_level(input: MenuInput, level: u32, total: u32, i: int)
    ensures
        0 <= i < 5 && input.level_keys[i] && (forall|j: int| 0 <= j < i ==> !input.level_keys[j])
            ==> menu_step(GameState::LevelSelect, input, level, total) == (
            Some(GameState::Playing),
            (i + 1) as u32,
        ),
        (forall|j: int| 0 <= j < 5 ==> !input.level_keys[j]) ==> menu_step(
            GameState::LevelSelect,
            input,
            level,
            total,
        ) == if input.escape {
            (Some(GameState::Title), level)
        } else {
            (None::<GameState>, level)
        },
{
    lemma_first_pressed_is_lowest(input.level_keys, i);
}

/// Space or a left click goes on from the title, game-over and victory
/// screens: to level select from the title, to a retry from game over, and to
/// the next level from victory while the campaign is not cleared; the level
/// is kept. Without them, escape goes back to level select from game over and
/// victory, and input during play changes nothing.
pub proof fn lemma_confirm_and_escape(input: MenuInput, level: u32, total: u32)
    ensures
        input.space || input.left_click ==> menu_step(GameState::Title, input, level, total) == (
            Some(GameState::LevelSelect),
            level,
        ),
        input.space || input.left_click ==> menu_step(GameState::GameOver, input, level, total) == (
            Some(GameState::Playing),
            level,
        ),
        (input.space || input.left_click) && level <= total ==> menu_step(
            GameState::Victory,
            input,
            level,
            total,
        ) == (Some(GameState::Playing), level),
        (input.space || input.left_click) && level > total ==> menu_step(
            GameState::Victory,
            input,
            level,
            total,
        ) == (Some(GameState::LevelSelect), 1u32),
        !input.space && !input.left_click && input.escape ==> menu_step(
            GameState::GameOver,
            input,
            level,
            total,
        ) == (Some(GameState::LevelSelect), level) && menu_step(
            GameState::Victory,
            input,
            level,
            total,
        ) == (Some(GameState::LevelSelect), level),
        !input.space && !input.left_click ==> menu_step(GameState::Title, input, level, total) == (
            None::<GameState>,
            level,
        ),
        menu_step(GameState::Playing, input, level, total) == (None::<GameState>, level),
{
}

/// Starting a level keeps the chosen level and only turns "none chosen yet"
/// (zero) into the first level; the campaign then has five levels.
pub proof fn lemma_start_keeps_chosen_level(p: LevelProgress)
    ensures
        p.current_level != 0 ==> p.started().current_level == p.current_level,
        p.current_level == 0 ==> p.started().current_level == 1,
        p.started().total_levels == 5,
{
}

/// The index of the first pressed level key, if any.
fn first_level_key(keys: &[bool; 5]) -> (key: Option<usize>)
    ensures
        match key {
            Some(i) => first_pressed(*keys) == Some(i as int) && i < 5,
            None => first_pressed(*keys) == None::<int>,
        },
{
    let mut i: usize = 0;
    while i < 5
        invariant
            0 <= i <= 5,
            forall|j: int| 0 <= j < i ==> !keys[j],
        decreases 5 - i,
    {
        if keys[i] {
            return Some(i);
        }
        i = i + 1;
    }
    None
}

/// Handles menu input on the screen `state`: returns the screen to switch to,
/// if any, and updates the chosen level. Input during play is ignored here.
pub fn menu_transition(state: GameState, input: &MenuInput, progress: &mut LevelProgress) -> (next: Option<GameState>)
    ensures
        next == menu_step(state, *input, old(progress).current_level, old(progress).total_levels).0,
        final(progress).current_level == menu_step(
            state,
            *input,
            old(progress).current_level,
            old(progress).total_levels,
        ).1,
        final(progress).total_levels == old(progress).total_levels,
{
    let level = progress.current_level;
    let confirm = input.space || input.left_click;
    let (next, chosen) = match state {
        GameState::Title => {
            if confirm {
                (Some(GameState::LevelSelect), level)
            } else {
                (None, level)
            }
        },
        GameState::LevelSelect => {
            match first_level_key(&input.level_keys) {
                Some(i) => (Some(GameState::Playing), (i + 1) as u32),
                None => {
                    if input.escape {
                        (Some(GameState::Title), level)
                    } else {
                        (None, level)
                    }
                },
            }
        },
        GameState::GameOver => {
            if confirm {
                (Some(GameState::Playing), level)
            } else if input.escape {
                (Some(GameState::LevelSelect), level)
            } else {
                (None, level)
            }
        },
        GameState::Victory => {
            if confirm {
                if level > progress.total_levels {
                    (Some(GameState::LevelSelect), 1)
                } else {
                    (Some(GameState::Playing), level)
                }
            } else if input.escape {
                (Some(GameState::LevelSelect), level)
            } else {
                (None, level)
            }
        },
        GameState::Playing => (None, level),
    };
    progress.current_level = chosen;
    next
}

/// What happens when the ship touches an interactive world element.
#[derive(Debug, Clone, Copy, PartialEq, Eq, Structural)]
pub enum InteractionResult {
    DestroyPlayer,
    ReachGoal,
    /// Contact has no effect.
    NoEffect,
}

/// An element of the world that reacts to contact with the ship.
pub trait InteractiveElement {
    fn on_player_contact(&self) -> InteractionResult;
}

} // verus!
