//! The screen state machine: StartMenu, LevelSelect, Game, Help and Credits,
//! a closed set of variants. Each screen's update consumes one frame of
//! input, mutates its own state, and may yield a transition to the next
//! screen together with the sound events the frame produced; the driver owns
//! the current screen, runs `on_exit` on the old one before constructing the
//! new one and `on_enter` after.

use vstd::prelude::*;
use vstd::string::StringExecFns;

use crate::camera::Camera;
use crate::coord_ok;
use crate::eye::Eye;
use crate::eye::eye_updated;
use crate::fire::Fire;
use crate::fire::fire_step;
use crate::level::Level;
use crate::physics::handle_collisions;
use crate::physics::phys_step;
use crate::player::ANIM_DELAY;
use crate::player::Animation;
use crate::player::MoveInput;
use crate::player::PLAYER_HEIGHT;
use crate::player::PLAYER_WIDTH;
use crate::player::Player;
use crate::player::player_step;
use crate::tile::Color;
use crate::tile::FULL_RESISTANCE;
use crate::tile::Tile;
use crate::tile::TileTexture;
use crate::tile::spec_has_moved;
use crate::tile::tile_step;
use crate::eye::Direction;

verus! {

/// The sound events a frame can fire, in the order they occur.
#[derive(Clone, Copy, PartialEq, Eq, Structural, Debug)]
pub enum SoundEffect {
    Push,
    Select,
    Enter,
    Back,
}

/// A requested change of screen. The payloads carry what the next screen is
/// constructed from: the menu option to restore, or the index of the chosen
/// level entry.
#[derive(Clone, Copy, PartialEq, Eq, Structural, Debug)]
pub enum Transition {
    ToStartMenu(u32),
    ToLevelSelect(i32),
    ToGame(usize),
    ToHelp,
    ToCredits,
}

/// The menu keys, as freshly pressed this frame.
#[derive(Clone, Copy, PartialEq, Eq, Structural, Debug)]
pub struct MenuInput {
    pub up: bool,
    pub down: bool,
    pub left: bool,
    pub right: bool,
    pub enter: bool,
    pub back: bool,
}

/// What one screen update hands back to the driver.
pub struct UpdateOutcome {
    pub transition: Option<Transition>,
    pub sounds: Vec<SoundEffect>,
}

/// The help screen: static text; Enter returns to the start menu with the
/// Help option restored.
pub struct HelpState {
    pub camera: Camera,
}

impl HelpState {
    pub fn new() -> (s: HelpState)
        ensures
            s.camera == Camera::spec_new(),
    {
        HelpState { camera: Camera::new() }
    }

    pub fn on_enter(&mut self)
        ensures
            final(self).camera == (Camera { width: 800, height: 600, ..Camera::spec_new() }),
    {
        self.camera = Camera::new();
        self.camera.width = 800;
        self.camera.height = 600;
    }

    /// Enter returns to the start menu, its selection restored to Help.
    pub fn update(&mut self, input: &MenuInput) -> (out: UpdateOutcome)
        ensures
            (*final(self)) == (*old(self)),
            out.transition == (if input.enter {
                Some(Transition::ToStartMenu(1))
            } else {
                None::<Transition>
            }),
            out.sounds@ == (if input.enter {
                seq![SoundEffect::Back]
            } else {
                Seq::<SoundEffect>::empty()
            }),
    {
        let mut sounds: Vec<SoundEffect> = Vec::new();
        if input.enter {
            sounds.push(SoundEffect::Back);
            assert(sounds@ =~= seq![SoundEffect::Back]);
            return UpdateOutcome { transition: Some(Transition::ToStartMenu(1)), sounds };
        }
        assert(sounds@ =~= Seq::<SoundEffect>::empty());
        UpdateOutcome { transition: None, sounds }
    }
}

/// The credits screen: static text; Enter returns to the start menu with the
/// Credits option restored.
pub struct CreditsState {
    pub camera: Camera,
}

impl CreditsState {
    pub fn new() -> (s: CreditsState)
        ensures
            s.camera == Camera::spec_new(),
    {
        CreditsState { camera: Camera::new() }
    }

    pub fn on_enter(&mut self)
        ensures
            final(self).camera == (Camera { width: 800, height: 600, ..Camera::spec_new() }),
    {
        self.camera = Camera::new();
        self.camera.width = 800;
        self.camera.height = 600;
    }

    /// Enter returns to the start menu, its selection restored to Credits.
    pub fn update(&mut self, input: &MenuInput) -> (out: UpdateOutcome)
        ensures
            (*final(self)) == (*old(self)),
            out.transition == (if input.enter {
                Some(Transition::ToStartMenu(2))
            } else {
                None::<Transition>
            }),
            out.sounds@ == (if input.enter {
                seq![SoundEffect::Back]
            } else {
                Seq::<SoundEffect>::empty()
            }),
    {
        let mut sounds: Vec<SoundEffect> = Vec::new();
        if input.enter {
            sounds.push(SoundEffect::Back);
            assert(sounds@ =~= seq![SoundEffect::Back]);
            return UpdateOutcome { transition: Some(Transition::ToStartMenu(2)), sounds };
        }
        assert(sounds@ =~= Seq::<SoundEffect>::empty());
        UpdateOutcome { transition: None, sounds }
    }
}

/// Where the selection lands after one frame of Down/Up on the three-option
/// start menu, wrapping around.
pub open spec fn menu_next_option(sel: u32, input: MenuInput) -> u32 {
    if input.down {
        if sel == 2 {
            0u32
        } else {
            (sel + 1) as u32
        }
    } else if input.up {
        if sel == 0 {
            2u32
        } else {
            (sel - 1) as u32
        }
    } else {
        sel
    }
}

/// The showcase block the start menu animates beside the chosen option.
pub open spec fn demo_tile(sel: u32, cam_width: i32) -> Option<Tile> {
    if sel == 0 {
        Some(demo_block(Color::Blue, 200, 200, 200, 200))
    } else if sel == 1 {
        Some(demo_block(Color::Green, 200, 300, 200, 500))
    } else if sel == 2 {
        Some(demo_block(Color::Red, (cam_width / 2 - 32) as i32, 300, 200, 200))
    } else {
        None
    }
}

pub open spec fn demo_block(c: Color, x: i32, y: i32, tx: i32, ty: i32) -> Tile {
    Tile {
        texture: TileTexture::Block(c),
        width: 64,
        height: 64,
        x: x,
        y: y,
        targetx: tx,
        targety: ty,
        resistance: FULL_RESISTANCE,
        iswall: false,
        isblock: true,
        moving: false,
    }
}

/// The screen a committed start-menu option leads to.
pub open spec fn start_menu_transition(sel: u32, enter: bool) -> Option<Transition> {
    if !enter {
        None
    } else if sel == 0 {
        Some(Transition::ToLevelSelect(0))
    } else if sel == 1 {
        Some(Transition::ToHelp)
    } else if sel == 2 {
        Some(Transition::ToCredits)
    } else {
        None
    }
}

/// The three decorative eyes on the start menu.
pub open spec fn menu_eyes(cam_width: i32) -> Seq<Eye> {
    seq![
        menu_eye(Color::Blue, 150, 200),
        menu_eye(Color::Green, 600, 300),
        menu_eye(Color::Red, (cam_width / 2 - 32) as i32, 500),
    ]
}

pub open spec fn menu_eye(c: Color, x: i32, y: i32) -> Eye {
    Eye {
        direction: Direction::Left,
        color: c,
        solved: false,
        x: x,
        y: y,
        width: 64,
        height: 64,
        deltax: 0,
        deltay: 0,
        anger: 0,
    }
}

/// The start menu: three options (Play, Help, Credits) under a field of
/// decorative eyes that watch a showcase block.
pub struct StartMenuState {
    pub selected_option: u32,
    pub tiles: Vec<Tile>,
    pub eyes: Vec<Eye>,
    pub camera: Camera,
}

impl StartMenuState {
    pub open spec fn wf(self) -> bool {
        &&& self.selected_option <= 2
        &&& 0 <= self.camera.width <= 100000
        &&& 0 <= self.camera.height <= 100000
        &&& forall|i: int| 0 <= i < self.tiles@.len() ==> (#[trigger] self.tiles@[i]).wf()
        &&& forall|i: int| 0 <= i < self.eyes@.len() ==> (#[trigger] self.eyes@[i]).wf()
    }

    pub fn new(selected_option: u32) -> (s: StartMenuState)
        requires
            selected_option <= 2,
        ensures
            s.selected_option == selected_option,
            s.tiles@ == Seq::<Tile>::empty(),
            s.eyes@ == Seq::<Eye>::empty(),
            s.camera == Camera::spec_new(),
            s.wf(),
    {
        StartMenuState {
            selected_option,
            tiles: Vec::new(),
            eyes: Vec::new(),
            camera: Camera::new(),
        }
    }

    /// Entering the menu sizes the camera, places the three decorative eyes
    /// and the showcase block of the current option.
    pub fn on_enter(&mut self)
        requires
            old(self).selected_option <= 2,
        ensures
            final(self).selected_option == old(self).selected_option,
            final(self).camera == (Camera { x: 0, y: 0, width: 800, height: 600, ..old(self).camera }),
            final(self).eyes@ == old(self).eyes@ + menu_eyes(800),
            final(self).tiles@ == old(self).tiles@ + opt_tile_seq(
                demo_tile(old(self).selected_option, 800),
            ),
            old(self).wf() ==> final(self).wf(),
    {
        self.camera.width = 800;
        self.camera.height = 600;
        self.eyes.push(make_menu_eye(Color::Blue, 150, 200));
        self.eyes.push(make_menu_eye(Color::Green, 600, 300));
        self.eyes.push(make_menu_eye(Color::Red, self.camera.width / 2 - 32, 500));
        assert(self.eyes@ =~= old(self).eyes@ + menu_eyes(800));
        if self.selected_option == 0 {
            let t = make_demo_block(Color::Blue, 200, 200, 200, 200);
            self.tiles.push(t);
        } else if self.selected_option == 1 {
            let t = make_demo_block(Color::Green, 200, 300, 200, 500);
            self.tiles.push(t);
        } else if self.selected_option == 2 {
            let t = make_demo_block(Color::Red, self.camera.width / 2 - 32, 300, 200, 200);
            self.tiles.push(t);
        }
        assert(self.tiles@ =~= old(self).tiles@ + opt_tile_seq(
            demo_tile(old(self).selected_option, 800),
        ));
        self.camera.x = 0;
        self.camera.y = 0;
    }

    /// Leaving the menu releases its decorative entities.
    pub fn on_exit(&mut self)
        ensures
            final(self).eyes@ == Seq::<Eye>::empty(),
            final(self).tiles@ == Seq::<Tile>::empty(),
            final(self).selected_option == old(self).selected_option,
            final(self).camera == old(self).camera,
    {
        self.eyes.clear();
        self.tiles.clear();
    }

    /// One menu frame: the eyes watch the current tiles, Down/Up move the
    /// selection with wrap-around (a change plays the select sound and swaps
    /// in that option's showcase block), and Enter commits the option (with
    /// the enter sound).
    pub fn update(&mut self, input: &MenuInput) -> (out: UpdateOutcome)
        requires
            old(self).wf(),
        ensures
            final(self).wf(),
            final(self).selected_option == menu_next_option(old(self).selected_option, *input),
            final(self).camera == old(self).camera,
            final(self).eyes@.len() == old(self).eyes@.len(),
            forall|i: int|
                0 <= i < old(self).eyes@.len() ==> eye_updated(
                    old(self).eyes@[i],
                    #[trigger] final(self).eyes@[i],
                    old(self).tiles@,
                ),
            final(self).tiles@ == (if final(self).selected_option != old(self).selected_option {
                opt_tile_seq(demo_tile(final(self).selected_option, old(self).camera.width))
            } else {
                old(self).tiles@
            }),
            out.transition == start_menu_transition(final(self).selected_option, input.enter),
            out.sounds@ == (if final(self).selected_option != old(self).selected_option {
                seq![SoundEffect::Select]
            } else {
                Seq::<SoundEffect>::empty()
            }) + (if input.enter {
                seq![SoundEffect::Enter]
            } else {
                Seq::<SoundEffect>::empty()
            }),
    {
        let ghost tiles0 = self.tiles@;
        let mut i: usize = 0;
        while i < self.eyes.len()
            invariant
                0 <= i <= self.eyes@.len(),
                self.eyes@.len() == old(self).eyes@.len(),
                self.tiles@ == old(self).tiles@,
                self.selected_option == old(self).selected_option,
                self.camera == old(self).camera,
                forall|j: int| 0 <= j < self.tiles@.len() ==> (#[trigger] self.tiles@[j]).wf(),
                forall|j: int|
                    i <= j < self.eyes@.len() ==> self.eyes@[j] == old(self).eyes@[j],
                forall|j: int|
                    0 <= j < i ==> eye_updated(
                        old(self).eyes@[j],
                        #[trigger] self.eyes@[j],
                        old(self).tiles@,
                    ),
                forall|j: int| 0 <= j < self.eyes@.len() ==> (#[trigger] self.eyes@[j]).wf(),
                old(self).wf(),
            decreases self.eyes@.len() - i,
        {
            let eyes_ref = &mut self.eyes;
            let tiles_ref = &self.tiles;
            eyes_ref[i].update(tiles_ref);
            i = i + 1;
        }

        let mut sounds: Vec<SoundEffect> = Vec::new();
        let prev_option = self.selected_option;
        if input.down {
            if self.selected_option == 2 {
                self.selected_option = 0;
            } else {
                self.selected_option = self.selected_option + 1;
            }
        } else if input.up {
            if self.selected_option == 0 {
                self.selected_option = 2;
            } else {
                self.selected_option = self.selected_option - 1;
            }
        }

        if prev_option != self.selected_option {
            sounds.push(SoundEffect::Select);
            self.tiles.clear();
            if self.selected_option == 0 {
                let t = make_demo_block(Color::Blue, 200, 200, 200, 200);
                self.tiles.push(t);
            } else if self.selected_option == 1 {
                let t = make_demo_block(Color::Green, 200, 300, 200, 500);
                self.tiles.push(t);
            } else {
                let t = make_demo_block(
                    Color::Red,
                    self.camera.width / 2 - 32,
                    300,
                    200,
                    200,
                );
                self.tiles.push(t);
            }
            assert(self.tiles@ =~= opt_tile_seq(
                demo_tile(self.selected_option, old(self).camera.width),
            ));
        }

        let transition: Option<Transition> = if input.enter {
            sounds.push(SoundEffect::Enter);
            if self.selected_option == 0 {
                Some(Transition::ToLevelSelect(0))
            } else if self.selected_option == 1 {
                Some(Transition::ToHelp)
            } else {
                Some(Transition::ToCredits)
            }
        } else {
            None
        };
        proof {
            if prev_option != self.selected_option {
                if input.enter {
                    assert(sounds@ =~= seq![SoundEffect::Select] + seq![SoundEffect::Enter]);
                } else {
                    assert(sounds@ =~= seq![SoundEffect::Select] + Seq::<SoundEffect>::empty());
                }
            } else {
                if input.enter {
                    assert(sounds@ =~= Seq::<SoundEffect>::empty() + seq![SoundEffect::Enter]);
                } else {
                    assert(sounds@ =~= Seq::<SoundEffect>::empty() + Seq::<SoundEffect>::empty());
                }
            }
        }
        UpdateOutcome { transition, sounds }
    }
}

pub open spec fn opt_tile_seq(o: Option<Tile>) -> Seq<Tile> {
    match o {
        Some(t) => seq![t],
        None => Seq::empty(),
    }
}

fn make_menu_eye(c: Color, x: i32, y: i32) -> (e: Eye)
    requires
        coord_ok(x as int),
        coord_ok(y as int),
    ensures
        e == menu_eye(c, x, y),
        e.wf(),
{
    Eye {
        direction: Direction::Left,
        color: c,
        solved: false,
        x: x,
        y: y,
        width: 64,
        height: 64,
        deltax: 0,
        deltay: 0,
        anger: 0,
    }
}

fn make_demo_block(c: Color, x: i32, y: i32, tx: i32, ty: i32) -> (t: Tile)
    requires
        coord_ok(x as int),
        coord_ok(y as int),
        coord_ok(tx as int),
        coord_ok(ty as int),
    ensures
        t == demo_block(c, x, y, tx, ty),
        t.wf(),
{
    Tile {
        texture: TileTexture::Block(c),
        width: 64,
        height: 64,
        x: x,
        y: y,
        targetx: tx,
        targety: ty,
        resistance: FULL_RESISTANCE,
        iswall: false,
        isblock: true,
        moving: false,
    }
}

/// Where the level-select cursor lands after one frame: Down/Up cycle with
/// wrap-around, Left jumps to the Back pseudo-option, Right leaves it.
pub open spec fn level_next_option(sel: i32, n: u32, input: MenuInput) -> i32 {
    if input.down {
        if sel == n - 1 {
            0i32
        } else {
            (sel + 1) as i32
        }
    } else if input.up {
        if sel <= 0 {
            (n - 1) as i32
        } else {
            (sel - 1) as i32
        }
    } else if input.left {
        (-1) as i32
    } else if input.right && sel == -1 {
        0i32
    } else {
        sel
    }
}

/// Whether the B key acts this frame: it sits at the end of the navigation
/// chain, so any earlier navigation key shadows it.
pub open spec fn level_back_fires(sel: i32, input: MenuInput) -> bool {
    &&& input.back
    &&& !input.down
    &&& !input.up
    &&& !input.left
    &&& !(input.right && sel == -1)
}

/// The level list screen: the discovered level entries plus a Back
/// pseudo-option at index -1.
pub struct LevelSelectState {
    pub num_levels: u32,
    pub selected_option: i32,
    pub camera: Camera,
}

impl LevelSelectState {
    pub open spec fn wf(self) -> bool {
        &&& 1 <= self.num_levels <= 1000000
        &&& -1 <= self.selected_option < self.num_levels
    }

    pub fn new(option: i32, num_levels: u32) -> (s: LevelSelectState)
        requires
            1 <= num_levels <= 1000000,
            -1 <= option < num_levels,
        ensures
            s.selected_option == option,
            s.num_levels == num_levels,
            s.camera == Camera::spec_new(),
            s.wf(),
    {
        LevelSelectState { num_levels, selected_option: option, camera: Camera::new() }
    }

    /// One frame of the level list: navigation per `level_next_option`; B
    /// returns straight to the start menu; a selection change plays the
    /// select sound; Enter commits — Back to the start menu with the back
    /// sound, a level entry to the game with the enter sound.
    pub fn update(&mut self, input: &MenuInput) -> (out: UpdateOutcome)
        requires
            old(self).wf(),
        ensures
            final(self).wf(),
            final(self).num_levels == old(self).num_levels,
            final(self).camera == old(self).camera,
            final(self).selected_option == level_next_option(
                old(self).selected_option,
                old(self).num_levels,
                *input,
            ),
            out.transition == (if level_back_fires(old(self).selected_option, *input) {
                Some(Transition::ToStartMenu(0))
            } else if input.enter {
                if final(self).selected_option == -1 {
                    Some(Transition::ToStartMenu(0))
                } else {
                    Some(Transition::ToGame(final(self).selected_option as usize))
                }
            } else {
                None::<Transition>
            }),
            out.sounds@ == (if level_back_fires(old(self).selected_option, *input) {
                Seq::<SoundEffect>::empty()
            } else {
                (if final(self).selected_option != old(self).selected_option {
                    seq![SoundEffect::Select]
                } else {
                    Seq::<SoundEffect>::empty()
                }) + (if input.enter {
                    if final(self).selected_option == -1 {
                        seq![SoundEffect::Back]
                    } else {
                        seq![SoundEffect::Enter]
                    }
                } else {
                    Seq::<SoundEffect>::empty()
                })
            }),
    {
        let mut sounds: Vec<SoundEffect> = Vec::new();
        let prev_option = self.selected_option;
        let last = self.num_levels as i32 - 1;
        if input.down {
            if self.selected_option == last {
                self.selected_option = 0;
            } else {
                self.selected_option = self.selected_option + 1;
            }
        } else if input.up {
            if self.selected_option <= 0 {
                self.selected_option = last;
            } else {
                self.selected_option = self.selected_option - 1;
            }
        } else if input.left {
            self.selected_option = -1;
        } else if input.right && self.selected_option == -1 {
            self.selected_option = 0;
        } else if input.back {
            assert(sounds@ =~= Seq::<SoundEffect>::empty());
            return UpdateOutcome {
                transition: Some(Transition::ToStartMenu(0)),
                sounds,
            };
        }
        if prev_option != self.selected_option {
            sounds.push(SoundEffect::Select);
        }
        if input.enter {
            if self.selected_option == -1 {
                sounds.push(SoundEffect::Back);
                proof {
                    if prev_option != self.selected_option {
                        assert(sounds@ =~= seq![SoundEffect::Select] + seq![SoundEffect::Back]);
                    } else {
                        assert(sounds@ =~= Seq::<SoundEffect>::empty() + seq![SoundEffect::Back]);
                    }
                }
                return UpdateOutcome {
                    transition: Some(Transition::ToStartMenu(0)),
                    sounds,
                };
            } else {
                sounds.push(SoundEffect::Enter);
                proof {
                    if prev_option != self.selected_option {
                        assert(sounds@ =~= seq![SoundEffect::Select] + seq![SoundEffect::Enter]);
                    } else {
                        assert(sounds@ =~= Seq::<SoundEffect>::empty() + seq![SoundEffect::Enter]);
                    }
                }
                return UpdateOutcome {
                    transition: Some(Transition::ToGame(self.selected_option as usize)),
                    sounds,
                };
            }
        }
        proof {
            if prev_option != self.selected_option {
                assert(sounds@ =~= seq![SoundEffect::Select] + Seq::<SoundEffect>::empty());
            } else {
                assert(sounds@ =~= Seq::<SoundEffect>::empty() + Seq::<SoundEffect>::empty());
            }
        }
        UpdateOutcome { transition: None, sounds }
    }
}

/// The game frame's input: freshly pressed reset (R), quit (Q) and Enter,
/// the held direction keys, and the seconds elapsed since the level began
/// (supplied by the driver's clock).
#[derive(Clone, Copy, PartialEq, Eq, Structural, Debug)]
pub struct GameInput {
    pub reset: bool,
    pub quit: bool,
    pub enter: bool,
    pub held: MoveInput,
    pub elapsed_seconds: u64,
}

/// The player as a freshly loaded level places it.
pub open spec fn initial_player() -> Player {
    Player {
        width: PLAYER_WIDTH,
        height: PLAYER_HEIGHT,
        x: 0,
        y: 0,
        velx: 0,
        vely: 0,
        delay: ANIM_DELAY,
        frame: 0,
        active_animation: Animation::Walk(Direction::Down),
    }
}

pub open spec fn spawned_player(spawn: Option<(i32, i32)>) -> Player {
    match spawn {
        Some(p) => Player { x: p.0, y: p.1, ..initial_player() },
        None => initial_player(),
    }
}

/// How many tiles of the suffix from `i` report a full-tile displacement
/// this frame (the move-counting telemetry).
pub open spec fn count_moved_from(ts: Seq<Tile>, i: int) -> int
    decreases ts.len() - i,
    when 0 <= i <= ts.len()
{
    if i >= ts.len() {
        0
    } else {
        (if spec_has_moved(ts[i]) {
            1int
        } else {
            0int
        }) + count_moved_from(ts, i + 1)
    }
}

proof fn lemma_count_moved_bounds(ts: Seq<Tile>, i: int)
    requires
        0 <= i <= ts.len(),
    ensures
        0 <= count_moved_from(ts, i) <= ts.len() - i,
    decreases ts.len() - i,
{
    if i < ts.len() {
        lemma_count_moved_bounds(ts, i + 1);
    }
}

/// The push sound events of one tile pass, in tile order.
pub open spec fn push_sounds_from(ts: Seq<Tile>, i: int) -> Seq<SoundEffect>
    decreases ts.len() - i,
    when 0 <= i <= ts.len()
{
    if i >= ts.len() {
        Seq::empty()
    } else {
        (if tile_step(ts[i], ts).1 {
            seq![SoundEffect::Push]
        } else {
            Seq::<SoundEffect>::empty()
        }) + push_sounds_from(ts, i + 1)
    }
}

/// Every tile stepped against the snapshot of the whole list at frame start.
pub open spec fn tiles_after_pass(ts: Seq<Tile>) -> Seq<Tile> {
    Seq::new(ts.len(), |i: int| tile_step(ts[i], ts).0)
}

/// Every flame stepped one tick.
pub open spec fn flames_after_pass(fs: Seq<Fire>) -> Seq<Fire> {
    Seq::new(fs.len(), |i: int| fire_step(fs[i]))
}

/// The camera centered on the player's middle.
pub open spec fn camera_focused(c: Camera, p: Player) -> Camera {
    Camera {
        x: ((p.x + p.width / 2) - c.width / 2) as i32,
        y: ((p.y + p.height / 2) - c.height / 2) as i32,
        ..c
    }
}

/// The gameplay screen: the decoded level it was entered with (kept pristine
/// for resets) and the live world built from it.
pub struct GameState {
    pub level: Level,
    pub won: bool,
    pub captured_time: Option<u64>,
    pub moves: u32,
    pub flames: Vec<Fire>,
    pub tiles: Vec<Tile>,
    pub eyes: Vec<Eye>,
    pub player: Player,
    pub camera: Camera,
}

impl GameState {
    pub open spec fn wf(self) -> bool {
        &&& self.level.wf()
        &&& self.level.tiles@.len() <= 2000000
        &&& self.tiles@.len() <= 2000000
        &&& forall|i: int| 0 <= i < self.tiles@.len() ==> (#[trigger] self.tiles@[i]).wf()
        &&& forall|i: int| 0 <= i < self.eyes@.len() ==> (#[trigger] self.eyes@[i]).wf()
        &&& forall|i: int| 0 <= i < self.flames@.len() ==> (#[trigger] self.flames@[i]).wf()
        &&& self.player.wf()
        &&& self.player.velx == 0
        &&& self.player.vely == 0
        &&& 0 <= self.camera.width <= 100000
        &&& 0 <= self.camera.height <= 100000
    }

    pub fn new(level: Level) -> (s: GameState)
        ensures
            s.level == level,
            s.won == false,
            s.captured_time is None,
            s.moves == 0,
            s.flames@ == Seq::<Fire>::empty(),
            s.tiles@ == Seq::<Tile>::empty(),
            s.eyes@ == Seq::<Eye>::empty(),
            s.player == initial_player(),
            s.camera == Camera::spec_new(),
    {
        GameState {
            level,
            won: false,
            captured_time: None,
            moves: 0,
            flames: Vec::new(),
            tiles: Vec::new(),
            eyes: Vec::new(),
            player: Player::new(),
            camera: Camera::new(),
        }
    }

    /// Rebuild the live world from the stored level: tiles, eyes and flames
    /// as decoded, the player at the spawn point. The win flag, move count
    /// and captured time are deliberately left alone.
    pub fn load_level(&mut self)
        requires
            old(self).level.wf(),
        ensures
            final(self).tiles@ == old(self).level.tiles@,
            final(self).eyes@ == old(self).level.eyes@,
            final(self).flames@ == old(self).level.flames@,
            final(self).player == spawned_player(old(self).level.spawn),
            final(self).level == old(self).level,
            final(self).won == old(self).won,
            final(self).moves == old(self).moves,
            final(self).captured_time == old(self).captured_time,
            final(self).camera == old(self).camera,
            final(self).player.wf(),
    {
        self.tiles = copy_tiles(&self.level.tiles);
        self.eyes = copy_eyes(&self.level.eyes);
        self.flames = copy_flames(&self.level.flames);
        self.player = Player::new();
        match self.level.spawn {
            Some(p) => {
                self.player.x = p.0;
                self.player.y = p.1;
            },
            None => {},
        }
    }

    /// Entering the game sizes the camera and builds the world from the
    /// level; the driver starts the level clock alongside.
    pub fn on_enter(&mut self)
        requires
            old(self).level.wf(),
        ensures
            final(self).camera == (Camera { width: 800, height: 600, ..Camera::spec_new() }),
            final(self).tiles@ == old(self).level.tiles@,
            final(self).eyes@ == old(self).level.eyes@,
            final(self).flames@ == old(self).level.flames@,
            final(self).player == spawned_player(old(self).level.spawn),
            final(self).level == old(self).level,
            final(self).won == old(self).won,
            final(self).moves == old(self).moves,
            final(self).captured_time == old(self).captured_time,
            old(self).wf() ==> final(self).wf(),
    {
        self.camera = Camera::new();
        self.camera.width = 800;
        self.camera.height = 600;
        self.load_level();
    }

    /// Leaving the game releases the flames.
    pub fn on_exit(&mut self)
        ensures
            final(self).flames@ == Seq::<Fire>::empty(),
            (*final(self)) == (GameState { flames: final(self).flames, ..*old(self) }),
    {
        self.flames.clear();
    }

    /// One gameplay frame. Q quits to the level select untouched; R rebuilds
    /// the world from the level and the frame then proceeds; flames animate;
    /// each tile ticks against a snapshot of the tile list at frame start
    /// (counting full-tile moves, collecting push sounds); the eyes then
    /// re-scan the updated tiles, and the puzzle is won exactly when every
    /// eye is solved. While unsolved, the player moves and collides and the
    /// camera follows; once solved, the elapsed time is captured exactly
    /// once and Enter returns to the level select.
    pub fn update(&mut self, input: &GameInput) -> (out: UpdateOutcome)
        requires
            old(self).wf(),
            old(self).moves + old(self).tiles@.len() + old(self).level.tiles@.len()
                < 0xFFFF_FFFF,
        ensures
            ({
                let reset = input.reset;
                let quit = !input.reset && input.quit;
                if quit {
                    &&& (*final(self)) == (*old(self))
                    &&& out.transition == Some(Transition::ToLevelSelect(0))
                    &&& out.sounds@ == Seq::<SoundEffect>::empty()
                } else {
                    let tiles0 = if reset {
                        old(self).level.tiles@
                    } else {
                        old(self).tiles@
                    };
                    let eyes0 = if reset {
                        old(self).level.eyes@
                    } else {
                        old(self).eyes@
                    };
                    let flames0 = if reset {
                        old(self).level.flames@
                    } else {
                        old(self).flames@
                    };
                    let player0 = if reset {
                        spawned_player(old(self).level.spawn)
                    } else {
                        old(self).player
                    };
                    let tiles1 = tiles_after_pass(tiles0);
                    &&& final(self).level == old(self).level
                    &&& final(self).flames@ == flames_after_pass(flames0)
                    &&& final(self).moves == old(self).moves + count_moved_from(tiles0, 0)
                    &&& out.sounds@ == push_sounds_from(tiles0, 0)
                    &&& final(self).eyes@.len() == eyes0.len()
                    &&& (forall|i: int|
                        0 <= i < eyes0.len() ==> eye_updated(
                            eyes0[i],
                            #[trigger] final(self).eyes@[i],
                            tiles1,
                        ))
                    &&& final(self).won == (forall|i: int|
                        0 <= i < final(self).eyes@.len() ==> (#[trigger] final(self).eyes@[i]).solved)
                    &&& if final(self).won {
                        &&& final(self).tiles@ == tiles1
                        &&& final(self).player == player0
                        &&& final(self).camera == old(self).camera
                        &&& final(self).captured_time == (if old(self).captured_time is Some {
                            old(self).captured_time
                        } else {
                            Some(input.elapsed_seconds)
                        })
                        &&& out.transition == (if input.enter {
                            Some(Transition::ToLevelSelect(0))
                        } else {
                            None::<Transition>
                        })
                    } else {
                        let p1 = player_step(player0, input.held);
                        let r = phys_step(p1, tiles1);
                        &&& final(self).player == r.0
                        &&& final(self).tiles@ == r.1
                        &&& final(self).camera == camera_focused(old(self).camera, r.0)
                        &&& final(self).captured_time == old(self).captured_time
                        &&& out.transition == None::<Transition>
                    }
                }
            }),
    {
        let mut sounds: Vec<SoundEffect> = Vec::new();
        if input.reset {
            self.load_level();
        } else if input.quit {
            assert(sounds@ =~= Seq::<SoundEffect>::empty());
            return UpdateOutcome {
                transition: Some(Transition::ToLevelSelect(0)),
                sounds,
            };
        }
        let ghost tiles0 = self.tiles@;
        let ghost eyes0 = self.eyes@;
        let ghost flames0 = self.flames@;
        let ghost player0 = self.player;
        let ghost moves0 = self.moves;

        // Flames animate.
        let mut i: usize = 0;
        while i < self.flames.len()
            invariant
                0 <= i <= self.flames@.len(),
                self.flames@.len() == flames0.len(),
                forall|j: int| i <= j < flames0.len() ==> self.flames@[j] == flames0[j],
                forall|j: int| 0 <= j < i ==> self.flames@[j] == fire_step(flames0[j]),
                forall|j: int| 0 <= j < flames0.len() ==> (#[trigger] flames0[j]).wf(),
                forall|j: int| 0 <= j < self.flames@.len() ==> (#[trigger] self.flames@[j]).wf(),
                self.tiles@ == tiles0,
                self.eyes@ == eyes0,
                self.player == player0,
                self.moves == moves0,
                self.won == old(self).won,
                self.captured_time == old(self).captured_time,
                self.camera == old(self).camera,
                self.level == old(self).level,
            decreases self.flames@.len() - i,
        {
            self.flames[i].update();
            i = i + 1;
        }
        assert(self.flames@ =~= flames_after_pass(flames0));

        // Tiles tick against the frame-start snapshot; full-tile moves are
        // counted and push sounds collected.
        let snapshot = copy_tiles(&self.tiles);
        proof {
            lemma_count_moved_bounds(tiles0, 0);
        }
        let mut i: usize = 0;
        while i < self.tiles.len()
            invariant
                0 <= i <= self.tiles@.len(),
                self.tiles@.len() == tiles0.len(),
                tiles0.len() <= 2000000,
                snapshot@ == tiles0,
                forall|j: int| i <= j < tiles0.len() ==> self.tiles@[j] == tiles0[j],
                forall|j: int| 0 <= j < i ==> self.tiles@[j] == tile_step(tiles0[j], tiles0).0,
                forall|j: int| 0 <= j < tiles0.len() ==> (#[trigger] tiles0[j]).wf(),
                forall|j: int| 0 <= j < self.tiles@.len() ==> (#[trigger] self.tiles@[j]).wf(),
                moves0 + count_moved_from(tiles0, 0) == self.moves + count_moved_from(
                    tiles0,
                    i as int,
                ),
                0 <= count_moved_from(tiles0, 0) <= tiles0.len(),
                moves0 + tiles0.len() < 0xFFFF_FFFF,
                push_sounds_from(tiles0, 0) == sounds@ + push_sounds_from(tiles0, i as int),
                self.eyes@ == eyes0,
                self.player == player0,
                self.won == old(self).won,
                self.captured_time == old(self).captured_time,
                self.camera == old(self).camera,
                self.level == old(self).level,
                self.flames@ == flames_after_pass(flames0),
            decreases self.tiles@.len() - i,
        {
            proof {
                lemma_count_moved_bounds(tiles0, i as int);
                lemma_count_moved_bounds(tiles0, i as int + 1);
            }
            if self.tiles[i].has_moved() {
                self.moves = self.moves + 1;
            }
            let played = self.tiles[i].update(&snapshot);
            if played {
                sounds.push(SoundEffect::Push);
            }
            assert(push_sounds_from(tiles0, 0) == sounds@ + push_sounds_from(
                tiles0,
                i as int + 1,
            ));
            i = i + 1;
        }
        assert(self.tiles@ =~= tiles_after_pass(tiles0));
        assert(push_sounds_from(tiles0, tiles0.len() as int) =~= Seq::<SoundEffect>::empty());
        assert(sounds@ =~= push_sounds_from(tiles0, 0));
        let ghost tiles1 = self.tiles@;

        // Eyes re-scan the updated tiles; the puzzle is won exactly when
        // every eye is solved.
        self.won = true;
        let mut i: usize = 0;
        while i < self.eyes.len()
            invariant
                0 <= i <= self.eyes@.len(),
                self.eyes@.len() == eyes0.len(),
                self.tiles@ == tiles1,
                forall|j: int| i <= j < eyes0.len() ==> self.eyes@[j] == eyes0[j],
                forall|j: int|
                    0 <= j < i ==> eye_updated(eyes0[j], #[trigger] self.eyes@[j], tiles1),
                forall|j: int| 0 <= j < eyes0.len() ==> (#[trigger] eyes0[j]).wf(),
                forall|j: int| 0 <= j < self.eyes@.len() ==> (#[trigger] self.eyes@[j]).wf(),
                self.won == (forall|j: int|
                    0 <= j < i ==> (#[trigger] self.eyes@[j]).solved),
                self.player == player0,
                self.moves == moves0 + count_moved_from(tiles0, 0),
                self.captured_time == old(self).captured_time,
                self.camera == old(self).camera,
                self.level == old(self).level,
                self.flames@ == flames_after_pass(flames0),
                sounds@ == push_sounds_from(tiles0, 0),
            decreases self.eyes@.len() - i,
        {
            let tiles_ref = &self.tiles;
            let ghost prev_won = self.won;
            let ghost eyes_before = self.eyes@;
            self.eyes[i].update(tiles_ref);
            if !self.eyes[i].solved {
                self.won = false;
            }
            proof {
                assert(forall|j: int|
                    0 <= j < i as int ==> self.eyes@[j] == #[trigger] eyes_before[j]);
                if prev_won && self.eyes@[i as int].solved {
                    assert forall|j: int|
                        0 <= j < i as int + 1 implies (#[trigger] self.eyes@[j]).solved by {}
                } else {
                    if !prev_won {
                        assert(!(forall|j: int|
                            0 <= j < i as int ==> (#[trigger] eyes_before[j]).solved));
                        let j0 = choose|j: int|
                            0 <= j < i as int && !(#[trigger] eyes_before[j]).solved;
                        assert(self.eyes@[j0] == eyes_before[j0]);
                        assert(0 <= j0 < i as int + 1 && !self.eyes@[j0].solved);
                    } else {
                        assert(!self.eyes@[i as int].solved);
                    }
                    assert(!(forall|j: int|
                        0 <= j < i as int + 1 ==> (#[trigger] self.eyes@[j]).solved));
                }
            }
            i = i + 1;
        }

        if !self.won {
            // The player moves and collides; the camera follows.
            self.player.update(&input.held);
            handle_collisions(&mut self.player, &mut self.tiles);
            let fx = self.player.x + (self.player.width / 2) as i32;
            let fy = self.player.y + (self.player.height / 2) as i32;
            self.camera.focus(fx, fy);
            return UpdateOutcome { transition: None, sounds };
        }
        // Solved: capture the elapsed time exactly once; Enter leaves.
        match self.captured_time {
            None => {
                self.captured_time = Some(input.elapsed_seconds);
            },
            Some(_) => {},
        }
        if input.enter {
            return UpdateOutcome {
                transition: Some(Transition::ToLevelSelect(0)),
                sounds,
            };
        }
        UpdateOutcome { transition: None, sounds }
    }
}

fn copy_tiles(v: &Vec<Tile>) -> (r: Vec<Tile>)
    ensures
        r@ == v@,
{
    let mut r: Vec<Tile> = Vec::new();
    let mut i: usize = 0;
    while i < v.len()
        invariant
            0 <= i <= v@.len(),
            r@ == v@.take(i as int),
        decreases v@.len() - i,
    {
        let t = v[i];
        r.push(t);
        assert(v@.take(i as int).push(t) =~= v@.take(i as int + 1));
        i = i + 1;
    }
    assert(v@.take(v@.len() as int) =~= v@);
    r
}

fn copy_eyes(v: &Vec<Eye>) -> (r: Vec<Eye>)
    ensures
        r@ == v@,
{
    let mut r: Vec<Eye> = Vec::new();
    let mut i: usize = 0;
    while i < v.len()
        invariant
            0 <= i <= v@.len(),
            r@ == v@.take(i as int),
        decreases v@.len() - i,
    {
        let t = v[i];
        r.push(t);
        assert(v@.take(i as int).push(t) =~= v@.take(i as int + 1));
        i = i + 1;
    }
    assert(v@.take(v@.len() as int) =~= v@);
    r
}

fn copy_flames(v: &Vec<Fire>) -> (r: Vec<Fire>)
    ensures
        r@ == v@,
{
    let mut r: Vec<Fire> = Vec::new();
    let mut i: usize = 0;
    while i < v.len()
        invariant
            0 <= i <= v@.len(),
            r@ == v@.take(i as int),
        decreases v@.len() - i,
    {
        let t = v[i];
        r.push(t);
        assert(v@.take(i as int).push(t) =~= v@.take(i as int + 1));
        i = i + 1;
    }
    assert(v@.take(v@.len() as int) =~= v@);
    r
}

/// The five screens as one closed sum, for a driver that owns the current
/// screen and swaps it on a transition.
pub enum Screen {
    StartMenu(StartMenuState),
    LevelSelect(LevelSelectState),
    Game(GameState),
    Help(HelpState),
    Credits(CreditsState),
}

impl Screen {
    /// The screen's name, as a driver or a log names it.
    pub fn get_name(&self) -> (r: String)
        ensures
            r@ == (match self {
                Screen::StartMenu(_) => "start_menu"@,
                Screen::LevelSelect(_) => "level_select"@,
                Screen::Game(_) => "game"@,
                Screen::Help(_) => "help"@,
                Screen::Credits(_) => "credits"@,
            }),
    {
        match self {
            Screen::StartMenu(_) => String::from_str("start_menu"),
            Screen::LevelSelect(_) => String::from_str("level_select"),
            Screen::Game(_) => String::from_str("game"),
            Screen::Help(_) => String::from_str("help"),
            Screen::Credits(_) => String::from_str("credits"),
        }
    }
}

} // verus!
