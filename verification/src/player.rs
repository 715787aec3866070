//! The character: held buttons, velocity, state, facing, and the clip that
//! state and facing select.

use crate::animation::{
    animate_sprites, lemma_advance_keeps_clip, Animation, AnimationError, AnimationMode,
    AnimationState, Clip, ClipParams, SpriteFrame,
};
use vstd::prelude::*;

verus! {

/// Marks the character that the buttons steer.
#[derive(Clone, Copy, Debug, PartialEq, Eq, Structural)]
pub struct Player;

/// The character's name.
#[derive(Clone, Debug)]
pub struct PlayerName(pub String);

/// The buttons that are held during one tick.
#[derive(Clone, Copy, Debug, PartialEq, Eq, Structural)]
pub struct Controls {
    pub up: bool,
    pub down: bool,
    pub left: bool,
    pub right: bool,
    pub attack: bool,
}

/// The way the character faces.
#[derive(Clone, Copy, Debug, PartialEq, Eq, Structural)]
pub enum Direction {
    Up,
    Down,
    Left,
    Right,
}

/// What the character is doing.
#[derive(Clone, Copy, Debug, PartialEq, Eq, Structural)]
pub enum PlayerState {
    Idle,
    Walking,
    Attacking,
    Dead,
}

/// Movement per unit of time, in whole steps along each axis: `x` grows to
/// the right, `y` grows upwards. It is not normalised: a diagonal is longer
/// than a straight step.
#[derive(Clone, Copy, Debug, PartialEq, Eq, Structural)]
pub struct Velocity {
    pub x: i8,
    pub y: i8,
}

impl Default for Player {
    fn default() -> (player: Self)
        ensures
            player == Player,
    {
        Player
    }
}

impl Default for PlayerName {
    fn default() -> (name: Self)
        ensures
            name.0@ == Seq::<char>::empty(),
    {
        PlayerName(String::new())
    }
}

impl Default for Controls {
    fn default() -> (controls: Self)
        ensures
            controls == (Controls {
                up: false,
                down: false,
                left: false,
                right: false,
                attack: false,
            }),
    {
        Controls { up: false, down: false, left: false, right: false, attack: false }
    }
}

impl Default for Direction {
    fn default() -> (direction: Self)
        ensures
            direction == Direction::Down,
    {
        Direction::Down
    }
}

impl Default for PlayerState {
    fn default() -> (state: Self)
        ensures
            state == PlayerState::Idle,
    {
        PlayerState::Idle
    }
}

impl Default for Velocity {
    fn default() -> (velocity: Self)
        ensures
            velocity == Velocity::zero(),
    {
        Velocity { x: 0, y: 0 }
    }
}

impl Velocity {
    /// No movement.
    pub open spec fn zero() -> Velocity {
        Velocity { x: 0, y: 0 }
    }
}

impl Controls {
    /// Movement along the vertical axis: up counts 1, down -1, and both
    /// together cancel.
    pub open spec fn vertical(self) -> int {
        if self.up && !self.down {
            1
        } else if self.down && !self.up {
            -1
        } else {
            0
        }
    }

    /// Movement along the horizontal axis: right counts 1, left -1, and both
    /// together cancel.
    pub open spec fn horizontal(self) -> int {
        if self.left && !self.right {
            -1
        } else if self.right && !self.left {
            1
        } else {
            0
        }
    }

    /// The direction of the movement button that is held alone, if one is.
    pub open spec fn sole_direction(self) -> Option<Direction> {
        if self.up && !self.down && !self.left && !self.right {
            Some(Direction::Up)
        } else if self.down && !self.up && !self.left && !self.right {
            Some(Direction::Down)
        } else if self.left && !self.up && !self.down && !self.right {
            Some(Direction::Left)
        } else if self.right && !self.up && !self.down && !self.left {
            Some(Direction::Right)
        } else {
            None
        }
    }
}

/// The velocity that the held buttons ask for. An attacking character stands
/// still whatever is held.
pub open spec fn resolved_velocity(controls: Controls, state: Option<PlayerState>) -> Velocity {
    if state == Some(PlayerState::Attacking) {
        Velocity::zero()
    } else {
        Velocity { x: controls.horizontal() as i8, y: controls.vertical() as i8 }
    }
}

/// The state after the velocity was looked at: an idle character that moves
/// walks, a walking character that stands is idle, and every other state
/// stays.
pub open spec fn moved_state(state: PlayerState, velocity: Velocity) -> PlayerState {
    match state {
        PlayerState::Idle if velocity != Velocity::zero() => PlayerState::Walking,
        PlayerState::Walking if velocity == Velocity::zero() => PlayerState::Idle,
        _ => state,
    }
}

/// The facing after the held buttons were looked at: that of the movement
/// button that is held alone, and the facing as it was if none or several
/// are held.
pub open spec fn faced(direction: Direction, controls: Controls) -> Direction {
    match controls.sole_direction() {
        Some(sole) => sole,
        None => direction,
    }
}

/// Whether an attack is played again: the character is attacking, its clip
/// has finished and the attack button is still held.
pub open spec fn replays(state: PlayerState, clip: AnimationState, attack: bool) -> bool {
    state == PlayerState::Attacking && clip == AnimationState::Finished && attack
}

/// The state after the attack button and the clip were looked at. An idle or
/// walking character attacks if the button is held. An attacking character
/// turns idle once its clip has finished with the button released. A dead
/// character stays dead.
pub open spec fn attacked_state(state: PlayerState, clip: AnimationState, attack: bool)
    -> PlayerState {
    match state {
        PlayerState::Idle | PlayerState::Walking => if attack {
            PlayerState::Attacking
        } else {
            state
        },
        PlayerState::Attacking => if clip == AnimationState::Finished && !attack {
            PlayerState::Idle
        } else {
            PlayerState::Attacking
        },
        PlayerState::Dead => PlayerState::Dead,
    }
}

/// Frames in one row of the sprite sheet.
pub const SHEET_COLUMNS: usize = 6;

/// Rows of the sprite sheet.
pub const SHEET_ROWS: usize = 10;

/// Frames of an attack.
pub const ATTACK_FRAMES: usize = 4;

/// The row of the sprite sheet that shows a state and a facing. The two
/// horizontal facings share a row. A dead character has none.
pub open spec fn sheet_row(state: PlayerState, direction: Direction) -> Option<nat> {
    match (state, direction) {
        (PlayerState::Idle, Direction::Down) => Some(0),
        (PlayerState::Idle, Direction::Left) | (PlayerState::Idle, Direction::Right) => Some(1),
        (PlayerState::Idle, Direction::Up) => Some(2),
        (PlayerState::Walking, Direction::Down) => Some(3),
        (PlayerState::Walking, Direction::Left) | (PlayerState::Walking, Direction::Right) => Some(
            4,
        ),
        (PlayerState::Walking, Direction::Up) => Some(5),
        (PlayerState::Attacking, Direction::Down) => Some(6),
        (PlayerState::Attacking, Direction::Left) | (PlayerState::Attacking, Direction::Right) => Some(
            7,
        ),
        (PlayerState::Attacking, Direction::Up) => Some(8),
        (PlayerState::Dead, _) => None,
    }
}

/// The clip that shows a state and a facing. It starts at the head of its row.
/// Idle and walking clips run through the whole row and repeat; an attack runs
/// through its first four frames, once. Facing left is shown by the row that
/// faces right, mirrored. A dead character has no clip.
pub open spec fn clip_for(state: PlayerState, direction: Direction) -> Option<ClipParams> {
    match sheet_row(state, direction) {
        Some(row) => Some(
            ClipParams {
                start: (row * SHEET_COLUMNS) as usize,
                end: if state == PlayerState::Attacking {
                    (row * SHEET_COLUMNS + ATTACK_FRAMES) as usize
                } else {
                    ((row + 1) * SHEET_COLUMNS) as usize
                },
                flip_x: direction == Direction::Left,
                play_mode: if state == PlayerState::Attacking {
                    AnimationMode::Once
                } else {
                    AnimationMode::Repeating
                },
            },
        ),
        None => None,
    }
}

/// Finds the clip that shows a state and a facing.
pub fn select(state: PlayerState, direction: Direction) -> (params: Option<ClipParams>)
    ensures
        params == clip_for(state, direction),
        params.is_none() <==> state == PlayerState::Dead,
        params.is_some() ==> params.unwrap().valid() && params.unwrap().end <= SHEET_COLUMNS
            * SHEET_ROWS,
{
    let (start, end, flip_x): (usize, usize, bool) = match (state, direction) {
        (PlayerState::Idle, Direction::Up) => (12, 18, false),
        (PlayerState::Idle, Direction::Down) => (0, 6, false),
        (PlayerState::Idle, Direction::Left) => (6, 12, true),
        (PlayerState::Idle, Direction::Right) => (6, 12, false),
        (PlayerState::Walking, Direction::Up) => (30, 36, false),
        (PlayerState::Walking, Direction::Down) => (18, 24, false),
        (PlayerState::Walking, Direction::Left) => (24, 30, true),
        (PlayerState::Walking, Direction::Right) => (24, 30, false),
        (PlayerState::Attacking, Direction::Up) => (48, 52, false),
        (PlayerState::Attacking, Direction::Down) => (36, 40, false),
        (PlayerState::Attacking, Direction::Left) => (42, 46, true),
        (PlayerState::Attacking, Direction::Right) => (42, 46, false),
        (PlayerState::Dead, _) => {
            return None;
        },
    };
    let play_mode = match state {
        PlayerState::Attacking => AnimationMode::Once,
        _ => AnimationMode::Repeating,
    };
    Some(ClipParams { start, end, flip_x, play_mode })
}

/// Takes down which buttons are held. The keys W, A, S and D stand for up,
/// left, down and right, and the space bar for the attack. Whatever the
/// snapshot held before is overwritten.
pub fn handle_input(w: bool, a: bool, s: bool, d: bool, space: bool, controls: &mut Controls)
    ensures
        *final(controls) == (Controls { up: w, left: a, down: s, right: d, attack: space }),
{
    controls.up = w;
    controls.left = a;
    controls.down = s;
    controls.right = d;
    controls.attack = space;
}

/// Sets the velocity that the held buttons ask for. Opposing buttons cancel.
/// An attacking character stands still whatever is held; a character without
/// a state moves as the buttons say.
pub fn update_controllable_velocities(
    controls: &Controls,
    velocity: &mut Velocity,
    player_state: Option<&PlayerState>,
)
    ensures
        *final(velocity) == resolved_velocity(
            *controls,
            match player_state {
                Some(state) => Some(*state),
                None => None,
            },
        ),
        player_state == Some(&PlayerState::Attacking) ==> *final(velocity) == Velocity::zero(),
{
    if let Some(PlayerState::Attacking) = player_state {
        *velocity = Velocity { x: 0, y: 0 };
    } else {
        if controls.up && !controls.down {
            velocity.y = 1;
        } else if controls.down && !controls.up {
            velocity.y = -1;
        } else {
            velocity.y = 0;
        }
        if controls.left && !controls.right {
            velocity.x = -1;
        } else if controls.right && !controls.left {
            velocity.x = 1;
        } else {
            velocity.x = 0;
        }
    }
}

/// Lets the velocity decide between idle and walking, and the held buttons
/// decide the facing. An idle character that moves walks; a walking character
/// that stands is idle; attacking and dead stay. The facing turns to the
/// movement button that is held alone, and stays if none or several are held.
pub fn update_player_state_and_direction(
    velocity: &Velocity,
    direction: &mut Direction,
    player_state: &mut PlayerState,
    controls: &Controls,
)
    ensures
        *final(player_state) == moved_state(*old(player_state), *velocity),
        *final(direction) == faced(*old(direction), *controls),
{
    match *player_state {
        PlayerState::Idle => {
            if velocity.x != 0 || velocity.y != 0 {
                *player_state = PlayerState::Walking;
            }
        },
        PlayerState::Walking => {
            if velocity.x == 0 && velocity.y == 0 {
                *player_state = PlayerState::Idle;
            }
        },
        _ => (),
    }
    if *direction != Direction::Up && controls.up && !controls.down && !controls.left
        && !controls.right {
        *direction = Direction::Up;
    } else if *direction != Direction::Down && controls.down && !controls.up && !controls.left
        && !controls.right {
        *direction = Direction::Down;
    } else if *direction != Direction::Left && controls.left && !controls.up && !controls.down
        && !controls.right {
        *direction = Direction::Left;
    } else if *direction != Direction::Right && controls.right && !controls.up && !controls.down
        && !controls.left {
        *direction = Direction::Right;
    }
}

/// Lets the attack button and the clip decide about attacking. An idle or
/// walking character attacks if the button is held. An attacking character
/// whose clip has finished turns idle if the button is released; if it is
/// still held, the clip is rewound to play the attack again and the sprite
/// shows its first frame. In every other case nothing changes.
pub fn update_player_attack_state(
    player_state: &mut PlayerState,
    animation: &mut Animation,
    controls: &Controls,
    sprite: &mut SpriteFrame,
)
    ensures
        *final(player_state) == attacked_state(
            *old(player_state),
            old(animation)@.state,
            controls.attack,
        ),
        final(animation)@ == if replays(
            *old(player_state),
            old(animation)@.state,
            controls.attack,
        ) {
            old(animation)@.reset()
        } else {
            old(animation)@
        },
        *final(sprite) == if replays(*old(player_state), old(animation)@.state, controls.attack) {
            final(animation)@.shown()
        } else {
            *old(sprite)
        },
{
    match *player_state {
        PlayerState::Idle | PlayerState::Walking => {
            if controls.attack {
                *player_state = PlayerState::Attacking;
            }
        },
        PlayerState::Attacking => {
            if animation.state() == AnimationState::Finished {
                if controls.attack {
                    animation.reset();
                    *sprite = animation.shown();
                } else {
                    *player_state = PlayerState::Idle;
                }
            }
        },
        PlayerState::Dead => (),
    }
}

/// Puts the clip that shows `state` and `direction` on the character. The
/// clip is rewound and rewritten in place to the selected frame range, mode
/// and mirroring, and the sprite shows its first frame at once. For a dead
/// character the clip is only rewound, and the sprite stays as it is.
pub fn handle_animation_state_update(
    animation: &mut Animation,
    state: &PlayerState,
    direction: &Direction,
    sprite: &mut SpriteFrame,
)
    ensures
        final(animation)@ == match clip_for(*state, *direction) {
            Some(params) => old(animation)@.playing(params),
            None => old(animation)@.reset(),
        },
        *final(sprite) == match clip_for(*state, *direction) {
            Some(params) => SpriteFrame { index: params.start, flip_x: params.flip_x },
            None => *old(sprite),
        },
{
    match select(*state, *direction) {
        Some(params) => {
            // The table holds no frame range that `play` refuses.
            let played = animation.play(params);
            assert(played.is_ok());
            *sprite = animation.shown();
        },
        None => {
            animation.reset();
        },
    }
}

/// Everything that makes up one character.
#[derive(Clone, Debug)]
pub struct PlayerBundle {
    pub player: Player,
    pub name: PlayerName,
    pub state: PlayerState,
    pub direction: Direction,
    pub controls: Controls,
    pub velocity: Velocity,
    pub sprite: SpriteFrame,
    pub animation: Animation,
}

/// The mathematical model of a [`PlayerBundle`]: all of it but the name.
pub struct Character {
    pub state: PlayerState,
    pub direction: Direction,
    pub controls: Controls,
    pub velocity: Velocity,
    pub sprite: SpriteFrame,
    pub clip: Clip,
}

impl View for PlayerBundle {
    type V = Character;

    open spec fn view(&self) -> Character {
        Character {
            state: self.state,
            direction: self.direction,
            controls: self.controls,
            velocity: self.velocity,
            sprite: self.sprite,
            clip: self.animation@,
        }
    }
}

impl Character {
    /// The character's clip is well formed, and unless the character is dead
    /// the clip is the one that shows its state and facing, and the sprite
    /// shows the clip's current frame.
    pub open spec fn wf(self) -> bool {
        &&& self.clip.wf()
        &&& self.state != PlayerState::Dead ==> {
            &&& clip_for(self.state, self.direction) == Some(self.clip.params())
            &&& self.sprite == self.clip.shown()
        }
    }

    /// A character as it is made: idle, facing down, nothing held, standing
    /// still, on the first frame of the clip that shows this.
    pub open spec fn spawned(frame_time: nat) -> Character {
        Character {
            state: PlayerState::Idle,
            direction: Direction::Down,
            controls: Controls { up: false, down: false, left: false, right: false, attack: false },
            velocity: Velocity::zero(),
            sprite: SpriteFrame { index: 0, flip_x: false },
            clip: Clip {
                start: 0,
                end: SHEET_COLUMNS as nat,
                play_mode: AnimationMode::Repeating,
                flip_x: false,
                state: AnimationState::Playing,
                current_frame: 0,
                frame_time,
                elapsed: 0,
            },
        }
    }

    /// The first part of a tick. The held buttons are taken down and give the
    /// velocity, by the state the character had. The velocity decides between
    /// idle and walking, then the attack button and the clip decide about
    /// attacking, and the buttons decide the facing. Where an attack is played
    /// again, the clip is rewound and the sprite shows its first frame.
    pub open spec fn steer(self, controls: Controls) -> Character {
        let velocity = resolved_velocity(controls, Some(self.state));
        let moved = moved_state(self.state, velocity);
        let replay = replays(moved, self.clip.state, controls.attack);
        Character {
            state: attacked_state(moved, self.clip.state, controls.attack),
            direction: faced(self.direction, controls),
            controls,
            velocity,
            sprite: if replay {
                self.clip.reset().shown()
            } else {
                self.sprite
            },
            clip: if replay {
                self.clip.reset()
            } else {
                self.clip
            },
        }
    }

    /// The character with the clip that shows its state and facing, rewound,
    /// and with the sprite on that clip's first frame. A dead character has
    /// its clip rewound and keeps its sprite.
    pub open spec fn reselect(self) -> Character {
        match clip_for(self.state, self.direction) {
            Some(params) => Character {
                clip: self.clip.playing(params),
                sprite: SpriteFrame { index: params.start, flip_x: params.flip_x },
                ..self
            },
            None => Character { clip: self.clip.reset(), ..self },
        }
    }

    /// The character after `delta` nanoseconds of its clip: the clip takes the
    /// frame steps that fall due, and if it took any, the sprite shows the
    /// clip's new frame.
    pub open spec fn animate(self, delta: nat) -> Character {
        Character {
            clip: self.clip.advance(delta),
            sprite: if self.clip.state == AnimationState::Playing && self.clip.steps_due(delta)
                > 0 {
                self.clip.advance(delta).shown()
            } else {
                self.sprite
            },
            ..self
        }
    }

    /// The character after one tick in which `controls` are held and `delta`
    /// nanoseconds pass. The character is steered; if that changed its state
    /// or its facing, and only then, its clip is selected anew; then the clip
    /// moves on.
    pub open spec fn tick(self, controls: Controls, delta: nat) -> Character {
        let steered = self.steer(controls);
        let selected = if steered.state != self.state || steered.direction != self.direction {
            steered.reselect()
        } else {
            steered
        };
        selected.animate(delta)
    }
}

impl PlayerBundle {
    /// A character called `name`, idle and facing down, whose clips step every
    /// `frame_time` nanoseconds. A cadence of zero is refused.
    pub fn new(name: String, frame_time: u64) -> (made: Result<Self, AnimationError>)
        ensures
            frame_time == 0 ==> made.is_err() && made.unwrap_err() == AnimationError::ZeroFrameTime,
            frame_time > 0 ==> made.is_ok() && made.unwrap()@ == Character::spawned(
                frame_time as nat,
            ) && made.unwrap().name.0 == name,
    {
        match Animation::new(frame_time, 0, SHEET_COLUMNS, AnimationMode::Repeating, false) {
            Ok(animation) => Ok(
                PlayerBundle {
                    player: Player,
                    name: PlayerName(name),
                    state: PlayerState::Idle,
                    direction: Direction::Down,
                    controls: Controls {
                        up: false,
                        down: false,
                        left: false,
                        right: false,
                        attack: false,
                    },
                    velocity: Velocity { x: 0, y: 0 },
                    sprite: SpriteFrame { index: 0, flip_x: false },
                    animation,
                },
            ),
            Err(error) => Err(error),
        }
    }

    /// Runs one tick in which `controls` are held and `delta` nanoseconds
    /// pass: the velocity is resolved, then state and facing, then the clip is
    /// selected anew if either of them changed, then the clip moves on. The
    /// velocity that is left is the one to move the character by in this tick.
    pub fn tick(&mut self, controls: Controls, delta: u64)
        ensures
            final(self)@ == old(self)@.tick(controls, delta as nat),
            final(self).name == old(self).name,
            final(self).player == old(self).player,
    {
        let state = self.state;
        let direction = self.direction;
        self.controls = controls;
        update_controllable_velocities(&self.controls, &mut self.velocity, Some(&self.state));
        update_player_state_and_direction(
            &self.velocity,
            &mut self.direction,
            &mut self.state,
            &self.controls,
        );
        update_player_attack_state(
            &mut self.state,
            &mut self.animation,
            &self.controls,
            &mut self.sprite,
        );
        if self.state != state || self.direction != direction {
            handle_animation_state_update(
                &mut self.animation,
                &self.state,
                &self.direction,
                &mut self.sprite,
            );
        }
        animate_sprites(&mut self.sprite, &mut self.animation, delta);
    }
}

/// An attacking character stands still, whatever buttons are held.
pub proof fn lemma_attack_locks_movement(c: Character, controls: Controls, delta: nat)
    requires
        c.state == PlayerState::Attacking,
    ensures
        resolved_velocity(controls, Some(c.state)) == Velocity::zero(),
        c.tick(controls, delta).velocity == Velocity::zero(),
{
}

/// Between idle and walking the velocity alone decides: a character that is
/// idle or walking walks if the velocity is not zero, and is idle if it is.
/// The velocity is not zero exactly if, on one axis at least, one of the two
/// opposing buttons is held without the other. With the attack button
/// released, that is the state after the tick.
pub proof fn lemma_velocity_decides_walking(c: Character, controls: Controls, delta: nat)
    requires
        c.state == PlayerState::Idle || c.state == PlayerState::Walking,
    ensures
        resolved_velocity(controls, Some(c.state)) != Velocity::zero() <==> controls.up
            != controls.down || controls.left != controls.right,
        moved_state(c.state, resolved_velocity(controls, Some(c.state))) == if resolved_velocity(
            controls,
            Some(c.state),
        ) != Velocity::zero() {
            PlayerState::Walking
        } else {
            PlayerState::Idle
        },
        !controls.attack ==> c.tick(controls, delta).state == if controls.up != controls.down
            || controls.left != controls.right {
            PlayerState::Walking
        } else {
            PlayerState::Idle
        },
{
}

/// A character that is idle or walking attacks after a tick in which the
/// attack button is held, whatever else is held, and plays the attack of its
/// facing from the start.
pub proof fn lemma_attack_entry(c: Character, controls: Controls, delta: nat)
    requires
        c.state == PlayerState::Idle || c.state == PlayerState::Walking,
        controls.attack,
    ensures
        c.tick(controls, delta).state == PlayerState::Attacking,
        c.tick(controls, delta).clip == c.clip.playing(
            clip_for(PlayerState::Attacking, faced(c.direction, controls)).unwrap(),
        ).advance(delta),
{
}

/// An attacking character is idle after a tick exactly if, in that tick, its
/// clip had finished and the attack button was released; otherwise it is
/// still attacking. If the clip had finished and the button was held, the
/// attack is played again from the start.
pub proof fn lemma_attack_exit(c: Character, controls: Controls, delta: nat)
    requires
        c.state == PlayerState::Attacking,
    ensures
        c.tick(controls, delta).state == if c.clip.state == AnimationState::Finished
            && !controls.attack {
            PlayerState::Idle
        } else {
            PlayerState::Attacking
        },
        c.clip.state == AnimationState::Finished && controls.attack ==> c.steer(controls).clip
            == c.clip.reset() && c.tick(controls, delta).clip == (if faced(c.direction, controls)
            == c.direction {
            c.clip.reset()
        } else {
            c.clip.playing(clip_for(PlayerState::Attacking, faced(c.direction, controls)).unwrap())
        }).advance(delta),
{
}

/// The clip is selected on a change only. A tick that leaves state and facing
/// as they were selects nothing: the clip is only steered and moved on. And
/// selecting a second time, with state and facing the same, changes nothing
/// that the first selection left.
pub proof fn lemma_selection_on_change_only(c: Character, controls: Controls, delta: nat)
    ensures
        c.steer(controls).state == c.state && c.steer(controls).direction == c.direction
            ==> c.tick(controls, delta) == c.steer(controls).animate(delta),
        !replays(c.state, c.clip.state, controls.attack) && c.steer(controls).state == c.state
            && c.steer(controls).direction == c.direction ==> c.tick(controls, delta).clip
            == c.clip.advance(delta),
        c.reselect().reselect() == c.reselect(),
{
    let steered = c.steer(controls);
    if !replays(c.state, c.clip.state, controls.attack) && steered.state == c.state {
        assert(!replays(
            moved_state(c.state, steered.velocity),
            c.clip.state,
            controls.attack,
        ));
    }
}

/// A tick keeps a character well formed: the clip stays well formed, and
/// while the character is not dead the clip shows its state and facing and
/// the sprite shows the clip's current frame. A dead character stays dead.
pub proof fn lemma_tick_keeps_character(c: Character, controls: Controls, delta: nat)
    requires
        c.wf(),
    ensures
        c.tick(controls, delta).wf(),
        c.state == PlayerState::Dead <==> c.tick(controls, delta).state == PlayerState::Dead,
{
    let steered = c.steer(controls);
    let selected = if steered.state != c.state || steered.direction != c.direction {
        steered.reselect()
    } else {
        steered
    };
    assert(selected.clip.wf());
    lemma_advance_keeps_clip(selected.clip, delta);
}

/// A character as it is made is well formed.
pub proof fn lemma_spawned_character(frame_time: nat)
    requires
        0 < frame_time,
    ensures
        Character::spawned(frame_time).wf(),
{
}

} // verus!
