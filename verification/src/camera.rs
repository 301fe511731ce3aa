//! The first-person character controller.
//!
//! All state is held in fixed-point integers: positions and speeds in
//! micro-blocks (100000 units per block), angles in micro-radians. The
//! per-frame step — jump trigger, horizontal speed ramp, gravity and ground
//! contact, then movement — is the pure function `step_state`; the executable
//! controller is proved to compute exactly that function.
//!
//! Composing the horizontal movement direction from yaw and the held keys is
//! trigonometric and lives outside this library; the controller takes the
//! resulting unit direction, scaled to `UNITS_PER_BLOCK`, as an input.

use vstd::prelude::*;
use vstd::arithmetic::div_mod::{lemma_fundamental_div_mod, lemma_mod_bound};

use crate::chunk::{voxel_in_bounds, Chunk};
use crate::fixed::floor_div_i64;
use crate::mesh::block_at_local;

verus! {

/// Fixed-point scale: position and speed units per block.
pub const UNITS_PER_BLOCK: i64 = 100000;

/// Fixed-point scale: angle units per radian.
pub const UNITS_PER_RADIAN: i64 = 1000000;

/// Eye height of the player above the feet, in micro-blocks (1.8 blocks).
pub const PLAYER_CAMERA_HEIGHT: i64 = 180000;

/// Vertical speed set by a jump, in micro-blocks per step (0.03 blocks).
pub const JUMP_IMPULSE: i64 = 3000;

/// Pitch is clamped to this magnitude, in micro-radians (1.5 radians).
pub const PITCH_LIMIT: i64 = 1500000;

/// Default horizontal acceleration, in micro-blocks per step per step.
pub const DEFAULT_ACCELERATION: i64 = 2;

/// Default maximum horizontal speed, in micro-blocks per step.
pub const DEFAULT_MAX_SPEED: i64 = 500;

/// Default gravity increment, in micro-blocks per step per step.
pub const DEFAULT_GRAVITY: i64 = 30;

/// Magnitude bound on positions and vertical speed under which one step's
/// fixed-point arithmetic stays well inside 64 bits.
pub const MOTION_LIMIT: i64 = 1000000000000000000;

/// The logical movement intents held during one step.
#[derive(Clone, Copy, Debug, PartialEq, Eq, Structural)]
pub struct PressedKeys {
    pub forward: bool,
    pub back: bool,
    pub left: bool,
    pub right: bool,
    pub jump: bool,
}

/// The mathematical state of the controller: unbounded integers in the same
/// fixed-point units as `Camera`.
pub ghost struct CameraState {
    pub px: int,
    pub py: int,
    pub pz: int,
    pub yaw: int,
    pub pitch: int,
    pub acceleration: int,
    pub max_speed: int,
    pub speed: int,
    pub gravity: int,
    pub vertical_speed: int,
}

/// The first-person camera and character state, in fixed-point units.
pub struct Camera {
    /// Horizontal acceleration per step, micro-blocks per step per step.
    pub acceleration: i64,
    /// Horizontal speed cap, micro-blocks per step.
    pub max_speed: i64,
    /// Current horizontal speed, micro-blocks per step.
    pub speed: i64,
    /// Eye position `(x, y, z)`, micro-blocks.
    pub position: (i64, i64, i64),
    /// Orientation `(yaw, pitch)`, micro-radians.
    pub angle: (i64, i64),
    /// Gravity increment per step, micro-blocks per step per step.
    pub gravity: i64,
    /// Current vertical speed, micro-blocks per step.
    pub vertical_speed: i64,
}

impl View for Camera {
    type V = CameraState;

    open spec fn view(&self) -> CameraState {
        CameraState {
            px: self.position.0 as int,
            py: self.position.1 as int,
            pz: self.position.2 as int,
            yaw: self.angle.0 as int,
            pitch: self.angle.1 as int,
            acceleration: self.acceleration as int,
            max_speed: self.max_speed as int,
            speed: self.speed as int,
            gravity: self.gravity as int,
            vertical_speed: self.vertical_speed as int,
        }
    }
}

/// Ceiling division for a positive divisor.
pub open spec fn ceil_div(a: int, b: int) -> int {
    (a + b - 1) / b
}

/// The x coordinate of the voxel directly beneath the feet: floor of the
/// position in blocks.
pub open spec fn feet_x(s: CameraState) -> int {
    s.px / (UNITS_PER_BLOCK as int)
}

/// The y coordinate of the voxel directly beneath the feet: ceiling of the
/// eye position minus the eye height, in blocks.
pub open spec fn feet_y(s: CameraState) -> int {
    ceil_div(s.py - PLAYER_CAMERA_HEIGHT as int, UNITS_PER_BLOCK as int)
}

/// The z coordinate of the voxel directly beneath the feet: floor of the
/// position in blocks.
pub open spec fn feet_z(s: CameraState) -> int {
    s.pz / (UNITS_PER_BLOCK as int)
}

/// Whether a solid voxel lies directly beneath the feet. A feet voxel outside
/// the chunk's extent counts as empty, uniformly.
pub open spec fn feet_solid(g: Seq<u8>, s: CameraState) -> bool {
    &&& voxel_in_bounds(feet_x(s), feet_y(s), feet_z(s))
    &&& block_at_local(g, feet_x(s), feet_y(s), feet_z(s)) != 0
}

/// One simulation step: jump trigger, horizontal speed ramp (clamped to the
/// maximum), gravity or ground contact, then horizontal and vertical movement.
/// `mdx` and `mdz` are the horizontal movement direction resolved by the
/// caller, scaled so that a unit direction has magnitude `UNITS_PER_BLOCK`.
pub open spec fn step_state(
    s: CameraState,
    k: PressedKeys,
    g: Seq<u8>,
    mdx: int,
    mdz: int,
) -> CameraState {
    let vs_jump = if k.jump && feet_solid(g, s) {
        JUMP_IMPULSE as int
    } else {
        s.vertical_speed
    };
    let sp = if (k.forward != k.back) || (k.left != k.right) {
        if s.speed + s.acceleration <= s.max_speed {
            s.speed + s.acceleration
        } else {
            s.max_speed
        }
    } else {
        s.speed
    };
    let vs = if !feet_solid(g, s) {
        vs_jump - s.gravity
    } else if vs_jump <= 0 {
        0
    } else {
        vs_jump
    };
    CameraState {
        px: s.px + (mdx * sp) / (UNITS_PER_BLOCK as int),
        py: s.py + vs,
        pz: s.pz + (mdz * sp) / (UNITS_PER_BLOCK as int),
        speed: sp,
        vertical_speed: vs,
        ..s
    }
}

/// An orientation update: yaw moves freely, pitch is clamped to
/// `[-PITCH_LIMIT, PITCH_LIMIT]`.
pub open spec fn rotate_state(s: CameraState, delta_yaw: int, delta_pitch: int) -> CameraState {
    CameraState {
        yaw: s.yaw + delta_yaw,
        pitch: if s.pitch + delta_pitch < -(PITCH_LIMIT as int) {
            -(PITCH_LIMIT as int)
        } else if s.pitch + delta_pitch > PITCH_LIMIT as int {
            PITCH_LIMIT as int
        } else {
            s.pitch + delta_pitch
        },
        ..s
    }
}

impl Camera {
    /// Well-formed: speeds and parameters in range, pitch within the clamp.
    pub open spec fn wf(&self) -> bool {
        &&& 0 <= self.acceleration <= 1000000
        &&& 0 <= self.max_speed <= 1000000
        &&& 0 <= self.speed <= self.max_speed
        &&& 0 <= self.gravity <= 1000000
        &&& -PITCH_LIMIT <= self.angle.1 <= PITCH_LIMIT
    }

    /// Machine-limit bound on positions and vertical speed: one step's
    /// arithmetic cannot overflow while they hold.
    pub open spec fn in_motion_range(&self) -> bool {
        &&& -MOTION_LIMIT <= self.position.0 <= MOTION_LIMIT
        &&& -MOTION_LIMIT <= self.position.1 <= MOTION_LIMIT
        &&& -MOTION_LIMIT <= self.position.2 <= MOTION_LIMIT
        &&& -MOTION_LIMIT <= self.vertical_speed <= MOTION_LIMIT
    }

    /// Whether a solid voxel lies directly beneath the feet, read from the
    /// given chunk; a feet voxel outside the chunk's extent counts as empty.
    pub fn feet_voxel_solid(&self, chunk: &Chunk) -> (r: bool)
        requires
            self.in_motion_range(),
            chunk.wf(),
        ensures
            r == feet_solid(chunk.grid(), self@),
    {
        let fx = floor_div_i64(self.position.0, UNITS_PER_BLOCK);
        let fy = floor_div_i64(
            self.position.1 - PLAYER_CAMERA_HEIGHT + (UNITS_PER_BLOCK - 1),
            UNITS_PER_BLOCK,
        );
        let fz = floor_div_i64(self.position.2, UNITS_PER_BLOCK);
        if 0 <= fx && fx < 16 && 0 <= fy && fy < 256 && 0 <= fz && fz < 16 {
            match chunk.get(fx as usize, fy as usize, fz as usize) {
                Ok(id) => id != 0,
                Err(_) => {
                    // Unreachable: the feet coordinate was bounds-checked.
                    proof {
                        assert(false);
                    }
                    false
                },
            }
        } else {
            false
        }
    }

    /// One simulation step against the given chunk: exactly `step_state` of
    /// the current state, the held keys, the chunk's grid, and the horizontal
    /// movement direction `(dir_x, dir_z)` resolved by the caller (a unit
    /// direction scaled to `UNITS_PER_BLOCK`, or zero for no movement).
    pub fn handle_keys(
        &mut self,
        pressed_keys: &PressedKeys,
        chunk: &Chunk,
        dir_x: i64,
        dir_z: i64,
    )
        requires
            old(self).wf(),
            old(self).in_motion_range(),
            chunk.wf(),
            -UNITS_PER_BLOCK <= dir_x <= UNITS_PER_BLOCK,
            -UNITS_PER_BLOCK <= dir_z <= UNITS_PER_BLOCK,
        ensures
            final(self).wf(),
            final(self)@ == step_state(
                old(self)@,
                *pressed_keys,
                chunk.grid(),
                dir_x as int,
                dir_z as int,
            ),
    {
        let solid = self.feet_voxel_solid(chunk);
        if pressed_keys.jump && solid {
            self.vertical_speed = JUMP_IMPULSE;
        }
        if (pressed_keys.forward != pressed_keys.back) || (pressed_keys.left
            != pressed_keys.right) {
            if self.speed + self.acceleration <= self.max_speed {
                self.speed = self.speed + self.acceleration;
            } else {
                self.speed = self.max_speed;
            }
        }
        if !solid {
            self.vertical_speed = self.vertical_speed - self.gravity;
        } else if self.vertical_speed <= 0 {
            self.vertical_speed = 0;
        }
        proof {
            assert(-100000000000 <= dir_x as int * self.speed as int <= 100000000000)
                by (nonlinear_arith)
                requires
                    -100000 <= dir_x <= 100000,
                    0 <= self.speed <= 1000000,
            ;
            assert(-100000000000 <= dir_z as int * self.speed as int <= 100000000000)
                by (nonlinear_arith)
                requires
                    -100000 <= dir_z <= 100000,
                    0 <= self.speed <= 1000000,
            ;
            lemma_fundamental_div_mod(dir_x as int * self.speed as int, 100000);
            lemma_mod_bound(dir_x as int * self.speed as int, 100000);
            lemma_fundamental_div_mod(dir_z as int * self.speed as int, 100000);
            lemma_mod_bound(dir_z as int * self.speed as int, 100000);
        }
        let dx = floor_div_i64(dir_x * self.speed, UNITS_PER_BLOCK);
        let dz = floor_div_i64(dir_z * self.speed, UNITS_PER_BLOCK);
        self.position.0 = self.position.0 + dx;
        self.position.2 = self.position.2 + dz;
        self.position.1 = self.position.1 + self.vertical_speed;
    }

    /// An orientation update by already-scaled micro-radian deltas: yaw moves
    /// freely, pitch is clamped to avoid flipping past vertical.
    pub fn rotate(&mut self, delta_yaw: i64, delta_pitch: i64)
        requires
            old(self).wf(),
            i64::MIN <= old(self).angle.0 + delta_yaw <= i64::MAX,
        ensures
            final(self).wf(),
            final(self)@ == rotate_state(old(self)@, delta_yaw as int, delta_pitch as int),
    {
        self.angle.0 = self.angle.0 + delta_yaw;
        let tilted = self.angle.1.checked_add(delta_pitch);
        let new_pitch: i64 = match tilted {
            Some(p) => {
                if p < -PITCH_LIMIT {
                    -PITCH_LIMIT
                } else if p > PITCH_LIMIT {
                    PITCH_LIMIT
                } else {
                    p
                }
            },
            None => {
                if delta_pitch < 0 {
                    -PITCH_LIMIT
                } else {
                    PITCH_LIMIT
                }
            },
        };
        self.angle.1 = new_pitch;
    }
}

impl Default for Camera {
    /// The starting controller: at eye position one block in from the chunk
    /// origin, three blocks up, at rest, looking straight ahead.
    fn default() -> (c: Camera)
        ensures
            c.wf(),
            c.in_motion_range(),
            c@ == (CameraState {
                px: 100000,
                py: 300000,
                pz: 100000,
                yaw: 0,
                pitch: 0,
                acceleration: DEFAULT_ACCELERATION as int,
                max_speed: DEFAULT_MAX_SPEED as int,
                speed: 0,
                gravity: DEFAULT_GRAVITY as int,
                vertical_speed: 0,
            }),
    {
        Camera {
            acceleration: DEFAULT_ACCELERATION,
            max_speed: DEFAULT_MAX_SPEED,
            speed: 0,
            position: (100000, 300000, 100000),
            angle: (0, 0),
            gravity: DEFAULT_GRAVITY,
            vertical_speed: 0,
        }
    }
}

/// `n` simulation steps with the same keys, chunk and movement direction.
pub open spec fn run_steps(
    s: CameraState,
    k: PressedKeys,
    g: Seq<u8>,
    mdx: int,
    mdz: int,
    n: nat,
) -> CameraState
    decreases n,
{
    if n == 0 {
        s
    } else {
        step_state(run_steps(s, k, g, mdx, mdz, (n - 1) as nat), k, g, mdx, mdz)
    }
}

/// Stepping never changes the configuration parameters (acceleration,
/// maximum speed, gravity) nor the orientation.
pub proof fn lemma_steps_keep_params(
    s: CameraState,
    k: PressedKeys,
    g: Seq<u8>,
    mdx: int,
    mdz: int,
    n: nat,
)
    ensures
        run_steps(s, k, g, mdx, mdz, n).acceleration == s.acceleration,
        run_steps(s, k, g, mdx, mdz, n).max_speed == s.max_speed,
        run_steps(s, k, g, mdx, mdz, n).gravity == s.gravity,
        run_steps(s, k, g, mdx, mdz, n).yaw == s.yaw,
        run_steps(s, k, g, mdx, mdz, n).pitch == s.pitch,
    decreases n,
{
    if n > 0 {
        lemma_steps_keep_params(s, k, g, mdx, mdz, (n - 1) as nat);
    }
}

/// Grounded jump (law): with the jump key held and a solid voxel directly
/// beneath the feet, one step sets vertical speed to exactly the jump
/// impulse.
pub proof fn lemma_grounded_jump(s: CameraState, k: PressedKeys, g: Seq<u8>, mdx: int, mdz: int)
    requires
        k.jump,
        feet_solid(g, s),
    ensures
        step_state(s, k, g, mdx, mdz).vertical_speed == JUMP_IMPULSE as int,
{
}

/// Free fall (law): while no solid voxel lies beneath the feet, each of `n`
/// consecutive steps lowers vertical speed by exactly the gravity increment,
/// so vertical speed decreases monotonically for a positive gravity.
pub proof fn lemma_free_fall(
    s: CameraState,
    k: PressedKeys,
    g: Seq<u8>,
    mdx: int,
    mdz: int,
    n: nat,
)
    requires
        forall|j: nat| j < n ==> !feet_solid(g, #[trigger] run_steps(s, k, g, mdx, mdz, j)),
    ensures
        run_steps(s, k, g, mdx, mdz, n).vertical_speed == s.vertical_speed - (n as int)
            * s.gravity,
        forall|j: nat|
            j < n ==> #[trigger] run_steps(s, k, g, mdx, mdz, (j + 1) as nat).vertical_speed
                == run_steps(s, k, g, mdx, mdz, j).vertical_speed - s.gravity,
    decreases n,
{
    assert forall|j: nat| j < n implies #[trigger] run_steps(
        s,
        k,
        g,
        mdx,
        mdz,
        (j + 1) as nat,
    ).vertical_speed == run_steps(s, k, g, mdx, mdz, j).vertical_speed - s.gravity by {
        lemma_steps_keep_params(s, k, g, mdx, mdz, j);
        assert(!feet_solid(g, run_steps(s, k, g, mdx, mdz, j)));
    };
    if n > 0 {
        let m: nat = (n - 1) as nat;
        lemma_free_fall(s, k, g, mdx, mdz, m);
        lemma_steps_keep_params(s, k, g, mdx, mdz, m);
        assert(!feet_solid(g, run_steps(s, k, g, mdx, mdz, m)));
        assert(run_steps(s, k, g, mdx, mdz, n) == step_state(
            run_steps(s, k, g, mdx, mdz, m),
            k,
            g,
            mdx,
            mdz,
        ));
        assert(run_steps(s, k, g, mdx, mdz, n).vertical_speed == run_steps(
            s,
            k,
            g,
            mdx,
            mdz,
            m,
        ).vertical_speed - s.gravity);
        assert((n as int) * s.gravity == (m as int) * s.gravity + s.gravity) by (nonlinear_arith)
            requires
                n >= 1,
                m == n - 1,
        ;
    } else {
        assert(run_steps(s, k, g, mdx, mdz, n) == s);
        assert((n as int) * s.gravity == 0) by (nonlinear_arith)
            requires
                n == 0,
        ;
    }
}

/// Speed clamp (law): however many steps run and whatever keys are held,
/// horizontal speed never exceeds the configured maximum.
pub proof fn lemma_speed_clamp(
    s: CameraState,
    k: PressedKeys,
    g: Seq<u8>,
    mdx: int,
    mdz: int,
    n: nat,
)
    requires
        s.speed <= s.max_speed,
    ensures
        run_steps(s, k, g, mdx, mdz, n).speed <= s.max_speed,
    decreases n,
{
    if n > 0 {
        lemma_speed_clamp(s, k, g, mdx, mdz, (n - 1) as nat);
        lemma_steps_keep_params(s, k, g, mdx, mdz, (n - 1) as nat);
    }
}

} // verus!
