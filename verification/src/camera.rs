//! The camera model and its controller.
//!
//! The camera's geometry (eye, target, up, field of view, clip planes) is
//! carried as float bit patterns; the aspect ratio is represented by the
//! surface's integer width and height, the only state a resize changes.
//! The view-projection matrix itself is floating-point work done by the
//! linear-algebra collaborator in the front end, which hands the finished
//! matrix back as a [`CameraUniform`] for upload.

use vstd::prelude::*;

use crate::buffers::ToData;
use crate::codec::u32s_le;
use crate::codec::Vec3Bits;
use crate::codec::F32_HUNDRED_BITS;
use crate::codec::F32_ONE_BITS;
use crate::codec::F32_TENTH_BITS;
use crate::codec::F32_ZERO_BITS;
use crate::input::InputHandler;
use crate::input::InputView;
use crate::input::Key;

verus! {

/// The camera: where it stands, what it looks at, and its projection
/// parameters, with the aspect ratio kept as the surface's dimensions.
#[derive(Clone, Copy, Debug, PartialEq, Eq, Structural)]
pub struct Camera {
    pub eye: Vec3Bits,
    pub target: Vec3Bits,
    pub up: Vec3Bits,
    pub width: u32,
    pub height: u32,
    pub fovy_bits: u32,
    pub znear_bits: u32,
    pub zfar_bits: u32,
}

impl Camera {
    /// The demo's default camera for a surface of the given size: eye one
    /// unit in front of the origin, looking at the origin, y up, with near
    /// plane `0.1` and far plane `100`.
    pub fn basic(width: u32, height: u32, fovy_bits: u32) -> (c: Camera)
        ensures
            c == Camera::new_spec(width, height, fovy_bits, F32_TENTH_BITS, F32_HUNDRED_BITS),
    {
        Camera::new(width, height, fovy_bits, F32_TENTH_BITS, F32_HUNDRED_BITS)
    }

    /// The camera `new` constructs.
    pub open spec fn new_spec(
        width: u32,
        height: u32,
        fovy_bits: u32,
        znear_bits: u32,
        zfar_bits: u32,
    ) -> Camera {
        Camera {
            eye: Vec3Bits { x: F32_ZERO_BITS, y: F32_ZERO_BITS, z: F32_ONE_BITS },
            target: Vec3Bits { x: F32_ZERO_BITS, y: F32_ZERO_BITS, z: F32_ZERO_BITS },
            up: Vec3Bits { x: F32_ZERO_BITS, y: F32_ONE_BITS, z: F32_ZERO_BITS },
            width,
            height,
            fovy_bits,
            znear_bits,
            zfar_bits,
        }
    }

    pub fn new(width: u32, height: u32, fovy_bits: u32, znear_bits: u32, zfar_bits: u32) -> (c:
        Camera)
        ensures
            c == Camera::new_spec(width, height, fovy_bits, znear_bits, zfar_bits),
    {
        Camera {
            eye: Vec3Bits { x: F32_ZERO_BITS, y: F32_ZERO_BITS, z: F32_ONE_BITS },
            target: Vec3Bits { x: F32_ZERO_BITS, y: F32_ZERO_BITS, z: F32_ZERO_BITS },
            up: Vec3Bits { x: F32_ZERO_BITS, y: F32_ONE_BITS, z: F32_ZERO_BITS },
            width,
            height,
            fovy_bits,
            znear_bits,
            zfar_bits,
        }
    }

    /// A resize changes the aspect ratio and nothing else.
    pub fn resize(&mut self, width: u32, height: u32)
        ensures
            *final(self) == (Camera { width, height, ..*old(self) }),
    {
        self.width = width;
        self.height = height;
    }

    /// Moves the eye and target together, keeping the viewing direction:
    /// the front end computes the displaced vectors and hands them back.
    pub fn translate(&mut self, eye: Vec3Bits, target: Vec3Bits)
        ensures
            *final(self) == (Camera { eye, target, ..*old(self) }),
    {
        self.eye = eye;
        self.target = target;
    }
}

/// The camera's per-frame movement decision: how many steps to take along
/// the surface's x and y axes, each in `{-1, 0, 1}`.
#[derive(Clone, Copy, Debug, PartialEq, Eq, Structural)]
pub struct CameraMove {
    pub dx: i32,
    pub dy: i32,
}

/// The step along y the held keys ask for: W moves up, S moves down.
pub open spec fn spec_move_y(v: InputView) -> int {
    (if v.keys_held.contains(Key::W) {
        1int
    } else {
        0int
    }) - (if v.keys_held.contains(Key::S) {
        1int
    } else {
        0int
    })
}

/// The step along x the held keys ask for: D moves right, A moves left.
pub open spec fn spec_move_x(v: InputView) -> int {
    (if v.keys_held.contains(Key::D) {
        1int
    } else {
        0int
    }) - (if v.keys_held.contains(Key::A) {
        1int
    } else {
        0int
    })
}

/// Turns held movement keys into a translation of the whole camera. This is
/// the free-translation control scheme: eye and target move together and
/// the viewing direction never changes.
pub struct CameraController {
    pub speed_bits: u32,
}

impl CameraController {
    /// A controller moving `speed` units per frame and axis, where `speed`
    /// is given as a float bit pattern.
    pub fn new(speed_bits: u32) -> (c: CameraController)
        ensures
            c == (CameraController { speed_bits }),
    {
        CameraController { speed_bits }
    }

    /// Reads the held keys and decides this frame's movement; the front end
    /// scales the decision by the controller's speed and applies it with
    /// [`Camera::translate`].
    pub fn update(&self, input: &InputHandler) -> (mv: CameraMove)
        ensures
            mv.dx == spec_move_x(input@),
            mv.dy == spec_move_y(input@),
    {
        let mut dx: i32 = 0;
        let mut dy: i32 = 0;
        if input.down(Key::W) {
            dy = dy + 1;
        }
        if input.down(Key::S) {
            dy = dy - 1;
        }
        if input.down(Key::D) {
            dx = dx + 1;
        }
        if input.down(Key::A) {
            dx = dx - 1;
        }
        CameraMove { dx, dy }
    }
}

/// The camera's GPU form: the eye's homogeneous position and the finished
/// view-projection matrix, as float bit patterns in column-major order.
#[derive(Clone, Copy, Debug)]
pub struct CameraUniform {
    pub view_position: [u32; 4],
    pub view_proj: [u32; 16],
}

impl CameraUniform {
    pub fn new(view_position: [u32; 4], view_proj: [u32; 16]) -> (u: CameraUniform)
        ensures
            u.view_position@ == view_position@,
            u.view_proj@ == view_proj@,
    {
        CameraUniform { view_position, view_proj }
    }

    /// The uniform before the first frame's matrix arrives: the origin's
    /// homogeneous position and the identity matrix.
    pub fn identity() -> (u: CameraUniform)
        ensures
            u.view_position@ == seq![F32_ZERO_BITS, F32_ZERO_BITS, F32_ZERO_BITS, F32_ONE_BITS],
            u.view_proj@ == crate::quad::identity_matrix_bits(),
    {
        let view_position: [u32; 4] = [F32_ZERO_BITS, F32_ZERO_BITS, F32_ZERO_BITS, F32_ONE_BITS];
        let view_proj: [u32; 16] = [
            F32_ONE_BITS,
            F32_ZERO_BITS,
            F32_ZERO_BITS,
            F32_ZERO_BITS,
            F32_ZERO_BITS,
            F32_ONE_BITS,
            F32_ZERO_BITS,
            F32_ZERO_BITS,
            F32_ZERO_BITS,
            F32_ZERO_BITS,
            F32_ONE_BITS,
            F32_ZERO_BITS,
            F32_ZERO_BITS,
            F32_ZERO_BITS,
            F32_ZERO_BITS,
            F32_ONE_BITS,
        ];
        proof {
            assert(view_position@ =~= seq![
                F32_ZERO_BITS,
                F32_ZERO_BITS,
                F32_ZERO_BITS,
                F32_ONE_BITS,
            ]);
            assert(view_proj@ =~= crate::quad::identity_matrix_bits());
        }
        CameraUniform { view_position, view_proj }
    }
}

impl ToData for CameraUniform {
    open spec fn size_spec() -> nat {
        80
    }

    open spec fn data_spec(&self) -> Seq<u8> {
        u32s_le(self.view_position@ + self.view_proj@)
    }

    proof fn data_size(&self) {
        crate::codec::lemma_u32s_le_len(self.view_position@ + self.view_proj@);
    }

    fn to_data(&self) -> (r: Vec<u8>) {
        let mut words: Vec<u32> = Vec::new();
        let mut i: usize = 0;
        while i < 4
            invariant
                i <= 4,
                words@ == self.view_position@.take(i as int),
            decreases 4 - i,
        {
            words.push(self.view_position[i]);
            proof {
                assert(self.view_position@.take(i + 1) =~= self.view_position@.take(
                    i as int,
                ).push(self.view_position@[i as int]));
            }
            i = i + 1;
        }
        proof {
            assert(self.view_position@.take(4) =~= self.view_position@);
        }
        let mut j: usize = 0;
        while j < 16
            invariant
                j <= 16,
                words@ == self.view_position@ + self.view_proj@.take(j as int),
            decreases 16 - j,
        {
            words.push(self.view_proj[j]);
            proof {
                assert(self.view_proj@.take(j + 1) =~= self.view_proj@.take(j as int).push(
                    self.view_proj@[j as int],
                ));
            }
            j = j + 1;
        }
        proof {
            assert(self.view_proj@.take(16) =~= self.view_proj@);
        }
        crate::codec::encode_u32s(&words)
    }
}

} // verus!
