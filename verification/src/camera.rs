//! The camera and the flat record of its view-projection matrix.

use vstd::prelude::*;
use crate::scalar::{differs, greater, gt, PI};
use crate::linalg::{
    is_perspective_of, look_at_rh, mat4_product, perspective_x_scale, Mat4, Vec3,
};

verus! {

/// A look-at camera with a perspective lens.
///
/// The matrix is meaningful when the eye is apart from the target, `up` is
/// not along the line of sight, `fovy` lies strictly between 0 and pi,
/// `aspect` is positive and `0 < znear < zfar`. The operations take any
/// values all the same: a camera that is not well posed gives a singular or
/// NaN-filled matrix, never a failure. `is_well_posed` tells the two apart.
#[derive(Clone, Copy, Debug)]
pub struct Camera {
    /// Position of the viewer, in world space.
    pub eye: Vec3,
    /// The point looked at.
    pub target: Vec3,
    /// The direction that appears upward.
    pub up: Vec3,
    /// Width over height of the viewport.
    pub aspect: u32,
    /// Vertical field of view, in radians.
    pub fovy: u32,
    /// Distance of the near clipping plane.
    pub znear: u32,
    /// Distance of the far clipping plane.
    pub zfar: u32,
    /// Remaps clip space to the convention of the rendering backend; applied
    /// after the projection.
    pub clip_correction: Mat4,
}

/// `correction * projection * view`: the view acts first on a column vector.
pub open spec fn view_projection(correction: Seq<u32>, projection: Seq<u32>, view: Seq<u32>) -> Seq<
    u32,
> {
    mat4_product(mat4_product(correction, projection), view)
}

/// Multiplies the three parts of a view-projection transform together.
pub fn compose(correction: &Mat4, projection: &Mat4, view: &Mat4) -> (r: Mat4)
    ensures
        r@ == view_projection(correction@, projection@, view@),
{
    correction.times(projection).times(view)
}

impl Camera {
    /// The view matrix of this camera as a function of eye, target and up.
    pub open spec fn view_entries(self) -> Seq<u32> {
        look_at_rh(self.eye, self.target, self.up)
    }

    /// Whether `projection` is a perspective matrix of this camera's lens:
    /// its depth entries are those of `znear` and `zfar`, and its x scale is
    /// its y scale over `aspect`.
    pub open spec fn projects(self, projection: Seq<u32>) -> bool {
        is_perspective_of(projection, self.aspect, self.znear, self.zfar)
    }

    /// Whether `matrix` is this camera's clip correction and view around a
    /// perspective matrix of its lens.
    pub open spec fn frames(self, matrix: Seq<u32>) -> bool {
        exists|projection: Seq<u32>|
            self.projects(projection) && matrix == #[trigger] view_projection(
                self.clip_correction@,
                projection,
                self.view_entries(),
            )
    }

    /// The eye and the target are two different points: in some coordinate
    /// both hold a number, and the numbers differ.
    pub open spec fn eye_is_apart(self) -> bool {
        ||| differs(self.eye.x, self.target.x)
        ||| differs(self.eye.y, self.target.y)
        ||| differs(self.eye.z, self.target.z)
    }

    /// The lens is usable: a positive aspect, a field of view strictly
    /// between 0 and pi, and `0 < znear < zfar`.
    pub open spec fn lens_is_valid(self) -> bool {
        &&& greater(self.aspect, 0)
        &&& greater(self.fovy, 0)
        &&& greater(PI, self.fovy)
        &&& greater(self.znear, 0)
        &&& greater(self.zfar, self.znear)
    }

    /// The camera's matrices are meaningful as far as the eye, the target
    /// and the lens decide. That `up` is not along the line of sight is left
    /// to the caller.
    pub open spec fn well_posed(self) -> bool {
        self.eye_is_apart() && self.lens_is_valid()
    }

    /// Tells whether the camera is well posed.
    pub fn is_well_posed(&self) -> (r: bool)
        ensures
            r == self.well_posed(),
    {
        let apart = gt(self.eye.x, self.target.x) || gt(self.target.x, self.eye.x)
            || gt(self.eye.y, self.target.y) || gt(self.target.y, self.eye.y)
            || gt(self.eye.z, self.target.z) || gt(self.target.z, self.eye.z);
        apart && gt(self.aspect, 0) && gt(self.fovy, 0) && gt(PI, self.fovy) && gt(self.znear, 0)
            && gt(self.zfar, self.znear)
    }

    /// The transform from world space to the eye's space.
    pub fn view_matrix(&self) -> (r: Mat4)
        ensures
            r@ == self.view_entries(),
    {
        Mat4::look_at(self.eye, self.target, self.up)
    }

    /// The transform from the eye's space to clip space. Its y scale, the
    /// one entry that `fovy` decides, is what the platform's trigonometry
    /// gave; the other entries follow from it and from the lens.
    pub fn projection_matrix(&self) -> (r: Mat4)
        ensures
            self.projects(r@),
    {
        Mat4::perspective(self.fovy, self.aspect, self.znear, self.zfar)
    }

    /// The transform from world space to the backend's clip space. The
    /// camera is left as it was.
    pub fn build_view_projection_matrix(&self) -> (r: Mat4)
        ensures
            self.frames(r@),
    {
        let view = self.view_matrix();
        let projection = self.projection_matrix();
        let r = compose(&self.clip_correction, &projection, &view);
        assert(r@ == view_projection(self.clip_correction@, projection@, self.view_entries()));
        r
    }

    /// Takes the viewport's new proportions; everything else stays.
    pub fn set_aspect(&mut self, aspect: u32)
        ensures
            final(self).aspect == aspect,
            final(self).eye == old(self).eye,
            final(self).target == old(self).target,
            final(self).up == old(self).up,
            final(self).fovy == old(self).fovy,
            final(self).znear == old(self).znear,
            final(self).zfar == old(self).zfar,
            final(self).clip_correction == old(self).clip_correction,
            old(self).well_posed() && greater(aspect, 0) ==> final(self).well_posed(),
    {
        self.aspect = aspect;
    }
}

/// A change of `aspect` alone reaches the x scale of the projection and
/// nothing else that the lens fixes. The view matrix stays as it was. Of
/// two projections, one of the camera before and one of the camera after,
/// every entry but the two scales agrees, the depth entries among them, and
/// the x scale after is the y scale after over the new aspect. Where the y
/// scale came out the same, the projection after is the one before with
/// that quotient as its x scale.
pub proof fn lemma_aspect_reaches_x_scale_only(
    before: Camera,
    aspect: u32,
    projection: Seq<u32>,
    resized: Seq<u32>,
)
    requires
        before.projects(projection),
        (Camera { aspect, ..before }).projects(resized),
    ensures
        (Camera { aspect, ..before }).view_entries() == before.view_entries(),
        forall|i: int| 0 <= i < 16 && i != 0 && i != 5 ==> resized[i] == projection[i],
        resized[0] == perspective_x_scale(resized[5], aspect),
        resized[5] == projection[5] ==> resized == projection.update(
            0,
            perspective_x_scale(projection[5], aspect),
        ),
{
    if resized[5] == projection[5] {
        assert(resized =~= projection.update(0, perspective_x_scale(projection[5], aspect)));
    }
}

/// The view-projection matrix in the layout a uniform buffer takes: sixteen
/// binary32 patterns, column after column.
#[derive(Clone, Copy, Debug)]
pub struct CameraUniform {
    pub view_proj: [u32; 16],
}

impl CameraUniform {
    /// A record of sixteen zeros.
    pub fn new() -> (r: CameraUniform)
        ensures
            r.view_proj@ == Seq::new(16, |i: int| 0u32),
    {
        let r = CameraUniform { view_proj: [0, 0, 0, 0, 0, 0, 0, 0, 0, 0, 0, 0, 0, 0, 0, 0] };
        assert(r.view_proj@ =~= Seq::new(16, |i: int| 0u32));
        r
    }

    /// Overwrites the record with the camera's current transform.
    pub fn update_view_proj(&mut self, camera: &Camera)
        ensures
            camera.frames(final(self).view_proj@),
    {
        self.view_proj = camera.build_view_projection_matrix().to_cols_array();
    }
}

} // verus!
