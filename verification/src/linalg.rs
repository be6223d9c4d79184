//! Three-component vectors and 4x4 matrices of binary32 bit patterns, with
//! the glam operations that the camera needs.
//!
//! What glam computes is not spelled out here. Each operation has a name, an
//! uninterpreted function of the operands' bit patterns, and the name stands
//! for the canonical form of what glam returns: the arithmetic is IEEE-754
//! addition, subtraction, multiplication, division and square root, whose
//! results are fixed by the operands up to the payload of a NaN.
//!
//! Bit patterns become glam's floats and floats become bit patterns again
//! through bytemuck's `cast`, which copies the bytes as they are.

use vstd::prelude::*;
use crate::scalar::{
    canonical, canonicalize, lemma_canonical_idempotent, lemma_zero_and_negative_one_are_canonical,
    NEGATIVE_ONE,
};

verus! {

/// A vector of three binary32 bit patterns. `==` compares the patterns.
#[derive(Clone, Copy, Debug, PartialEq, Eq, Structural)]
pub struct Vec3 {
    pub x: u32,
    pub y: u32,
    pub z: u32,
}

/// A 4x4 matrix of binary32 bit patterns, column after column.
#[derive(Clone, Copy, Debug)]
pub struct Mat4 {
    pub cols: [u32; 16],
}

impl View for Mat4 {
    type V = Seq<u32>;

    open spec fn view(&self) -> Seq<u32> {
        self.cols@
    }
}

/// Every entry of `entries` in canonical form.
pub open spec fn canonical_entries(entries: Seq<u32>) -> Seq<u32> {
    Seq::new(entries.len(), |i: int| canonical(entries[i]))
}

/// The shape of a right-handed perspective matrix with depth from 0 to 1:
/// x and y are scaled on the diagonal, depth is a function of z alone, and w
/// receives `-z`. The two scale factors and the two depth entries are not
/// part of the shape.
pub open spec fn is_perspective_shaped(entries: Seq<u32>) -> bool {
    &&& entries.len() == 16
    &&& entries[1] == 0 && entries[2] == 0 && entries[3] == 0
    &&& entries[4] == 0 && entries[6] == 0 && entries[7] == 0
    &&& entries[8] == 0 && entries[9] == 0 && entries[11] == NEGATIVE_ONE
    &&& entries[12] == 0 && entries[13] == 0 && entries[15] == 0
}

/// Canonical depth scale of a right-handed perspective with depth from 0 to
/// 1: `zfar / (znear - zfar)`.
pub uninterp spec fn perspective_depth_scale(znear: u32, zfar: u32) -> u32;

/// Canonical depth offset of the same perspective: the depth scale times
/// `znear`.
pub uninterp spec fn perspective_depth_offset(znear: u32, zfar: u32) -> u32;

/// Canonical x scale of a perspective whose y scale is `y_scale`: the y
/// scale divided by `aspect`.
pub uninterp spec fn perspective_x_scale(y_scale: u32, aspect: u32) -> u32;

/// Whether `entries` is a perspective matrix of the lens with the given
/// aspect and clip distances: canonical, of the perspective shape, with the
/// depth entries that the clip distances fix and an x scale that is the y
/// scale over the aspect. The y scale itself, the cotangent of half the
/// field of view, is left open: it comes from the platform's sine and
/// cosine, which need not give the same bits twice.
pub open spec fn is_perspective_of(entries: Seq<u32>, aspect: u32, znear: u32, zfar: u32) -> bool {
    &&& is_perspective_shaped(entries)
    &&& entries == canonical_entries(entries)
    &&& entries[0] == perspective_x_scale(entries[5], aspect)
    &&& entries[10] == perspective_depth_scale(znear, zfar)
    &&& entries[14] == perspective_depth_offset(znear, zfar)
}

/// Canonical `a - b`, component by component.
pub uninterp spec fn vec3_difference(a: Vec3, b: Vec3) -> Vec3;

/// Canonical `a + b`, component by component.
pub uninterp spec fn vec3_sum(a: Vec3, b: Vec3) -> Vec3;

/// Canonical `v * factor`, each component times the scalar.
pub uninterp spec fn vec3_scaled(v: Vec3, factor: u32) -> Vec3;

/// Canonical cross product `a x b`.
pub uninterp spec fn vec3_cross(a: Vec3, b: Vec3) -> Vec3;

/// Canonical Euclidean length of `v`.
pub uninterp spec fn vec3_length(v: Vec3) -> u32;

/// Canonical `v` times the reciprocal of its length.
pub uninterp spec fn vec3_normalized(v: Vec3) -> Vec3;

/// Canonical entries of the right-handed view matrix that looks from `eye`
/// towards `center`.
pub uninterp spec fn look_at_rh(eye: Vec3, center: Vec3, up: Vec3) -> Seq<u32>;

/// Canonical entries of the matrix product `a * b`.
pub uninterp spec fn mat4_product(a: Seq<u32>, b: Seq<u32>) -> Seq<u32>;

/// glam's `Vec3 - Vec3`: the canonical form of what it returns is the named
/// difference of the operands.
#[verifier::external_body]
fn glam_sub(a: Vec3, b: Vec3) -> (r: Vec3)
    ensures
        r.canonical() == vec3_difference(a, b),
{
    let a = glam::Vec3::from_array(bytemuck::cast([a.x, a.y, a.z]));
    let b = glam::Vec3::from_array(bytemuck::cast([b.x, b.y, b.z]));
    let [x, y, z]: [u32; 3] = bytemuck::cast((a - b).to_array());
    Vec3 { x, y, z }
}

/// glam's `Vec3 + Vec3`: the canonical form of what it returns is the named
/// sum of the operands.
#[verifier::external_body]
fn glam_add(a: Vec3, b: Vec3) -> (r: Vec3)
    ensures
        r.canonical() == vec3_sum(a, b),
{
    let a = glam::Vec3::from_array(bytemuck::cast([a.x, a.y, a.z]));
    let b = glam::Vec3::from_array(bytemuck::cast([b.x, b.y, b.z]));
    let [x, y, z]: [u32; 3] = bytemuck::cast((a + b).to_array());
    Vec3 { x, y, z }
}

/// glam's `Vec3 * f32`: the canonical form of what it returns is the named
/// scaling of the vector by the factor.
#[verifier::external_body]
fn glam_scale(v: Vec3, factor: u32) -> (r: Vec3)
    ensures
        r.canonical() == vec3_scaled(v, factor),
{
    let packed = glam::Vec4::from_array(bytemuck::cast([v.x, v.y, v.z, factor]));
    let [x, y, z]: [u32; 3] = bytemuck::cast((packed.truncate() * packed.w).to_array());
    Vec3 { x, y, z }
}

/// glam's `Vec3::cross`: the canonical form of what it returns is the named
/// cross product of the operands.
#[verifier::external_body]
fn glam_cross(a: Vec3, b: Vec3) -> (r: Vec3)
    ensures
        r.canonical() == vec3_cross(a, b),
{
    let a = glam::Vec3::from_array(bytemuck::cast([a.x, a.y, a.z]));
    let b = glam::Vec3::from_array(bytemuck::cast([b.x, b.y, b.z]));
    let [x, y, z]: [u32; 3] = bytemuck::cast(a.cross(b).to_array());
    Vec3 { x, y, z }
}

/// glam's `Vec3::length`: the canonical form of what it returns is the named
/// length of the vector.
#[verifier::external_body]
fn glam_length(v: Vec3) -> (r: u32)
    ensures
        canonical(r) == vec3_length(v),
{
    let v = glam::Vec3::from_array(bytemuck::cast([v.x, v.y, v.z]));
    bytemuck::cast(v.length())
}

/// glam's `Vec3::normalize`, which takes a zero length as it comes (its
/// assertion is compiled out): the canonical form of what it returns is the
/// named normalisation of the vector.
#[verifier::external_body]
fn glam_normalize(v: Vec3) -> (r: Vec3)
    ensures
        r.canonical() == vec3_normalized(v),
{
    let v = glam::Vec3::from_array(bytemuck::cast([v.x, v.y, v.z]));
    let [x, y, z]: [u32; 3] = bytemuck::cast(v.normalize().to_array());
    Vec3 { x, y, z }
}

/// glam's `Mat4::look_at_rh`, which takes any `up` as it comes (its
/// assertion is compiled out): the canonical form of the sixteen entries it
/// returns, in column order, is the named view matrix of the operands.
#[verifier::external_body]
fn glam_look_at_rh(eye: Vec3, center: Vec3, up: Vec3) -> (r: Mat4)
    ensures
        canonical_entries(r@) == look_at_rh(eye, center, up),
{
    let eye = glam::Vec3::from_array(bytemuck::cast([eye.x, eye.y, eye.z]));
    let center = glam::Vec3::from_array(bytemuck::cast([center.x, center.y, center.z]));
    let up = glam::Vec3::from_array(bytemuck::cast([up.x, up.y, up.z]));
    Mat4 { cols: bytemuck::cast(glam::Mat4::look_at_rh(eye, center, up).to_cols_array()) }
}

/// glam's `Mat4::perspective_rh`, in column order, which takes any clip
/// distances as they come (its assertion is compiled out). It builds the
/// matrix from eleven literal zeros, a literal -1 and four computed entries.
/// The y scale, entry 5, is the cosine over the sine of half the field of
/// view and goes through the platform's trigonometry: nothing is claimed
/// of it. The other three come from it and from the operands by division,
/// subtraction and multiplication alone: the canonical x scale, entry 0, is
/// the named quotient of the canonical y scale and the aspect, and the
/// canonical depth entries, 10 and 14, are the named scale and offset of
/// the clip distances.
#[verifier::external_body]
fn glam_perspective_rh(fovy: u32, aspect: u32, znear: u32, zfar: u32) -> (r: Mat4)
    ensures
        is_perspective_shaped(r@),
        canonical(r@[0]) == perspective_x_scale(canonical(r@[5]), aspect),
        canonical(r@[10]) == perspective_depth_scale(znear, zfar),
        canonical(r@[14]) == perspective_depth_offset(znear, zfar),
{
    let [fovy, aspect, znear, zfar] = bytemuck::cast([fovy, aspect, znear, zfar]);
    let m = glam::Mat4::perspective_rh(fovy, aspect, znear, zfar);
    Mat4 { cols: bytemuck::cast(m.to_cols_array()) }
}

/// glam's `Mat4 * Mat4`: the canonical form of the sixteen entries it
/// returns, in column order, is the named product of the operands.
#[verifier::external_body]
fn glam_mul_mat4(a: &Mat4, b: &Mat4) -> (r: Mat4)
    ensures
        canonical_entries(r@) == mat4_product(a@, b@),
{
    let a = glam::Mat4::from_cols_array(&bytemuck::cast(a.cols));
    let b = glam::Mat4::from_cols_array(&bytemuck::cast(b.cols));
    Mat4 { cols: bytemuck::cast((a * b).to_cols_array()) }
}

impl Vec3 {
    /// The vector of the three given patterns.
    pub fn new(x: u32, y: u32, z: u32) -> (r: Vec3)
        ensures
            r == (Vec3 { x, y, z }),
    {
        Vec3 { x, y, z }
    }

    /// Each component in canonical form.
    pub open spec fn canonical(self) -> Vec3 {
        Vec3 { x: canonical(self.x), y: canonical(self.y), z: canonical(self.z) }
    }

    fn canonicalized(self) -> (r: Vec3)
        ensures
            r == self.canonical(),
    {
        Vec3 { x: canonicalize(self.x), y: canonicalize(self.y), z: canonicalize(self.z) }
    }

    /// `self - rhs`.
    pub fn minus(self, rhs: Vec3) -> (r: Vec3)
        ensures
            r == vec3_difference(self, rhs),
    {
        glam_sub(self, rhs).canonicalized()
    }

    /// `self + rhs`.
    pub fn plus(self, rhs: Vec3) -> (r: Vec3)
        ensures
            r == vec3_sum(self, rhs),
    {
        glam_add(self, rhs).canonicalized()
    }

    /// `self * factor`.
    pub fn scaled(self, factor: u32) -> (r: Vec3)
        ensures
            r == vec3_scaled(self, factor),
    {
        glam_scale(self, factor).canonicalized()
    }

    /// The cross product `self x rhs`.
    pub fn cross(self, rhs: Vec3) -> (r: Vec3)
        ensures
            r == vec3_cross(self, rhs),
    {
        glam_cross(self, rhs).canonicalized()
    }

    /// The Euclidean length.
    pub fn length(self) -> (r: u32)
        ensures
            r == vec3_length(self),
    {
        canonicalize(glam_length(self))
    }

    /// The vector divided by its length; all NaN where the length is zero.
    pub fn normalized(self) -> (r: Vec3)
        ensures
            r == vec3_normalized(self),
    {
        glam_normalize(self).canonicalized()
    }
}

impl Mat4 {
    /// The matrix of the sixteen given patterns, column after column.
    pub fn from_cols_array(cols: [u32; 16]) -> (r: Mat4)
        ensures
            r@ == cols@,
    {
        Mat4 { cols }
    }

    /// The sixteen patterns, column after column.
    pub fn to_cols_array(&self) -> (r: [u32; 16])
        ensures
            r@ == self@,
    {
        self.cols
    }

    fn canonicalized(&self) -> (r: Mat4)
        ensures
            r@ == canonical_entries(self@),
    {
        let c = &self.cols;
        let r = Mat4 {
            cols: [
                canonicalize(c[0]), canonicalize(c[1]), canonicalize(c[2]), canonicalize(c[3]),
                canonicalize(c[4]), canonicalize(c[5]), canonicalize(c[6]), canonicalize(c[7]),
                canonicalize(c[8]), canonicalize(c[9]), canonicalize(c[10]), canonicalize(c[11]),
                canonicalize(c[12]), canonicalize(c[13]), canonicalize(c[14]), canonicalize(c[15]),
            ],
        };
        assert(r@ =~= canonical_entries(self@));
        r
    }

    /// The right-handed view matrix of an eye at `eye` that looks at `center`.
    pub fn look_at(eye: Vec3, center: Vec3, up: Vec3) -> (r: Mat4)
        ensures
            r@ == look_at_rh(eye, center, up),
    {
        glam_look_at_rh(eye, center, up).canonicalized()
    }

    /// A right-handed perspective projection with depth range from 0 to 1,
    /// for a vertical field of view of `fovy` radians. The y scale depends
    /// on the platform's trigonometry; every other entry is fixed by it, the
    /// aspect and the clip distances.
    pub fn perspective(fovy: u32, aspect: u32, znear: u32, zfar: u32) -> (r: Mat4)
        ensures
            is_perspective_of(r@, aspect, znear, zfar),
    {
        let raw = glam_perspective_rh(fovy, aspect, znear, zfar);
        let r = raw.canonicalized();
        proof {
            lemma_zero_and_negative_one_are_canonical();
            assert forall|i: int| 0 <= i < 16 implies canonical(#[trigger] r@[i]) == r@[i] by {
                lemma_canonical_idempotent(raw@[i]);
            }
            assert(r@ =~= canonical_entries(r@));
        }
        r
    }

    /// The matrix product `self * rhs`.
    pub fn times(&self, rhs: &Mat4) -> (r: Mat4)
        ensures
            r@ == mat4_product(self@, rhs@),
    {
        glam_mul_mat4(self, rhs).canonicalized()
    }
}

} // verus!
