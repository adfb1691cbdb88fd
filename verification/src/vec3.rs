use vstd::prelude::*;

verus! {

/// Exact mathematical model of the 3-component vectors the camera works
/// with. The host application evaluates the same constructions over `f32`;
/// this model states the algebraic facts that do not depend on rounding,
/// chiefly that the axes built for the view matrix are mutually orthogonal.
pub struct Vec3 {
    pub x: int,
    pub y: int,
    pub z: int,
}

/// Dot product of two vectors.
pub open spec fn dot(a: Vec3, b: Vec3) -> int {
    a.x * b.x + a.y * b.y + a.z * b.z
}

/// Cross product of two vectors.
pub open spec fn cross(a: Vec3, b: Vec3) -> Vec3 {
    Vec3 {
        x: a.y * b.z - a.z * b.y,
        y: a.z * b.x - a.x * b.z,
        z: a.x * b.y - a.y * b.x,
    }
}

/// Scaling a vector by a factor.
pub open spec fn scale(a: Vec3, k: int) -> Vec3 {
    Vec3 { x: a.x * k, y: a.y * k, z: a.z * k }
}

/// The fixed world-up direction the view construction uses.
pub open spec fn world_up() -> Vec3 {
    Vec3 { x: 0, y: 1, z: 0 }
}

/// The sideways view axis: cross product of the facing direction and
/// world-up.
pub open spec fn view_x_axis(dir: Vec3) -> Vec3 {
    cross(dir, world_up())
}

/// The upward view axis: cross product of the sideways axis and the facing
/// direction.
pub open spec fn view_y_axis(dir: Vec3) -> Vec3 {
    cross(view_x_axis(dir), dir)
}

/// A cross product is orthogonal to both of its operands.
pub proof fn lemma_cross_orthogonal(a: Vec3, b: Vec3)
    ensures
        dot(cross(a, b), a) == 0,
        dot(cross(a, b), b) == 0,
{
    assert((a.y * b.z - a.z * b.y) * a.x + (a.z * b.x - a.x * b.z) * a.y + (a.x * b.y - a.y
        * b.x) * a.z == 0) by (nonlinear_arith);
    assert((a.y * b.z - a.z * b.y) * b.x + (a.z * b.x - a.x * b.z) * b.y + (a.x * b.y - a.y
        * b.x) * b.z == 0) by (nonlinear_arith);
}

/// Rescaling two orthogonal vectors — which is all that normalization
/// does to a vector's direction — keeps them orthogonal, whatever the
/// factors.
pub proof fn lemma_scale_preserves_orthogonality(a: Vec3, b: Vec3, j: int, k: int)
    requires
        dot(a, b) == 0,
    ensures
        dot(scale(a, j), scale(b, k)) == 0,
{
    let m = j * k;
    assert((a.x * j) * (b.x * k) == (a.x * b.x) * m && (a.y * j) * (b.y * k) == (a.y * b.y) * m
        && (a.z * j) * (b.z * k) == (a.z * b.z) * m) by (nonlinear_arith)
        requires
            m == j * k,
    ;
    assert((a.x * b.x) * m + (a.y * b.y) * m + (a.z * b.z) * m == (a.x * b.x + a.y * b.y + a.z
        * b.z) * m) by (nonlinear_arith);
}

/// The three axes the view matrix is built from — the facing direction, the
/// sideways axis, and the upward axis — are mutually orthogonal for every
/// facing direction. Unit length is a matter of the host's floating-point
/// normalization and is not modelled here; normalizing only rescales each
/// axis, which preserves these orthogonality facts.
pub proof fn lemma_view_axes_orthogonal(dir: Vec3)
    ensures
        dot(view_x_axis(dir), dir) == 0,
        dot(view_y_axis(dir), view_x_axis(dir)) == 0,
        dot(view_y_axis(dir), dir) == 0,
{
    lemma_cross_orthogonal(dir, world_up());
    lemma_cross_orthogonal(view_x_axis(dir), dir);
}

/// Camera-space coordinates of a world point under the view construction:
/// each coordinate is the dot product with one view axis, shifted by the
/// same dot product at the eye position — the translation entries of the
/// view matrix.
pub open spec fn view_transform(pos: Vec3, dir: Vec3, p: Vec3) -> Vec3 {
    Vec3 {
        x: dot(view_x_axis(dir), p) - dot(view_x_axis(dir), pos),
        y: dot(view_y_axis(dir), p) - dot(view_y_axis(dir), pos),
        z: dot(dir, p) - dot(dir, pos),
    }
}

/// The view transform sends the eye position itself to the origin — the
/// geometric meaning of the view matrix's translation row, independent of
/// how the axes are scaled by normalization.
pub proof fn lemma_view_maps_eye_to_origin(pos: Vec3, dir: Vec3)
    ensures
        view_transform(pos, dir, pos) == (Vec3 { x: 0, y: 0, z: 0 }),
{
}

} // verus!
