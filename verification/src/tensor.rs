//! 3x3 tensors, 3-vectors and symmetric 6-vectors (Voigt form) over
//! fixed-point scalars.
//!
//! The Voigt order is (11, 22, 33, 23, 13, 12) with true (non-doubled)
//! shear components. Every operation's contract gives the exact entry
//! formulas; the Voigt round trip on a symmetric tensor is exact.

use vstd::prelude::*;
use crate::fx::{
    FX_ONE, absi, clamp_fx, s_mul, s_add, s_sub, s_avg, s_div, fx_mul, fx_add, fx_sub, fx_avg,
    fx_div, fx_abs,
};
use crate::fxmath::{sqrt_floor, fx_sqrt};

verus! {

/// Orthogonality tolerance: an orientation R is accepted when every entry
/// of R * R^T differs from the identity by less than 1e-5.
pub const ORTHO_TOL: i64 = 10_000;

/// A 3x3 tensor of fixed-point scalars, row by row.
#[derive(Clone, Copy, PartialEq, Eq, Structural, Debug)]
pub struct Mat3 {
    pub xx: i64,
    pub xy: i64,
    pub xz: i64,
    pub yx: i64,
    pub yy: i64,
    pub yz: i64,
    pub zx: i64,
    pub zy: i64,
    pub zz: i64,
}

/// A 3-vector of fixed-point scalars.
#[derive(Clone, Copy, PartialEq, Eq, Structural, Debug)]
pub struct Vec3 {
    pub x: i64,
    pub y: i64,
    pub z: i64,
}

/// A symmetric tensor as a 6-vector in Voigt order (11, 22, 33, 23, 13, 12).
#[derive(Clone, Copy, PartialEq, Eq, Structural, Debug)]
pub struct Voigt6 {
    pub v11: i64,
    pub v22: i64,
    pub v33: i64,
    pub v23: i64,
    pub v13: i64,
    pub v12: i64,
}

/// Build a Mat3 from entry values already inside the `i64` range.
pub open spec fn m3(
    xx: int,
    xy: int,
    xz: int,
    yx: int,
    yy: int,
    yz: int,
    zx: int,
    zy: int,
    zz: int,
) -> Mat3 {
    Mat3 {
        xx: xx as i64,
        xy: xy as i64,
        xz: xz as i64,
        yx: yx as i64,
        yy: yy as i64,
        yz: yz as i64,
        zx: zx as i64,
        zy: zy as i64,
        zz: zz as i64,
    }
}

/// Fixed-point dot product of two entry triples.
pub open spec fn s_dot3(a1: int, a2: int, a3: int, b1: int, b2: int, b3: int) -> int {
    s_add(s_add(s_mul(a1, b1), s_mul(a2, b2)), s_mul(a3, b3))
}

/// Fixed-point dot product of two entry triples.
pub fn fx_dot3(a1: i64, a2: i64, a3: i64, b1: i64, b2: i64, b3: i64) -> (r: i64)
    ensures
        r as int == s_dot3(a1 as int, a2 as int, a3 as int, b1 as int, b2 as int, b3 as int),
{
    fx_add(fx_add(fx_mul(a1, b1), fx_mul(a2, b2)), fx_mul(a3, b3))
}

impl Mat3 {
    /// The zero tensor.
    pub fn zero() -> (r: Mat3)
        ensures
            r == Mat3::spec_zero(),
    {
        Mat3 { xx: 0, xy: 0, xz: 0, yx: 0, yy: 0, yz: 0, zx: 0, zy: 0, zz: 0 }
    }

    /// The zero tensor.
    pub open spec fn spec_zero() -> Mat3 {
        Mat3 { xx: 0, xy: 0, xz: 0, yx: 0, yy: 0, yz: 0, zx: 0, zy: 0, zz: 0 }
    }

    /// The identity tensor.
    pub fn identity() -> (r: Mat3)
        ensures
            r == Mat3::spec_identity(),
    {
        Mat3 { xx: FX_ONE, xy: 0, xz: 0, yx: 0, yy: FX_ONE, yz: 0, zx: 0, zy: 0, zz: FX_ONE }
    }

    /// The identity tensor.
    pub open spec fn spec_identity() -> Mat3 {
        Mat3 { xx: FX_ONE, xy: 0, xz: 0, yx: 0, yy: FX_ONE, yz: 0, zx: 0, zy: 0, zz: FX_ONE }
    }

    /// The tensor is symmetric.
    pub open spec fn is_symmetric(self) -> bool {
        self.xy == self.yx && self.xz == self.zx && self.yz == self.zy
    }

    /// The transpose.
    pub open spec fn spec_transpose(self) -> Mat3 {
        Mat3 {
            xx: self.xx,
            xy: self.yx,
            xz: self.zx,
            yx: self.xy,
            yy: self.yy,
            yz: self.zy,
            zx: self.xz,
            zy: self.yz,
            zz: self.zz,
        }
    }

    /// The transpose.
    pub fn transpose(&self) -> (r: Mat3)
        ensures
            r == self.spec_transpose(),
    {
        Mat3 {
            xx: self.xx,
            xy: self.yx,
            xz: self.zx,
            yx: self.xy,
            yy: self.yy,
            yz: self.zy,
            zx: self.xz,
            zy: self.yz,
            zz: self.zz,
        }
    }

    /// Entry-wise saturating sum.
    pub open spec fn spec_add(self, o: Mat3) -> Mat3 {
        m3(
            s_add(self.xx as int, o.xx as int),
            s_add(self.xy as int, o.xy as int),
            s_add(self.xz as int, o.xz as int),
            s_add(self.yx as int, o.yx as int),
            s_add(self.yy as int, o.yy as int),
            s_add(self.yz as int, o.yz as int),
            s_add(self.zx as int, o.zx as int),
            s_add(self.zy as int, o.zy as int),
            s_add(self.zz as int, o.zz as int),
        )
    }

    /// Entry-wise saturating sum.
    pub fn add(&self, o: &Mat3) -> (r: Mat3)
        ensures
            r == self.spec_add(*o),
    {
        Mat3 {
            xx: fx_add(self.xx, o.xx),
            xy: fx_add(self.xy, o.xy),
            xz: fx_add(self.xz, o.xz),
            yx: fx_add(self.yx, o.yx),
            yy: fx_add(self.yy, o.yy),
            yz: fx_add(self.yz, o.yz),
            zx: fx_add(self.zx, o.zx),
            zy: fx_add(self.zy, o.zy),
            zz: fx_add(self.zz, o.zz),
        }
    }

    /// Entry-wise saturating difference.
    pub open spec fn spec_sub(self, o: Mat3) -> Mat3 {
        m3(
            s_sub(self.xx as int, o.xx as int),
            s_sub(self.xy as int, o.xy as int),
            s_sub(self.xz as int, o.xz as int),
            s_sub(self.yx as int, o.yx as int),
            s_sub(self.yy as int, o.yy as int),
            s_sub(self.yz as int, o.yz as int),
            s_sub(self.zx as int, o.zx as int),
            s_sub(self.zy as int, o.zy as int),
            s_sub(self.zz as int, o.zz as int),
        )
    }

    /// Entry-wise saturating difference.
    pub fn sub(&self, o: &Mat3) -> (r: Mat3)
        ensures
            r == self.spec_sub(*o),
    {
        Mat3 {
            xx: fx_sub(self.xx, o.xx),
            xy: fx_sub(self.xy, o.xy),
            xz: fx_sub(self.xz, o.xz),
            yx: fx_sub(self.yx, o.yx),
            yy: fx_sub(self.yy, o.yy),
            yz: fx_sub(self.yz, o.yz),
            zx: fx_sub(self.zx, o.zx),
            zy: fx_sub(self.zy, o.zy),
            zz: fx_sub(self.zz, o.zz),
        }
    }

    /// Entry-wise product with a scalar.
    pub open spec fn spec_scale(self, k: int) -> Mat3 {
        m3(
            s_mul(self.xx as int, k),
            s_mul(self.xy as int, k),
            s_mul(self.xz as int, k),
            s_mul(self.yx as int, k),
            s_mul(self.yy as int, k),
            s_mul(self.yz as int, k),
            s_mul(self.zx as int, k),
            s_mul(self.zy as int, k),
            s_mul(self.zz as int, k),
        )
    }

    /// Entry-wise product with a scalar.
    pub fn scale(&self, k: i64) -> (r: Mat3)
        ensures
            r == self.spec_scale(k as int),
    {
        Mat3 {
            xx: fx_mul(self.xx, k),
            xy: fx_mul(self.xy, k),
            xz: fx_mul(self.xz, k),
            yx: fx_mul(self.yx, k),
            yy: fx_mul(self.yy, k),
            yz: fx_mul(self.yz, k),
            zx: fx_mul(self.zx, k),
            zy: fx_mul(self.zy, k),
            zz: fx_mul(self.zz, k),
        }
    }

    /// Tensor product self * o.
    pub open spec fn spec_mul(self, o: Mat3) -> Mat3 {
        m3(
            s_dot3(
                self.xx as int,
                self.xy as int,
                self.xz as int,
                o.xx as int,
                o.yx as int,
                o.zx as int,
            ),
            s_dot3(
                self.xx as int,
                self.xy as int,
                self.xz as int,
                o.xy as int,
                o.yy as int,
                o.zy as int,
            ),
            s_dot3(
                self.xx as int,
                self.xy as int,
                self.xz as int,
                o.xz as int,
                o.yz as int,
                o.zz as int,
            ),
            s_dot3(
                self.yx as int,
                self.yy as int,
                self.yz as int,
                o.xx as int,
                o.yx as int,
                o.zx as int,
            ),
            s_dot3(
                self.yx as int,
                self.yy as int,
                self.yz as int,
                o.xy as int,
                o.yy as int,
                o.zy as int,
            ),
            s_dot3(
                self.yx as int,
                self.yy as int,
                self.yz as int,
                o.xz as int,
                o.yz as int,
                o.zz as int,
            ),
            s_dot3(
                self.zx as int,
                self.zy as int,
                self.zz as int,
                o.xx as int,
                o.yx as int,
                o.zx as int,
            ),
            s_dot3(
                self.zx as int,
                self.zy as int,
                self.zz as int,
                o.xy as int,
                o.yy as int,
                o.zy as int,
            ),
            s_dot3(
                self.zx as int,
                self.zy as int,
                self.zz as int,
                o.xz as int,
                o.yz as int,
                o.zz as int,
            ),
        )
    }

    /// Tensor product self * o.
    pub fn mul(&self, o: &Mat3) -> (r: Mat3)
        ensures
            r == self.spec_mul(*o),
    {
        Mat3 {
            xx: fx_dot3(self.xx, self.xy, self.xz, o.xx, o.yx, o.zx),
            xy: fx_dot3(self.xx, self.xy, self.xz, o.xy, o.yy, o.zy),
            xz: fx_dot3(self.xx, self.xy, self.xz, o.xz, o.yz, o.zz),
            yx: fx_dot3(self.yx, self.yy, self.yz, o.xx, o.yx, o.zx),
            yy: fx_dot3(self.yx, self.yy, self.yz, o.xy, o.yy, o.zy),
            yz: fx_dot3(self.yx, self.yy, self.yz, o.xz, o.yz, o.zz),
            zx: fx_dot3(self.zx, self.zy, self.zz, o.xx, o.yx, o.zx),
            zy: fx_dot3(self.zx, self.zy, self.zz, o.xy, o.yy, o.zy),
            zz: fx_dot3(self.zx, self.zy, self.zz, o.xz, o.yz, o.zz),
        }
    }

    /// Double contraction self : o (sum over all entries of the products).
    pub open spec fn spec_ddot(self, o: Mat3) -> int {
        s_add(
            s_add(
                s_dot3(
                    self.xx as int,
                    self.xy as int,
                    self.xz as int,
                    o.xx as int,
                    o.xy as int,
                    o.xz as int,
                ),
                s_dot3(
                    self.yx as int,
                    self.yy as int,
                    self.yz as int,
                    o.yx as int,
                    o.yy as int,
                    o.yz as int,
                ),
            ),
            s_dot3(
                self.zx as int,
                self.zy as int,
                self.zz as int,
                o.zx as int,
                o.zy as int,
                o.zz as int,
            ),
        )
    }

    /// Double contraction self : o.
    pub fn ddot(&self, o: &Mat3) -> (r: i64)
        ensures
            r as int == self.spec_ddot(*o),
    {
        fx_add(
            fx_add(
                fx_dot3(self.xx, self.xy, self.xz, o.xx, o.xy, o.xz),
                fx_dot3(self.yx, self.yy, self.yz, o.yx, o.yy, o.yz),
            ),
            fx_dot3(self.zx, self.zy, self.zz, o.zx, o.zy, o.zz),
        )
    }

    /// Entry-wise truncated division by a positive count.
    pub open spec fn spec_divn(self, n: int) -> Mat3 {
        m3(
            crate::fx::s_divn(self.xx as int, n),
            crate::fx::s_divn(self.xy as int, n),
            crate::fx::s_divn(self.xz as int, n),
            crate::fx::s_divn(self.yx as int, n),
            crate::fx::s_divn(self.yy as int, n),
            crate::fx::s_divn(self.yz as int, n),
            crate::fx::s_divn(self.zx as int, n),
            crate::fx::s_divn(self.zy as int, n),
            crate::fx::s_divn(self.zz as int, n),
        )
    }

    /// Entry-wise truncated division by a positive count.
    pub fn divn(&self, n: i64) -> (r: Mat3)
        requires
            0 < n,
        ensures
            r == self.spec_divn(n as int),
    {
        Mat3 {
            xx: crate::fx::fx_divn(self.xx, n),
            xy: crate::fx::fx_divn(self.xy, n),
            xz: crate::fx::fx_divn(self.xz, n),
            yx: crate::fx::fx_divn(self.yx, n),
            yy: crate::fx::fx_divn(self.yy, n),
            yz: crate::fx::fx_divn(self.yz, n),
            zx: crate::fx::fx_divn(self.zx, n),
            zy: crate::fx::fx_divn(self.zy, n),
            zz: crate::fx::fx_divn(self.zz, n),
        }
    }

    /// Skew part (self^T - self) / 2.
    pub fn skew_t(&self) -> (r: Mat3)
        ensures
            r == self.spec_skew_t(),
    {
        Mat3 {
            xx: 0,
            xy: fx_avg(self.yx, crate::fx::fx_neg(self.xy)),
            xz: fx_avg(self.zx, crate::fx::fx_neg(self.xz)),
            yx: fx_avg(self.xy, crate::fx::fx_neg(self.yx)),
            yy: 0,
            yz: fx_avg(self.zy, crate::fx::fx_neg(self.yz)),
            zx: fx_avg(self.xz, crate::fx::fx_neg(self.zx)),
            zy: fx_avg(self.yz, crate::fx::fx_neg(self.zy)),
            zz: 0,
        }
    }

    /// Symmetric part (self + self^T) / 2, exact.
    pub open spec fn spec_sym(self) -> Mat3 {
        m3(
            self.xx as int,
            s_avg(self.xy as int, self.yx as int),
            s_avg(self.xz as int, self.zx as int),
            s_avg(self.xy as int, self.yx as int),
            self.yy as int,
            s_avg(self.yz as int, self.zy as int),
            s_avg(self.xz as int, self.zx as int),
            s_avg(self.yz as int, self.zy as int),
            self.zz as int,
        )
    }

    /// Symmetric part (self + self^T) / 2, exact.
    pub fn sym(&self) -> (r: Mat3)
        ensures
            r == self.spec_sym(),
            r.is_symmetric(),
    {
        let xy = fx_avg(self.xy, self.yx);
        let xz = fx_avg(self.xz, self.zx);
        let yz = fx_avg(self.yz, self.zy);
        Mat3 {
            xx: self.xx,
            xy,
            xz,
            yx: xy,
            yy: self.yy,
            yz,
            zx: xz,
            zy: yz,
            zz: self.zz,
        }
    }

    /// Classical spin (self - self^T) / 2: the skew applied twice, as the
    /// velocity-gradient pipeline does (an antisymmetrization of an
    /// already antisymmetric tensor negates it, so the double application
    /// yields (self - self^T) / 2 exactly).
    pub open spec fn spec_spin(self) -> Mat3 {
        self.spec_skew_t().spec_skew_t()
    }

    /// Skew part (self^T - self) / 2: each entry is the mean of the
    /// transposed entry and the (saturating) negation of the entry.
    pub open spec fn spec_skew_t(self) -> Mat3 {
        m3(
            0,
            s_avg(self.yx as int, clamp_fx(-(self.xy as int))),
            s_avg(self.zx as int, clamp_fx(-(self.xz as int))),
            s_avg(self.xy as int, clamp_fx(-(self.yx as int))),
            0,
            s_avg(self.zy as int, clamp_fx(-(self.yz as int))),
            s_avg(self.xz as int, clamp_fx(-(self.zx as int))),
            s_avg(self.yz as int, clamp_fx(-(self.zy as int))),
            0,
        )
    }

    /// Largest entry magnitude of self * self^T - I, saturating.
    pub open spec fn spec_ortho_defect(self) -> int {
        let g = self.spec_mul(self.spec_transpose());
        let d = g.spec_sub(Mat3::spec_identity());
        max9(
            absi(d.xx as int),
            absi(d.xy as int),
            absi(d.xz as int),
            absi(d.yx as int),
            absi(d.yy as int),
            absi(d.yz as int),
            absi(d.zx as int),
            absi(d.zy as int),
            absi(d.zz as int),
        )
    }

    /// The tensor is orthogonal within [`ORTHO_TOL`].
    pub open spec fn spec_is_orthogonal(self) -> bool {
        self.spec_ortho_defect() < ORTHO_TOL
    }

    /// Check orthogonality: every entry of self * self^T is within
    /// [`ORTHO_TOL`] of the identity.
    pub fn is_orthogonal(&self) -> (r: bool)
        ensures
            r == self.spec_is_orthogonal(),
    {
        let g = self.mul(&self.transpose());
        let d = g.sub(&Mat3::identity());
        let m = max9_exec(
            fx_abs(d.xx),
            fx_abs(d.xy),
            fx_abs(d.xz),
            fx_abs(d.yx),
            fx_abs(d.yy),
            fx_abs(d.yz),
            fx_abs(d.zx),
            fx_abs(d.zy),
            fx_abs(d.zz),
        );
        proof {
            assert(clamp_fx(absi(d.xx as int)) < ORTHO_TOL as int <==> absi(d.xx as int)
                < ORTHO_TOL as int);
            assert(clamp_fx(absi(d.xy as int)) < ORTHO_TOL as int <==> absi(d.xy as int)
                < ORTHO_TOL as int);
            assert(clamp_fx(absi(d.xz as int)) < ORTHO_TOL as int <==> absi(d.xz as int)
                < ORTHO_TOL as int);
            assert(clamp_fx(absi(d.yx as int)) < ORTHO_TOL as int <==> absi(d.yx as int)
                < ORTHO_TOL as int);
            assert(clamp_fx(absi(d.yy as int)) < ORTHO_TOL as int <==> absi(d.yy as int)
                < ORTHO_TOL as int);
            assert(clamp_fx(absi(d.yz as int)) < ORTHO_TOL as int <==> absi(d.yz as int)
                < ORTHO_TOL as int);
            assert(clamp_fx(absi(d.zx as int)) < ORTHO_TOL as int <==> absi(d.zx as int)
                < ORTHO_TOL as int);
            assert(clamp_fx(absi(d.zy as int)) < ORTHO_TOL as int <==> absi(d.zy as int)
                < ORTHO_TOL as int);
            assert(clamp_fx(absi(d.zz as int)) < ORTHO_TOL as int <==> absi(d.zz as int)
                < ORTHO_TOL as int);
        }
        m < ORTHO_TOL
    }
}

/// The largest of nine values.
pub open spec fn max9(
    a1: int,
    a2: int,
    a3: int,
    a4: int,
    a5: int,
    a6: int,
    a7: int,
    a8: int,
    a9: int,
) -> int {
    max2(max2(max2(a1, a2), max2(a3, a4)), max2(max2(a5, a6), max2(max2(a7, a8), a9)))
}

/// The larger of two values.
pub open spec fn max2(a: int, b: int) -> int {
    if a >= b { a } else { b }
}

/// The larger of two values.
pub fn max2_exec(a: i64, b: i64) -> (r: i64)
    ensures
        r as int == max2(a as int, b as int),
{
    if a >= b { a } else { b }
}

/// The largest of nine values.
pub fn max9_exec(a1: i64, a2: i64, a3: i64, a4: i64, a5: i64, a6: i64, a7: i64, a8: i64, a9: i64)
    -> (r: i64)
    ensures
        r as int == max9(
            a1 as int,
            a2 as int,
            a3 as int,
            a4 as int,
            a5 as int,
            a6 as int,
            a7 as int,
            a8 as int,
            a9 as int,
        ),
{
    max2_exec(
        max2_exec(max2_exec(a1, a2), max2_exec(a3, a4)),
        max2_exec(max2_exec(a5, a6), max2_exec(max2_exec(a7, a8), a9)),
    )
}

impl Vec3 {
    /// The zero vector.
    pub fn zero() -> (r: Vec3)
        ensures
            r == (Vec3 { x: 0, y: 0, z: 0 }),
    {
        Vec3 { x: 0, y: 0, z: 0 }
    }

    /// Fixed-point dot product.
    pub open spec fn spec_dot(self, o: Vec3) -> int {
        s_dot3(self.x as int, self.y as int, self.z as int, o.x as int, o.y as int, o.z as int)
    }

    /// Fixed-point dot product.
    pub fn dot(&self, o: &Vec3) -> (r: i64)
        ensures
            r as int == self.spec_dot(*o),
    {
        fx_dot3(self.x, self.y, self.z, o.x, o.y, o.z)
    }

    /// Entry-wise saturating negation.
    pub open spec fn spec_neg(self) -> Vec3 {
        Vec3 {
            x: clamp_fx(-(self.x as int)) as i64,
            y: clamp_fx(-(self.y as int)) as i64,
            z: clamp_fx(-(self.z as int)) as i64,
        }
    }

    /// Entry-wise saturating negation.
    pub fn neg(&self) -> (r: Vec3)
        ensures
            r == self.spec_neg(),
    {
        Vec3 { x: crate::fx::fx_neg(self.x), y: crate::fx::fx_neg(self.y), z: crate::fx::fx_neg(self.z) }
    }

    /// The Euclidean norm at fixed-point resolution (zero if the self-dot
    /// saturated negative, which sums of squares never do in fact).
    pub open spec fn spec_norm(self) -> int {
        let q = self.spec_dot(self);
        if q < 0 {
            0
        } else {
            sqrt_floor(q * FX_ONE)
        }
    }

    /// Divide each component by the norm, yielding a direction of length
    /// one at fixed-point resolution. A (near-)zero vector is returned
    /// unchanged: the degenerate case is guarded, not propagated.
    pub open spec fn spec_normalize(self) -> Vec3 {
        let n = self.spec_norm();
        if n == 0 {
            self
        } else {
            Vec3 {
                x: s_div(self.x as int, n) as i64,
                y: s_div(self.y as int, n) as i64,
                z: s_div(self.z as int, n) as i64,
            }
        }
    }

    /// Divide each component by the norm.
    pub fn normalize(&self) -> (r: Vec3)
        ensures
            r == self.spec_normalize(),
    {
        let q = self.dot(self);
        if q < 0 {
            // a self-dot of saturated inputs can clamp negative only at
            // i64::MIN + overflow; self-dots are sums of squares, so q >= 0
            // always holds in fact, but the guard keeps the call total
            return *self;
        }
        let n = fx_sqrt(q);
        if n == 0 {
            *self
        } else {
            Vec3 { x: fx_div(self.x, n), y: fx_div(self.y, n), z: fx_div(self.z, n) }
        }
    }

    /// Outer product self (x) o, the Schmid-tensor building block.
    pub open spec fn spec_outer(self, o: Vec3) -> Mat3 {
        m3(
            s_mul(self.x as int, o.x as int),
            s_mul(self.x as int, o.y as int),
            s_mul(self.x as int, o.z as int),
            s_mul(self.y as int, o.x as int),
            s_mul(self.y as int, o.y as int),
            s_mul(self.y as int, o.z as int),
            s_mul(self.z as int, o.x as int),
            s_mul(self.z as int, o.y as int),
            s_mul(self.z as int, o.z as int),
        )
    }

    /// Outer product self (x) o.
    pub fn outer(&self, o: &Vec3) -> (r: Mat3)
        ensures
            r == self.spec_outer(*o),
    {
        Mat3 {
            xx: fx_mul(self.x, o.x),
            xy: fx_mul(self.x, o.y),
            xz: fx_mul(self.x, o.z),
            yx: fx_mul(self.y, o.x),
            yy: fx_mul(self.y, o.y),
            yz: fx_mul(self.y, o.z),
            zx: fx_mul(self.z, o.x),
            zy: fx_mul(self.z, o.y),
            zz: fx_mul(self.z, o.z),
        }
    }

    /// Row vector times tensor: r_j = sum_i self_i * m_ij.
    pub open spec fn spec_mul_mat(self, m: Mat3) -> Vec3 {
        Vec3 {
            x: s_dot3(
                self.x as int,
                self.y as int,
                self.z as int,
                m.xx as int,
                m.yx as int,
                m.zx as int,
            ) as i64,
            y: s_dot3(
                self.x as int,
                self.y as int,
                self.z as int,
                m.xy as int,
                m.yy as int,
                m.zy as int,
            ) as i64,
            z: s_dot3(
                self.x as int,
                self.y as int,
                self.z as int,
                m.xz as int,
                m.yz as int,
                m.zz as int,
            ) as i64,
        }
    }

    /// Row vector times tensor.
    pub fn mul_mat(&self, m: &Mat3) -> (r: Vec3)
        ensures
            r == self.spec_mul_mat(*m),
    {
        Vec3 {
            x: fx_dot3(self.x, self.y, self.z, m.xx, m.yx, m.zx),
            y: fx_dot3(self.x, self.y, self.z, m.xy, m.yy, m.zy),
            z: fx_dot3(self.x, self.y, self.z, m.xz, m.yz, m.zz),
        }
    }
}

/// An identity-scale fact: one times one is one at fixed point.
proof fn lemma_one_sq() 
    ensures
        s_mul(FX_ONE as int, FX_ONE as int) == FX_ONE as int,
{
    vstd::arithmetic::div_mod::lemma_div_multiples_vanish(FX_ONE as int, FX_ONE as int);
}

/// The identity tensor is orthogonal.
pub proof fn lemma_identity_orthogonal()
    ensures
        Mat3::spec_identity().spec_is_orthogonal(),
{
    lemma_one_sq();
    let i = Mat3::spec_identity();
    assert(i.spec_mul(i.spec_transpose()) == i);
    assert(i.spec_ortho_defect() == 0);
}

/// The Voigt 6-vector of a tensor: diagonal entries as they stand, each
/// off-diagonal pair averaged (exact for a symmetric tensor).
pub open spec fn spec_voigt_of(m: Mat3) -> Voigt6 {
    Voigt6 {
        v11: m.xx,
        v22: m.yy,
        v33: m.zz,
        v23: s_avg(m.yz as int, m.zy as int) as i64,
        v13: s_avg(m.xz as int, m.zx as int) as i64,
        v12: s_avg(m.xy as int, m.yx as int) as i64,
    }
}

/// The Voigt 6-vector of a tensor.
pub fn voigt_of(m: &Mat3) -> (r: Voigt6)
    ensures
        r == spec_voigt_of(*m),
{
    Voigt6 {
        v11: m.xx,
        v22: m.yy,
        v33: m.zz,
        v23: fx_avg(m.yz, m.zy),
        v13: fx_avg(m.xz, m.zx),
        v12: fx_avg(m.xy, m.yx),
    }
}

/// The symmetric tensor of a Voigt 6-vector.
pub open spec fn spec_mat_of(v: Voigt6) -> Mat3 {
    Mat3 {
        xx: v.v11,
        xy: v.v12,
        xz: v.v13,
        yx: v.v12,
        yy: v.v22,
        yz: v.v23,
        zx: v.v13,
        zy: v.v23,
        zz: v.v33,
    }
}

/// The symmetric tensor of a Voigt 6-vector.
pub fn mat_of(v: &Voigt6) -> (r: Mat3)
    ensures
        r == spec_mat_of(*v),
        r.is_symmetric(),
{
    Mat3 {
        xx: v.v11,
        xy: v.v12,
        xz: v.v13,
        yx: v.v12,
        yy: v.v22,
        yz: v.v23,
        zx: v.v13,
        zy: v.v23,
        zz: v.v33,
    }
}

/// Tensor/vector duality: on a symmetric tensor, going to the Voigt
/// 6-vector and back reproduces the tensor exactly, and the reverse round
/// trip reproduces any 6-vector exactly.
pub proof fn lemma_voigt_round_trip(m: Mat3, v: Voigt6)
    requires
        m.is_symmetric(),
    ensures
        spec_mat_of(spec_voigt_of(m)) == m,
        spec_voigt_of(spec_mat_of(v)) == v,
{
    crate::fx::lemma_avg_self(m.yz as int);
    crate::fx::lemma_avg_self(m.xz as int);
    crate::fx::lemma_avg_self(m.xy as int);
    crate::fx::lemma_avg_self(v.v23 as int);
    crate::fx::lemma_avg_self(v.v13 as int);
    crate::fx::lemma_avg_self(v.v12 as int);
}

} // verus!
