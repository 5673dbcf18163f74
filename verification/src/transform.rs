use vstd::prelude::*;

use crate::scalar::Scalar;

verus! {

/// Three components of a vector, each held as its 32-bit encoding.
#[derive(Clone, Copy, PartialEq, Eq, Structural, Debug)]
pub struct Vec3Data {
    pub x: Scalar,
    pub y: Scalar,
    pub z: Scalar,
}

/// Four components of a vector, each held as its 32-bit encoding.
#[derive(Clone, Copy, PartialEq, Eq, Structural, Debug)]
pub struct Vec4Data {
    pub x: Scalar,
    pub y: Scalar,
    pub z: Scalar,
    pub w: Scalar,
}

/// A sprite entity's world transform as the host's scene graph reports it:
/// the three columns of the 3x3 linear part of the affine transform, plus the
/// translation.
#[derive(Clone, Copy, PartialEq, Eq, Structural, Debug)]
pub struct WorldTransform {
    pub x_axis: Vec3Data,
    pub y_axis: Vec3Data,
    pub z_axis: Vec3Data,
    pub translation: Vec3Data,
}

/// The per-instance matrix handed to the vertex shader: the transpose of the
/// world transform's 3x3 linear part, with the translation appended as the
/// fourth column of each row. Packed as three 4-component rows, 48 bytes on
/// the GPU.
#[derive(Clone, Copy, PartialEq, Eq, Structural, Debug)]
pub struct SpriteTransformMatrix {
    pub row_x: Vec4Data,
    pub row_y: Vec4Data,
    pub row_z: Vec4Data,
}

impl SpriteTransformMatrix {
    /// Row `k` of the instance matrix holds component `k` of each linear
    /// column, then component `k` of the translation.
    pub open spec fn from_transform_spec(t: WorldTransform) -> SpriteTransformMatrix {
        SpriteTransformMatrix {
            row_x: Vec4Data {
                x: t.x_axis.x,
                y: t.y_axis.x,
                z: t.z_axis.x,
                w: t.translation.x,
            },
            row_y: Vec4Data {
                x: t.x_axis.y,
                y: t.y_axis.y,
                z: t.z_axis.y,
                w: t.translation.y,
            },
            row_z: Vec4Data {
                x: t.x_axis.z,
                y: t.y_axis.z,
                z: t.z_axis.z,
                w: t.translation.z,
            },
        }
    }

    /// Build the instance matrix from a world transform: transpose the 3x3
    /// linear part and append the translation as the fourth column.
    pub fn from_transform(t: &WorldTransform) -> (r: SpriteTransformMatrix)
        ensures
            r == SpriteTransformMatrix::from_transform_spec(*t),
    {
        SpriteTransformMatrix {
            row_x: Vec4Data {
                x: t.x_axis.x,
                y: t.y_axis.x,
                z: t.z_axis.x,
                w: t.translation.x,
            },
            row_y: Vec4Data {
                x: t.x_axis.y,
                y: t.y_axis.y,
                z: t.z_axis.y,
                w: t.translation.y,
            },
            row_z: Vec4Data {
                x: t.x_axis.z,
                y: t.y_axis.z,
                z: t.z_axis.z,
                w: t.translation.z,
            },
        }
    }

    /// The twelve components in GPU upload order: the three rows one after
    /// the other, each row's components in order.
    pub open spec fn words_spec(self) -> Seq<u32> {
        seq![
            self.row_x.x.bits,
            self.row_x.y.bits,
            self.row_x.z.bits,
            self.row_x.w.bits,
            self.row_y.x.bits,
            self.row_y.y.bits,
            self.row_y.z.bits,
            self.row_y.w.bits,
            self.row_z.x.bits,
            self.row_z.y.bits,
            self.row_z.z.bits,
            self.row_z.w.bits,
        ]
    }

    /// Flatten the matrix into its twelve 32-bit words, in upload order.
    pub fn to_words(&self) -> (r: Vec<u32>)
        ensures
            r@ == self.words_spec(),
    {
        let mut r: Vec<u32> = Vec::new();
        r.push(self.row_x.x.bits);
        r.push(self.row_x.y.bits);
        r.push(self.row_x.z.bits);
        r.push(self.row_x.w.bits);
        r.push(self.row_y.x.bits);
        r.push(self.row_y.y.bits);
        r.push(self.row_y.z.bits);
        r.push(self.row_y.w.bits);
        r.push(self.row_z.x.bits);
        r.push(self.row_z.y.bits);
        r.push(self.row_z.z.bits);
        r.push(self.row_z.w.bits);
        proof {
            assert(r@ =~= self.words_spec());
        }
        r
    }
}

} // verus!
