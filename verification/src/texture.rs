//! The procedural gradient texture uploaded by the renderer each frame.
use vstd::prelude::*;

verus! {

/// Value of the texel in row `i`, column `j`: the product of the two
/// indices reduced modulo 255.
pub open spec fn texel(i: int, j: int) -> int {
    (i * j) % 255
}

/// Row `i` of a gradient texture whose rows hold `height` texels.
pub open spec fn texture_row(i: int, height: nat) -> Seq<u8> {
    Seq::new(height, |j: int| texel(i, j) as u8)
}

/// Whole gradient texture with `width` rows of `height` texels each.
pub open spec fn texture_rows(width: nat, height: nat) -> Seq<Seq<u8>> {
    Seq::new(width, |i: int| texture_row(i, height))
}

/// The texture can be computed with 32-bit index products: every product
/// `i * j` with `i < width` and `j < height` fits in a `u32`.
pub open spec fn products_fit_u32(width: u32, height: u32) -> bool {
    width == 0 || height == 0 || (width - 1) * (height - 1) <= u32::MAX
}

/// Tells whether the gradient texture of the given size can be computed
/// with 32-bit index products.
pub fn texture_size_fits(width: u32, height: u32) -> (fits: bool)
    ensures
        fits == products_fit_u32(width, height),
{
    if width == 0 || height == 0 {
        return true;
    }
    let w: u64 = (width - 1) as u64;
    let h: u64 = (height - 1) as u64;
    assert(w * h <= u32::MAX as u64 * u32::MAX as u64) by (nonlinear_arith)
        requires
            w <= u32::MAX,
            h <= u32::MAX,
    ;
    w * h <= u32::MAX as u64
}

proof fn lemma_index_product_bound(i: int, j: int, width: int, height: int)
    requires
        0 <= i < width,
        0 <= j < height,
    ensures
        0 <= i * j <= (width - 1) * (height - 1),
{
    assert(0 <= i * j <= (width - 1) * (height - 1)) by (nonlinear_arith)
        requires
            0 <= i <= width - 1,
            0 <= j <= height - 1,
    ;
}

/// Builds the gradient texture: `width` rows of `height` bytes, where the
/// byte in row `i`, column `j` is `i * j % 255`.
pub fn texture_data(width: u32, height: u32) -> (rows: Vec<Vec<u8>>)
    requires
        products_fit_u32(width, height),
    ensures
        rows@.len() == width,
        forall|i: int| 0 <= i < width ==> #[trigger] rows@[i]@ == texture_row(i, height as nat),
{
    let mut rows: Vec<Vec<u8>> = Vec::new();
    let mut i: u32 = 0;
    while i < width
        invariant
            i <= width,
            products_fit_u32(width, height),
            rows@.len() == i,
            forall|k: int| 0 <= k < i ==> #[trigger] rows@[k]@ == texture_row(k, height as nat),
        decreases width - i,
    {
        let mut row: Vec<u8> = Vec::new();
        let mut j: u32 = 0;
        while j < height
            invariant
                i < width,
                j <= height,
                products_fit_u32(width, height),
                row@ =~= texture_row(i as int, j as nat),
            decreases height - j,
        {
            proof {
                lemma_index_product_bound(i as int, j as int, width as int, height as int);
            }
            let value: u32 = i * j % 255;
            row.push(value as u8);
            j = j + 1;
            assert(row@ =~= texture_row(i as int, j as nat));
        }
        assert(row@ =~= texture_row(i as int, height as nat));
        rows.push(row);
        i = i + 1;
    }
    rows
}

/// Every texel of the gradient is below 255: reducing modulo 255 before
/// narrowing to a byte never loses information, and the byte 255 never
/// occurs.
pub proof fn lemma_texels_below_255(width: nat, height: nat)
    ensures
        forall|i: int, j: int|
            0 <= i < width && 0 <= j < height ==> #[trigger] texture_rows(width, height)[i][j]
                == texel(i, j) && texel(i, j) < 255,
{
    assert forall|i: int, j: int| 0 <= i < width && 0 <= j < height implies #[trigger] texture_rows(
        width,
        height,
    )[i][j] == texel(i, j) && texel(i, j) < 255 by {
        assert(0 <= i * j) by (nonlinear_arith)
            requires
                0 <= i,
                0 <= j,
        ;
    }
}

/// The gradient is symmetric: the texture of `height` rows of `width`
/// texels is the transpose of the texture of `width` rows of `height`
/// texels, so a square texture equals its own transpose.
pub proof fn lemma_texture_transpose(width: nat, height: nat)
    ensures
        forall|i: int, j: int|
            0 <= i < width && 0 <= j < height ==> #[trigger] texture_rows(width, height)[i][j]
                == #[trigger] texture_rows(height, width)[j][i],
{
    assert forall|i: int, j: int| 0 <= i < width && 0 <= j < height implies #[trigger] texture_rows(
        width,
        height,
    )[i][j] == #[trigger] texture_rows(height, width)[j][i] by {
        assert(i * j == j * i) by (nonlinear_arith);
    }
}

} // verus!
