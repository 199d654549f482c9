//! The QR code of the transfer URL, as a square of light and dark modules.
use qr2term::matrix::Matrix;
use qr2term::render::Color;
use vstd::prelude::*;
use vstd::string::StringSliceAdditionalSpecFns;

verus! {

#[verifier::external_type_specification]
pub struct ExColor(qr2term::render::Color);

#[verifier::external_type_specification]
#[verifier::external_body]
#[verifier::reject_recursive_types(T)]
pub struct ExMatrix<T>(qr2term::matrix::Matrix<T>);

#[verifier::external_type_specification]
#[verifier::external_body]
pub struct ExQrError(qr2term::QrError);

/// The modules, row by row, of the QR code that qrcode builds for `data`; `None` when `data`
/// does not fit in any QR version.
pub uninterp spec fn qr_symbol_of(data: Seq<u8>) -> Option<Seq<Color>>;

/// The pixels of a matrix, row by row.
pub uninterp spec fn matrix_pixels(m: Matrix<Color>) -> Seq<Color>;

/// `len` pixels make a square of side `side`, as a QR code of version 1 to 40 does.
pub open spec fn is_qr_side(len: nat, side: nat) -> bool {
    21 <= side <= 177 && side * side == len
}

/// `inner`, a square of side `side`, inside a border `t` pixels thick of `quiet` pixels.
pub open spec fn framed(inner: Seq<Color>, side: nat, t: nat, quiet: Color) -> Seq<Color> {
    let w = side + 2 * t;
    Seq::new(
        w * w,
        |p: int|
            {
                let row = p / w as int;
                let col = p % w as int;
                if t <= row < t + side && t <= col < t + side {
                    inner[(row - t) * side + (col - t)]
                } else {
                    quiet
                }
            },
    )
}

/// Relies on qr2term's `Qr::from`, which builds the QR code of `data`'s bytes with qrcode at
/// error correction level M (versions 1 to 40, of side 17 + 4 * version), and `Qr::to_matrix`,
/// which hands its modules over row by row.
#[verifier::external_body]
pub(crate) fn qr_matrix(data: &str) -> (r: Result<Matrix<Color>, qr2term::QrError>)
    ensures
        r is Ok <==> qr_symbol_of(data.spec_bytes()) is Some,
        r matches Ok(m) ==> matrix_pixels(m) == qr_symbol_of(data.spec_bytes())->0,
        r matches Ok(m) ==> exists|side: nat| is_qr_side(matrix_pixels(m).len(), side),
{
    qr2term::qr::Qr::from(data).map(|qr| qr.to_matrix())
}

/// Relies on qr2term's `Matrix::surround`, which rebuilds the matrix with the old one in the
/// middle of a border `thickness` pixels thick of `quiet` pixels.
#[verifier::external_body]
pub(crate) fn surround(m: &mut Matrix<Color>, thickness: usize, quiet: Color)
    requires
        exists|side: nat| is_qr_side(matrix_pixels(*old(m)).len(), side),
        thickness <= 16,
    ensures
        forall|side: nat|
            is_qr_side(matrix_pixels(*old(m)).len(), side) ==> matrix_pixels(*final(m)) == framed(
                matrix_pixels(*old(m)),
                side,
                thickness as nat,
                quiet,
            ),
{
    m.surround(thickness, quiet)
}

} // verus!
