//! Screenshots as the capabilities report them: pixels reordered for PNG
//! encoding, and PNG bytes carried as base64 text.
use vstd::prelude::*;
use base64::Engine;

verus! {

/// The standard base64 text (RFC 4648 alphabet, with `=` padding) of some bytes.
pub uninterp spec fn base64_standard(bytes: Seq<u8>) -> Seq<char>;

/// The length of the padded base64 text of `n` bytes: four characters for
/// every started group of three bytes.
pub open spec fn base64_len(n: nat) -> nat {
    4 * ((n + 2) / 3)
}

/// `base64::engine::general_purpose::STANDARD.encode`: the padded standard
/// base64 text of the bytes, four characters for each started group of three
/// bytes. The engine panics where that length does not fit in `usize`.
#[verifier::external_body]
pub(crate) fn encode_base64(bytes: &[u8]) -> (r: String)
    requires
        base64_len(bytes@.len()) <= usize::MAX,
    ensures
        r@ == base64_standard(bytes@),
        r@.len() == base64_len(bytes@.len()),
{
    base64::engine::general_purpose::STANDARD.encode(bytes)
}

/// A PNG image carried as base64 text.
pub struct EncodedImage {
    pub image_b64: String,
    pub format: String,
}

impl EncodedImage {
    /// PNG bytes as an encoded image.
    pub fn png(bytes: &[u8]) -> (r: Self)
        requires
            base64_len(bytes@.len()) <= usize::MAX,
        ensures
            r.image_b64@ == base64_standard(bytes@),
            r.image_b64@.len() == base64_len(bytes@.len()),
            r.format@ == "png"@,
    {
        EncodedImage { image_b64: encode_base64(bytes), format: String::from_str("png") }
    }
}

/// Whole pixels of four bytes, blue-green-red-alpha, reordered to
/// red-green-blue with full opacity; the bytes of a last partial pixel stay.
pub open spec fn rgba_of(p: Seq<u8>) -> Seq<u8> {
    Seq::new(
        p.len(),
        |i: int|
            {
                let start = i - i % 4;
                if start + 4 <= p.len() {
                    if i % 4 == 0 {
                        p[start + 2]
                    } else if i % 4 == 1 {
                        p[i]
                    } else if i % 4 == 2 {
                        p[start]
                    } else {
                        255u8
                    }
                } else {
                    p[i]
                }
            },
    )
}

/// Reorders captured pixels from blue-green-red-alpha to opaque red-green-blue-alpha.
pub fn bgra_to_rgba(pixels: &mut Vec<u8>)
    ensures
        final(pixels)@ == rgba_of(old(pixels)@),
{
    let ghost orig = pixels@;
    let n = pixels.len();
    let mut i: usize = 0;
    while 4 <= n - i
        invariant
            n == orig.len(),
            pixels@.len() == n,
            i % 4 == 0,
            i <= n,
            forall|j: int| 0 <= j < i ==> #[trigger] pixels@[j] == rgba_of(orig)[j],
            forall|j: int| i <= j < n ==> #[trigger] pixels@[j] == orig[j],
        decreases n - i,
    {
        let b = pixels[i];
        let r = pixels[i + 2];
        pixels.set(i, r);
        pixels.set(i + 2, b);
        pixels.set(i + 3, 255);
        assert forall|j: int| 0 <= j < i + 4 implies #[trigger] pixels@[j] == rgba_of(orig)[j] by {
            if j >= i {
                assert(j - j % 4 == i);
            }
        }
        i += 4;
    }
    assert forall|j: int| 0 <= j < n implies #[trigger] pixels@[j] == rgba_of(orig)[j] by {
        if j >= i {
            assert(j - j % 4 + 4 > n);
        }
    }
    assert(pixels@ =~= rgba_of(orig));
}

} // verus!
