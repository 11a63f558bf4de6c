//! The fixed 8-byte magic sequence every PNG file must begin with.

use crate::error::FormatError;
use vstd::prelude::*;

verus! {

/// The canonical signature: a high-bit byte, ASCII "PNG", CR, LF, a DOS
/// end-of-file marker, LF.
pub open spec fn spec_png_signature() -> Seq<u8> {
    seq![137u8, 80u8, 78u8, 71u8, 13u8, 10u8, 26u8, 10u8]
}

/// Whether `s` is at least 8 bytes long and starts with the signature.
pub open spec fn has_png_signature(s: Seq<u8>) -> bool {
    s.len() >= 8 && s.subrange(0, 8) == spec_png_signature()
}

/// Confirms that the buffer begins with the PNG signature. A buffer shorter
/// than 8 bytes is reported as truncated, a mismatch as not a PNG file.
pub fn validate_png_signature(file: &[u8]) -> (r: Result<(), FormatError>)
    ensures
        r is Ok <==> has_png_signature(file@),
        file@.len() < 8 ==> r == Err::<(), FormatError>(FormatError::Truncated),
        file@.len() >= 8 && !has_png_signature(file@) ==> r == Err::<(), FormatError>(
            FormatError::BadSignature,
        ),
{
    if file.len() < 8 {
        return Err(FormatError::Truncated);
    }
    let sig_ok = file[0] == 137 && file[1] == 80 && file[2] == 78 && file[3] == 71 && file[4]
        == 13 && file[5] == 10 && file[6] == 26 && file[7] == 10;
    if sig_ok {
        proof {
            assert(file@.subrange(0, 8) =~= spec_png_signature());
        }
        Ok(())
    } else {
        proof {
            if has_png_signature(file@) {
                assert(forall|i: int| 0 <= i < 8 ==> file@[i] == spec_png_signature()[i]) by {
                    assert(forall|i: int|
                        0 <= i < 8 ==> file@.subrange(0, 8)[i] == spec_png_signature()[i]);
                }
            }
        }
        Err(FormatError::BadSignature)
    }
}

} // verus!
