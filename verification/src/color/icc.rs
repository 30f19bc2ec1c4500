//! ICC colour profiles and the colour space their header declares.

use vstd::prelude::*;

use lcms2::Error as LcmsError;

use crate::error::Error;

verus! {

/// Colour space models used in digital imaging and printing.
#[derive(Debug, Clone, Copy, PartialEq, Eq, Structural)]
pub enum ColorSpace {
    Srgb,
    Cmyk,
    Gray,
    Rgb,
}

/// A version of [`ColorSpace`] for the terminal front end.
pub enum ColorSpaceKind {
    PureCMYK,
    PureRGB,
    Mixed,
    Unknown,
}

/// The colour space signature `CMYK`, as it stands in bytes 16 to 19 of a profile header.
pub open spec fn cmyk_signature() -> Seq<u8> {
    seq![0x43u8, 0x4Du8, 0x59u8, 0x4Bu8]
}

/// The colour space signature `GRAY`.
pub open spec fn gray_signature() -> Seq<u8> {
    seq![0x47u8, 0x52u8, 0x41u8, 0x59u8]
}

/// The colour space that a profile header declares: bytes 16 to 19 read `CMYK`
/// or `GRAY`; anything else, and data shorter than 20 bytes, counts as RGB.
pub open spec fn header_color_space(bytes: Seq<u8>) -> ColorSpace {
    if bytes.len() < 20 {
        ColorSpace::Rgb
    } else if bytes.subrange(16, 20) == cmyk_signature() {
        ColorSpace::Cmyk
    } else if bytes.subrange(16, 20) == gray_signature() {
        ColorSpace::Gray
    } else {
        ColorSpace::Rgb
    }
}

/// Detects the colour space from the signature in bytes 16 to 19 of `bytes`.
pub fn detect_color_space(bytes: &[u8]) -> (cs: ColorSpace)
    ensures
        cs == header_color_space(bytes@),
{
    if bytes.len() < 20 {
        return ColorSpace::Rgb;
    }
    let sig = (bytes[16], bytes[17], bytes[18], bytes[19]);
    assert(bytes@.subrange(16, 20) =~= seq![sig.0, sig.1, sig.2, sig.3]);
    if sig.0 == 0x43 && sig.1 == 0x4D && sig.2 == 0x59 && sig.3 == 0x4B {
        ColorSpace::Cmyk
    } else if sig.0 == 0x47 && sig.1 == 0x52 && sig.2 == 0x41 && sig.3 == 0x59 {
        assert(bytes@.subrange(16, 20) != cmyk_signature()) by {
            assert(cmyk_signature()[0] != gray_signature()[0]);
        }
        ColorSpace::Gray
    } else {
        assert(bytes@.subrange(16, 20) != cmyk_signature()) by {
            if bytes@.subrange(16, 20) == cmyk_signature() {
                assert(sig.0 == cmyk_signature()[0]);
                assert(sig.1 == cmyk_signature()[1]);
                assert(sig.2 == cmyk_signature()[2]);
                assert(sig.3 == cmyk_signature()[3]);
            }
        }
        assert(bytes@.subrange(16, 20) != gray_signature()) by {
            if bytes@.subrange(16, 20) == gray_signature() {
                assert(sig.0 == gray_signature()[0]);
                assert(sig.1 == gray_signature()[1]);
                assert(sig.2 == gray_signature()[2]);
                assert(sig.3 == gray_signature()[3]);
            }
        }
        ColorSpace::Rgb
    }
}

/// The ICC data of Little CMS's built-in sRGB profile (`lcms2::Profile::new_srgb`
/// followed by `Profile::icc`). `Profile::icc` answers an error when Little CMS
/// reports a length of zero, so data that comes back is never empty; that is all
/// that is stated of the bytes, which carry the moment the profile was made.
/// When the serialisation fails is not stated.
#[verifier::external_body]
fn srgb_icc_data() -> (r: core::result::Result<Vec<u8>, LcmsError>)
    ensures
        r matches Ok(data) ==> data@.len() > 0,
{
    lcms2::Profile::new_srgb().icc()
}

/// An ICC profile: its raw data and the colour space it is taken to describe.
pub struct IccProfile {
    bytes: Vec<u8>,
    color_space: ColorSpace,
}

impl IccProfile {
    /// The raw profile data.
    pub closed spec fn data(&self) -> Seq<u8> {
        self.bytes@
    }

    /// The colour space associated with the profile.
    pub closed spec fn space(&self) -> ColorSpace {
        self.color_space
    }

    /// Wraps raw profile data, taking its colour space from the header. Never fails.
    pub fn from_bytes(bytes: Vec<u8>) -> (r: crate::error::Result<IccProfile>)
        ensures
            r is Ok,
            r matches Ok(p) ==> p.data() == bytes@ && p.space() == header_color_space(bytes@),
    {
        let color_space = detect_color_space(bytes.as_slice());
        Ok(IccProfile { bytes, color_space })
    }

    /// The sRGB profile of Little CMS, tagged as sRGB, holding the non-empty
    /// data that Little CMS serialised. Fails with a colour error when Little CMS
    /// cannot serialise the profile.
    pub fn srgb() -> (r: crate::error::Result<IccProfile>)
        ensures
            r matches Ok(p) ==> p.space() == ColorSpace::Srgb && p.data().len() > 0,
            r matches Err(e) ==> e is Color,
    {
        Self::srgb_from_icc(srgb_icc_data())
    }

    /// The sRGB profile built from what Little CMS answered when asked to
    /// serialise its sRGB profile: the data, tagged as sRGB, or the Little CMS
    /// error as a colour error.
    pub fn srgb_from_icc(serialised: core::result::Result<Vec<u8>, LcmsError>) -> (r: crate::error::Result<IccProfile>)
        ensures
            serialised matches Ok(data) ==> (r matches Ok(p) && p.data() == data@ && p.space() == ColorSpace::Srgb),
            serialised matches Err(le) ==> r == Err::<IccProfile, Error>(Error::Color(le)),
    {
        match serialised {
            Ok(bytes) => Ok(IccProfile { bytes, color_space: ColorSpace::Srgb }),
            Err(e) => Err(Error::Color(e)),
        }
    }

    /// The colour space associated with the profile.
    pub fn color_space(&self) -> (cs: ColorSpace)
        ensures
            cs == self.space(),
    {
        self.color_space
    }

    /// The raw profile data.
    pub fn as_bytes(&self) -> (b: &[u8])
        ensures
            b@ == self.data(),
    {
        self.bytes.as_slice()
    }

    /// Gives up the profile and returns its raw data.
    pub fn into_bytes(self) -> (b: Vec<u8>)
        ensures
            b@ == self.data(),
    {
        self.bytes
    }
}

} // verus!
