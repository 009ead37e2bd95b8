//! Image metadata helpers: format detection, signed image messages, header
//! parsing for dimensions, and a block-art fallback for terminals without
//! image support.

use vstd::prelude::*;
use vstd::bytes::{
    spec_u32_to_le_bytes, spec_u64_to_le_bytes, u32_from_le_bytes, u32_to_le_bytes,
};
use vstd::string::{StringExecFns, StringSliceAdditionalSpecFns};
use vstd::utf8::encode_utf8;
use crate::crypto::Identity;
use crate::error::CoreError;
use crate::primitives::{ed25519_sig_of, ed25519_verifies, epoch_seconds};
use crate::textutil::arr32;
use crate::wire::{
    lp, push_bytes, push_lp, push_str_lp, push_u64, read_lp, read_lp_spec, read_raw,
    read_raw_spec, read_str, read_str_spec, read_u64, read_u64_spec, lemma_read_lp_at,
    lemma_read_raw_at, lemma_read_str_at, lemma_read_u64_at,
};

verus! {

/// Supported image formats.
#[derive(Debug, Clone, Copy, PartialEq, Eq, Structural)]
pub enum ImageFormat {
    Png,
    Jpeg,
    Gif,
    Bmp,
    WebP,
}

/// ASCII lower-casing of one byte.
pub open spec fn lower_byte(b: u8) -> u8 {
    if 65 <= b && b <= 90 {
        (b + 32) as u8
    } else {
        b
    }
}

/// Whether `e` equals `p` after ASCII lower-casing of `e`.
pub open spec fn lowers_to(e: Seq<u8>, p: Seq<u8>) -> bool {
    e.len() == p.len() && forall|i: int| 0 <= i < e.len() ==> lower_byte(e[i]) == p[i]
}

/// The format an extension names, compared case-insensitively.
pub open spec fn spec_from_extension(e: Seq<u8>) -> Option<ImageFormat> {
    if lowers_to(e, encode_utf8("png"@)) {
        Some(ImageFormat::Png)
    } else if lowers_to(e, encode_utf8("jpg"@)) || lowers_to(e, encode_utf8("jpeg"@)) {
        Some(ImageFormat::Jpeg)
    } else if lowers_to(e, encode_utf8("gif"@)) {
        Some(ImageFormat::Gif)
    } else if lowers_to(e, encode_utf8("bmp"@)) {
        Some(ImageFormat::Bmp)
    } else if lowers_to(e, encode_utf8("webp"@)) {
        Some(ImageFormat::WebP)
    } else {
        None
    }
}

/// Whether an extension slice lower-cases to a pattern.
fn ext_matches(e: &[u8], p: &[u8]) -> (r: bool)
    ensures
        r == lowers_to(e@, p@),
{
    if e.len() != p.len() {
        return false;
    }
    let n = e.len();
    let mut i: usize = 0;
    while i < n
        invariant
            n == e@.len(),
            n == p@.len(),
            i <= n,
            forall|j: int| 0 <= j < i ==> lower_byte(e@[j]) == p@[j],
        decreases n - i,
    {
        let b = e[i];
        let low = if b >= 65 && b <= 90 {
            b + 32
        } else {
            b
        };
        if low != p[i] {
            return false;
        }
        i += 1;
    }
    true
}

/// The tag byte a format is recorded as on the wire and in sign data.
pub open spec fn format_tag(f: ImageFormat) -> u8 {
    match f {
        ImageFormat::Png => 0u8,
        ImageFormat::Jpeg => 1u8,
        ImageFormat::Gif => 2u8,
        ImageFormat::Bmp => 3u8,
        ImageFormat::WebP => 4u8,
    }
}

/// The format a tag byte names.
pub open spec fn tag_format(b: u8) -> Option<ImageFormat> {
    if b == 0 {
        Some(ImageFormat::Png)
    } else if b == 1 {
        Some(ImageFormat::Jpeg)
    } else if b == 2 {
        Some(ImageFormat::Gif)
    } else if b == 3 {
        Some(ImageFormat::Bmp)
    } else if b == 4 {
        Some(ImageFormat::WebP)
    } else {
        None
    }
}

impl ImageFormat {
    /// Detect the format from a file extension, case-insensitively.
    pub fn from_extension(ext: &str) -> (r: Option<Self>)
        ensures
            r == spec_from_extension(ext.spec_bytes()),
    {
        let e = ext.as_bytes();
        if ext_matches(e, "png".as_bytes()) {
            Some(Self::Png)
        } else if ext_matches(e, "jpg".as_bytes()) || ext_matches(e, "jpeg".as_bytes()) {
            Some(Self::Jpeg)
        } else if ext_matches(e, "gif".as_bytes()) {
            Some(Self::Gif)
        } else if ext_matches(e, "bmp".as_bytes()) {
            Some(Self::Bmp)
        } else if ext_matches(e, "webp".as_bytes()) {
            Some(Self::WebP)
        } else {
            None
        }
    }

    /// The MIME type of the format.
    pub fn mime_type(&self) -> (r: &'static str)
        ensures
            *self == ImageFormat::Png ==> r@ == "image/png"@,
            *self == ImageFormat::Jpeg ==> r@ == "image/jpeg"@,
            *self == ImageFormat::Gif ==> r@ == "image/gif"@,
            *self == ImageFormat::Bmp ==> r@ == "image/bmp"@,
            *self == ImageFormat::WebP ==> r@ == "image/webp"@,
    {
        match self {
            Self::Png => "image/png",
            Self::Jpeg => "image/jpeg",
            Self::Gif => "image/gif",
            Self::Bmp => "image/bmp",
            Self::WebP => "image/webp",
        }
    }
}

/// A big-endian 32-bit quantity from four bytes.
pub open spec fn u32_be(b0: u8, b1: u8, b2: u8, b3: u8) -> u32 {
    (b0 * 0x1000000 + b1 * 0x10000 + b2 * 0x100 + b3) as u32
}

/// A big-endian 16-bit quantity from two bytes, widened.
pub open spec fn u16_be(hi: u8, lo: u8) -> u32 {
    (hi * 0x100 + lo) as u32
}

/// A little-endian 16-bit quantity from two bytes, widened.
pub open spec fn u16_le(lo: u8, hi: u8) -> u32 {
    (hi * 0x100 + lo) as u32
}

/// PNG dimensions read from the IHDR chunk, or a 100x100 placeholder for a
/// header too short.
pub open spec fn spec_png_dims(d: Seq<u8>) -> (u32, u32) {
    if d.len() < 24 {
        (100u32, 100u32)
    } else {
        (u32_be(d[16], d[17], d[18], d[19]), u32_be(d[20], d[21], d[22], d[23]))
    }
}

/// The first start-of-frame marker hit of a JPEG scan from `i`, or the
/// 100x100 placeholder when none is found.
pub open spec fn spec_jpeg_scan(d: Seq<u8>, i: int) -> (u32, u32)
    decreases d.len() - i,
{
    if i < 0 || i >= d.len() - 9 {
        (100u32, 100u32)
    } else {
        if d[i] == 0xff && (d[i + 1] & 0xf0) == 0xc0 && (d[i + 1] & 0x0f) != 0 && u16_be(
            d[i + 7],
            d[i + 8],
        ) > 0 && u16_be(d[i + 5], d[i + 6]) > 0 {
            (u16_be(d[i + 7], d[i + 8]), u16_be(d[i + 5], d[i + 6]))
        } else {
            spec_jpeg_scan(d, i + 1)
        }
    }
}

/// JPEG dimensions from the first valid start-of-frame marker, after the
/// usual signature check.
pub open spec fn spec_jpeg_dims(d: Seq<u8>) -> (u32, u32) {
    if d.len() < 4 || d[0] != 0xff || d[1] != 0xd8 {
        (100u32, 100u32)
    } else {
        spec_jpeg_scan(d, 0)
    }
}

/// GIF dimensions from the logical screen descriptor, or the placeholder.
pub open spec fn spec_gif_dims(d: Seq<u8>) -> (u32, u32) {
    if d.len() < 10 {
        (100u32, 100u32)
    } else {
        (u16_le(d[6], d[7]), u16_le(d[8], d[9]))
    }
}

/// Parse PNG dimensions from the header.
fn parse_png_dimensions(data: &[u8]) -> (r: (u32, u32))
    ensures
        r == spec_png_dims(data@),
{
    if data.len() < 24 {
        return (100, 100);
    }
    let w = (data[16] as u32) * 0x1000000 + (data[17] as u32) * 0x10000 + (data[18] as u32) * 0x100
        + (data[19] as u32);
    let h = (data[20] as u32) * 0x1000000 + (data[21] as u32) * 0x10000 + (data[22] as u32) * 0x100
        + (data[23] as u32);
    (w, h)
}

/// Parse JPEG dimensions from the first start-of-frame marker.
fn parse_jpeg_dimensions(data: &[u8]) -> (r: (u32, u32))
    ensures
        r == spec_jpeg_dims(data@),
{
    if data.len() < 4 || data[0] != 0xff || data[1] != 0xd8 {
        return (100, 100);
    }
    let n = data.len();
    let mut i: usize = 0;
    while n >= 9 && i < n - 9
        invariant
            n == data@.len(),
            n >= 4,
            i <= n,
            data@[0] == 0xff,
            data@[1] == 0xd8,
            spec_jpeg_scan(data@, 0) == spec_jpeg_scan(data@, i as int),
        decreases n - i,
    {
        if data[i] == 0xff && (data[i + 1] & 0xf0) == 0xc0 && (data[i + 1] & 0x0f) != 0 {
            let height = (data[i + 5] as u32) * 0x100 + (data[i + 6] as u32);
            let width = (data[i + 7] as u32) * 0x100 + (data[i + 8] as u32);
            if width > 0 && height > 0 {
                proof {
                    assert(spec_jpeg_scan(data@, i as int) == (width, height));
                }
                return (width, height);
            }
        }
        i += 1;
    }
    (100, 100)
}

/// Parse GIF dimensions from the header.
fn parse_gif_dimensions(data: &[u8]) -> (r: (u32, u32))
    ensures
        r == spec_gif_dims(data@),
{
    if data.len() < 10 {
        return (100, 100);
    }
    let w = (data[7] as u32) * 0x100 + (data[6] as u32);
    let h = (data[9] as u32) * 0x100 + (data[8] as u32);
    (w, h)
}

/// The pixel-count guess the size-based fallback works from.
pub open spec fn fallback_pixels(len: nat) -> nat {
    (len / 10) * 3
}

/// Estimate image dimensions without decoding: exact header parses for the
/// formats whose headers are plain, and a square side from a size-based
/// pixel guess otherwise.
pub fn estimate_dimensions(data: &[u8], format: &ImageFormat) -> (r: (u32, u32))
    ensures
        *format == ImageFormat::Png ==> r == spec_png_dims(data@),
        *format == ImageFormat::Jpeg ==> r == spec_jpeg_dims(data@),
        *format == ImageFormat::Gif ==> r == spec_gif_dims(data@),
        (*format == ImageFormat::Bmp || *format == ImageFormat::WebP) ==> {
            &&& r.0 == r.1
            &&& r.0 as int * r.0 as int <= fallback_pixels(data@.len())
            &&& (r.0 == u32::MAX || (r.0 + 1) * (r.0 + 1) > fallback_pixels(data@.len()))
        },
{
    match format {
        ImageFormat::Png => parse_png_dimensions(data),
        ImageFormat::Jpeg => parse_jpeg_dimensions(data),
        ImageFormat::Gif => parse_gif_dimensions(data),
        _ => {
            let pixels = (data.len() as u64 / 10) * 3;
            let side = isqrt_u64(pixels);
            let side32 = if side > 0xffff_ffff {
                u32::MAX
            } else {
                side as u32
            };
            proof {
                if side > 0xffff_ffff {
                    assert((0xffff_ffffu64 as int) * (0xffff_ffffu64 as int) < (side as int)
                        * (side as int)) by (nonlinear_arith)
                        requires
                            side > 0xffff_ffffu64,
                    ;
                }
            }
            (side32, side32)
        },
    }
}

/// Image metadata.
#[derive(Debug, Clone)]
pub struct ImageMeta {
    /// Original filename.
    pub filename: String,
    /// Image format.
    pub format: ImageFormat,
    /// Width in pixels.
    pub width: u32,
    /// Height in pixels.
    pub height: u32,
    /// File size in bytes.
    pub size: usize,
}

/// The mathematical content of an [`ImageMessage`].
pub ghost struct ImageMessageV {
    pub filename: Seq<char>,
    pub format: ImageFormat,
    pub width: u32,
    pub height: u32,
    pub size: usize,
    pub data: Seq<u8>,
    pub sender_public_key: Seq<u8>,
    pub timestamp: u64,
    pub signature: Seq<u8>,
}

/// A signed image for transfer.
#[derive(Debug, Clone)]
pub struct ImageMessage {
    /// Image metadata.
    pub meta: ImageMeta,
    /// Image data, encoded in its original format.
    pub data: Vec<u8>,
    /// Sender's public key for signature verification.
    pub sender_public_key: Vec<u8>,
    /// Timestamp.
    pub timestamp: u64,
    /// Signature over metadata and data.
    pub signature: Vec<u8>,
}

impl View for ImageMessage {
    type V = ImageMessageV;

    open spec fn view(&self) -> ImageMessageV {
        ImageMessageV {
            filename: self.meta.filename@,
            format: self.meta.format,
            width: self.meta.width,
            height: self.meta.height,
            size: self.meta.size,
            data: self.data@,
            sender_public_key: self.sender_public_key@,
            timestamp: self.timestamp,
            signature: self.signature@,
        }
    }
}

/// The exact byte sequence an image message signs: filename, the format
/// tag, the size and the timestamp in little-endian, then the data.
pub open spec fn image_sign_input(v: ImageMessageV) -> Seq<u8> {
    encode_utf8(v.filename) + seq![format_tag(v.format)] + spec_u64_to_le_bytes(v.size as u64)
        + spec_u64_to_le_bytes(v.timestamp) + v.data
}

/// The wire form of an image message: filename, format tag, dimensions,
/// size, data, sender key, timestamp, signature.
pub open spec fn spec_image_message_bytes(v: ImageMessageV) -> Seq<u8> {
    lp(encode_utf8(v.filename)) + seq![format_tag(v.format)] + spec_u32_to_le_bytes(v.width)
        + spec_u32_to_le_bytes(v.height) + spec_u64_to_le_bytes(v.size as u64) + lp(v.data) + lp(
        v.sender_public_key,
    ) + spec_u64_to_le_bytes(v.timestamp) + lp(v.signature)
}

impl ImageMessage {
    /// Create a new image message: estimate the dimensions from the
    /// header, then sign filename, format, size, timestamp and data.
    pub fn new(identity: &Identity, filename: String, format: ImageFormat, data: Vec<u8>) -> (r:
        Result<Self, CoreError>)
        ensures
            r matches Ok(m) ==> {
                &&& m@.filename == filename@
                &&& m@.format == format
                &&& m@.size == data@.len()
                &&& m@.data == data@
                &&& m@.sender_public_key == identity.pk()
                &&& m@.signature == ed25519_sig_of(identity.seed(), image_sign_input(m@))
                &&& ed25519_verifies(m@.sender_public_key, image_sign_input(m@), m@.signature)
                &&& (format == ImageFormat::Png ==> (m@.width, m@.height) == spec_png_dims(data@))
                &&& (format == ImageFormat::Jpeg ==> (m@.width, m@.height) == spec_jpeg_dims(
                    data@,
                ))
                &&& (format == ImageFormat::Gif ==> (m@.width, m@.height) == spec_gif_dims(data@))
            },
            r is Err ==> r->Err_0 == CoreError::ClockUnavailable,
    {
        let timestamp = match epoch_seconds() {
            Ok(t) => t,
            Err(e) => {
                return Err(e);
            },
        };

        let dims = estimate_dimensions(data.as_slice(), &format);
        let meta = ImageMeta {
            filename,
            format,
            width: dims.0,
            height: dims.1,
            size: data.len(),
        };

        let mut sign_data: Vec<u8> = Vec::new();
        push_bytes(&mut sign_data, meta.filename.as_str().as_bytes());
        sign_data.push(format_tag_exec(&format));
        push_u64(&mut sign_data, meta.size as u64);
        push_u64(&mut sign_data, timestamp);
        push_bytes(&mut sign_data, data.as_slice());
        proof {
            assert(sign_data@ =~= encode_utf8(meta.filename@) + seq![format_tag(format)]
                + spec_u64_to_le_bytes(meta.size as u64) + spec_u64_to_le_bytes(timestamp)
                + data@);
        }

        let signature = match identity.sign(sign_data.as_slice()) {
            Ok(s) => s,
            Err(e) => {
                return Err(e);
            },
        };

        let pk = identity.public_key_bytes();
        let mut sender_public_key: Vec<u8> = Vec::new();
        push_bytes(&mut sender_public_key, pk.as_slice());

        Ok(ImageMessage { meta, data, sender_public_key, timestamp, signature })
    }

    /// Verify the image signature against the embedded sender key.
    pub fn verify(&self) -> (r: Result<(), CoreError>)
        ensures
            r is Ok <==> (self@.sender_public_key.len() == 32 && self@.signature.len() == 64
                && ed25519_verifies(
                self@.sender_public_key,
                image_sign_input(self@),
                self@.signature,
            )),
            r is Err ==> (r->Err_0 == CoreError::MalformedInput || r->Err_0
                == CoreError::AuthenticationFailed),
    {
        if self.sender_public_key.len() != 32 {
            return Err(CoreError::MalformedInput);
        }
        let pk = arr32(&self.sender_public_key);

        let mut sign_data: Vec<u8> = Vec::new();
        push_bytes(&mut sign_data, self.meta.filename.as_str().as_bytes());
        sign_data.push(format_tag_exec(&self.meta.format));
        push_u64(&mut sign_data, self.meta.size as u64);
        push_u64(&mut sign_data, self.timestamp);
        push_bytes(&mut sign_data, self.data.as_slice());
        proof {
            assert(sign_data@ =~= image_sign_input(self@));
        }

        crate::crypto::verify_with_key(sign_data.as_slice(), self.signature.as_slice(), &pk)
    }

    /// Serialize to bytes.
    pub fn to_bytes(&self) -> (r: Result<Vec<u8>, CoreError>)
        ensures
            r is Ok,
            r matches Ok(b) ==> b@ == spec_image_message_bytes(self@),
    {
        let mut out: Vec<u8> = Vec::new();
        push_str_lp(&mut out, self.meta.filename.as_str());
        out.push(format_tag_exec(&self.meta.format));
        let w = u32_to_le_bytes(self.meta.width);
        push_bytes(&mut out, w.as_slice());
        let h = u32_to_le_bytes(self.meta.height);
        push_bytes(&mut out, h.as_slice());
        push_u64(&mut out, self.meta.size as u64);
        push_lp(&mut out, self.data.as_slice());
        push_lp(&mut out, self.sender_public_key.as_slice());
        push_u64(&mut out, self.timestamp);
        push_lp(&mut out, self.signature.as_slice());
        Ok(out)
    }
}

/// Spec-level parse of an image message.
pub open spec fn spec_image_message_parse(data: Seq<u8>) -> Option<ImageMessageV> {
    match read_str_spec(data, 0) {
        None => None,
        Some((filename, p1)) => match read_raw_spec(data, p1, 1) {
            None => None,
            Some((tagb, p2)) => match tag_format(tagb[0]) {
                None => None,
                Some(format) => match read_raw_spec(data, p2, 4) {
                    None => None,
                    Some((wb, p3)) => match read_raw_spec(data, p3, 4) {
                        None => None,
                        Some((hb, p4)) => match read_u64_spec(data, p4) {
                            None => None,
                            Some((size64, p5)) => if size64 <= usize::MAX as u64 {
                                match read_lp_spec(data, p5) {
                                    None => None,
                                    Some((d, p6)) => match read_lp_spec(data, p6) {
                                        None => None,
                                        Some((spk, p7)) => match read_u64_spec(data, p7) {
                                            None => None,
                                            Some((ts, p8)) => match read_lp_spec(data, p8) {
                                                None => None,
                                                Some((sig, p9)) => if p9 == data.len() {
                                                    Some(
                                                        ImageMessageV {
                                                            filename,
                                                            format,
                                                            width: vstd::bytes::spec_u32_from_le_bytes(wb),
                                                            height: vstd::bytes::spec_u32_from_le_bytes(hb),
                                                            size: size64 as usize,
                                                            data: d,
                                                            sender_public_key: spk,
                                                            timestamp: ts,
                                                            signature: sig,
                                                        },
                                                    )
                                                } else {
                                                    None
                                                },
                                            },
                                        },
                                    },
                                }
                            } else {
                                None
                            },
                        },
                    },
                },
            },
        },
    }
}

impl ImageMessage {
    /// Deserialize from bytes.
    pub fn from_bytes(data: &[u8]) -> (r: Result<Self, CoreError>)
        ensures
            match spec_image_message_parse(data@) {
                Some(v) => r matches Ok(m) && m@ == v,
                None => r == Err::<Self, CoreError>(CoreError::MalformedInput),
            },
    {
        let mut pos: usize = 0;
        let filename = match read_str(data, &mut pos) {
            Some(s) => s,
            None => {
                return Err(CoreError::MalformedInput);
            },
        };
        let tagv = match read_raw(data, &mut pos, 1) {
            Some(b) => b,
            None => {
                return Err(CoreError::MalformedInput);
            },
        };
        let format = match tag_format_exec(tagv[0]) {
            Some(f) => f,
            None => {
                return Err(CoreError::MalformedInput);
            },
        };
        let wb = match read_raw(data, &mut pos, 4) {
            Some(b) => b,
            None => {
                return Err(CoreError::MalformedInput);
            },
        };
        let hb = match read_raw(data, &mut pos, 4) {
            Some(b) => b,
            None => {
                return Err(CoreError::MalformedInput);
            },
        };
        let width = u32_from_le_bytes(wb.as_slice());
        let height = u32_from_le_bytes(hb.as_slice());
        let size64 = match read_u64(data, &mut pos) {
            Some(x) => x,
            None => {
                return Err(CoreError::MalformedInput);
            },
        };
        if size64 > usize::MAX as u64 {
            return Err(CoreError::MalformedInput);
        }
        let size = size64 as usize;
        let idata = match read_lp(data, &mut pos) {
            Some(b) => b,
            None => {
                return Err(CoreError::MalformedInput);
            },
        };
        let sender_public_key = match read_lp(data, &mut pos) {
            Some(b) => b,
            None => {
                return Err(CoreError::MalformedInput);
            },
        };
        let timestamp = match read_u64(data, &mut pos) {
            Some(x) => x,
            None => {
                return Err(CoreError::MalformedInput);
            },
        };
        let signature = match read_lp(data, &mut pos) {
            Some(b) => b,
            None => {
                return Err(CoreError::MalformedInput);
            },
        };
        if pos != data.len() {
            return Err(CoreError::MalformedInput);
        }
        Ok(
            ImageMessage {
                meta: ImageMeta { filename, format, width, height, size },
                data: idata,
                sender_public_key,
                timestamp,
                signature,
            },
        )
    }
}

/// The format named by a tag byte, computed.
fn tag_format_exec(b: u8) -> (r: Option<ImageFormat>)
    ensures
        r == tag_format(b),
{
    if b == 0 {
        Some(ImageFormat::Png)
    } else if b == 1 {
        Some(ImageFormat::Jpeg)
    } else if b == 2 {
        Some(ImageFormat::Gif)
    } else if b == 3 {
        Some(ImageFormat::Bmp)
    } else if b == 4 {
        Some(ImageFormat::WebP)
    } else {
        None
    }
}

/// Encoding then parsing an image message yields it back unchanged.
#[verifier::rlimit(60)]
pub proof fn lemma_image_message_round_trip(v: ImageMessageV)
    requires
        encode_utf8(v.filename).len() <= u64::MAX,
        v.data.len() <= u64::MAX,
        v.sender_public_key.len() <= u64::MAX,
        v.signature.len() <= u64::MAX,
    ensures
        spec_image_message_parse(spec_image_message_bytes(v)) == Some(v),
{
    vstd::bytes::lemma_auto_spec_u64_to_from_le_bytes();
    vstd::bytes::lemma_auto_spec_u32_to_from_le_bytes();
    let s1 = lp(encode_utf8(v.filename));
    let s2 = seq![format_tag(v.format)];
    let s3 = spec_u32_to_le_bytes(v.width);
    let s4 = spec_u32_to_le_bytes(v.height);
    let s5 = spec_u64_to_le_bytes(v.size as u64);
    let s6 = lp(v.data);
    let s7 = lp(v.sender_public_key);
    let s8 = spec_u64_to_le_bytes(v.timestamp);
    let s9 = lp(v.signature);
    let data = spec_image_message_bytes(v);
    assert(data =~= Seq::<u8>::empty() + s1 + (s2 + s3 + s4 + s5 + s6 + s7 + s8 + s9));
    lemma_read_str_at(Seq::<u8>::empty(), v.filename, s2 + s3 + s4 + s5 + s6 + s7 + s8 + s9);
    assert(data =~= s1 + s2 + (s3 + s4 + s5 + s6 + s7 + s8 + s9));
    lemma_read_raw_at(s1, s2, s3 + s4 + s5 + s6 + s7 + s8 + s9);
    assert(tag_format(s2[0]) == Some(v.format));
    assert(data =~= (s1 + s2) + s3 + (s4 + s5 + s6 + s7 + s8 + s9));
    lemma_read_raw_at(s1 + s2, s3, s4 + s5 + s6 + s7 + s8 + s9);
    assert(data =~= (s1 + s2 + s3) + s4 + (s5 + s6 + s7 + s8 + s9));
    lemma_read_raw_at(s1 + s2 + s3, s4, s5 + s6 + s7 + s8 + s9);
    assert(data =~= (s1 + s2 + s3 + s4) + s5 + (s6 + s7 + s8 + s9));
    lemma_read_u64_at(s1 + s2 + s3 + s4, v.size as u64, s6 + s7 + s8 + s9);
    assert(data =~= (s1 + s2 + s3 + s4 + s5) + s6 + (s7 + s8 + s9));
    lemma_read_lp_at(s1 + s2 + s3 + s4 + s5, v.data, s7 + s8 + s9);
    assert(data =~= (s1 + s2 + s3 + s4 + s5 + s6) + s7 + (s8 + s9));
    lemma_read_lp_at(s1 + s2 + s3 + s4 + s5 + s6, v.sender_public_key, s8 + s9);
    assert(data =~= (s1 + s2 + s3 + s4 + s5 + s6 + s7) + s8 + s9);
    lemma_read_u64_at(s1 + s2 + s3 + s4 + s5 + s6 + s7, v.timestamp, s9);
    assert(data =~= (s1 + s2 + s3 + s4 + s5 + s6 + s7 + s8) + s9 + Seq::<u8>::empty());
    lemma_read_lp_at(s1 + s2 + s3 + s4 + s5 + s6 + s7 + s8, v.signature, Seq::<u8>::empty());
}

/// The format tag byte, computed.
fn format_tag_exec(f: &ImageFormat) -> (r: u8)
    ensures
        r == format_tag(*f),
{
    match f {
        ImageFormat::Png => 0u8,
        ImageFormat::Jpeg => 1u8,
        ImageFormat::Gif => 2u8,
        ImageFormat::Bmp => 3u8,
        ImageFormat::WebP => 4u8,
    }
}

/// The framed width the block-art fallback draws at.
pub open spec fn art_display_width(width: u32) -> int {
    let d = width as int / 8;
    if d < 10 {
        10
    } else if d > 40 {
        40
    } else {
        d
    }
}

/// The framed height the block-art fallback draws at.
pub open spec fn art_display_height(height: u32) -> int {
    let d = height as int / 16;
    if d < 5 {
        5
    } else if d > 20 {
        20
    } else {
        d
    }
}

/// One gradient block character by column and row.
fn gradient_char(x: usize, y: usize) -> (r: &'static str)
    requires
        x <= 40,
        y <= 20,
    ensures
        r@.len() == 1,
{
    proof {
        reveal_strlit("\u{2588}");
        reveal_strlit("\u{2593}");
        reveal_strlit("\u{2592}");
        reveal_strlit("\u{2591}");
        reveal_strlit(" ");
    }
    let idx = (x + y) % 5;
    if idx == 0 {
        "\u{2588}"
    } else if idx == 1 {
        "\u{2593}"
    } else if idx == 2 {
        "\u{2592}"
    } else if idx == 3 {
        "\u{2591}"
    } else {
        " "
    }
}

/// Generate a framed block-art placeholder for image data, sized from the
/// image dimensions; used when the terminal cannot display images.
#[verifier::loop_isolation(false)]
pub fn generate_ascii_art(width: u32, height: u32, _data: &[u8]) -> (r: String)
    ensures
        r@.len() == (art_display_height(height) + 1) * (art_display_width(width) + 3)
            + art_display_width(width) + 2,
        r@[0] == '\u{250c}',
        r@[r@.len() - 1] == '\u{2518}',
{
    proof {
        reveal_strlit("\u{250c}");
        reveal_strlit("\u{2500}");
        reveal_strlit("\u{2510}\n");
        reveal_strlit("\u{2502}");
        reveal_strlit("\u{2502}\n");
        reveal_strlit("\u{2514}");
        reveal_strlit("\u{2518}");
    }
    let dw_raw = (width / 8) as usize;
    let display_width: usize = if dw_raw < 10 {
        10
    } else if dw_raw > 40 {
        40
    } else {
        dw_raw
    };
    let dh_raw = (height / 16) as usize;
    let display_height: usize = if dh_raw < 5 {
        5
    } else if dh_raw > 20 {
        20
    } else {
        dh_raw
    };
    proof {
        assert(display_width as int == art_display_width(width));
        assert(display_height as int == art_display_height(height));
    }

    let mut result = "\u{250c}".to_owned();
    let mut x: usize = 0;
    while x < display_width
        invariant
            x <= display_width,
            result@.len() == 1 + x,
            result@[0] == '\u{250c}',
        decreases display_width - x,
    {
        result.append("\u{2500}");
        x += 1;
    }
    result.append("\u{2510}\n");

    let mut y: usize = 0;
    while y < display_height
        invariant
            y <= display_height,
            result@.len() == (display_width + 3) + y * (display_width + 3),
            result@[0] == '\u{250c}',
        decreases display_height - y,
    {
        result.append("\u{2502}");
        let mut x2: usize = 0;
        while x2 < display_width
            invariant
                x2 <= display_width,
                result@.len() == (display_width + 3) + y * (display_width + 3) + 1 + x2,
                result@[0] == '\u{250c}',
            decreases display_width - x2,
        {
            result.append(gradient_char(x2, y));
            x2 += 1;
        }
        result.append("\u{2502}\n");
        proof {
            assert((y + 1) * (display_width + 3) == y * (display_width + 3) + (display_width
                + 3)) by (nonlinear_arith);
        }
        y += 1;
    }

    result.append("\u{2514}");
    let mut x3: usize = 0;
    while x3 < display_width
        invariant
            x3 <= display_width,
            result@.len() == (display_width + 3) + display_height * (display_width + 3) + 1 + x3,
            result@[0] == '\u{250c}',
        decreases display_width - x3,
    {
        result.append("\u{2500}");
        x3 += 1;
    }
    result.append("\u{2518}");
    proof {
        assert((display_height + 1) * (display_width + 3) == display_height * (display_width + 3)
            + (display_width + 3)) by (nonlinear_arith);
    }
    result
}

/// The integer square root: the largest value whose square does not
/// exceed `n`.
fn isqrt_u64(n: u64) -> (r: u64)
    ensures
        r as int * r as int <= n,
        (r + 1) as int * (r + 1) as int > n,
{
    let top: u64 = 0xffff_ffff;
    if n >= top * top {
        proof {
            assert((0xffff_ffffu64 as int) * (0xffff_ffffu64 as int) <= n);
            assert((0xffff_ffffu64 as int + 1) * (0xffff_ffffu64 as int + 1) > n)
                by (nonlinear_arith)
                requires
                    n <= 0xffff_ffff_ffff_ffffu64,
            ;
        }
        return top;
    }
    let mut lo: u64 = 0;
    let mut hi: u64 = top;
    // Binary search on the answer: lo always squares within n, one past hi
    // always squares beyond it.
    while lo < hi
        invariant
            lo <= hi <= 0xffff_ffff,
            lo as int * lo as int <= n,
            (hi as int + 1) * (hi as int + 1) > n,
        decreases hi - lo,
    {
        let mid = lo + (hi - lo + 1) / 2;
        proof {
            assert(lo < mid <= hi);
            assert((mid as int) * (mid as int) < (0xffff_ffff_ffff_ffffu64 as int))
                by (nonlinear_arith)
                requires
                    0 < mid <= 0xffff_ffffu64,
            ;
        }
        let sq = mid * mid;
        if sq <= n {
            lo = mid;
        } else {
            hi = mid - 1;
        }
    }
    lo
}

} // verus!
