//! Output formats, scaling, encoding and base64 wrapping of captured images.

use vstd::prelude::*;

use crate::text::{ascii_lowercase, is_ascii_text, lowercase, same_text, to_lowercase};

verus! {

/// Supported image output formats.
#[derive(Debug, Clone, Copy, PartialEq, Eq, Structural)]
pub enum ImageFormat {
    Png,
    Jpeg,
}

impl Default for ImageFormat {
    fn default() -> (r: Self)
        ensures
            r == ImageFormat::Png,
    {
        ImageFormat::Png
    }
}

/// The format that a lower-cased format name stands for: `jpeg` and `jpg` name
/// JPEG; anything else, and no name at all, means PNG.
pub open spec fn format_of_lowercase(name: Option<Seq<char>>) -> ImageFormat {
    match name {
        Some(n) => if n == "jpeg"@ || n == "jpg"@ {
            ImageFormat::Jpeg
        } else {
            ImageFormat::Png
        },
        None => ImageFormat::Png,
    }
}

/// The format that a format name stands for, whatever its case.
pub open spec fn format_of_name(name: Option<Seq<char>>) -> ImageFormat {
    match name {
        Some(n) => format_of_lowercase(Some(lowercase(n))),
        None => ImageFormat::Png,
    }
}

/// The view of an optional text.
pub open spec fn opt_view(s: Option<&str>) -> Option<Seq<char>> {
    match s {
        Some(t) => Some(t@),
        None => None,
    }
}

impl ImageFormat {
    /// The MIME type of the format.
    pub open spec fn mime(self) -> Seq<char> {
        match self {
            ImageFormat::Png => "image/png"@,
            ImageFormat::Jpeg => "image/jpeg"@,
        }
    }

    pub fn mime_type(&self) -> (r: &'static str)
        ensures
            r@ == self.mime(),
    {
        match self {
            ImageFormat::Png => "image/png",
            ImageFormat::Jpeg => "image/jpeg",
        }
    }

    /// The format named by an already lower-cased name.
    pub fn from_lowercase(s: Option<&str>) -> (r: Self)
        ensures
            r == format_of_lowercase(opt_view(s)),
    {
        match s {
            Some(n) => {
                if same_text(n, "jpeg") || same_text(n, "jpg") {
                    ImageFormat::Jpeg
                } else {
                    ImageFormat::Png
                }
            },
            None => ImageFormat::Png,
        }
    }

    /// The format named by `s`, compared without regard to case; PNG by default.
    pub fn from_str_opt(s: Option<&str>) -> (r: Self)
        ensures
            r == format_of_name(opt_view(s)),
            s matches Some(n) ==> (is_ascii_text(n@) ==> r == format_of_lowercase(
                Some(ascii_lowercase(n@)),
            )),
    {
        match s {
            Some(n) => {
                let lower = to_lowercase(n);
                Self::from_lowercase(Some(lower.as_str()))
            },
            None => ImageFormat::Png,
        }
    }
}


/// Default maximum width for screenshots.
pub const DEFAULT_MAX_WIDTH: u32 = 1920;

/// The failure `image`'s encoders report.
#[verifier::external_type_specification]
#[verifier::external_body]
pub struct ExImageError(image::ImageError);

/// An RGBA image with 8 bits per channel: `width * height` pixels of four
/// bytes each, row by row.
pub struct Image {
    width: u32,
    height: u32,
    pixels: Vec<u8>,
}

impl View for Image {
    /// Width, height and the RGBA bytes.
    type V = (u32, u32, Seq<u8>);

    closed spec fn view(&self) -> (u32, u32, Seq<u8>) {
        (self.width, self.height, self.pixels@)
    }
}

/// The byte count of an RGBA image of the given size.
pub open spec fn rgba_len(width: u32, height: u32) -> int {
    4 * width * height
}

/// How the byte count of an RGBA image relates to its pixel count.
proof fn lemma_rgba_len(width: u32, height: u32)
    ensures
        rgba_len(width, height) == 4 * (width * height),
        0 <= width * height <= rgba_len(width, height),
{
    assert(0 <= width * height) by (nonlinear_arith);
    assert(4 * width * height == 4 * (width * height)) by (nonlinear_arith);
}

impl Image {
    #[verifier::type_invariant]
    spec fn well_formed(self) -> bool {
        self.pixels@.len() == rgba_len(self.width, self.height)
    }

    /// The image of the given size holding `pixels`, if the bytes are exactly
    /// four per pixel.
    pub fn from_rgba(width: u32, height: u32, pixels: Vec<u8>) -> (r: Option<Image>)
        ensures
            r is Some <==> pixels@.len() == rgba_len(width, height),
            r matches Some(img) ==> img@ == (width, height, pixels@),
    {
        let n = pixels.len();
        proof {
            lemma_rgba_len(width, height);
        }
        match (width as usize).checked_mul(height as usize) {
            Some(area) => match area.checked_mul(4) {
                Some(total) => {
                    if total == n {
                        Some(Image { width, height, pixels })
                    } else {
                        None
                    }
                },
                None => None,
            },
            None => None,
        }
    }

    /// A fully transparent black image of the given size; `None` when its bytes
    /// would not fit in memory's address range.
    pub fn blank(width: u32, height: u32) -> (r: Option<Image>)
        ensures
            r is Some <==> rgba_len(width, height) <= usize::MAX,
            r matches Some(img) ==> img@ == (
                width,
                height,
                Seq::new(rgba_len(width, height) as nat, |i: int| 0u8),
            ),
    {
        proof {
            lemma_rgba_len(width, height);
        }
        match (width as usize).checked_mul(height as usize) {
            Some(area) => match area.checked_mul(4) {
                Some(total) => {
                    let pixels = vec![0u8; total];
                    proof {
                        assert forall|i: int| 0 <= i < pixels@.len() implies pixels@[i] == 0u8 by {
                            assert(cloned(0u8, pixels@[i]));
                        }
                        assert(pixels@ =~= Seq::new(rgba_len(width, height) as nat, |i: int| 0u8));
                    }
                    Some(Image { width, height, pixels })
                },
                None => None,
            },
            None => None,
        }
    }

    pub fn width(&self) -> (r: u32)
        ensures
            r == self@.0,
    {
        self.width
    }

    pub fn height(&self) -> (r: u32)
        ensures
            r == self@.1,
    {
        self.height
    }

    /// The RGBA bytes, row by row.
    pub fn as_rgba(&self) -> (r: &[u8])
        ensures
            r@ == self@.2,
    {
        self.pixels.as_slice()
    }

    /// A copy of this image.
    fn duplicate(&self) -> (r: Image)
        ensures
            r@ == self@,
    {
        proof {
            use_type_invariant(self);
        }
        let pixels = self.pixels.clone();
        proof {
            assert(pixels@ =~= self.pixels@);
        }
        Image { width: self.width, height: self.height, pixels }
    }
}

/// What `DynamicImage::resize(nwidth, nheight, FilterType::Lanczos3)` gives an
/// RGBA image of `width` x `height` holding `pixels`: the size it picks (the
/// largest of the same aspect ratio within the bounds, as its own
/// floating-point arithmetic works it out) and the set of RGBA buffers its
/// Lanczos filter may produce at that size. The buffers form a set because the
/// filter weights come from `f32::sin`, whose last bits the standard library
/// leaves to the platform.
pub uninterp spec fn lanczos3_resize(
    width: u32,
    height: u32,
    pixels: Seq<u8>,
    nwidth: u32,
    nheight: u32,
) -> (u32, u32, Set<Seq<u8>>);

/// Calls `DynamicImage::resize(nwidth, nheight, FilterType::Lanczos3)` on the
/// RGBA image. Claims, from `resize`'s source and documentation: the new size
/// is the one `lanczos3_resize` names for these arguments and the bytes are
/// among those it names (so they come from these pixels); the result holds
/// four bytes per pixel (it is read back as an RGBA buffer); it is no wider
/// than `nwidth` and no taller than `nheight` where that bound is at least 1;
/// unless the size asked for is the image's own, neither side is below 1;
/// where a bound is 0 while the matching side is not, the image becomes 1 x 1
/// (the scale factor is then 0 and each side is raised to 1); and where the
/// size asked for has exactly the image's aspect ratio, it is the size given
/// (both `f64` ratios are then within a relative 2^-52 of the exact one, far
/// too little to move a rounded side of at most `u32::MAX`). Which buffer of
/// the named set comes back is not stated.
#[verifier::external_body]
fn lanczos_resize_rgba(width: u32, height: u32, pixels: &Vec<u8>, nwidth: u32, nheight: u32) -> (r: (
    u32,
    u32,
    Vec<u8>,
))
    requires
        pixels@.len() == rgba_len(width, height),
    ensures
        r.0 == lanczos3_resize(width, height, pixels@, nwidth, nheight).0,
        r.1 == lanczos3_resize(width, height, pixels@, nwidth, nheight).1,
        lanczos3_resize(width, height, pixels@, nwidth, nheight).2.contains(r.2@),
        r.2@.len() == rgba_len(r.0, r.1),
        nwidth >= 1 ==> r.0 <= nwidth,
        nheight >= 1 ==> r.1 <= nheight,
        (nwidth, nheight) != (width, height) ==> r.0 >= 1 && r.1 >= 1,
        (nwidth == 0 && width >= 1) || (nheight == 0 && height >= 1) ==> r.0 == 1 && r.1 == 1,
        width >= 1 && height >= 1 && nwidth >= 1 && nheight >= 1 && nheight * width == height
            * nwidth ==> r.0 == nwidth && r.1 == nheight,
{
    let buffer = image::RgbaImage::from_raw(width, height, pixels.clone()).unwrap();
    let resized = image::DynamicImage::ImageRgba8(buffer).resize(
        nwidth,
        nheight,
        image::imageops::FilterType::Lanczos3,
    ).into_rgba8();
    (resized.width(), resized.height(), resized.into_raw())
}

/// The height asked for when an image of `width` x `height` is scaled down to
/// `max_width`: the exact proportional height, rounded down. (Proportional
/// scaling is what is promised; the rounding is this library's choice, and
/// `resize` then fits the aspect ratio within the size asked for.)
pub open spec fn scaled_height(width: u32, height: u32, max_width: u32) -> int {
    (height * max_width) / (width as int)
}

/// `s` is a possible result of `resize_image` on an image with view `v`: the
/// image itself when it fits the limit; otherwise what the Lanczos resize of
/// `v`'s pixels gives when asked for the limit and the proportional height: of
/// the size it picks, one of the buffers it may produce, at least 1 x 1, no
/// wider than the limit (or 1 for a limit of 0), no taller than the original
/// (unless the original is 0 high), and exactly the size asked for when that
/// size keeps the aspect ratio exactly. In every case four bytes per pixel.
pub open spec fn scaled_version(v: (u32, u32, Seq<u8>), max_width: u32, s: (u32, u32, Seq<u8>)) -> bool {
    let h = scaled_height(v.0, v.1, max_width);
    let resized = lanczos3_resize(v.0, v.1, v.2, max_width, h as u32);
    &&& s.2.len() == rgba_len(s.0, s.1)
    &&& v.0 <= max_width ==> s == v
    &&& v.0 > max_width ==> {
        &&& s.0 == resized.0
        &&& s.1 == resized.1
        &&& resized.2.contains(s.2)
        &&& 1 <= s.0
        &&& 1 <= s.1
        &&& max_width >= 1 ==> s.0 <= max_width
        &&& max_width == 0 ==> s.0 == 1
        &&& v.1 >= 1 ==> s.1 <= v.1
        &&& max_width >= 1 && v.1 >= 1 && h * v.0 == v.1 * max_width ==> s.0 == max_width && s.1
            == h
    }
}

proof fn lemma_scaled_height_fits(width: u32, height: u32, max_width: u32)
    requires
        max_width < width,
    ensures
        0 <= scaled_height(width, height, max_width) <= height,
        height * max_width <= u64::MAX,
{
    assert(height * max_width <= height * width) by (nonlinear_arith)
        requires
            max_width < width,
    ;
    assert(height * max_width <= 0xffff_ffff * 0xffff_ffff) by (nonlinear_arith)
        requires
            height <= 0xffff_ffff,
            max_width <= 0xffff_ffff,
    ;
    assert((height * max_width) / (width as int) <= height) by (nonlinear_arith)
        requires
            height * max_width <= height * width,
            width > 0,
            height >= 0,
            max_width >= 0,
    ;
    assert(0 <= (height * max_width) / (width as int)) by (nonlinear_arith)
        requires
            width > 0,
            height >= 0,
            max_width >= 0,
    ;
}

/// Scales the image down to `max_width`, keeping its proportions, when it is
/// wider than that; otherwise returns it unchanged.
pub fn resize_image(img: &Image, max_width: u32) -> (r: Image)
    ensures
        scaled_version(img@, max_width, r@),
        max_width >= 1 ==> r@.0 <= max_width,
        max_width == 0 ==> r@.0 <= 1,
{
    proof {
        use_type_invariant(img);
    }
    if img.width <= max_width {
        let same = img.duplicate();
        proof {
            use_type_invariant(&same);
        }
        return same;
    }
    proof {
        lemma_scaled_height_fits(img.width, img.height, max_width);
    }
    let new_height = ((img.height as u64) * (max_width as u64) / (img.width as u64)) as u32;
    proof {
        let h = scaled_height(img.width, img.height, max_width);
        assert(new_height as int == h);
        if max_width >= 1 && img.height >= 1 && h * img.width == img.height * max_width {
            assert(img.height * max_width >= 1) by (nonlinear_arith)
                requires
                    max_width >= 1,
                    img.height >= 1,
            ;
            assert(h >= 1) by (nonlinear_arith)
                requires
                    h * img.width >= 1,
                    h >= 0,
            ;
        }
    }
    let (width, height, pixels) = lanczos_resize_rgba(
        img.width,
        img.height,
        &img.pixels,
        max_width,
        new_height,
    );
    Image { width, height, pixels }
}

/// What `image`'s encoder gives for an RGBA image of size `width` x `height`
/// holding `pixels` in `format`: the file it writes, or the error with which it
/// refuses the image.
pub uninterp spec fn encoded_image(width: u32, height: u32, pixels: Seq<u8>, format: ImageFormat) -> Result<
    Seq<u8>,
    image::ImageError,
>;

/// The sizes the encoder of a format takes: the PNG encoder refuses only a
/// side of 0, the JPEG encoder any side outside 1 to 65535.
pub open spec fn encoder_accepts(format: ImageFormat, width: u32, height: u32) -> bool {
    match format {
        ImageFormat::Png => width >= 1 && height >= 1,
        ImageFormat::Jpeg => 1 <= width <= 65535 && 1 <= height <= 65535,
    }
}

/// The bytes start as a file of the format must: the PNG signature, or the JPEG
/// start-of-image marker.
pub open spec fn has_signature(format: ImageFormat, bytes: Seq<u8>) -> bool {
    match format {
        ImageFormat::Png => bytes.len() >= 8 && bytes.take(8) == seq![
            0x89u8,
            0x50u8,
            0x4Eu8,
            0x47u8,
            0x0Du8,
            0x0Au8,
            0x1Au8,
            0x0Au8,
        ],
        ImageFormat::Jpeg => bytes.len() >= 2 && bytes[0] == 0xFFu8 && bytes[1] == 0xD8u8,
    }
}

/// Calls `DynamicImage::write_to` with the PNG or JPEG encoder on the RGBA
/// image, into an in-memory buffer. Claims: the outcome, file or error, is
/// `encoded_image` of the arguments; it is a file exactly on the sizes
/// `encoder_accepts` (the PNG writer's header check refuses a zero width or
/// height and nothing else can fail when writing to memory; the JPEG encoder
/// refuses a side that is 0 or does not fit in a `u16` before it writes
/// anything); a file written starts with the format's signature (the PNG
/// encoder writes the signature first, the JPEG encoder the start-of-image
/// marker); and, being a `Vec<u8>`, it holds at most `isize::MAX` bytes. The
/// compressed data itself is not stated.
#[verifier::external_body]
fn write_rgba(width: u32, height: u32, pixels: &Vec<u8>, format: ImageFormat) -> (r: Result<
    Vec<u8>,
    image::ImageError,
>)
    requires
        pixels@.len() == rgba_len(width, height),
    ensures
        match encoded_image(width, height, pixels@, format) {
            Ok(bytes) => r matches Ok(v) && v@ == bytes,
            Err(e) => r == Err::<Vec<u8>, image::ImageError>(e),
        },
        r is Ok <==> encoder_accepts(format, width, height),
        r matches Ok(bytes) ==> has_signature(format, bytes@) && bytes@.len() <= isize::MAX,
{
    let buffer = image::RgbaImage::from_raw(width, height, pixels.clone()).unwrap();
    let target = match format {
        ImageFormat::Png => image::ImageFormat::Png,
        ImageFormat::Jpeg => image::ImageFormat::Jpeg,
    };
    let mut out = std::io::Cursor::new(Vec::new());
    match image::DynamicImage::ImageRgba8(buffer).write_to(&mut out, target) {
        Ok(()) => Ok(out.into_inner()),
        Err(e) => Err(e),
    }
}

/// Why an image could not be turned into a file.
#[derive(Debug)]
pub enum ImagingError {
    /// The encoder refused the image.
    Encode(image::ImageError),
}

impl ImagingError {
    /// The error's text, as its `Display` writes it.
    pub fn message(&self) -> (r: String)
        ensures
            match self {
                ImagingError::Encode(e) => vstd::string::to_string_from_display_ensures::<image::ImageError>(e, r),
            },
    {
        match self {
            ImagingError::Encode(e) => e.to_string(),
        }
    }
}

/// Encodes the image in the given format; the encoder's error, where it
/// refuses the image, is passed on unchanged.
pub fn encode_image(img: &Image, format: ImageFormat) -> (r: Result<Vec<u8>, ImagingError>)
    ensures
        match encoded_image(img@.0, img@.1, img@.2, format) {
            Ok(bytes) => r matches Ok(v) && v@ == bytes,
            Err(e) => r == Err::<Vec<u8>, ImagingError>(ImagingError::Encode(e)),
        },
        r is Ok <==> encoder_accepts(format, img@.0, img@.1),
        r matches Ok(v) ==> has_signature(format, v@) && v@.len() <= isize::MAX,
{
    proof {
        use_type_invariant(img);
    }
    match write_rgba(img.width, img.height, &img.pixels, format) {
        Ok(bytes) => Ok(bytes),
        Err(e) => Err(ImagingError::Encode(e)),
    }
}

/// The char for the 6-bit value `v` in the standard base64 alphabet
/// (`A`-`Z`, `a`-`z`, `0`-`9`, `+`, `/`).
pub open spec fn base64_digit(v: int) -> char {
    if v < 26 {
        (65 + v) as char
    } else if v < 52 {
        (97 + (v - 26)) as char
    } else if v < 62 {
        (48 + (v - 52)) as char
    } else if v == 62 {
        '+'
    } else {
        '/'
    }
}

/// Standard base64 (RFC 4648, with `=` padding): each group of three bytes
/// becomes four chars; a last group of one or two bytes is padded.
pub open spec fn base64_standard(bytes: Seq<u8>) -> Seq<char>
    decreases bytes.len(),
{
    if bytes.len() == 0 {
        seq![]
    } else if bytes.len() == 1 {
        let a = bytes[0] as int;
        seq![base64_digit(a / 4), base64_digit((a % 4) * 16), '=', '=']
    } else if bytes.len() == 2 {
        let a = bytes[0] as int;
        let b = bytes[1] as int;
        seq![base64_digit(a / 4), base64_digit((a % 4) * 16 + b / 16), base64_digit((b % 16) * 4), '=']
    } else {
        let a = bytes[0] as int;
        let b = bytes[1] as int;
        let c = bytes[2] as int;
        seq![
            base64_digit(a / 4),
            base64_digit((a % 4) * 16 + b / 16),
            base64_digit((b % 16) * 4 + c / 64),
            base64_digit(c % 64),
        ] + base64_standard(bytes.skip(3))
    }
}

/// The length of a base64 text: four chars for every three bytes begun.
pub proof fn lemma_base64_len(bytes: Seq<u8>)
    ensures
        base64_standard(bytes).len() == 4 * ((bytes.len() + 2) / 3),
    decreases bytes.len(),
{
    if bytes.len() >= 3 {
        lemma_base64_len(bytes.skip(3));
    }
}

/// Calls `base64::engine::general_purpose::STANDARD.encode`. Claims that the
/// text is the standard base64 encoding with padding, `base64_standard`.
#[verifier::external_body]
fn encode_base64(bytes: &Vec<u8>) -> (r: String)
    requires
        bytes@.len() <= isize::MAX,
    ensures
        r@ == base64_standard(bytes@),
{
    base64::Engine::encode(&base64::engine::general_purpose::STANDARD, bytes)
}

/// The width limit in force: the one asked for, else `DEFAULT_MAX_WIDTH`.
pub open spec fn width_limit(max_width: Option<u32>) -> u32 {
    match max_width {
        Some(m) => m,
        None => DEFAULT_MAX_WIDTH,
    }
}

/// `r` is what encoding the (already scaled) image with view `s` in `format`
/// and wrapping it in base64 answers: the base64 text of the file and the
/// format's MIME type, or, where the encoder refuses the image (exactly on the
/// sizes it does not take), the encoder's own error.
pub open spec fn encoded_answer(
    r: Result<(String, &'static str), ImagingError>,
    s: (u32, u32, Seq<u8>),
    format: ImageFormat,
) -> bool {
    &&& match encoded_image(s.0, s.1, s.2, format) {
        Ok(bytes) => r matches Ok((b64, mime)) && b64@ == base64_standard(bytes) && mime@
            == format.mime() && b64@.len() > 0,
        Err(e) => r == Err::<(String, &'static str), ImagingError>(ImagingError::Encode(e)),
    }
    &&& r is Ok <==> encoder_accepts(format, s.0, s.1)
}

/// Encodes an image as it stands and wraps the file in base64; returns the
/// base64 text and the MIME type of the format.
pub fn encode_scaled(scaled: &Image, format: ImageFormat) -> (r: Result<
    (String, &'static str),
    ImagingError,
>)
    ensures
        encoded_answer(r, scaled@, format),
{
    let bytes = match encode_image(scaled, format) {
        Ok(bytes) => bytes,
        Err(e) => return Err(e),
    };
    let b64 = encode_base64(&bytes);
    proof {
        lemma_base64_len(bytes@);
    }
    Ok((b64, format.mime_type()))
}

/// Full pipeline: scale down to the width limit, encode, wrap in base64.
/// Returns the base64 text and the MIME type of the format. The scaled image
/// is one that `resize_image` may give; the answer is what `encode_scaled`
/// gives for it.
pub fn image_to_base64(img: &Image, max_width: Option<u32>, format: ImageFormat) -> (r: Result<
    (String, &'static str),
    ImagingError,
>)
    ensures
        exists|s: (u32, u32, Seq<u8>)|
            scaled_version(img@, width_limit(max_width), s) && #[trigger] encoded_answer(
                r,
                s,
                format,
            ),
        r matches Ok((b64, mime)) ==> b64@.len() > 0 && mime@ == format.mime(),
        max_width matches Some(m) ==> exists|s: (u32, u32, Seq<u8>)|
            scaled_version(img@, m, s) && #[trigger] encoded_answer(r, s, format),
        max_width is None ==> exists|s: (u32, u32, Seq<u8>)|
            scaled_version(img@, 1920, s) && #[trigger] encoded_answer(r, s, format),
{
    let limit = match max_width {
        Some(m) => m,
        None => DEFAULT_MAX_WIDTH,
    };
    let scaled = resize_image(img, limit);
    let r = encode_scaled(&scaled, format);
    proof {
        assert(scaled_version(img@, width_limit(max_width), scaled@));
        assert(encoded_answer(r, scaled@, format));
        if let Some(m) = max_width {
            assert(limit == m);
        } else {
            assert(limit == 1920);
        }
        assert(scaled_version(img@, limit, scaled@));
    }
    r
}

} // verus!
