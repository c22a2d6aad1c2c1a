use vstd::prelude::*;
use vstd::slice::slice_subrange;
use vstd::string::StringSliceAdditionalSpecFns;

verus! {

/// The byte of a comma.
pub const COMMA: u8 = 44;

/// The first index at or after `from` that holds a comma, or the length
/// of `b` if there is none.
pub open spec fn field_end(b: Seq<u8>, from: int) -> int
    decreases b.len() - from,
{
    if from >= b.len() {
        b.len() as int
    } else if b[from] == COMMA {
        from
    } else {
        field_end(b, from + 1)
    }
}

/// The second comma-separated field of `b`: what follows the first comma,
/// up to the next comma or the end. There is none without a comma.
pub open spec fn second_field(b: Seq<u8>) -> Option<Seq<u8>> {
    let c = field_end(b, 0);
    if c >= b.len() {
        None
    } else {
        Some(b.subrange(c + 1, field_end(b, c + 1)))
    }
}

proof fn lemma_field_end_bounds(b: Seq<u8>, from: int)
    requires
        0 <= from <= b.len(),
    ensures
        from <= field_end(b, from) <= b.len(),
    decreases b.len() - from,
{
    if from < b.len() && b[from] != COMMA {
        lemma_field_end_bounds(b, from + 1);
    }
}

fn find_comma(b: &[u8], from: usize) -> (r: usize)
    requires
        from <= b@.len(),
    ensures
        r == field_end(b@, from as int),
{
    let mut i = from;
    while i < b.len() && b[i] != COMMA
        invariant
            from <= i <= b@.len(),
            field_end(b@, from as int) == field_end(b@, i as int),
        decreases b.len() - i,
    {
        i = i + 1;
    }
    i
}

/// Takes the payload of a data URL: the second comma-separated field.
pub fn data_field(input: &str) -> (r: Option<Vec<u8>>)
    ensures
        match r {
            Some(v) => second_field(input.spec_bytes()) == Some(v@),
            None => second_field(input.spec_bytes()) is None,
        },
{
    let b = input.as_bytes();
    let c = find_comma(b, 0);
    if c >= b.len() {
        return None;
    }
    let e = find_comma(b, c + 1);
    proof {
        lemma_field_end_bounds(b@, c + 1);
    }
    Some(vstd::slice::slice_to_vec(slice_subrange(b, c + 1, e)))
}

/// What base64 text decodes to, if it is valid.
pub uninterp spec fn base64_bytes(s: Seq<u8>) -> Option<Seq<u8>>;

/// Relies on the standard base64 engine of the base64 crate
/// (`general_purpose::STANDARD.decode`, what `base64::decode` calls): the
/// decoded bytes, or an error for text that is not padded standard base64.
#[verifier::external_body]
fn decode_base64(s: &Vec<u8>) -> (r: Option<Vec<u8>>)
    ensures
        match r {
            Some(v) => base64_bytes(s@) == Some(v@),
            None => base64_bytes(s@) is None,
        },
{
    base64::Engine::decode(&base64::engine::general_purpose::STANDARD, s).ok()
}

/// Whether bytes begin with the eight-byte PNG signature.
pub open spec fn has_png_signature(b: Seq<u8>) -> bool {
    b.len() >= 8 && b.subrange(0, 8) == seq![137u8, 80u8, 78u8, 71u8, 13u8, 10u8, 26u8, 10u8]
}

/// Relies on `image::guess_format`, which tries the PNG signature first:
/// it reports PNG exactly when the bytes begin with that signature.
#[verifier::external_body]
fn guessed_png(b: &[u8]) -> (r: bool)
    ensures
        r == has_png_signature(b@),
{
    matches!(image::guess_format(b), Ok(image::ImageFormat::Png))
}

/// The width and height of the image that bytes decode to, or `None`
/// where they decode to no image.
pub uninterp spec fn image_size(b: Seq<u8>) -> Option<(u32, u32)>;

/// Relies on `image::load_from_memory` and then
/// `GenericImageView::dimensions`: whether bytes decode, and the size of
/// the image, depend on the bytes alone.
#[verifier::external_body]
fn measure_image(b: &[u8]) -> (r: Option<(u32, u32)>)
    ensures
        r == image_size(b@),
{
    image::load_from_memory(b).ok().map(|img| image::GenericImageView::dimensions(&img))
}

/// The encoding an image is written in.
#[derive(Clone, Copy, Debug, PartialEq, Eq, Structural)]
pub enum OutputKind {
    Jpeg,
    Png,
}

/// The encoding that a format name asks for: "jpg", "png", or "original",
/// which keeps PNG input as PNG and writes anything else as JPEG.
pub open spec fn output_spec(format: Seq<char>, png_input: bool) -> Option<OutputKind> {
    if format == "jpg"@ {
        Some(OutputKind::Jpeg)
    } else if format == "png"@ {
        Some(OutputKind::Png)
    } else if format == "original"@ {
        if png_input {
            Some(OutputKind::Png)
        } else {
            Some(OutputKind::Jpeg)
        }
    } else {
        None
    }
}

/// Picks the encoding for a format name.
pub fn output_kind(format: &str, png_input: bool) -> (r: Option<OutputKind>)
    ensures
        r == output_spec(format@, png_input),
{
    if crate::text::same_text(format, "jpg") {
        Some(OutputKind::Jpeg)
    } else if crate::text::same_text(format, "png") {
        Some(OutputKind::Png)
    } else if crate::text::same_text(format, "original") {
        if png_input {
            Some(OutputKind::Png)
        } else {
            Some(OutputKind::Jpeg)
        }
    } else {
        None
    }
}

/// The label of an encoding.
pub open spec fn label_spec(k: OutputKind) -> Seq<char> {
    match k {
        OutputKind::Jpeg => "JPG"@,
        OutputKind::Png => "PNG"@,
    }
}

/// The bytes that the image in `b` is written as, in PNG or else in JPEG
/// at the given quality, or `None` where decoding or encoding fails.
pub uninterp spec fn encoded(b: Seq<u8>, png: bool, quality: u8) -> Option<Seq<u8>>;

/// The quality handed to the encoder: JPEG takes it, PNG has none.
pub open spec fn quality_for(kind: OutputKind, quality: u8) -> u8 {
    match kind {
        OutputKind::Jpeg => quality,
        OutputKind::Png => 0,
    }
}

/// PNG is written without a quality: any two qualities give the same
/// outcome.
pub proof fn lemma_png_ignores_quality(data: Seq<u8>, q1: u8, q2: u8)
    ensures
        encoded(data, true, quality_for(OutputKind::Png, q1)) == encoded(
            data,
            true,
            quality_for(OutputKind::Png, q2),
        ),
{
}

/// Relies on `image::load_from_memory` and then `DynamicImage::write_to`
/// into an in-memory cursor: the outcome depends on the bytes, the
/// encoding and, for JPEG alone, the quality.
#[verifier::external_body]
fn encode_image(b: &[u8], kind: OutputKind, quality: u8) -> (r: Option<Vec<u8>>)
    ensures
        match r {
            Some(v) => encoded(b@, kind == OutputKind::Png, quality_for(kind, quality)) == Some(
                v@,
            ),
            None => encoded(b@, kind == OutputKind::Png, quality_for(kind, quality)) is None,
        },
{
    let format = match kind {
        OutputKind::Jpeg => image::ImageOutputFormat::Jpeg(quality),
        OutputKind::Png => image::ImageOutputFormat::Png,
    };
    let img = image::load_from_memory(b).ok()?;
    let mut buffer = std::io::Cursor::new(Vec::new());
    img.write_to(&mut buffer, format).ok().map(|_| buffer.into_inner())
}

/// Why an image could not be re-encoded.
#[derive(Clone, Copy, Debug, PartialEq, Eq, Structural)]
pub enum CompressError {
    /// The input has no comma, so no payload.
    InvalidInput,
    /// The payload is not valid base64.
    Base64,
    /// The decoded bytes are no image.
    Load,
    /// The format name is not "jpg", "png" or "original".
    UnknownFormat,
    /// The encoder failed.
    Encode,
}

impl CompressError {
    /// The message for this error.
    pub fn message(&self) -> (r: String)
        ensures
            r@ == match self {
                CompressError::InvalidInput => "Invalid base64 input"@,
                CompressError::Base64 => "Failed to decode base64"@,
                CompressError::Load => "Failed to load image"@,
                CompressError::UnknownFormat => "Unknown format"@,
                CompressError::Encode => "Failed to encode image"@,
            },
    {
        match self {
            CompressError::InvalidInput => String::from_str("Invalid base64 input"),
            CompressError::Base64 => String::from_str("Failed to decode base64"),
            CompressError::Load => String::from_str("Failed to load image"),
            CompressError::UnknownFormat => String::from_str("Unknown format"),
            CompressError::Encode => String::from_str("Failed to encode image"),
        }
    }
}

/// A re-encoded image.
pub struct CompressedResult {
    pub bytes: Vec<u8>,
    pub format: String,
    pub width: u32,
    pub height: u32,
}

impl CompressedResult {
    /// The encoded bytes.
    pub fn bytes(&self) -> (r: Vec<u8>)
        ensures
            r@ == self.bytes@,
    {
        self.bytes.clone()
    }

    /// The label of the encoding: "JPG" or "PNG".
    pub fn format(&self) -> (r: String)
        ensures
            r@ == self.format@,
    {
        self.format.clone()
    }

    /// The width in pixels.
    pub fn width(&self) -> (r: u32)
        ensures
            r == self.width,
    {
        self.width
    }

    /// The height in pixels.
    pub fn height(&self) -> (r: u32)
        ensures
            r == self.height,
    {
        self.height
    }
}

/// Re-encodes an image given as a data URL ("data:...;base64,<payload>").
/// The checks come in order: a payload must be there, be base64 and
/// decode as an image; then the format name must be known; then the image
/// is written in the chosen encoding. The result holds those bytes, the
/// label of the encoding and the size of the decoded image.
pub fn compress_image(base64_input: &str, quality: u8, format: &str) -> (r: Result<
    CompressedResult,
    CompressError,
>)
    ensures
        match second_field(base64_input.spec_bytes()) {
            None => r == Err::<CompressedResult, CompressError>(CompressError::InvalidInput),
            Some(payload) => match base64_bytes(payload) {
                None => r == Err::<CompressedResult, CompressError>(CompressError::Base64),
                Some(data) => match image_size(data) {
                    None => r == Err::<CompressedResult, CompressError>(CompressError::Load),
                    Some(size) => match output_spec(format@, has_png_signature(data)) {
                        None => r == Err::<CompressedResult, CompressError>(
                            CompressError::UnknownFormat,
                        ),
                        Some(kind) => match encoded(
                            data,
                            kind == OutputKind::Png,
                            quality_for(kind, quality),
                        ) {
                            None => r == Err::<CompressedResult, CompressError>(
                                CompressError::Encode,
                            ),
                            Some(bytes) => r matches Ok(c) && c.bytes@ == bytes && c.format@
                                == label_spec(kind) && c.width == size.0 && c.height == size.1,
                        },
                    },
                },
            },
        },
{
    let payload = match data_field(base64_input) {
        Some(p) => p,
        None => return Err(CompressError::InvalidInput),
    };
    let data = match decode_base64(&payload) {
        Some(d) => d,
        None => return Err(CompressError::Base64),
    };
    let (width, height) = match measure_image(data.as_slice()) {
        Some(size) => size,
        None => return Err(CompressError::Load),
    };
    let kind = match output_kind(format, guessed_png(data.as_slice())) {
        Some(k) => k,
        None => return Err(CompressError::UnknownFormat),
    };
    let bytes = match encode_image(data.as_slice(), kind, quality) {
        Some(b) => b,
        None => return Err(CompressError::Encode),
    };
    let label = match kind {
        OutputKind::Jpeg => String::from_str("JPG"),
        OutputKind::Png => String::from_str("PNG"),
    };
    Ok(CompressedResult { bytes, format: label, width, height })
}

} // verus!
