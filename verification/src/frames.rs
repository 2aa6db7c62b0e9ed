//! The frame store: which decoded frames make an animation, and how they
//! are laid out as the layers of one array texture.
//!
//! Decoding is done elsewhere. This module takes what decoding gave, the
//! size and byte length of each frame or the fact that a file could not be
//! decoded, and either plans the whole upload or refuses it whole: an
//! animation with a frame missing is never shown.

use vstd::prelude::*;

verus! {

/// Bytes per pixel of a decoded frame: red, green, blue, alpha.
pub const BYTES_PER_PIXEL: u32 = 4;

/// What is known of one decoded frame: its size in pixels and the length
/// of its pixel buffer in bytes.
#[derive(Clone, Copy, Debug, PartialEq, Eq)]
pub struct DecodedFrame {
    pub width: u32,
    pub height: u32,
    pub byte_len: usize,
}

/// An animated image as decoded: the size of its canvas and its frames.
#[derive(Clone, Debug, PartialEq, Eq)]
pub struct Animation {
    pub width: u32,
    pub height: u32,
    pub frames: Vec<DecodedFrame>,
}

/// What decoding a frame source gave.
#[derive(Clone, Debug, PartialEq, Eq)]
pub enum FrameSource {
    /// A directory: for each file, in the order of showing, its frame, or
    /// `None` if it could not be decoded.
    Directory { files: Vec<Option<DecodedFrame>> },
    /// A single file: the animated image, or `None` if it could not be
    /// decoded.
    File { animation: Option<Animation> },
}

/// Why a frame source cannot be shown.
#[derive(Clone, Copy, Debug, PartialEq, Eq)]
pub enum FrameError {
    /// The source holds no frame.
    NoFrames,
    /// The frame at this place could not be decoded.
    DecodeFailed { index: usize },
    /// A row of pixels is longer than a copy command can describe.
    TooWide,
    /// There are more frames than an array texture has layers.
    TooManyFrames,
    /// The frame at this place is not as large as the first one.
    SizeMismatch { index: usize },
    /// The pixel buffer of the frame at this place does not hold four
    /// bytes for each pixel.
    BadPixelCount { index: usize },
}

/// How the pixels of a texture are stored.
#[derive(Clone, Copy, Debug, PartialEq, Eq)]
pub enum TextureFormat {
    /// Red, green, blue, alpha, eight bits each, gamma-encoded.
    Rgba8UnormSrgb,
    /// Blue, green, red, alpha, eight bits each, gamma-encoded.
    Bgra8UnormSrgb,
}

/// The array texture that holds the frames, one per layer.
#[derive(Clone, Copy, Debug, PartialEq, Eq)]
pub struct TextureDescriptor {
    pub format: TextureFormat,
    pub width: u32,
    pub height: u32,
    pub depth: u32,
    pub array_layer_count: u32,
    pub mip_level_count: u32,
    pub sample_count: u32,
}

/// The copy of one frame's pixel buffer into its layer.
#[derive(Clone, Copy, Debug, PartialEq, Eq)]
pub struct FrameCopy {
    /// Place of the frame among the decoded frames.
    pub frame: usize,
    /// Where in the pixel buffer the copy starts.
    pub buffer_offset: u64,
    /// Bytes from one row of pixels to the next.
    pub row_pitch: u32,
    /// Rows of the image.
    pub image_height: u32,
    /// The mip level written.
    pub mip_level: u32,
    /// The layer written.
    pub array_layer: u32,
}

/// The upload of a whole animation: the texture and one copy per frame.
#[derive(Clone, Debug, PartialEq, Eq)]
pub struct FrameUpload {
    pub texture: TextureDescriptor,
    pub copies: Vec<FrameCopy>,
}

/// The descriptor of a texture of `total_frame` layers of the given size.
pub open spec fn texture_for(width: u32, height: u32, total_frame: u32) -> TextureDescriptor {
    TextureDescriptor {
        format: TextureFormat::Rgba8UnormSrgb,
        width,
        height,
        depth: 1,
        array_layer_count: total_frame,
        mip_level_count: 1,
        sample_count: 1,
    }
}

/// The copy that brings the frame at `index` into its layer.
pub open spec fn copy_for(index: int, width: u32, height: u32) -> FrameCopy {
    FrameCopy {
        frame: index as usize,
        buffer_offset: 0,
        row_pitch: (BYTES_PER_PIXEL * width) as u32,
        image_height: height,
        mip_level: 0,
        array_layer: index as u32,
    }
}

/// What is wrong with `frame`, standing at `index`, as a layer of the
/// given size.
pub open spec fn frame_fault(frame: DecodedFrame, index: int, width: u32, height: u32) -> Option<
    FrameError,
> {
    if frame.width != width || frame.height != height {
        Some(FrameError::SizeMismatch { index: index as usize })
    } else if frame.byte_len as int != BYTES_PER_PIXEL as int * width as int * height as int {
        Some(FrameError::BadPixelCount { index: index as usize })
    } else {
        None
    }
}

/// Whether `index` is the first place in `frames` at which a frame has a
/// fault.
pub open spec fn is_first_faulty(
    frames: Seq<DecodedFrame>,
    width: u32,
    height: u32,
    index: int,
) -> bool {
    &&& 0 <= index < frames.len()
    &&& frame_fault(frames[index], index, width, height) is Some
    &&& forall|j: int| 0 <= j < index ==> frame_fault(#[trigger] frames[j], j, width, height) is None
}

/// Why `frames` cannot be uploaded as layers of the given size: `None`
/// when they can. The faults are looked for in this order: no frame at
/// all, rows too wide, too many frames, then the first frame of another
/// size or with a pixel buffer of the wrong length.
pub open spec fn upload_fault(frames: Seq<DecodedFrame>, width: u32, height: u32) -> Option<
    FrameError,
> {
    if frames.len() == 0 {
        Some(FrameError::NoFrames)
    } else if BYTES_PER_PIXEL as int * width as int > u32::MAX as int {
        Some(FrameError::TooWide)
    } else if frames.len() > u32::MAX as int {
        Some(FrameError::TooManyFrames)
    } else if exists|i: int| is_first_faulty(frames, width, height, i) {
        let first = choose|i: int| is_first_faulty(frames, width, height, i);
        frame_fault(frames[first], first, width, height)
    } else {
        None
    }
}

/// Whether `upload` brings each of `count` frames of the given size into
/// the layer of its own place.
pub open spec fn is_upload_of(upload: FrameUpload, count: nat, width: u32, height: u32) -> bool {
    &&& count <= u32::MAX
    &&& upload.texture == texture_for(width, height, count as u32)
    &&& upload.copies@.len() == count
    &&& forall|i: int| 0 <= i < count ==> #[trigger] upload.copies@[i] == copy_for(i, width, height)
}

/// Whether `planned` is the outcome owed for `frames` as layers of the
/// given size: their upload when they have no fault, else the fault.
pub open spec fn is_outcome_of(
    planned: Result<FrameUpload, FrameError>,
    frames: Seq<DecodedFrame>,
    width: u32,
    height: u32,
) -> bool {
    match planned {
        Ok(upload) => upload_fault(frames, width, height) is None && is_upload_of(
            upload,
            frames.len(),
            width,
            height,
        ),
        Err(fault) => upload_fault(frames, width, height) == Some(fault),
    }
}

/// Whether every file was decoded.
pub open spec fn all_decoded(decoded: Seq<Option<DecodedFrame>>) -> bool {
    forall|i: int| 0 <= i < decoded.len() ==> (#[trigger] decoded[i]) is Some
}

/// Whether `index` is the first place in `decoded` of a file that could
/// not be decoded.
pub open spec fn is_first_undecoded(decoded: Seq<Option<DecodedFrame>>, index: int) -> bool {
    &&& 0 <= index < decoded.len()
    &&& decoded[index] is None
    &&& forall|j: int| 0 <= j < index ==> (#[trigger] decoded[j]) is Some
}

/// The frames of files that were all decoded.
pub open spec fn decoded_frames(decoded: Seq<Option<DecodedFrame>>) -> Seq<DecodedFrame> {
    decoded.map_values(|frame: Option<DecodedFrame>| frame->0)
}

/// Whether `planned` is the outcome owed for the files of a directory:
/// no file is no animation; the first file that could not be decoded
/// fails the directory; else the frames are laid out at the size of the
/// first one.
pub open spec fn is_outcome_of_directory(
    planned: Result<FrameUpload, FrameError>,
    decoded: Seq<Option<DecodedFrame>>,
) -> bool {
    if decoded.len() == 0 {
        planned == Err::<FrameUpload, FrameError>(FrameError::NoFrames)
    } else if !all_decoded(decoded) {
        exists|i: int|
            is_first_undecoded(decoded, i) && planned == Err::<FrameUpload, FrameError>(
                FrameError::DecodeFailed { index: i as usize },
            )
    } else {
        is_outcome_of(planned, decoded_frames(decoded), decoded[0]->0.width, decoded[0]->0.height)
    }
}

/// Whether `planned` is the outcome owed for an animated image: a file
/// that could not be decoded fails; else the frames are laid out at the
/// size of the canvas.
pub open spec fn is_outcome_of_animation(
    planned: Result<FrameUpload, FrameError>,
    decoded: Option<Animation>,
) -> bool {
    match decoded {
        None => planned == Err::<FrameUpload, FrameError>(FrameError::DecodeFailed { index: 0 }),
        Some(animation) => is_outcome_of(
            planned,
            animation.frames@,
            animation.width,
            animation.height,
        ),
    }
}

/// At most one place is the first faulty one.
pub proof fn lemma_first_faulty_unique(
    frames: Seq<DecodedFrame>,
    width: u32,
    height: u32,
    one: int,
    other: int,
)
    requires
        is_first_faulty(frames, width, height, one),
        is_first_faulty(frames, width, height, other),
    ensures
        one == other,
{
    if one < other {
        assert(frame_fault(frames[one], one, width, height) is None);
    } else if other < one {
        assert(frame_fault(frames[other], other, width, height) is None);
    }
}

/// The descriptor of the array texture for `total_frame` frames.
pub fn create_texture(width: u32, height: u32, total_frame: u32) -> (texture: TextureDescriptor)
    ensures
        texture == texture_for(width, height, total_frame),
{
    TextureDescriptor {
        format: TextureFormat::Rgba8UnormSrgb,
        width,
        height,
        depth: 1,
        array_layer_count: total_frame,
        mip_level_count: 1,
        sample_count: 1,
    }
}

/// Checks one frame against the size of the texture.
pub fn check_frame(frame: &DecodedFrame, index: usize, width: u32, height: u32) -> (fault: Option<
    FrameError,
>)
    ensures
        fault == frame_fault(*frame, index as int, width, height),
{
    if frame.width != width || frame.height != height {
        return Some(FrameError::SizeMismatch { index });
    }
    assert(width as int * height as int <= u64::MAX as int) by (nonlinear_arith)
        requires
            width <= u32::MAX,
            height <= u32::MAX,
    ;
    let pixels: u64 = width as u64 * height as u64;
    let expected: u128 = BYTES_PER_PIXEL as u128 * pixels as u128;
    assert(expected == BYTES_PER_PIXEL as int * width as int * height as int) by (nonlinear_arith)
        requires
            expected == 4 * pixels,
            pixels == width as int * height as int,
    ;
    if frame.byte_len as u128 != expected {
        return Some(FrameError::BadPixelCount { index });
    }
    None
}

/// Plans the upload of `frames` as the layers of one texture of the given
/// size: frame `i` goes to layer `i`, copied row by row from the start of
/// its pixel buffer. Nothing is planned unless every frame fits.
pub fn load_textures_in_gpu(frames: &Vec<DecodedFrame>, width: u32, height: u32) -> (planned:
    Result<FrameUpload, FrameError>)
    ensures
        is_outcome_of(planned, frames@, width, height),
{
    if frames.len() == 0 {
        return Err(FrameError::NoFrames);
    }
    if width > u32::MAX / BYTES_PER_PIXEL {
        return Err(FrameError::TooWide);
    }
    if frames.len() > u32::MAX as usize {
        return Err(FrameError::TooManyFrames);
    }
    let row_pitch: u32 = BYTES_PER_PIXEL * width;
    let mut copies: Vec<FrameCopy> = Vec::new();
    let mut i: usize = 0;
    while i < frames.len()
        invariant
            i <= frames@.len() <= u32::MAX,
            row_pitch == BYTES_PER_PIXEL * width,
            copies@.len() == i,
            forall|k: int| 0 <= k < i ==> #[trigger] copies@[k] == copy_for(k, width, height),
            forall|k: int| 0 <= k < i ==> frame_fault(#[trigger] frames@[k], k, width, height) is None,
        decreases frames@.len() - i,
    {
        match check_frame(&frames[i], i, width, height) {
            Some(fault) => {
                proof {
                    assert(is_first_faulty(frames@, width, height, i as int));
                    let first = choose|f: int| is_first_faulty(frames@, width, height, f);
                    lemma_first_faulty_unique(frames@, width, height, first, i as int);
                }
                return Err(fault);
            },
            None => {},
        }
        copies.push(
            FrameCopy {
                frame: i,
                buffer_offset: 0,
                row_pitch,
                image_height: height,
                mip_level: 0,
                array_layer: i as u32,
            },
        );
        i += 1;
    }
    Ok(FrameUpload { texture: create_texture(width, height, frames.len() as u32), copies })
}

/// Plans the upload of the frames of a directory. `decoded` holds, for
/// each file in the order of showing, what decoding it gave. The first
/// frame sets the size. One file that could not be decoded fails the
/// whole directory, and so does one frame of another size.
pub fn load_textures_from_path(decoded: &Vec<Option<DecodedFrame>>) -> (planned: Result<
    FrameUpload,
    FrameError,
>)
    ensures
        is_outcome_of_directory(planned, decoded@),
{
    if decoded.len() == 0 {
        return Err(FrameError::NoFrames);
    }
    let mut frames: Vec<DecodedFrame> = Vec::new();
    let mut i: usize = 0;
    while i < decoded.len()
        invariant
            i <= decoded@.len(),
            frames@.len() == i,
            forall|k: int| 0 <= k < i ==> (#[trigger] decoded@[k]) is Some,
            forall|k: int| 0 <= k < i ==> #[trigger] frames@[k] == decoded@[k]->0,
        decreases decoded@.len() - i,
    {
        match decoded[i] {
            Some(frame) => {
                frames.push(frame);
            },
            None => {
                assert(is_first_undecoded(decoded@, i as int));
                return Err(FrameError::DecodeFailed { index: i });
            },
        }
        i += 1;
    }
    assert(frames@ =~= decoded_frames(decoded@));
    let first = frames[0];
    load_textures_in_gpu(&frames, first.width, first.height)
}

/// Plans the upload of the frames of one animated image: `None` stands
/// for a file that could not be decoded. The canvas sets the size.
pub fn load_textures_from_gif(decoded: &Option<Animation>) -> (planned: Result<
    FrameUpload,
    FrameError,
>)
    ensures
        is_outcome_of_animation(planned, *decoded),
{
    match decoded {
        None => Err(FrameError::DecodeFailed { index: 0 }),
        Some(animation) => load_textures_in_gpu(
            &animation.frames,
            animation.width,
            animation.height,
        ),
    }
}

/// Plans the upload of a frame source: a directory of still images or
/// one animated image.
pub fn load_textures(source: &FrameSource) -> (planned: Result<FrameUpload, FrameError>)
    ensures
        match source {
            FrameSource::Directory { files } => is_outcome_of_directory(planned, files@),
            FrameSource::File { animation } => is_outcome_of_animation(planned, *animation),
        },
{
    match source {
        FrameSource::Directory { files } => load_textures_from_path(files),
        FrameSource::File { animation } => load_textures_from_gif(animation),
    }
}

/// The bytes of GPU memory that a texture takes: four for each pixel of
/// each layer.
pub fn texture_bytes(texture: &TextureDescriptor) -> (bytes: u128)
    ensures
        bytes == BYTES_PER_PIXEL * texture.width * texture.height * texture.array_layer_count,
{
    let width = texture.width as u128;
    let height = texture.height as u128;
    let layers = texture.array_layer_count as u128;
    assert(4 * width * height * layers <= 4 * 0xFFFF_FFFF * 0xFFFF_FFFF * 0xFFFF_FFFF)
        by (nonlinear_arith)
        requires
            width <= 0xFFFF_FFFF,
            height <= 0xFFFF_FFFF,
            layers <= 0xFFFF_FFFF,
    ;
    assert(4 * width * height <= 4 * 0xFFFF_FFFF * 0xFFFF_FFFF) by (nonlinear_arith)
        requires
            width <= 0xFFFF_FFFF,
            height <= 0xFFFF_FFFF,
    ;
    BYTES_PER_PIXEL as u128 * width * height * layers
}

/// The number of frames that an upload brings to the GPU.
pub fn frame_count(upload: &FrameUpload) -> (total_frame: u32)
    ensures
        total_frame == upload.texture.array_layer_count,
{
    upload.texture.array_layer_count
}

/// Frames that are all of the given size, each with four bytes per
/// pixel, have no fault as long as there is one and they are within the
/// limits of a texture; and the upload owed for them has exactly as many
/// layers and copies as there are frames.
pub proof fn lemma_sound_frames_upload(
    planned: Result<FrameUpload, FrameError>,
    frames: Seq<DecodedFrame>,
    width: u32,
    height: u32,
)
    requires
        is_outcome_of(planned, frames, width, height),
        0 < frames.len() <= u32::MAX,
        BYTES_PER_PIXEL * width <= u32::MAX,
        forall|i: int|
            0 <= i < frames.len() ==> {
                &&& (#[trigger] frames[i]).width == width
                &&& frames[i].height == height
                &&& frames[i].byte_len == BYTES_PER_PIXEL * width * height
            },
    ensures
        planned is Ok,
        planned->Ok_0.texture.array_layer_count == frames.len(),
        planned->Ok_0.copies@.len() == frames.len(),
{
    assert forall|i: int| !is_first_faulty(frames, width, height, i) by {
        if 0 <= i < frames.len() {
            assert(frame_fault(frames[i], i, width, height) is None);
        }
    }
}

/// A directory of which one file could not be decoded gives no upload at
/// all, whatever the other files hold.
pub proof fn lemma_undecoded_file_refuses(
    planned: Result<FrameUpload, FrameError>,
    decoded: Seq<Option<DecodedFrame>>,
    index: int,
)
    requires
        is_outcome_of_directory(planned, decoded),
        0 <= index < decoded.len() <= usize::MAX,
        decoded[index] is None,
    ensures
        planned matches Err(FrameError::DecodeFailed { index: first }) && first <= index
            && decoded[first as int] is None,
{
    assert(!all_decoded(decoded));
    let first = choose|i: int|
        is_first_undecoded(decoded, i) && planned == Err::<FrameUpload, FrameError>(
            FrameError::DecodeFailed { index: i as usize },
        );
    if index < first {
        assert(decoded[index] is Some);
    }
}

/// One frame with a fault is enough to refuse the whole set.
pub proof fn lemma_faulty_frame_refuses(
    frames: Seq<DecodedFrame>,
    width: u32,
    height: u32,
    index: int,
)
    requires
        0 <= index < frames.len(),
        frame_fault(frames[index], index, width, height) is Some,
    ensures
        upload_fault(frames, width, height) is Some,
    decreases index,
{
    if frames.len() == 0 || BYTES_PER_PIXEL as int * width as int > u32::MAX as int || frames.len()
        > u32::MAX as int {
    } else if exists|j: int| 0 <= j < index && frame_fault(frames[j], j, width, height) is Some {
        let j = choose|j: int| 0 <= j < index && frame_fault(frames[j], j, width, height) is Some;
        lemma_faulty_frame_refuses(frames, width, height, j);
    } else {
        assert(is_first_faulty(frames, width, height, index));
        let first = choose|i: int| is_first_faulty(frames, width, height, i);
        assert(frame_fault(frames[first], first, width, height) is Some);
    }
}

} // verus!
