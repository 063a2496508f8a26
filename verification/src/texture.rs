use vstd::prelude::*;
use vstd::arithmetic::div_mod::lemma_fundamental_div_mod_converse;

verus! {

/// Side of the square placeholder texture that a window shows until its
/// client has attached a buffer.
pub const PLACEHOLDER_SIZE: u32 = 256;

/// Whether texel `(x, y)` of a `width` by `height` pattern lies in the
/// four-texel frame.
pub open spec fn is_border_texel(x: int, y: int, width: int, height: int) -> bool {
    x < 4 || x >= width - 4 || y < 4 || y >= height - 4
}

/// Whether texel `(x, y)` lies in an even cell of the 32-texel checkerboard.
pub open spec fn is_even_cell(x: int, y: int) -> bool {
    (x / 32 + y / 32) % 2 == 0
}

/// RGBA of texel `(x, y)`: a cyan frame around a checkerboard of dark grey
/// and lighter grey cells.
pub open spec fn texel_color(x: int, y: int, width: int, height: int) -> Seq<u8> {
    if is_border_texel(x, y, width, height) {
        seq![0u8, 200u8, 255u8, 255u8]
    } else if is_even_cell(x, y) {
        seq![40u8, 44u8, 52u8, 255u8]
    } else {
        seq![60u8, 66u8, 78u8, 255u8]
    }
}

/// Position of channel `channel` of texel `(x, y)` in a row-major RGBA
/// buffer whose rows are `width` texels long.
pub open spec fn texel_index(width: int, x: int, y: int, channel: int) -> int {
    (y * width + x) * 4 + channel
}

/// Byte `i` of the pattern, found from its position in the buffer.
spec fn pattern_byte(width: int, height: int, i: int) -> u8 {
    texel_color((i / 4) % width, (i / 4) / width, width, height)[i % 4]
}

proof fn lemma_pattern_byte_at(width: int, height: int, x: int, y: int, c: int)
    requires
        0 < width,
        0 <= x < width,
        0 <= y,
        0 <= c < 4,
    ensures
        pattern_byte(width, height, texel_index(width, x, y, c)) == texel_color(
            x,
            y,
            width,
            height,
        )[c],
{
    let p: int = y * width + x;
    lemma_fundamental_div_mod_converse(texel_index(width, x, y, c), 4, p, c);
    lemma_fundamental_div_mod_converse(p, width, y, x);
}

fn texel_rgba(x: u32, y: u32, width: u32, height: u32) -> (rgba: (u8, u8, u8, u8))
    ensures
        seq![rgba.0, rgba.1, rgba.2, rgba.3] == texel_color(
            x as int,
            y as int,
            width as int,
            height as int,
        ),
{
    let is_border = x < 4 || x as u64 + 4 >= width as u64 || y < 4 || y as u64 + 4
        >= height as u64;
    let is_check = (x / 32 + y / 32) % 2 == 0;
    if is_border {
        (0, 200, 255, 255)
    } else if is_check {
        (40, 44, 52, 255)
    } else {
        (60, 66, 78, 255)
    }
}

/// The placeholder texture: `width * height` RGBA texels in row-major order,
/// a four-texel cyan frame around a checkerboard of 32-texel cells.
pub fn placeholder_pattern(width: u32, height: u32) -> (pattern: Vec<u8>)
    requires
        width * height * 4 <= usize::MAX,
    ensures
        pattern@.len() == width * height * 4,
        forall|x: int, y: int, c: int|
            0 <= x < width && 0 <= y < height && 0 <= c < 4 ==> #[trigger] pattern@[texel_index(
                width as int,
                x,
                y,
                c,
            )] == texel_color(x, y, width as int, height as int)[c],
{
    let mut pattern: Vec<u8> = Vec::new();
    let mut y: u32 = 0;
    while y < height
        invariant
            y <= height,
            width * height * 4 <= usize::MAX,
            pattern@.len() == y * width * 4,
            forall|i: int|
                0 <= i < pattern@.len() ==> #[trigger] pattern@[i] == pattern_byte(
                    width as int,
                    height as int,
                    i,
                ),
        decreases height - y,
    {
        let mut x: u32 = 0;
        while x < width
            invariant
                y < height,
                x <= width,
                width * height * 4 <= usize::MAX,
                pattern@.len() == (y * width + x) * 4,
                forall|i: int|
                    0 <= i < pattern@.len() ==> #[trigger] pattern@[i] == pattern_byte(
                        width as int,
                        height as int,
                        i,
                    ),
            decreases width - x,
        {
            assert((y * width + x + 1) * 4 <= width * height * 4) by (nonlinear_arith)
                requires
                    x < width,
                    y < height,
            ;
            let rgba = texel_rgba(x, y, width, height);
            let ghost before = pattern@;
            pattern.push(rgba.0);
            pattern.push(rgba.1);
            pattern.push(rgba.2);
            pattern.push(rgba.3);
            assert(pattern@ == before + seq![rgba.0, rgba.1, rgba.2, rgba.3]);
            assert forall|i: int| 0 <= i < pattern@.len() implies #[trigger] pattern@[i]
                == pattern_byte(width as int, height as int, i) by {
                if i >= before.len() {
                    let c: int = i - before.len();
                    assert(i == texel_index(width as int, x as int, y as int, c));
                    lemma_pattern_byte_at(width as int, height as int, x as int, y as int, c);
                } else {
                    assert(pattern@[i] == before[i]);
                }
            }
            x = x + 1;
        }
        assert(pattern@.len() == (y + 1) * width * 4) by (nonlinear_arith)
            requires
                pattern@.len() == (y * width + width) * 4,
        ;
        y = y + 1;
    }
    assert(pattern@.len() == width * height * 4) by (nonlinear_arith)
        requires
            pattern@.len() == y * width * 4,
            y == height,
    ;
    assert forall|x: int, y: int, c: int|
        0 <= x < width && 0 <= y < height && 0 <= c < 4 implies #[trigger] pattern@[texel_index(
        width as int,
        x,
        y,
        c,
    )] == texel_color(x, y, width as int, height as int)[c] by {
        assert(texel_index(width as int, x, y, c) < width * height * 4) by (nonlinear_arith)
            requires
                0 <= x < width,
                0 <= y < height,
                0 <= c < 4,
        ;
        assert(0 <= texel_index(width as int, x, y, c)) by (nonlinear_arith)
            requires
                0 <= x,
                0 <= y,
                0 <= width,
                0 <= c,
        ;
        lemma_pattern_byte_at(width as int, height as int, x, y, c);
    }
    pattern
}

/// What to do with a client buffer that has just been committed.
#[derive(Clone, Copy, Debug, PartialEq, Eq)]
pub enum UploadPlan {
    /// The buffer has no pixels: leave the texture alone.
    Skip,
    /// Make a new texture of the buffer's size (and rescale the quad to the
    /// buffer's aspect ratio), then upload the pixels.
    Recreate,
    /// Upload the pixels into the texture that is there.
    Upload,
}

/// The GPU texture behind a window quad, as far as decisions need it: its
/// size, and whether it (with the bind group that samples it) exists yet.
#[derive(Clone, Copy, Debug, PartialEq, Eq)]
pub struct TextureSlot {
    pub dimensions: (u32, u32),
    pub allocated: bool,
}

/// What a `width` by `height` buffer calls for: nothing when it is empty, a
/// new texture when there is none yet or its size differs, else an upload.
pub open spec fn upload_plan(slot: TextureSlot, width: u32, height: u32) -> UploadPlan {
    if width == 0 || height == 0 {
        UploadPlan::Skip
    } else if slot.dimensions != (width, height) || !slot.allocated {
        UploadPlan::Recreate
    } else {
        UploadPlan::Upload
    }
}

impl TextureSlot {
    /// No texture yet; the size is zero by zero.
    pub fn new() -> (slot: Self)
        ensures
            slot.dimensions == (0u32, 0u32),
            !slot.allocated,
    {
        TextureSlot { dimensions: (0, 0), allocated: false }
    }

    /// Whether the quad still needs its placeholder texture.
    pub fn needs_placeholder(&self) -> (needed: bool)
        ensures
            needed == !self.allocated,
    {
        !self.allocated
    }

    /// Decides what to do with a committed `width` by `height` buffer.
    pub fn plan_upload(&self, width: u32, height: u32) -> (plan: UploadPlan)
        ensures
            plan == upload_plan(*self, width, height),
    {
        if width == 0 || height == 0 {
            UploadPlan::Skip
        } else if self.dimensions.0 != width || self.dimensions.1 != height || !self.allocated {
            UploadPlan::Recreate
        } else {
            UploadPlan::Upload
        }
    }

    /// Records that a `width` by `height` texture has been made.
    pub fn record_texture(&mut self, width: u32, height: u32)
        ensures
            final(self).dimensions == (width, height),
            final(self).allocated,
    {
        self.dimensions = (width, height);
        self.allocated = true;
    }
}

/// Once a texture of a buffer's size has been made, further buffers of that
/// size are uploaded into it, and no placeholder is needed any more.
pub proof fn lemma_recorded_texture_is_reused(width: u32, height: u32)
    requires
        width > 0,
        height > 0,
    ensures
        upload_plan(TextureSlot { dimensions: (width, height), allocated: true }, width, height)
            == UploadPlan::Upload,
{
}

/// An empty buffer never touches the texture.
pub proof fn lemma_empty_buffer_skipped(slot: TextureSlot, width: u32, height: u32)
    requires
        width == 0 || height == 0,
    ensures
        upload_plan(slot, width, height) == UploadPlan::Skip,
{
}

/// A buffer whose size differs from the texture's always gets a new one.
pub proof fn lemma_resize_recreates(slot: TextureSlot, width: u32, height: u32)
    requires
        width > 0,
        height > 0,
        slot.dimensions != (width, height),
    ensures
        upload_plan(slot, width, height) == UploadPlan::Recreate,
{
}

/// The four-texel frame is cyan.
pub proof fn lemma_frame_is_cyan(x: int, y: int, width: int, height: int)
    requires
        x < 4 || x >= width - 4 || y < 4 || y >= height - 4,
    ensures
        texel_color(x, y, width, height) == seq![0u8, 200u8, 255u8, 255u8],
{
}

/// Inside the frame the pattern is a checkerboard of 32-texel cells: dark
/// grey where the cell's column plus row is even, lighter grey where odd.
pub proof fn lemma_interior_is_checkerboard(x: int, y: int, width: int, height: int)
    requires
        4 <= x < width - 4,
        4 <= y < height - 4,
    ensures
        (x / 32 + y / 32) % 2 == 0 ==> texel_color(x, y, width, height) == seq![
            40u8,
            44u8,
            52u8,
            255u8,
        ],
        (x / 32 + y / 32) % 2 != 0 ==> texel_color(x, y, width, height) == seq![
            60u8,
            66u8,
            78u8,
            255u8,
        ],
{
}

/// Interior texels of one 32 by 32 block share their colour, and interior
/// texels of side by side blocks differ.
pub proof fn lemma_blocks_share_and_alternate(
    x1: int,
    y1: int,
    x2: int,
    y2: int,
    width: int,
    height: int,
)
    requires
        4 <= x1 < width - 4,
        4 <= y1 < height - 4,
        4 <= x2 < width - 4,
        4 <= y2 < height - 4,
    ensures
        x1 / 32 == x2 / 32 && y1 / 32 == y2 / 32 ==> texel_color(x1, y1, width, height)
            == texel_color(x2, y2, width, height),
        (x2 / 32 == x1 / 32 + 1 && y1 / 32 == y2 / 32) || (y2 / 32 == y1 / 32 + 1 && x1 / 32
            == x2 / 32) ==> texel_color(x1, y1, width, height) != texel_color(
            x2,
            y2,
            width,
            height,
        ),
{
    lemma_interior_is_checkerboard(x1, y1, width, height);
    lemma_interior_is_checkerboard(x2, y2, width, height);
    let a: int = x1 / 32 + y1 / 32;
    let b: int = x2 / 32 + y2 / 32;
    if (x2 / 32 == x1 / 32 + 1 && y1 / 32 == y2 / 32) || (y2 / 32 == y1 / 32 + 1 && x1 / 32
        == x2 / 32) {
        assert(b == a + 1);
        assert(a % 2 != b % 2);
        assert(seq![40u8, 44u8, 52u8, 255u8][0] != seq![60u8, 66u8, 78u8, 255u8][0]);
    }
}

/// The placeholder's interior texel `(x, y)` starts with red byte 40 (dark
/// grey) when its 32-texel cell's column plus row is even and 60 (lighter
/// grey) when odd; frame texels start with 0 (cyan).
pub proof fn lemma_placeholder_red_channel(pattern: Seq<u8>, width: u32, height: u32, x: int, y: int)
    requires
        pattern.len() == width * height * 4,
        forall|x: int, y: int, c: int|
            0 <= x < width && 0 <= y < height && 0 <= c < 4 ==> #[trigger] pattern[texel_index(
                width as int,
                x,
                y,
                c,
            )] == texel_color(x, y, width as int, height as int)[c],
        0 <= x < width,
        0 <= y < height,
    ensures
        pattern[texel_index(width as int, x, y, 0)] == if x < 4 || x >= width - 4 || y < 4 || y
            >= height - 4 {
            0u8
        } else if (x / 32 + y / 32) % 2 == 0 {
            40u8
        } else {
            60u8
        },
{
    assert(pattern[texel_index(width as int, x, y, 0)] == texel_color(
        x,
        y,
        width as int,
        height as int,
    )[0]);
}

} // verus!
