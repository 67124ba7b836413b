//! Pixel buffers and the extraction of a rectangle from one.

use vstd::prelude::*;
use crate::screen_cap::error::{ScreenCapError, ScreenCapErrorCode};
use crate::text::{decimal, push_decimal};

verus! {

/// A selection inside a frame, in the frame's pixel coordinates.
#[derive(Debug, Clone, Copy, PartialEq, Eq, Structural)]
pub struct CaptureRect {
    pub x: u32,
    pub y: u32,
    pub width: u32,
    pub height: u32,
}

/// The mathematical content of a pixel buffer: its size and its bytes, four
/// (red, green, blue, alpha) per pixel, rows from top to bottom.
pub struct PixelGrid {
    pub width: nat,
    pub height: nat,
    pub bytes: Seq<u8>,
}

impl PixelGrid {
    /// The bytes are exactly those of `width * height` pixels.
    pub open spec fn wf(self) -> bool {
        self.bytes.len() == 4 * self.width * self.height
    }

    /// Where the pixel in column `i` of row `j` starts among the bytes.
    pub open spec fn offset(self, i: int, j: int) -> int {
        4 * (j * self.width + i)
    }

    /// The four bytes of the pixel in column `i` of row `j`.
    pub open spec fn pixel(self, i: int, j: int) -> Seq<u8> {
        self.bytes.subrange(self.offset(i, j), self.offset(i, j) + 4)
    }

    /// Whether `rect` lies inside this grid.
    pub open spec fn contains_rect(self, rect: CaptureRect) -> bool {
        rect.x + rect.width <= self.width && rect.y + rect.height <= self.height
    }

    /// Whether `self` is the part of `source` that `rect` selects: the size of
    /// `rect`, and pixel for pixel what `source` holds there.
    pub open spec fn is_crop_of(self, source: PixelGrid, rect: CaptureRect) -> bool {
        &&& self.wf()
        &&& self.width == rect.width
        &&& self.height == rect.height
        &&& forall|i: int, j: int|
            0 <= i < rect.width && 0 <= j < rect.height ==> #[trigger] self.pixel(i, j)
                == source.pixel(rect.x + i, rect.y + j)
    }
}

/// The context of an out-of-bounds failure: the frame's size, the requested
/// origin and the requested size.
pub open spec fn bounds_message(grid: PixelGrid, rect: CaptureRect) -> Seq<char> {
    "\nImage Width / Height: "@ + decimal(grid.width) + "/"@ + decimal(grid.height)
        + "\nX, Y: "@ + decimal(rect.x as nat) + ","@ + decimal(rect.y as nat)
        + "\nCapture Area Width / Height: "@ + decimal(rect.width as nat) + "/"@ + decimal(
        rect.height as nat,
    ) + "\n"@
}

/// An owned rectangular grid of RGBA pixels.
#[derive(Debug)]
pub struct PixelBuffer {
    width: u32,
    height: u32,
    data: Vec<u8>,
}

impl View for PixelBuffer {
    type V = PixelGrid;

    closed spec fn view(&self) -> PixelGrid {
        PixelGrid { width: self.width as nat, height: self.height as nat, bytes: self.data@ }
    }
}

/// `4 * w * h` does not shrink when `w` and `h` grow.
proof fn lemma_area_monotonic(w: int, h: int, big_w: int, big_h: int)
    requires
        0 <= w <= big_w,
        0 <= h <= big_h,
    ensures
        0 <= 4 * w * h <= 4 * big_w * big_h,
{
    assert(0 <= w * h <= big_w * big_h) by (nonlinear_arith)
        requires
            0 <= w <= big_w,
            0 <= h <= big_h,
    ;
    assert(4 * w * h == 4 * (w * h)) by (nonlinear_arith);
    assert(4 * big_w * big_h == 4 * (big_w * big_h)) by (nonlinear_arith);
}

/// A byte of a rectangle's row lies inside the frame, at the place the row
/// starts plus its column.
proof fn lemma_row_inside(big_w: int, big_h: int, x: int, w: int, row: int, col: int)
    requires
        0 <= x,
        0 <= w,
        x + w <= big_w,
        0 <= row < big_h,
        0 <= col < 4 * w,
    ensures
        0 <= 4 * (row * big_w + x) + col < 4 * big_w * big_h,
        0 <= 4 * (row * big_w + x) <= 4 * big_w * big_h,
        0 <= row * big_w <= row * big_w + x <= 4 * big_w * big_h,
{
    assert(row * big_w + big_w <= big_h * big_w) by (nonlinear_arith)
        requires
            0 <= row < big_h,
            0 <= big_w,
    ;
    assert(0 <= row * big_w) by (nonlinear_arith)
        requires
            0 <= row,
            0 <= big_w,
    ;
    assert(4 * big_w * big_h == 4 * (big_h * big_w)) by (nonlinear_arith);
}

impl PixelBuffer {
    #[verifier::type_invariant]
    spec fn inv(self) -> bool {
        self.data@.len() == 4 * self.width * self.height
    }

    /// A buffer of the given size over `data`, where `data` holds exactly four
    /// bytes for each pixel; `None` for any other length.
    pub fn from_raw(width: u32, height: u32, data: Vec<u8>) -> (r: Option<PixelBuffer>)
        ensures
            r is Some <==> data@.len() == 4 * width * height,
            r matches Some(b) ==> b@ == (PixelGrid {
                width: width as nat,
                height: height as nat,
                bytes: data@,
            }),
    {
        assert(4 * width * height <= 4 * 0xffff_ffff * 0xffff_ffff) by {
            lemma_area_monotonic(width as int, height as int, 0xffff_ffff, 0xffff_ffff);
        }
        assert((width as int) * (height as int) >= 0) by (nonlinear_arith);
        assert(4 * width * height == 4 * (width * height)) by (nonlinear_arith);
        let pixels: u128 = (width as u128) * (height as u128);
        let wanted: u128 = 4 * pixels;
        if data.len() as u128 == wanted {
            Some(PixelBuffer { width, height, data })
        } else {
            None
        }
    }

    /// The number of pixels in a row.
    pub fn width(&self) -> (w: u32)
        ensures
            w == self@.width,
    {
        self.width
    }

    /// The number of rows.
    pub fn height(&self) -> (h: u32)
        ensures
            h == self@.height,
    {
        self.height
    }

    /// The bytes, four per pixel, rows from top to bottom.
    pub fn as_raw(&self) -> (data: &Vec<u8>)
        ensures
            data@ == self@.bytes,
            self@.wf(),
    {
        proof {
            use_type_invariant(self);
        }
        &self.data
    }

    /// The pixel in column `i` of row `j`, or `None` outside the buffer.
    pub fn get_pixel(&self, i: u32, j: u32) -> (p: Option<[u8; 4]>)
        ensures
            p is Some <==> i < self@.width && j < self@.height,
            p matches Some(px) ==> px@ == self@.pixel(i as int, j as int),
    {
        proof {
            use_type_invariant(self);
        }
        if i >= self.width || j >= self.height {
            return None;
        }
        let total: usize = self.data.len();
        proof {
            lemma_row_inside(
                self.width as int,
                self.height as int,
                i as int,
                1,
                j as int,
                0,
            );
            lemma_row_inside(
                self.width as int,
                self.height as int,
                i as int,
                1,
                j as int,
                3,
            );
        }
        let start: usize = 4 * (j as usize * self.width as usize + i as usize);
        let px: [u8; 4] = [
            self.data[start],
            self.data[start + 1],
            self.data[start + 2],
            self.data[start + 3],
        ];
        assert(px@ =~= self@.pixel(i as int, j as int));
        Some(px)
    }
}

/// Builds the context of an out-of-bounds failure.
fn bounds_text(buffer: &PixelBuffer, rect: CaptureRect) -> (s: String)
    ensures
        s@ == bounds_message(buffer@, rect),
{
    let mut s = String::from_str("\nImage Width / Height: ");
    push_decimal(&mut s, buffer.width() as u64);
    s.append("/");
    push_decimal(&mut s, buffer.height() as u64);
    s.append("\nX, Y: ");
    push_decimal(&mut s, rect.x as u64);
    s.append(",");
    push_decimal(&mut s, rect.y as u64);
    s.append("\nCapture Area Width / Height: ");
    push_decimal(&mut s, rect.width as u64);
    s.append("/");
    push_decimal(&mut s, rect.height as u64);
    s.append("\n");
    s
}

/// Where byte `col` of row `row` of a rectangle stands in the rectangle's own bytes.
spec fn crop_index(w: int, row: int, col: int) -> int {
    row * (4 * w) + col
}

/// Where byte `col` of row `row` of the rectangle at `(x, y)` stands in the
/// bytes of a frame that is `big_w` pixels wide.
spec fn frame_index(big_w: int, x: int, y: int, row: int, col: int) -> int {
    4 * ((y + row) * big_w + x) + col
}

/// The rectangle `rect` of `buffer` as a buffer of its own, or
/// `SubImageOutOfBounds` where `rect` does not lie inside `buffer`. Nothing is
/// clamped: a rectangle that reaches outside by one pixel is refused.
pub fn extract(buffer: &PixelBuffer, rect: CaptureRect) -> (r: Result<PixelBuffer, ScreenCapError>)
    ensures
        r is Ok <==> buffer@.contains_rect(rect),
        r matches Ok(out) ==> out@.is_crop_of(buffer@, rect),
        r matches Err(e) ==> e.is(
            ScreenCapErrorCode::SubImageOutOfBounds,
            Some(bounds_message(buffer@, rect)),
        ),
{
    proof {
        use_type_invariant(buffer);
    }
    if rect.x as u64 + rect.width as u64 > buffer.width as u64 || rect.y as u64
        + rect.height as u64 > buffer.height as u64 {
        return Err(
            ScreenCapError {
                code: ScreenCapErrorCode::SubImageOutOfBounds,
                message: Some(bounds_text(buffer, rect)),
            },
        );
    }
    let ghost big_w = buffer.width as int;
    let ghost big_h = buffer.height as int;
    let ghost x = rect.x as int;
    let ghost y = rect.y as int;
    let ghost w = rect.width as int;
    let ghost h = rect.height as int;
    let mut out: Vec<u8> = Vec::new();
    if rect.width == 0 || rect.height == 0 {
        assert(4 * w * h == 0) by (nonlinear_arith)
            requires
                w == 0 || h == 0,
        ;
        let cropped = PixelBuffer { width: rect.width, height: rect.height, data: out };
        return Ok(cropped);
    }
    let total: usize = buffer.data.len();
    proof {
        lemma_area_monotonic(w, 1, big_w, big_h);
        lemma_area_monotonic(big_w, 1, big_w, big_h);
    }
    let row_len: usize = 4 * (rect.width as usize);
    let frame_w: usize = buffer.width as usize;
    let mut row: usize = 0;
    while row < rect.height as usize
        invariant
            buffer.data@.len() == 4 * big_w * big_h,
            buffer.data@.len() == total,
            big_w == buffer.width,
            big_h == buffer.height,
            x == rect.x,
            y == rect.y,
            w == rect.width,
            h == rect.height,
            x + w <= big_w,
            y + h <= big_h,
            w > 0,
            h > 0,
            row_len == 4 * w,
            frame_w == big_w,
            row <= h,
            out@.len() == row * (4 * w),
            forall|r: int, c: int|
                0 <= r < row && 0 <= c < 4 * w ==> out@[#[trigger] crop_index(w, r, c)]
                    == buffer.data@[frame_index(big_w, x, y, r, c)],
        decreases h - row,
    {
        proof {
            lemma_row_inside(big_w, big_h, x, w, y + row, 0);
        }
        let start: usize = 4 * ((rect.y as usize + row) * frame_w + rect.x as usize);
        let ghost before = out@;
        let mut col: usize = 0;
        while col < row_len
            invariant
                buffer.data@.len() == 4 * big_w * big_h,
                buffer.data@.len() == total,
                x >= 0,
                w > 0,
                x + w <= big_w,
                0 <= y + row < big_h,
                row_len == 4 * w,
                start == 4 * ((y + row) * big_w + x),
                col <= row_len,
                out@.len() == before.len() + col,
                before.len() == row * (4 * w),
                forall|k: int| 0 <= k < before.len() ==> out@[k] == before[k],
                forall|k: int|
                    before.len() <= k < out@.len() ==> out@[k] == buffer.data@[start + (k
                        - before.len())],
            decreases row_len - col,
        {
            proof {
                lemma_row_inside(big_w, big_h, x, w, y + row, col as int);
            }
            out.push(buffer.data[start + col]);
            col += 1;
        }
        proof {
            assert((row + 1) * (4 * w) == row * (4 * w) + 4 * w) by (nonlinear_arith);
            assert forall|r: int, c: int| 0 <= r < row + 1 && 0 <= c < 4 * w implies out@[#[trigger] crop_index(
                w,
                r,
                c,
            )] == buffer.data@[frame_index(big_w, x, y, r, c)] by {
                if r < row {
                    assert(r * (4 * w) + 4 * w <= row * (4 * w)) by (nonlinear_arith)
                        requires
                            0 <= r < row,
                            w > 0,
                    ;
                    assert(crop_index(w, r, c) < before.len());
                    assert(before[crop_index(w, r, c)] == buffer.data@[frame_index(
                        big_w,
                        x,
                        y,
                        r,
                        c,
                    )]);
                } else {
                    assert(crop_index(w, r, c) == before.len() + c);
                    assert(frame_index(big_w, x, y, r, c) == start + c);
                }
            }
        }
        row += 1;
    }
    proof {
        assert(row == h);
        assert(out@.len() == 4 * w * h) by (nonlinear_arith)
            requires
                out@.len() == h * (4 * w),
        ;
    }
    let cropped = PixelBuffer { width: rect.width, height: rect.height, data: out };
    proof {
        assert forall|i: int, j: int| 0 <= i < w && 0 <= j < h implies #[trigger] cropped@.pixel(
            i,
            j,
        ) == buffer@.pixel(x + i, y + j) by {
            let a = cropped@.pixel(i, j);
            let b = buffer@.pixel(x + i, y + j);
            assert(cropped@.offset(i, j) == j * (4 * w) + 4 * i) by (nonlinear_arith)
                requires
                    cropped@.offset(i, j) == 4 * (j * w + i),
            ;
            assert(j * (4 * w) + 4 * w <= h * (4 * w)) by (nonlinear_arith)
                requires
                    0 <= j < h,
                    w > 0,
            ;
            lemma_row_inside(big_w, big_h, x, w, y + j, 4 * i);
            lemma_row_inside(big_w, big_h, x, w, y + j, 4 * i + 3);
            assert(buffer@.offset(x + i, y + j) == 4 * ((y + j) * big_w + x) + 4 * i)
                by (nonlinear_arith)
                requires
                    buffer@.offset(x + i, y + j) == 4 * ((y + j) * big_w + (x + i)),
            ;
            assert(a.len() == 4);
            assert(b.len() == 4);
            assert forall|t: int| 0 <= t < 4 implies a[t] == b[t] by {
                assert(a[t] == cropped.data@[crop_index(w, j, 4 * i + t)]);
                assert(b[t] == buffer.data@[frame_index(big_w, x, y, j, 4 * i + t)]);
            }
            assert(a =~= b);
        }
    }
    Ok(cropped)
}

} // verus!
