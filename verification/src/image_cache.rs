//! Image loading decisions that do not touch the file system: error values,
//! frame timing of animated GIFs.

use vstd::prelude::*;

verus! {

/// Errors that can occur during image loading and caching.
#[derive(Debug, Clone)]
pub enum ImageError {
    /// Image file not found
    NotFound,
    /// Image is currently being loaded
    Loading,
    /// Invalid image format
    InvalidFormat(String),
    /// Other errors (IO, parsing, etc.)
    Failed(String),
}

/// Simple image cache placeholder (kept for now, not actively used).
#[derive(Debug, Default)]
pub struct ImageCache;

impl ImageCache {
    /// Create a new image cache.
    pub fn new() -> (c: ImageCache)
        ensures
            c == ImageCache,
    {
        ImageCache
    }
}

/// Delay of a GIF frame in milliseconds: the frame's delay (in hundredths
/// of a second) times ten, but at least 20 ms (a 50 fps cap).
pub fn gif_frame_delay_ms(delay: u16) -> (ms: u32)
    ensures
        ms == (if delay as int * 10 >= 20 { delay as int * 10 } else { 20 }),
{
    let ms = (delay as u32) * 10;
    if ms >= 20 { ms } else { 20 }
}

/// The byte `c` (0 red, 1 green, 2 blue, 3 alpha) of canvas pixel `p`
/// (row-major, `width` pixels a row) after a GIF frame of `fw` × `fh`
/// RGBA pixels is painted at `left`, `top`: the frame's pixel there when
/// there is one, it lies within the frame's bytes and it is not fully
/// transparent; otherwise the canvas byte as it was.
pub open spec fn composited(
    canvas: Seq<u8>,
    frame: Seq<u8>,
    width: int,
    fw: int,
    fh: int,
    left: int,
    top: int,
    p: int,
    c: int,
) -> u8 {
    let x = p % width - left;
    let y = p / width - top;
    let src = (y * fw + x) * 4;
    if 0 <= x < fw && 0 <= y < fh && src + 3 < frame.len() && frame[src + 3] > 0 {
        frame[src + c]
    } else {
        canvas[p * 4 + c]
    }
}

/// Paint a decoded GIF frame (RGBA bytes, `frame_width` × `frame_height`
/// pixels, placed at `left`, `top`) over an RGBA canvas of `width` ×
/// `height` pixels (see [`composited`]): pixels outside the canvas and
/// fully transparent pixels leave it as it was.
pub fn composite_gif_frame(
    canvas: &mut Vec<u8>,
    width: u32,
    height: u32,
    frame: &[u8],
    frame_width: u16,
    frame_height: u16,
    left: u16,
    top: u16,
)
    requires
        old(canvas)@.len() == width as int * height as int * 4,
        frame_width as int * frame_height as int * 4 <= u32::MAX,
    ensures
        final(canvas)@.len() == old(canvas)@.len(),
        forall|p: int, c: int| 0 <= p < width as int * height as int && 0 <= c < 4
            ==> #[trigger] final(canvas)@[p * 4 + c] == composited(old(canvas)@, frame@, width as int,
                frame_width as int, frame_height as int, left as int, top as int, p, c),
{
    let ghost start = canvas@;
    assert(width as u64 * height as u64 <= u64::MAX) by (nonlinear_arith)
        requires width <= u32::MAX, height <= u32::MAX;
    let total: u64 = width as u64 * height as u64;
    let clen = canvas.len();
    let mut p: u64 = 0;
    while p < total
        invariant
            total == width as int * height as int,
            canvas@.len() == start.len() == total * 4,
            clen == canvas@.len(),
            frame_width as int * frame_height as int * 4 <= u32::MAX,
            p <= total,
            forall|q: int, c: int| 0 <= q < p && 0 <= c < 4
                ==> #[trigger] canvas@[q * 4 + c] == composited(start, frame@, width as int,
                    frame_width as int, frame_height as int, left as int, top as int, q, c),
            forall|i: int| p * 4 <= i < canvas@.len() ==> #[trigger] canvas@[i] == start[i],
        decreases total - p,
    {
        proof {
            assert(width > 0) by (nonlinear_arith)
                requires p < total, total == width as int * height as int, p >= 0;
        }
        let cx = p % (width as u64);
        let cy = p / (width as u64);
        proof {
            assert(p * 4 + 3 < total * 4) by (nonlinear_arith) requires p < total;
        }
        let base = (p * 4) as usize;
        if cx >= left as u64 && cy >= top as u64 && cx - (left as u64) < frame_width as u64 && cy - (top as u64) < frame_height as u64 {
            let x = cx - left as u64;
            let y = cy - top as u64;
            proof {
                assert(y * frame_width + x < frame_width as int * frame_height as int) by (nonlinear_arith)
                    requires y < frame_height, x < frame_width;
            }
            let src = (y * frame_width as u64 + x) * 4;
            if src + 3 < frame.len() as u64 && frame[(src + 3) as usize] > 0 {
                let s = src as usize;
                let mut c: usize = 0;
                while c < 4
                    invariant
                        c <= 4,
                        base as int == p * 4,
                        s as int == src,
                        src + 3 < frame@.len(),
                        canvas@.len() == start.len() == total * 4,
                        p < total,
                        clen == canvas@.len(),
                        base + 3 < canvas@.len(),
                        forall|q: int, c2: int| 0 <= q < p && 0 <= c2 < 4
                            ==> #[trigger] canvas@[q * 4 + c2] == composited(start, frame@, width as int,
                                frame_width as int, frame_height as int, left as int, top as int, q, c2),
                        forall|k: int| 0 <= k < c ==> #[trigger] canvas@[base + k] == frame@[s + k],
                        forall|i: int| base + c <= i < canvas@.len() ==> #[trigger] canvas@[i] == start[i],
                    decreases 4 - c,
                {
                    let flen = frame.len();
                    assert(base + c < clen);
                    assert(s + c < flen);
                    canvas.set(base + c, frame[s + c]);
                    c += 1;
                }
            }
        }
        proof {
            assert forall|c: int| 0 <= c < 4 implies #[trigger] canvas@[p * 4 + c] == composited(start, frame@, width as int,
                frame_width as int, frame_height as int, left as int, top as int, p as int, c) by {
                assert(cx == (p as int) % (width as int));
                assert(cy == (p as int) / (width as int));
            }
        }
        p += 1;
    }
}

} // verus!
