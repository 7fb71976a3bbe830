//! Kitty graphics protocol: base64 payloads, animation command sequences
//! and image identifiers.

use vstd::prelude::*;
use crate::text::{chars_of, contains, contains_spec, decimal, decimal_string, lowercase, push_char, push_range, push_str, to_lowercase, str_eq};

verus! {

broadcast use vstd::string::group_string_axioms;

/// Represents an active Kitty animation.
#[derive(Debug)]
pub struct KittyAnimation {
    /// The image ID used in the Kitty protocol
    pub image_id: u32,
    /// Number of frames in the animation
    pub frame_count: usize,
    /// Whether the animation is currently playing
    pub is_playing: bool,
}

/// Source of unique image identifiers, counting up from 1 and wrapping on overflow.
#[derive(Debug)]
pub struct ImageIdCounter {
    pub next: u32,
}

impl ImageIdCounter {
    /// A counter whose first identifier is 1.
    pub fn new() -> (c: ImageIdCounter)
        ensures
            c.next == 1,
    {
        ImageIdCounter { next: 1 }
    }

    /// Generate a unique image ID for Kitty protocol (fetch-and-add).
    pub fn next_image_id(&mut self) -> (id: u32)
        ensures
            id == old(self).next,
            final(self).next == (if old(self).next == u32::MAX { 0 } else { (old(self).next + 1) as u32 }),
    {
        let id = self.next;
        self.next = if self.next == u32::MAX { 0 } else { self.next + 1 };
        id
    }
}

// ---------------------------------------------------------------------------
// Base64
// ---------------------------------------------------------------------------

/// Character of the standard base64 alphabet for a 6-bit value.
pub open spec fn b64_digit(i: int) -> char {
    if i < 26 {
        (65 + i) as char
    } else if i < 52 {
        (97 + (i - 26)) as char
    } else if i < 62 {
        (48 + (i - 52)) as char
    } else if i == 62 {
        '+'
    } else {
        '/'
    }
}

/// The four output characters for the 3-byte group starting at `d[0]`
/// (shorter groups are padded with `=`).
pub open spec fn b64_group(d: Seq<u8>) -> Seq<char> {
    let b0 = d[0];
    let b1: u8 = if d.len() > 1 { d[1] } else { 0 };
    let b2: u8 = if d.len() > 2 { d[2] } else { 0 };
    seq![
        b64_digit((b0 >> 2u8) as int),
        b64_digit((((b0 & 3u8) << 4u8) | (b1 >> 4u8)) as int),
        if d.len() > 1 { b64_digit((((b1 & 15u8) << 2u8) | (b2 >> 6u8)) as int) } else { '=' },
        if d.len() > 2 { b64_digit((b2 & 63u8) as int) } else { '=' },
    ]
}

/// Standard padded base64 encoding.
pub open spec fn base64_spec(d: Seq<u8>) -> Seq<char>
    decreases d.len(),
{
    if d.len() == 0 {
        seq![]
    } else if d.len() <= 3 {
        b64_group(d)
    } else {
        b64_group(d) + base64_spec(d.skip(3))
    }
}

/// The base64 digit for a 6-bit value.
fn b64(i: u8) -> (c: char)
    requires
        i < 64,
    ensures
        c == b64_digit(i as int),
{
    if i < 26 {
        (65u8 + i) as char
    } else if i < 52 {
        (97u8 + (i - 26)) as char
    } else if i < 62 {
        (48u8 + (i - 52)) as char
    } else if i == 62 {
        '+'
    } else {
        '/'
    }
}

proof fn lemma_b64_ranges(b0: u8, b1: u8, b2: u8)
    ensures
        (b0 >> 2u8) < 64,
        (((b0 & 3u8) << 4u8) | (b1 >> 4u8)) < 64,
        (((b1 & 15u8) << 2u8) | (b2 >> 6u8)) < 64,
        (b2 & 63u8) < 64,
{
    assert((b0 >> 2u8) < 64) by (bit_vector);
    assert((((b0 & 3u8) << 4u8) | (b1 >> 4u8)) < 64) by (bit_vector);
    assert((((b1 & 15u8) << 2u8) | (b2 >> 6u8)) < 64) by (bit_vector);
    assert((b2 & 63u8) < 64) by (bit_vector);
}

/// Simple base64 encoding (standard alphabet, `=` padding).
pub fn base64_encode(data: &[u8]) -> (s: String)
    ensures
        s@ == base64_spec(data@),
{
    let mut result = String::new();
    let mut i: usize = 0;
    assert(data@.skip(0) =~= data@);
    while i < data.len()
        invariant
            i <= data.len(),
            base64_spec(data@) == result@ + base64_spec(data@.skip(i as int)),
        decreases data.len() - i,
    {
        let rem = data.len() - i;
        let b0 = data[i];
        let b1: u8 = if rem > 1 { data[i + 1] } else { 0 };
        let b2: u8 = if rem > 2 { data[i + 2] } else { 0 };
        proof { lemma_b64_ranges(b0, b1, b2); }
        let ghost before = result@;
        push_char(&mut result, b64(b0 >> 2));
        push_char(&mut result, b64(((b0 & 3) << 4) | (b1 >> 4)));
        if rem > 1 {
            push_char(&mut result, b64(((b1 & 15) << 2) | (b2 >> 6)));
        } else {
            push_char(&mut result, '=');
        }
        if rem > 2 {
            push_char(&mut result, b64(b2 & 63));
        } else {
            push_char(&mut result, '=');
        }
        proof {
            let d = data@.skip(i as int);
            assert(d[0] == b0);
            assert(d.len() > 1 ==> d[1] == b1);
            assert(d.len() > 2 ==> d[2] == b2);
            assert(result@ =~= before + b64_group(d));
            if d.len() > 3 {
                assert(d.skip(3) =~= data@.skip(i + 3));
            }
        }
        if rem <= 3 {
            i = data.len();
            assert(data@.skip(i as int) =~= Seq::<u8>::empty());
        } else {
            i = i + 3;
        }
    }
    result
}

// ---------------------------------------------------------------------------
// Commands
// ---------------------------------------------------------------------------

/// A graphics command: `ESC _ G <params> [; <payload>] ESC \`.
pub open spec fn kitty_command_spec(params: Seq<char>, payload: Option<Seq<char>>) -> Seq<char> {
    let body = match payload {
        Some(p) => params + seq![';'] + p,
        None => params,
    };
    seq!['\x1b', '_', 'G'] + body + seq!['\x1b', '\\']
}

/// Builds a graphics command (see [`kitty_command_spec`]).
pub fn kitty_command(params: &str, payload: Option<&str>) -> (s: String)
    ensures
        s@ == kitty_command_spec(params@, match payload {
            Some(p) => Some(p@),
            None => None,
        }),
{
    let mut s = String::new();
    push_char(&mut s, '\x1b');
    push_char(&mut s, '_');
    push_char(&mut s, 'G');
    push_str(&mut s, params);
    if let Some(data) = payload {
        push_char(&mut s, ';');
        push_str(&mut s, data);
    }
    push_char(&mut s, '\x1b');
    push_char(&mut s, '\\');
    assert(s@ =~= kitty_command_spec(params@, match payload {
        Some(p) => Some(p@),
        None => None,
    }));
    s
}

/// `prefix + decimal(id) + suffix`.
fn id_params(prefix: &str, id: u32, suffix: &str) -> (s: String)
    ensures
        s@ == prefix@ + decimal(id as nat) + suffix@,
{
    let mut s = String::new();
    push_str(&mut s, prefix);
    let d = decimal_string(id as u64);
    push_str(&mut s, d.as_str());
    push_str(&mut s, suffix);
    assert(s@ =~= prefix@ + decimal(id as nat) + suffix@);
    s
}

/// Command that stops and deletes an animation (`a=d,d=I`).
pub fn delete_animation(animation: &KittyAnimation) -> (s: String)
    ensures
        s@ == kitty_command_spec("a=d,d=I,i="@ + decimal(animation.image_id as nat) + ",q=2"@, None),
{
    let params = id_params("a=d,d=I,i=", animation.image_id, ",q=2");
    kitty_command(params.as_str(), None)
}

/// Command that pauses an animation (`s=1`).
pub fn pause_animation(animation: &KittyAnimation) -> (s: String)
    ensures
        s@ == kitty_command_spec("a=a,i="@ + decimal(animation.image_id as nat) + ",s=1,q=2"@, None),
{
    let params = id_params("a=a,i=", animation.image_id, ",s=1,q=2");
    kitty_command(params.as_str(), None)
}

/// Command that resumes an animation in loop mode (`s=3`).
pub fn resume_animation(animation: &KittyAnimation) -> (s: String)
    ensures
        s@ == kitty_command_spec("a=a,i="@ + decimal(animation.image_id as nat) + ",s=3,q=2"@, None),
{
    let params = id_params("a=a,i=", animation.image_id, ",s=3,q=2");
    kitty_command(params.as_str(), None)
}

/// The terminal speaks the Kitty graphics protocol: `TERM` contains
/// `kitty`, `TERM_PROGRAM` lowercased is `kitty`, or `KITTY_WINDOW_ID` is set.
pub open spec fn is_kitty_spec(term: Option<Seq<char>>, term_program: Option<Seq<char>>, window_id_set: bool) -> bool {
    ||| (term matches Some(t) && contains_spec(t, "kitty"@))
    ||| (term_program matches Some(p) && lowercase(p) == "kitty"@)
    ||| window_id_set
}

/// Whether the terminal supports the Kitty graphics protocol, from the
/// values of `TERM` and `TERM_PROGRAM` (`None` when unset or not Unicode)
/// and whether `KITTY_WINDOW_ID` is set.
pub fn is_kitty_terminal(term: Option<&str>, term_program: Option<&str>, window_id_set: bool) -> (b: bool)
    ensures
        b == is_kitty_spec(
            match term { Some(t) => Some(t@), None => None },
            match term_program { Some(p) => Some(p@), None => None },
            window_id_set,
        ),
{
    if let Some(t) = term {
        let kitty = chars_of("kitty");
        proof { reveal_strlit("kitty"); }
        if contains(&chars_of(t), &kitty) {
            return true;
        }
    }
    if let Some(p) = term_program {
        let l = to_lowercase(p);
        if str_eq(l.as_str(), "kitty") {
            return true;
        }
    }
    window_id_set
}

// ---------------------------------------------------------------------------
// Animation transmission
// ---------------------------------------------------------------------------

/// Payload characters per command.
pub const CHUNK_SIZE: usize = 4096;

/// The payload cut into pieces of `n` characters (the last may be shorter).
pub open spec fn chunks_of(p: Seq<char>, n: nat) -> Seq<Seq<char>>
    decreases p.len(),
{
    if n == 0 || p.len() == 0 {
        seq![]
    } else if p.len() <= n {
        seq![p]
    } else {
        seq![p.take(n as int)] + chunks_of(p.skip(n as int), n)
    }
}

/// `m=1` while more chunks follow, `m=0` on the last.
pub open spec fn more_flag(i: int, count: int) -> Seq<char> {
    if i == count - 1 { "0"@ } else { "1"@ }
}

/// The commands sending one image: the first chunk carries `first_params`
/// (ending just before the `m=` flag), the others `rest_params`, and each
/// the `m` flag.
pub open spec fn image_commands(chunks: Seq<Seq<char>>, first_params: Seq<char>, rest_params: Seq<char>) -> Seq<Seq<char>> {
    Seq::new(chunks.len(), |i: int| kitty_command_spec(
        (if i == 0 { first_params } else { rest_params }) + "m="@ + more_flag(i, chunks.len() as int),
        Some(chunks[i]),
    ))
}

/// Parameters of the base image: transmit and display RGBA at a cell,
/// without moving the cursor.
pub open spec fn base_params(id: u32, width: u32, height: u32, col: u16, row: u16) -> Seq<char> {
    "a=T,f=32,i="@ + decimal(id as nat) + ",s="@ + decimal(width as nat) + ",v="@ + decimal(height as nat)
        + ",c="@ + decimal(col as nat) + ",r="@ + decimal(row as nat) + ",C=1,q=2,"@
}

/// Parameters of an added frame with its delay, replacing the whole image.
pub open spec fn frame_params(id: u32, delay: u32, width: u32, height: u32) -> Seq<char> {
    "a=f,i="@ + decimal(id as nat) + ",z="@ + decimal(delay as nat) + ",r=1,f=32,s="@ + decimal(width as nat)
        + ",v="@ + decimal(height as nat) + ",q=2,"@
}

/// The whole transmission: the base image from the first frame, each
/// further frame, then the command that starts looping.
pub open spec fn animation_spec(
    id: u32,
    width: u32,
    height: u32,
    col: u16,
    row: u16,
    frames: Seq<(Seq<u8>, u32)>,
) -> Seq<Seq<char>> {
    image_commands(chunks_of(base64_spec(frames[0].0), CHUNK_SIZE as nat), base_params(id, width, height, col, row), ""@)
        + frames_commands(id, width, height, frames, frames.len() as int)
        + seq![kitty_command_spec("a=a,i="@ + decimal(id as nat) + ",s=3,v=0,q=2"@, None)]
}

/// The commands adding frames `1..n`.
pub open spec fn frames_commands(id: u32, width: u32, height: u32, frames: Seq<(Seq<u8>, u32)>, n: int) -> Seq<Seq<char>>
    decreases n,
{
    if n <= 1 || n > frames.len() {
        seq![]
    } else {
        frames_commands(id, width, height, frames, n - 1) + image_commands(
            chunks_of(base64_spec(frames[n - 1].0), CHUNK_SIZE as nat),
            frame_params(id, frames[n - 1].1, width, height),
            "a=f,"@,
        )
    }
}

/// Appends the commands sending one image (see [`image_commands`]).
fn push_image_commands(out: &mut Vec<String>, payload: &str, first_params: &str, rest_params: &str)
    ensures
        final(out)@.len() == old(out)@.len() + image_commands(chunks_of(payload@, CHUNK_SIZE as nat), first_params@, rest_params@).len(),
        forall|k: int| 0 <= k < old(out)@.len() ==> (#[trigger] final(out)@[k]) == old(out)@[k],
        forall|k: int| 0 <= k < image_commands(chunks_of(payload@, CHUNK_SIZE as nat), first_params@, rest_params@).len()
            ==> (#[trigger] final(out)@[old(out)@.len() + k])@
                == image_commands(chunks_of(payload@, CHUNK_SIZE as nat), first_params@, rest_params@)[k],
{
    let v = crate::text::chars_of(payload);
    let ghost cs = chunks_of(v@, CHUNK_SIZE as nat);
    let ghost cmds = image_commands(cs, first_params@, rest_params@);
    let ghost start = out@;
    let count = chunk_count(v.len());
    proof { lemma_chunks(v@, CHUNK_SIZE as nat); }
    let mut i: usize = 0;
    while i < count
        invariant
            v@ == payload@,
            cs == chunks_of(v@, CHUNK_SIZE as nat),
            cmds == image_commands(cs, first_params@, rest_params@),
            count == cs.len(),
            count as int == (if v@.len() == 0 { 0 } else { (v@.len() - 1) / 4096 + 1 }),
            forall|j: int| 0 <= j < cs.len() ==> #[trigger] cs[j] == v@.subrange(j * 4096, if (j + 1) * 4096 <= v@.len() { (j + 1) * 4096 } else { v@.len() as int }),
            i <= count,
            out@.len() == start.len() + i,
            forall|k: int| 0 <= k < start.len() ==> (#[trigger] out@[k]) == start[k],
            forall|k: int| 0 <= k < i ==> (#[trigger] out@[start.len() + k])@ == cmds[k],
        decreases count - i,
    {
        let vlen = v.len();
        proof {
            assert(v@.len() > 0);
            assert(vlen == v@.len());
            let l = v@.len() as int;
            assert(i * 4096 <= l - 1) by (nonlinear_arith)
                requires
                    i < count,
                    count == (l - 1) / 4096 + 1,
                    l > 0;
        }
        let from = i * 4096;
        let to = if v.len() - from <= 4096 { v.len() } else { from + 4096 };
        let mut params = String::new();
        if i == 0 {
            push_str(&mut params, first_params);
        } else {
            push_str(&mut params, rest_params);
        }
        push_str(&mut params, "m=");
        if i == count - 1 {
            push_str(&mut params, "0");
        } else {
            push_str(&mut params, "1");
        }
        let mut chunk = String::new();
        push_range(&mut chunk, &v, from, to);
        let cmd = kitty_command(params.as_str(), Some(chunk.as_str()));
        proof {
            assert(cs[i as int] == v@.subrange(from as int, to as int));
        }
        out.push(cmd);
        i += 1;
    }
}

/// Number of chunks of a payload of `len` characters.
fn chunk_count(len: usize) -> (n: usize)
    ensures
        n as int == (if len == 0 { 0 } else { (len - 1) / 4096 + 1 }),
{
    if len == 0 { 0 } else { (len - 1) / 4096 + 1 }
}

proof fn lemma_chunks(p: Seq<char>, n: nat)
    requires
        n == 4096,
    ensures
        chunks_of(p, n).len() == (if p.len() == 0 { 0 } else { (p.len() - 1) / 4096 + 1 }),
        forall|j: int| 0 <= j < chunks_of(p, n).len() ==> #[trigger] chunks_of(p, n)[j]
            == p.subrange(j * 4096, if (j + 1) * 4096 <= p.len() { (j + 1) * 4096 } else { p.len() as int }),
    decreases p.len(),
{
    if p.len() > n {
        let q = p.skip(n as int);
        lemma_chunks(q, n);
        assert forall|j: int| 0 <= j < chunks_of(p, n).len() implies #[trigger] chunks_of(p, n)[j]
            == p.subrange(j * 4096, if (j + 1) * 4096 <= p.len() { (j + 1) * 4096 } else { p.len() as int }) by {
            if j == 0 {
                assert(chunks_of(p, n)[0] == p.take(4096));
                assert(p.take(4096) =~= p.subrange(0, 4096));
            } else {
                assert(chunks_of(p, n)[j] == chunks_of(q, n)[j - 1]);
                assert(q.subrange((j - 1) * 4096, if j * 4096 <= q.len() { j * 4096 } else { q.len() as int })
                    =~= p.subrange(j * 4096, if (j + 1) * 4096 <= p.len() { (j + 1) * 4096 } else { p.len() as int }));
            }
        }
        assert((p.len() - 1) / 4096 + 1 == (q.len() - 1) / 4096 + 2);
    } else if p.len() > 0 {
        assert(p.subrange(0, p.len() as int) =~= p);
    }
}

/// The commands transmitting an animation (see [`animation_spec`]) under
/// a fresh image identifier, and the animation they start; nothing for no
/// frames. `width` and `height` are the first frame's, in pixels; each
/// frame is its RGBA bytes and its delay in milliseconds.
pub fn animation_commands(
    ids: &mut ImageIdCounter,
    frames: &[(Vec<u8>, u32)],
    width: u32,
    height: u32,
    col: u16,
    row: u16,
) -> (r: Option<(Vec<String>, KittyAnimation)>)
    ensures
        frames@.len() == 0 ==> r is None && *final(ids) == *old(ids),
        frames@.len() > 0 ==> {
            let fs = frames@.map_values(|f: (Vec<u8>, u32)| (f.0@, f.1));
            &&& final(ids).next == (if old(ids).next == u32::MAX { 0 } else { (old(ids).next + 1) as u32 })
            &&& r matches Some((cmds, anim))
            &&& anim.image_id == old(ids).next
            &&& anim.frame_count == frames@.len()
            &&& anim.is_playing
            &&& cmds@.len() == animation_spec(old(ids).next, width, height, col, row, fs).len()
            &&& forall|k: int| 0 <= k < cmds@.len() ==> (#[trigger] cmds@[k])@ == animation_spec(old(ids).next, width, height, col, row, fs)[k]
        },
{
    if frames.len() == 0 {
        return None;
    }
    let ghost fs = frames@.map_values(|f: (Vec<u8>, u32)| (f.0@, f.1));
    let image_id = ids.next_image_id();
    let mut out: Vec<String> = Vec::new();
    let first = base64_encode(frames[0].0.as_slice());
    let mut bp = String::new();
    push_str(&mut bp, "a=T,f=32,i=");
    push_str(&mut bp, decimal_string(image_id as u64).as_str());
    push_str(&mut bp, ",s=");
    push_str(&mut bp, decimal_string(width as u64).as_str());
    push_str(&mut bp, ",v=");
    push_str(&mut bp, decimal_string(height as u64).as_str());
    push_str(&mut bp, ",c=");
    push_str(&mut bp, decimal_string(col as u64).as_str());
    push_str(&mut bp, ",r=");
    push_str(&mut bp, decimal_string(row as u64).as_str());
    push_str(&mut bp, ",C=1,q=2,");
    assert(bp@ =~= base_params(image_id, width, height, col, row));
    assert(fs[0].0 == frames@[0].0@);
    push_image_commands(&mut out, first.as_str(), bp.as_str(), "");
    let ghost head = image_commands(chunks_of(base64_spec(fs[0].0), CHUNK_SIZE as nat), base_params(image_id, width, height, col, row), ""@);
    assert(out@.len() == head.len());
    proof {
        assert(head + frames_commands(image_id, width, height, fs, 1) =~= head);
        assert forall|k: int| 0 <= k < out@.len() implies (#[trigger] out@[k])@ == head[k] by {
            assert(out@[0 + k] == out@[k]);
        }
    }
    let mut i: usize = 1;
    while i < frames.len()
        invariant
            1 <= i <= frames@.len(),
            fs == frames@.map_values(|f: (Vec<u8>, u32)| (f.0@, f.1)),
            out@.len() == head.len() + frames_commands(image_id, width, height, fs, i as int).len(),
            forall|k: int| 0 <= k < out@.len() ==> (#[trigger] out@[k])@ == (head + frames_commands(image_id, width, height, fs, i as int))[k],
        decreases frames@.len() - i,
    {
        let payload = base64_encode(frames[i].0.as_slice());
        let mut fp = String::new();
        push_str(&mut fp, "a=f,i=");
        push_str(&mut fp, decimal_string(image_id as u64).as_str());
        push_str(&mut fp, ",z=");
        push_str(&mut fp, decimal_string(frames[i].1 as u64).as_str());
        push_str(&mut fp, ",r=1,f=32,s=");
        push_str(&mut fp, decimal_string(width as u64).as_str());
        push_str(&mut fp, ",v=");
        push_str(&mut fp, decimal_string(height as u64).as_str());
        push_str(&mut fp, ",q=2,");
        assert(fp@ =~= frame_params(image_id, frames@[i as int].1, width, height));
        assert(fs[i as int] == (frames@[i as int].0@, frames@[i as int].1));
        let ghost before = out@;
        push_image_commands(&mut out, payload.as_str(), fp.as_str(), "a=f,");
        i += 1;
        proof {
            let prev = head + frames_commands(image_id, width, height, fs, i - 1);
            let cur = head + frames_commands(image_id, width, height, fs, i as int);
            let add = image_commands(chunks_of(base64_spec(fs[i - 1].0), CHUNK_SIZE as nat), frame_params(image_id, fs[i - 1].1, width, height), "a=f,"@);
            assert(cur =~= prev + add);
            assert forall|k: int| 0 <= k < out@.len() implies (#[trigger] out@[k])@ == cur[k] by {
                if k < before.len() {
                    assert(out@[k] == before[k]);
                } else {
                    assert(out@[before.len() + (k - before.len())] == out@[k]);
                }
            }
        }
    }
    let mut ap = String::new();
    push_str(&mut ap, "a=a,i=");
    push_str(&mut ap, decimal_string(image_id as u64).as_str());
    push_str(&mut ap, ",s=3,v=0,q=2");
    let start_cmd = kitty_command(ap.as_str(), None);
    let ghost before = out@;
    out.push(start_cmd);
    proof {
        let all = animation_spec(image_id, width, height, col, row, fs);
        assert(all =~= head + frames_commands(image_id, width, height, fs, frames@.len() as int)
            + seq![kitty_command_spec("a=a,i="@ + decimal(image_id as nat) + ",s=3,v=0,q=2"@, None)]);
        assert forall|k: int| 0 <= k < out@.len() implies (#[trigger] out@[k])@ == all[k] by {
            if k < before.len() {
                assert(out@[k] == before[k]);
            }
        }
    }
    Some((out, KittyAnimation { image_id, frame_count: frames.len(), is_playing: true }))
}

} // verus!
