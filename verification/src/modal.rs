//! The full-screen image viewer: which frame of an animated image shows,
//! pausing and stepping, when the next frame is due, and the Kitty
//! animation that plays it natively. Decoding images, drawing them and
//! the clock stay with the driver, which hands in frame delays and
//! clock readings in milliseconds.

use vstd::prelude::*;
use crate::blocks::{Block, InlineElement};
use crate::kitty::{KittyAnimation, delete_animation, kitty_command_spec, pause_animation, resume_animation};
use crate::links::{joined, opt_chars, parent_of, path_is_absolute, path_join, path_parent};
use crate::app::string_from;
use crate::text::{chars_of, copy_chars, decimal, join_char, join_chars, push_char, push_str, split_char, split_chars};

verus! {

broadcast use vstd::string::group_string_axioms;

/// The image viewer's state.
pub struct ImageModal {
    /// Whether images may be shown at all.
    pub images_enabled: bool,
    /// Whether animations go to the terminal's Kitty protocol.
    pub use_kitty_animation: bool,
    /// The image being viewed.
    pub viewing_image_path: Option<String>,
    /// The delay of each frame, in milliseconds (one frame for a still image).
    pub frame_delays: Vec<u32>,
    pub frame_index: usize,
    /// The frame last drawn (`None` forces a redraw).
    pub last_rendered_frame: Option<usize>,
    /// The clock reading (ms) when the current frame started showing.
    pub last_frame_update: Option<u64>,
    pub animation_paused: bool,
    /// The animation the terminal is playing, if any.
    pub kitty_animation: Option<KittyAnimation>,
}

/// The command that deletes the playing Kitty animation, if any.
pub open spec fn stop_command(m: ImageModal) -> Option<Seq<char>> {
    match m.kitty_animation {
        Some(a) => Some(kitty_command_spec("a=d,d=I,i="@ + decimal(a.image_id as nat) + ",q=2"@, None)),
        None => None,
    }
}

/// The frame before `i` of `n`, cycling.
pub open spec fn prev_frame_index(i: int, n: int) -> int {
    (i + n - 1) % n
}

/// The frame after `i` of `n`, cycling.
pub open spec fn next_frame_index(i: int, n: int) -> int {
    (i + 1) % n
}

impl ImageModal {
    /// The frame index is within the frames (0 when there are none).
    pub open spec fn wf(&self) -> bool {
        if self.frame_delays@.len() == 0 { self.frame_index == 0 } else { self.frame_index < self.frame_delays@.len() }
    }

    /// Whether the frame index is within the frames (see [`ImageModal::wf`]).
    pub fn is_wf(&self) -> (b: bool)
        ensures
            b == self.wf(),
    {
        if self.frame_delays.len() == 0 { self.frame_index == 0 } else { self.frame_index < self.frame_delays.len() }
    }

    /// A closed viewer; animations go to the Kitty protocol when images
    /// are enabled and the terminal speaks it.
    pub fn new(images_enabled: bool, kitty_terminal: bool) -> (m: ImageModal)
        ensures
            m.wf(),
            m.images_enabled == images_enabled,
            m.use_kitty_animation == (images_enabled && kitty_terminal),
            m.viewing_image_path is None,
            m.frame_delays@.len() == 0,
            m.last_rendered_frame is None,
            m.last_frame_update is None,
            !m.animation_paused,
            m.kitty_animation is None,
    {
        ImageModal {
            images_enabled,
            use_kitty_animation: images_enabled && kitty_terminal,
            viewing_image_path: None,
            frame_delays: Vec::new(),
            frame_index: 0,
            last_rendered_frame: None,
            last_frame_update: None,
            animation_paused: false,
            kitty_animation: None,
        }
    }

    /// Whether an image is being viewed.
    pub fn is_image_modal_open(&self) -> (b: bool)
        ensures
            b == self.viewing_image_path is Some,
    {
        self.viewing_image_path.is_some()
    }

    /// Whether the terminal is playing the animation.
    pub fn has_kitty_animation(&self) -> (b: bool)
        ensures
            b == self.kitty_animation is Some,
    {
        self.kitty_animation.is_some()
    }

    /// Show an image whose frames (their delays) the driver loaded, at
    /// clock reading `now`, from its first frame. Nothing happens when
    /// images are disabled or the image has no frame.
    pub fn open_image_modal(&mut self, path: String, frame_delays: Vec<u32>, now: u64)
        ensures
            (!old(self).images_enabled || frame_delays@.len() == 0) ==> *final(self) == *old(self),
            (old(self).images_enabled && frame_delays@.len() > 0) ==> *final(self) == (ImageModal {
                viewing_image_path: Some(path),
                frame_delays,
                frame_index: 0,
                last_rendered_frame: Some(0),
                last_frame_update: Some(now),
                ..*old(self)
            }),
            old(self).wf() ==> final(self).wf(),
    {
        if !self.images_enabled || frame_delays.len() == 0 {
            return;
        }
        self.viewing_image_path = Some(path);
        self.frame_delays = frame_delays;
        self.frame_index = 0;
        self.last_rendered_frame = Some(0);
        self.last_frame_update = Some(now);
    }

    /// Stop the terminal's animation; the command that deletes it, if one was playing.
    fn stop_kitty_animation(&mut self) -> (cmd: Option<String>)
        ensures
            opt_chars(cmd) == stop_command(*old(self)),
            *final(self) == (ImageModal { kitty_animation: None, ..*old(self) }),
    {
        let cmd = match &self.kitty_animation {
            Some(a) => Some(delete_animation(a)),
            None => None,
        };
        self.kitty_animation = None;
        cmd
    }

    /// Close the viewer: everything is reset, and the command that deletes
    /// a playing animation is returned for the driver to send.
    pub fn close_image_modal(&mut self) -> (cmd: Option<String>)
        ensures
            opt_chars(cmd) == stop_command(*old(self)),
            final(self).wf(),
            *final(self) == (ImageModal {
                viewing_image_path: None,
                frame_delays: final(self).frame_delays,
                frame_index: 0,
                last_rendered_frame: None,
                last_frame_update: None,
                animation_paused: false,
                kitty_animation: None,
                ..*old(self)
            }),
            final(self).frame_delays@.len() == 0,
    {
        let cmd = self.stop_kitty_animation();
        self.viewing_image_path = None;
        self.frame_delays = Vec::new();
        self.frame_index = 0;
        self.last_rendered_frame = None;
        self.last_frame_update = None;
        self.animation_paused = false;
        cmd
    }

    /// Step to the previous frame (cycling): the animation pauses, the
    /// terminal's animation (which cannot step) is stopped and its delete
    /// command returned, and the frame is redrawn. Nothing without frames.
    pub fn modal_prev_frame(&mut self) -> (cmd: Option<String>)
        requires
            old(self).wf(),
        ensures
            final(self).wf(),
            old(self).frame_delays@.len() == 0 ==> cmd is None && *final(self) == *old(self),
            old(self).frame_delays@.len() > 0 ==> {
                &&& opt_chars(cmd) == stop_command(*old(self))
                &&& *final(self) == (ImageModal {
                    frame_index: prev_frame_index(old(self).frame_index as int, old(self).frame_delays@.len() as int) as usize,
                    animation_paused: true,
                    last_rendered_frame: None,
                    kitty_animation: None,
                    ..*old(self)
                })
            },
    {
        let len = self.frame_delays.len();
        if len == 0 {
            return None;
        }
        let cmd = self.stop_kitty_animation();
        self.animation_paused = true;
        let i0 = self.frame_index;
        let i1 = if i0 == 0 { len - 1 } else { i0 - 1 };
        assert(i1 as int == prev_frame_index(i0 as int, len as int)) by (nonlinear_arith)
            requires
                i0 < len,
                i1 == if i0 == 0 { len - 1 } else { i0 - 1 },
        ;
        self.frame_index = i1;
        self.last_rendered_frame = None;
        cmd
    }

    /// Step to the next frame (cycling), as [`ImageModal::modal_prev_frame`] does backwards.
    pub fn modal_next_frame(&mut self) -> (cmd: Option<String>)
        requires
            old(self).wf(),
        ensures
            final(self).wf(),
            old(self).frame_delays@.len() == 0 ==> cmd is None && *final(self) == *old(self),
            old(self).frame_delays@.len() > 0 ==> {
                &&& opt_chars(cmd) == stop_command(*old(self))
                &&& *final(self) == (ImageModal {
                    frame_index: next_frame_index(old(self).frame_index as int, old(self).frame_delays@.len() as int) as usize,
                    animation_paused: true,
                    last_rendered_frame: None,
                    kitty_animation: None,
                    ..*old(self)
                })
            },
    {
        let len = self.frame_delays.len();
        if len == 0 {
            return None;
        }
        let cmd = self.stop_kitty_animation();
        self.animation_paused = true;
        let i0 = self.frame_index;
        let i1 = if i0 + 1 == len { 0 } else { i0 + 1 };
        assert(i1 as int == next_frame_index(i0 as int, len as int)) by (nonlinear_arith)
            requires
                i0 < len,
                i1 == if i0 + 1 == len { 0 } else { i0 + 1 },
        ;
        self.frame_index = i1;
        self.last_rendered_frame = None;
        cmd
    }

    /// Pause or resume the animation at clock reading `now`: a playing
    /// terminal animation gets the matching command, and resuming restarts
    /// the current frame's timer.
    pub fn modal_toggle_animation(&mut self, now: u64) -> (cmd: Option<String>)
        ensures
            final(self).animation_paused == !old(self).animation_paused,
            final(self).last_frame_update == (if old(self).animation_paused { Some(now) } else { old(self).last_frame_update }),
            *final(self) == (ImageModal {
                animation_paused: final(self).animation_paused,
                last_frame_update: final(self).last_frame_update,
                ..*old(self)
            }),
            opt_chars(cmd) == (match old(self).kitty_animation {
                Some(a) => if old(self).animation_paused {
                    Some(kitty_command_spec("a=a,i="@ + decimal(a.image_id as nat) + ",s=3,q=2"@, None))
                } else {
                    Some(kitty_command_spec("a=a,i="@ + decimal(a.image_id as nat) + ",s=1,q=2"@, None))
                },
                None => None,
            }),
    {
        self.animation_paused = !self.animation_paused;
        let cmd = match &self.kitty_animation {
            Some(a) => if self.animation_paused { Some(pause_animation(a)) } else { Some(resume_animation(a)) },
            None => None,
        };
        if !self.animation_paused {
            self.last_frame_update = Some(now);
        }
        cmd
    }

    /// Whether to hand the animation to the terminal: the Kitty protocol is
    /// in use, the image has several frames, and none is playing yet.
    pub fn should_start_kitty_animation(&self) -> (b: bool)
        ensures
            b == (self.use_kitty_animation && self.frame_delays@.len() > 1 && self.kitty_animation is None),
    {
        self.use_kitty_animation && self.frame_delays.len() > 1 && self.kitty_animation.is_none()
    }

    /// Record how sending the animation went: a started animation is kept;
    /// a failure to write turns the Kitty protocol off (frames are then
    /// drawn one by one). Returns whether one was started.
    pub fn finish_kitty_animation(&mut self, sent: Result<Option<KittyAnimation>, ()>) -> (started: bool)
        ensures
            started == (sent matches Ok(Some(_))),
            match sent {
                Ok(Some(a)) => *final(self) == (ImageModal { kitty_animation: Some(a), ..*old(self) }),
                Ok(None) => *final(self) == *old(self),
                Err(_) => *final(self) == (ImageModal { use_kitty_animation: false, ..*old(self) }),
            },
    {
        match sent {
            Ok(Some(a)) => {
                self.kitty_animation = Some(a);
                true
            },
            Ok(None) => false,
            Err(()) => {
                self.use_kitty_animation = false;
                false
            },
        }
    }

    /// How long (ms) until the next frame is due at clock reading `now`:
    /// none while the terminal animates, when no animation is open or it is
    /// paused; 1 when it is due already.
    pub fn time_until_next_frame(&self, now: u64) -> (r: Option<u64>)
        requires
            self.wf(),
        ensures
            r == (if self.kitty_animation is Some || self.viewing_image_path is None
                || self.frame_delays@.len() <= 1 || self.animation_paused {
                None
            } else {
                match self.last_frame_update {
                    None => None,
                    Some(last) => {
                        let delay = self.frame_delays@[self.frame_index as int] as int;
                        let elapsed = if now >= last { now - last } else { 0 };
                        if elapsed >= delay { Some(1u64) } else { Some((delay - elapsed) as u64) }
                    },
                }
            }),
    {
        if self.kitty_animation.is_some() {
            return None;
        }
        if self.viewing_image_path.is_none() || self.frame_delays.len() <= 1 || self.animation_paused {
            return None;
        }
        let last = match self.last_frame_update {
            Some(t) => t,
            None => return None,
        };
        let delay = self.frame_delays[self.frame_index] as u64;
        let elapsed = if now >= last { now - last } else { 0 };
        if elapsed >= delay { Some(1) } else { Some(delay - elapsed) }
    }
}

/// The components of the first `n` pieces of a path, with empty pieces
/// and `.` dropped and each `..` taking back the component before it (at
/// the root of an absolute path it is dropped; a relative path keeps it).
pub open spec fn normal_components(parts: Seq<Seq<char>>, n: int, absolute: bool) -> Seq<Seq<char>>
    decreases n,
{
    if n <= 0 || n > parts.len() {
        seq![]
    } else {
        let prev = normal_components(parts, n - 1, absolute);
        let part = parts[n - 1];
        if part.len() == 0 || part == seq!['.'] {
            prev
        } else if part == seq!['.', '.'] {
            if prev.len() > 0 && prev.last() != seq!['.', '.'] {
                prev.drop_last()
            } else if absolute {
                prev
            } else {
                prev.push(part)
            }
        } else {
            prev.push(part)
        }
    }
}

/// A path with `.` and `..` resolved by its text alone: `/` before the
/// components of an absolute path, `.` for a relative path with none.
pub open spec fn normalized(p: Seq<char>) -> Seq<char> {
    let absolute = p.len() > 0 && p[0] == '/';
    let parts = split_char(p, '/');
    let cs = normal_components(parts, parts.len() as int, absolute);
    if absolute {
        seq!['/'] + join_char(cs, '/')
    } else if cs.len() == 0 {
        seq!['.']
    } else {
        join_char(cs, '/')
    }
}

/// [`normalized`].
pub fn normalize_path(p: &str) -> (r: String)
    ensures
        r@ == normalized(p@),
{
    let v = chars_of(p);
    let absolute = v.len() > 0 && v[0] == '/';
    let parts = split_chars(&v, '/');
    let ghost ps = split_char(v@, '/');
    let mut cs: Vec<Vec<char>> = Vec::new();
    let mut i: usize = 0;
    while i < parts.len()
        invariant
            i <= parts@.len() == ps.len(),
            ps == split_char(p@, '/'),
            forall|k: int| 0 <= k < parts@.len() ==> (#[trigger] parts@[k])@ == ps[k],
            cs@.map_values(|c: Vec<char>| c@) == normal_components(ps, i as int, absolute),
        decreases parts@.len() - i,
    {
        let ghost prev = cs@.map_values(|c: Vec<char>| c@);
        let part = &parts[i];
        let dot = part.len() == 1 && part[0] == '.';
        let dotdot = part.len() == 2 && part[0] == '.' && part[1] == '.';
        proof {
            assert(dot == (part@ == seq!['.'])) by {
                if part@.len() == 1 && part@[0] == '.' { assert(part@ =~= seq!['.']); }
            }
            assert(dotdot == (part@ == seq!['.', '.'])) by {
                if part@.len() == 2 && part@[0] == '.' && part@[1] == '.' { assert(part@ =~= seq!['.', '.']); }
            }
        }
        if part.len() == 0 || dot {
        } else if dotdot {
            let n = cs.len();
            let last_is_dotdot = n > 0 && cs[n - 1].len() == 2 && cs[n - 1][0] == '.' && cs[n - 1][1] == '.';
            proof {
                if n > 0 {
                    let l = cs@[n - 1]@;
                    assert(prev.last() == l);
                    assert(last_is_dotdot == (l == seq!['.', '.'])) by {
                        if l.len() == 2 && l[0] == '.' && l[1] == '.' { assert(l =~= seq!['.', '.']); }
                    }
                }
            }
            if n > 0 && !last_is_dotdot {
                cs.pop();
                assert(cs@.map_values(|c: Vec<char>| c@) =~= prev.drop_last());
            } else if !absolute {
                cs.push(copy_chars(part));
                assert(cs@.map_values(|c: Vec<char>| c@) =~= prev.push(part@));
            }
        } else {
            cs.push(copy_chars(part));
            assert(cs@.map_values(|c: Vec<char>| c@) =~= prev.push(part@));
        }
        i += 1;
    }
    let joined_cs = join_chars(&cs, '/');
    if absolute {
        let mut r = String::new();
        push_char(&mut r, '/');
        push_str(&mut r, joined_cs.as_str());
        r
    } else if cs.len() == 0 {
        let mut r = String::new();
        push_char(&mut r, '.');
        r
    } else {
        joined_cs
    }
}

/// Where an image link points, for a document at `current`: an absolute
/// path as it is, a relative one within the document's directory, with
/// `.` and `..` resolved.
pub open spec fn image_path_spec(current: Seq<char>, src: Seq<char>) -> Result<Seq<char>, Seq<char>> {
    if src.len() > 0 && src[0] == '/' {
        Ok(src)
    } else {
        match parent_of(current) {
            Some(dir) => Ok(normalized(joined(dir, src))),
            None => Err("No parent directory for current file"@),
        }
    }
}

/// Resolve an image path relative to the current file (see [`image_path_spec`]).
pub fn resolve_image_path(current_file_path: &str, src: &str) -> (r: Result<String, String>)
    ensures
        match (r, image_path_spec(current_file_path@, src@)) {
            (Ok(p), Ok(q)) => p@ == q,
            (Err(e), Err(f)) => e@ == f,
            _ => false,
        },
{
    if path_is_absolute(src) {
        return Ok(string_from(src));
    }
    match path_parent(current_file_path) {
        Some(dir) => Ok(normalize_path(path_join(dir.as_str(), src).as_str())),
        None => Err(string_from("No parent directory for current file")),
    }
}

/// The image sources of the blocks, in order, that showing the first
/// image tries: block images, and the images inside paragraphs.
pub open spec fn image_sources(blocks: Seq<Block>, n: int) -> Seq<Seq<char>>
    decreases n,
{
    if n <= 0 || n > blocks.len() {
        seq![]
    } else {
        image_sources(blocks, n - 1) + match blocks[n - 1] {
            Block::Image { src, .. } => seq![src@],
            Block::Paragraph { inline, .. } => inline_image_sources(inline@, inline@.len() as int),
            _ => seq![],
        }
    }
}

/// The sources of the first `n` inline images.
pub open spec fn inline_image_sources(es: Seq<InlineElement>, n: int) -> Seq<Seq<char>>
    decreases n,
{
    if n <= 0 || n > es.len() {
        seq![]
    } else {
        inline_image_sources(es, n - 1) + match es[n - 1] {
            InlineElement::Image { src, .. } => seq![src@],
            _ => seq![],
        }
    }
}

/// The candidates for the first image of a section (see [`image_sources`]);
/// the driver loads the first one that resolves and decodes.
pub fn first_image_candidates(blocks: &[Block]) -> (v: Vec<String>)
    ensures
        v@.map_values(|s: String| s@) == image_sources(blocks@, blocks@.len() as int),
{
    let mut v: Vec<String> = Vec::new();
    let mut i: usize = 0;
    while i < blocks.len()
        invariant
            i <= blocks@.len(),
            v@.map_values(|s: String| s@) == image_sources(blocks@, i as int),
        decreases blocks@.len() - i,
    {
        let ghost before = v@.map_values(|s: String| s@);
        match &blocks[i] {
            Block::Image { src, .. } => {
                v.push(string_from(src.as_str()));
                assert(v@.map_values(|s: String| s@) =~= before.push(src@));
            },
            Block::Paragraph { inline, .. } => {
                let mut k: usize = 0;
                while k < inline.len()
                    invariant
                        k <= inline@.len(),
                        v@.map_values(|s: String| s@) == before + inline_image_sources(inline@, k as int),
                    decreases inline@.len() - k,
                {
                    let ghost prev = v@;
                    if let InlineElement::Image { src, .. } = &inline[k] {
                        v.push(string_from(src.as_str()));
                        assert(v@.map_values(|s: String| s@) =~= prev.map_values(|s: String| s@).push(src@));
                    }
                    k += 1;
                    assert(v@.map_values(|s: String| s@) =~= before + inline_image_sources(inline@, k as int));
                }
            },
            _ => {},
        }
        i += 1;
        assert(v@.map_values(|s: String| s@) =~= image_sources(blocks@, i as int));
    }
    v
}

} // verus!
