//! Terminal colour capabilities: which colour mode to use, and the notice
//! shown when the terminal's RGB support is known to be poor.

use vstd::prelude::*;
use crate::text::{chars_of, decimal, decimal_string, lemma_split_char_nonempty, push_str, split_char, split_chars};

verus! {

broadcast use vstd::string::group_string_axioms;

#[derive(Debug, Clone, Copy, PartialEq, Eq, Structural)]
pub enum ColorMode {
    /// True color (16M colors)
    Rgb,
    /// 256-color palette
    Indexed256,
}

#[derive(Debug)]
pub struct TerminalCapabilities {
    pub supports_rgb: bool,
    pub is_terminal_app: bool,
    pub macos_version: Option<u32>,
    pub recommended_color_mode: ColorMode,
    pub should_warn: bool,
}

/// Whether to warn, and which colour mode to use, for what was detected:
/// Apple's Terminal.app is trusted from macOS 26 (Darwin 26) on and falls
/// back to 256 colours before that or when the version is unknown; any
/// other terminal gets RGB exactly when it reports 16M-colour support.
pub open spec fn recommendation(is_terminal_app: bool, supports_rgb: bool, macos_version: Option<u32>) -> (bool, ColorMode) {
    if is_terminal_app {
        match macos_version {
            Some(v) => if v >= 26 { (false, ColorMode::Rgb) } else { (true, ColorMode::Indexed256) },
            None => (true, ColorMode::Indexed256),
        }
    } else {
        (false, if supports_rgb { ColorMode::Rgb } else { ColorMode::Indexed256 })
    }
}

/// The version part of the notice.
pub open spec fn version_text(macos_version: Option<u32>) -> Seq<char> {
    match macos_version {
        Some(v) => "Sequoia (Darwin "@ + decimal(v as nat) + ")"@,
        None => "< 26"@,
    }
}

/// Text before the version in the notice.
pub open spec fn notice_head() -> Seq<char> {
    "⚠️  Terminal Compatibility Notice\n\nApple Terminal.app on macOS "@
}

/// Text after the version in the notice.
pub open spec fn notice_tail() -> Seq<char> {
    " has limited RGB color support.\nSwitching to 256-color mode for better compatibility.\n\nFor the best experience, consider using:\n• iTerm2 (https://iterm2.com/)\n• Kitty (https://sw.kovidgoyal.net/kitty/)\n• Alacritty (https://alacritty.org/)\n\nPress any key to continue..."@
}

impl TerminalCapabilities {
    /// Capabilities from what was probed: whether the terminal is Apple's
    /// Terminal.app, whether it reports 16M colours, and the Darwin major
    /// version when it is known.
    pub fn from_probe(is_terminal_app: bool, supports_rgb: bool, macos_version: Option<u32>) -> (c: Self)
        ensures
            c.supports_rgb == supports_rgb,
            c.is_terminal_app == is_terminal_app,
            c.macos_version == macos_version,
            (c.should_warn, c.recommended_color_mode) == recommendation(is_terminal_app, supports_rgb, macos_version),
    {
        let (should_warn, recommended_color_mode) = if is_terminal_app {
            match macos_version {
                Some(version) => {
                    if version >= 26 {
                        (false, ColorMode::Rgb)
                    } else {
                        (true, ColorMode::Indexed256)
                    }
                },
                None => (true, ColorMode::Indexed256),
            }
        } else {
            let mode = if supports_rgb { ColorMode::Rgb } else { ColorMode::Indexed256 };
            (false, mode)
        };
        TerminalCapabilities { supports_rgb, is_terminal_app, macos_version, recommended_color_mode, should_warn }
    }

    /// Get a user-friendly warning message (only when a warning is due).
    pub fn warning_message(&self) -> (r: Option<String>)
        ensures
            self.should_warn ==> (r matches Some(s) && s@ == notice_head() + version_text(self.macos_version) + notice_tail()),
            !self.should_warn ==> r is None,
    {
        if !self.should_warn {
            return None;
        }
        let mut s = String::new();
        push_str(&mut s, "⚠️  Terminal Compatibility Notice\n\nApple Terminal.app on macOS ");
        match self.macos_version {
            Some(v) => {
                push_str(&mut s, "Sequoia (Darwin ");
                let d = decimal_string(v as u64);
                push_str(&mut s, d.as_str());
                push_str(&mut s, ")");
            },
            None => {
                push_str(&mut s, "< 26");
            },
        }
        push_str(&mut s, " has limited RGB color support.\nSwitching to 256-color mode for better compatibility.\n\nFor the best experience, consider using:\n• iTerm2 (https://iterm2.com/)\n• Kitty (https://sw.kovidgoyal.net/kitty/)\n• Alacritty (https://alacritty.org/)\n\nPress any key to continue...");
        proof {
            if let Some(v) = self.macos_version {
                assert(s@ =~= notice_head() + version_text(self.macos_version) + notice_tail());
            } else {
                assert(s@ =~= notice_head() + version_text(self.macos_version) + notice_tail());
            }
        }
        Some(s)
    }
}

/// The value of a run of decimal digits.
pub open spec fn digits_value(s: Seq<char>) -> int
    decreases s.len(),
{
    if s.len() == 0 {
        0
    } else {
        digits_value(s.drop_last()) * 10 + (s.last() as int - '0' as int)
    }
}

/// Every character is a decimal digit.
pub open spec fn all_digits(s: Seq<char>) -> bool {
    forall|i: int| 0 <= i < s.len() ==> '0' <= #[trigger] s[i] <= '9'
}

/// `str::parse::<u32>`: an optional `+`, then at least one digit, with a
/// value that fits.
pub open spec fn parse_u32_spec(s: Seq<char>) -> Option<u32> {
    let d = if s.len() > 0 && s[0] == '+' { s.skip(1) } else { s };
    if d.len() > 0 && all_digits(d) && digits_value(d) <= u32::MAX {
        Some(digits_value(d) as u32)
    } else {
        None
    }
}

/// The Darwin major version in the output of `uname -r` (such as
/// `24.6.0`): the number before the first `.`.
pub open spec fn darwin_major_spec(release: Seq<char>) -> Option<u32> {
    parse_u32_spec(split_char(release, '.')[0])
}

proof fn lemma_digits_value_nonneg(s: Seq<char>)
    requires
        all_digits(s),
    ensures
        digits_value(s) >= 0,
    decreases s.len(),
{
    if s.len() > 0 {
        lemma_digits_value_nonneg(s.drop_last());
    }
}

/// The Darwin major version in the output of `uname -r`
/// (see [`darwin_major_spec`]).
pub fn parse_darwin_major(release: &str) -> (r: Option<u32>)
    ensures
        r == darwin_major_spec(release@),
{
    let v = chars_of(release);
    let parts = split_chars(&v, '.');
    proof { lemma_split_char_nonempty(v@, '.'); }
    let first = &parts[0];
    let ghost f = first@;
    let start: usize = if first.len() > 0 && first[0] == '+' { 1 } else { 0 };
    let ghost d = if f.len() > 0 && f[0] == '+' { f.skip(1) } else { f };
    assert(d =~= f.skip(start as int));
    if start >= first.len() {
        return None;
    }
    let mut value: u64 = 0;
    let mut i = start;
    while i < first.len()
        invariant
            first@ == f,
            v@ == release@,
            f == split_char(v@, '.')[0],
            d == (if f.len() > 0 && f[0] == '+' { f.skip(1) } else { f }),
            start <= i <= f.len(),
            d == f.skip(start as int),
            all_digits(f.subrange(start as int, i as int)),
            value as int == digits_value(f.subrange(start as int, i as int)),
            value <= u32::MAX,
        decreases f.len() - i,
    {
        let c = first[i];
        if !('0' <= c && c <= '9') {
            assert(d[i - start] == c);
            return None;
        }
        let digit = (c as u32 - '0' as u32) as u64;
        value = value * 10 + digit;
        assert(f.subrange(start as int, i + 1).drop_last() =~= f.subrange(start as int, i as int));
        i += 1;
        if value > u32::MAX as u64 {
            proof {
                let dd = d;
                assert(all_digits(dd) ==> digits_value(dd) > u32::MAX) by {
                    if all_digits(dd) {
                        lemma_prefix_value_le(dd, (i - start) as int);
                        assert(dd.take((i - start) as int) =~= f.subrange(start as int, i as int));
                    }
                };
            }
            return None;
        }
    }
    assert(f.subrange(start as int, f.len() as int) =~= d);
    Some(value as u32)
}

/// A prefix of a run of digits has no larger a value.
proof fn lemma_prefix_value_le(s: Seq<char>, k: int)
    requires
        0 <= k <= s.len(),
        all_digits(s),
    ensures
        digits_value(s.take(k)) <= digits_value(s),
    decreases s.len() - k,
{
    if k < s.len() {
        lemma_prefix_value_le(s, k + 1);
        assert(s.take(k + 1).drop_last() =~= s.take(k));
        lemma_digits_value_nonneg(s.take(k));
        assert(all_digits(s.take(k)));
    } else {
        assert(s.take(k) =~= s);
    }
}

} // verus!
