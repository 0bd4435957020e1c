use vstd::prelude::*;

use crate::text::{chars_of, push_str, string_of};

verus! {

/// Every keyboard and mouse shortcut, in the order the status line shows them.
pub const SHORTCUTS: &'static str = "Ctrl-Q Quit │ Esc Quit menu │ Tab Main tab │ ←/→ Section │ ↑/↓ Select │ Enter Play │ Space Pause │ ⇧←/→ Previous/next │ Alt←/→ Seek ±10s │ Alt↑/↓ Move ±10 │ ⇧↑/↓ Secondary │ ⇧J/K Tertiary │ ⇧U/D Volume │ ⇧S Shuffle │ ⇧R Repeat │ ⇧A Add queue │ ⇧N Play next │ ⇧L Like/follow │ ⇧V Visualizer │ ⇧F Find │ ⇧Q Queue │ ⇧H Help │ PgUp/PgDn Page │ Wheel Select │ ⇧Wheel ±5 │ Search Enter Submit";
/// The gap between the end of the list and its next start when it scrolls.
pub const MARQUEE_GAP: &'static str = "     ";

/// The scrolling cycle: the list followed by the gap.
pub open spec fn marquee_cycle() -> Seq<char> {
    SHORTCUTS@ + MARQUEE_GAP@
}

/// What the status line shows at a width and scroll offset: nothing at width
/// zero, the whole list where it fits, and otherwise `width` characters of
/// the repeating cycle starting at the offset.
pub open spec fn shortcut_view(width: nat, scroll: nat) -> Seq<char> {
    if width == 0 {
        Seq::empty()
    } else if SHORTCUTS@.len() <= width {
        SHORTCUTS@
    } else {
        Seq::new(width, |i: int| marquee_cycle()[(scroll + i) % (marquee_cycle().len() as int)])
    }
}

/// Produces a deterministic one-line window over the complete shortcut list.
/// The caller supplies the scroll offset so rendering never reads a clock.
pub fn shortcut_window(width: usize, scroll: usize) -> (r: String)
    ensures
        r@ == shortcut_view(width as nat, scroll as nat),
{
    if width == 0 {
        return String::new();
    }
    let chars = chars_of(SHORTCUTS);
    if chars.len() <= width {
        return string_of(&chars);
    }
    let mut cycle = chars;
    let gap = chars_of(MARQUEE_GAP);
    let mut k: usize = 0;
    while k < gap.len()
        invariant
            k <= gap.len(),
            gap@ == MARQUEE_GAP@,
            cycle@ == SHORTCUTS@ + gap@.subrange(0, k as int),
        decreases gap.len() - k,
    {
        cycle.push(gap[k]);
        k += 1;
        assert(cycle@ =~= SHORTCUTS@ + gap@.subrange(0, k as int));
    }
    assert(gap@.subrange(0, gap.len() as int) =~= gap@);
    assert(cycle@ =~= marquee_cycle());
    let len = cycle.len();
    let start = scroll % len;
    let mut out: Vec<char> = Vec::new();
    let mut i: usize = 0;
    while i < width
        invariant
            0 < len,
            len == cycle.len(),
            start == scroll % len,
            cycle@ == marquee_cycle(),
            i <= width,
            out@.len() == i,
            forall|j: int| 0 <= j < i ==> #[trigger] out@[j] == marquee_cycle()[(scroll + j) % (len as int)],
        decreases width - i,
    {
        let rem = i % len;
        let idx = if rem < len - start { start + rem } else { rem - (len - start) };
        proof {
            vstd::arithmetic::div_mod::lemma_add_mod_noop(scroll as int, i as int, len as int);
            if rem < len - start {
                vstd::arithmetic::div_mod::lemma_small_mod((start + rem) as nat, len as nat);
            } else {
                vstd::arithmetic::div_mod::lemma_mod_add_multiples_vanish((start + rem - len) as int, len as int);
                vstd::arithmetic::div_mod::lemma_small_mod((start + rem - len) as nat, len as nat);
            }
            assert(idx as int == (scroll as int + i as int) % (len as int));
        }
        out.push(cycle[idx]);
        i += 1;
    }
    assert(out@ =~= shortcut_view(width as nat, scroll as nat));
    string_of(&out)
}

/// How the status line is drawn: the shortcut list subdued, a playback
/// error in an alarming style.
#[derive(Debug, Clone, Copy, PartialEq, Eq, Structural)]
pub enum StatusTone {
    Shortcuts,
    Error,
}

/// The colours the status line is drawn in.
#[derive(Debug, Clone, Copy, PartialEq, Eq, Structural)]
pub enum TextColor {
    DarkGray,
    Red,
}

/// A foreground colour with the italic and bold modifiers.
#[derive(Debug, Clone, Copy, PartialEq, Eq, Structural)]
pub struct TextStyle {
    pub fg: TextColor,
    pub italic: bool,
    pub bold: bool,
}

/// The style of a tone: shortcuts dark grey and italic, errors red and bold.
pub open spec fn tone_style(tone: StatusTone) -> TextStyle {
    match tone {
        StatusTone::Shortcuts => TextStyle { fg: TextColor::DarkGray, italic: true, bold: false },
        StatusTone::Error => TextStyle { fg: TextColor::Red, italic: false, bold: true },
    }
}

/// The style a status line of the given tone is drawn in.
pub fn status_style(tone: StatusTone) -> (r: TextStyle)
    ensures
        r == tone_style(tone),
{
    match tone {
        StatusTone::Shortcuts => TextStyle { fg: TextColor::DarkGray, italic: true, bold: false },
        StatusTone::Error => TextStyle { fg: TextColor::Red, italic: false, bold: true },
    }
}

/// The text of the status line and how it is drawn.
#[derive(Debug)]
pub struct StatusLine {
    pub text: String,
    pub tone: StatusTone,
    pub style: TextStyle,
}

/// The status line: a visible playback error takes the whole line,
/// otherwise it shows the scrolling shortcut list.
pub fn status_line(width: usize, playback_error: Option<&str>, scroll: usize) -> (r: StatusLine)
    ensures
        match playback_error {
            Some(e) => r.text@ == "Playback error: "@ + e@ && r.tone == StatusTone::Error,
            None => r.text@ == shortcut_view(width as nat, scroll as nat) && r.tone == StatusTone::Shortcuts,
        },
        r.style == tone_style(r.tone),
{
    match playback_error {
        Some(error) => {
            let mut text = String::new();
            push_str(&mut text, "Playback error: ");
            push_str(&mut text, error);
            StatusLine { text, tone: StatusTone::Error, style: status_style(StatusTone::Error) }
        },
        None => StatusLine { text: shortcut_window(width, scroll), tone: StatusTone::Shortcuts, style: status_style(StatusTone::Shortcuts) },
    }
}

} // verus!
