use vstd::prelude::*;

use crate::text::push_str;

verus! {

/// The terminal title while nothing plays.
pub const STOPPED_TITLE: &'static str = "sctui";
/// The terminal title while a track plays.
pub const PLAYING_TITLE: &'static str = "🔊 sctui";

/// The title for a playback state.
pub open spec fn title_for(is_playing: bool) -> Seq<char> {
    if is_playing { PLAYING_TITLE@ } else { STOPPED_TITLE@ }
}

/// Remembers the playback state the terminal title last showed.
pub struct PlaybackTitleState {
    pub last_playing: Option<bool>,
}

impl PlaybackTitleState {
    /// No title shown yet.
    pub fn new() -> (r: Self)
        ensures
            r.last_playing is None,
    {
        PlaybackTitleState { last_playing: None }
    }

    /// Returns a new terminal title only when active playback changes state.
    pub fn next_title(&mut self, is_playing: bool) -> (r: Option<&'static str>)
        ensures
            old(self).last_playing == Some(is_playing) ==> r is None,
            old(self).last_playing != Some(is_playing) ==> (r matches Some(t) && t@ == title_for(is_playing)),
            final(self).last_playing == Some(is_playing),
    {
        if let Some(last) = self.last_playing {
            if last == is_playing {
                return None;
            }
        }
        self.last_playing = Some(is_playing);
        if is_playing {
            Some(PLAYING_TITLE)
        } else {
            Some(STOPPED_TITLE)
        }
    }
}

/// `ESC ] 2 ; title BEL`, the operating-system command that sets the window title.
pub open spec fn osc_title(title: Seq<char>) -> Seq<char> {
    seq!['\u{1b}', ']', '2', ';'] + title + seq!['\u{7}']
}

/// The escape sequence that sets the terminal title.
pub fn osc_title_sequence(title: &str) -> (r: String)
    ensures
        r@ == osc_title(title@),
{
    let mut r = String::new();
    push_str(&mut r, "\u{1b}]2;");
    push_str(&mut r, title);
    push_str(&mut r, "\u{7}");
    proof {
        reveal_strlit("\u{1b}]2;");
        reveal_strlit("\u{7}");
    }
    assert(r@ =~= osc_title(title@));
    r
}

} // verus!
