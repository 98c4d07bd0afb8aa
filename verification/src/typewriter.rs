//! A typewriter reveal of a line of text: characters appear a few at a time, a random
//! glitch character may trail the revealed part while typing goes on, and a cursor
//! block follows, blinking once the whole line is shown. The clock is read by the
//! caller, who hands each frame's timing in as a [`TypewriterTick`].
use vstd::prelude::*;

verus! {

/// The cursor block drawn after the revealed text.
pub const CURSOR: char = '\u{2588}';

/// One frame's timing.
#[derive(Clone, Copy, Debug)]
pub struct TypewriterTick {
    /// `Some(n)` when at least one character's worth of time has passed since
    /// characters were last added, `n` being how many characters' worth passed;
    /// `None` when less than that has passed.
    pub advance: Option<usize>,
    /// The wall-clock time in milliseconds, which picks the glitch character.
    pub time_ms: usize,
    /// Whether the blinking cursor is in its visible phase.
    pub cursor_phase_on: bool,
}

pub struct Typewriter {
    full_text: Vec<char>,
    current_length: usize,
    glitch_chars: Vec<char>,
    active_glitch: Option<char>,
}

/// The glitch a frame at `time_ms` shows while typing: on one millisecond in three,
/// the glitch character that the time picks; otherwise none.
pub open spec fn glitch_for(glitch_chars: Seq<char>, time_ms: usize) -> Option<char> {
    if time_ms % 3 == 0 {
        Some(glitch_chars[(time_ms % (glitch_chars.len() as usize)) as int])
    } else {
        None
    }
}

/// The shown line: the revealed prefix, the glitch if any, and the cursor if shown.
pub open spec fn shown_text(full: Seq<char>, len: nat, glitch: Option<char>, cursor: bool) -> Seq<char> {
    full.take(len as int) + match glitch {
        Some(g) => seq![g],
        None => Seq::empty(),
    } + if cursor { seq![CURSOR] } else { Seq::empty() }
}

impl Typewriter {
    /// The revealed length never exceeds the line, and there are glitch characters.
    #[verifier::type_invariant]
    spec fn wf(&self) -> bool {
        &&& self.current_length <= self.full_text@.len()
        &&& self.glitch_chars@.len() > 0
    }

    /// The whole line.
    pub closed spec fn text(&self) -> Seq<char> {
        self.full_text@
    }

    /// How many characters are revealed.
    pub closed spec fn revealed(&self) -> nat {
        self.current_length as nat
    }

    /// The characters a glitch is chosen from.
    pub closed spec fn glitches(&self) -> Seq<char> {
        self.glitch_chars@
    }

    /// The glitch currently shown, if any.
    pub closed spec fn glitch(&self) -> Option<char> {
        self.active_glitch
    }

    /// Whether the whole line is revealed.
    pub open spec fn finished(&self) -> bool {
        self.revealed() >= self.text().len()
    }

    /// A typewriter for `full_text` with nothing revealed yet, whose glitches are
    /// `&`, `<` and `/`.
    pub fn new(full_text: &str) -> (r: Self)
        ensures
            r.text() == full_text@,
            r.revealed() == 0,
            r.glitches() == seq!['&', '<', '/'],
            r.glitch() is None,
    {
        let mut chars: Vec<char> = Vec::new();
        for c in it: full_text.chars()
            invariant
                chars@ == it.seq().take(it.index() as int),
        {
            chars.push(c);
        }
        assert(chars@ =~= full_text@);
        let glitch_chars: Vec<char> = vec!['&', '<', '/'];
        assert(glitch_chars@ =~= seq!['&', '<', '/']);
        Typewriter { full_text: chars, current_length: 0, glitch_chars, active_glitch: None }
    }

    /// How many characters are revealed.
    pub fn revealed_len(&self) -> (r: usize)
        ensures
            r == self.revealed(),
            r <= self.text().len(),
    {
        proof { use_type_invariant(self); }
        self.current_length
    }

    /// Whether the whole line is revealed.
    pub fn is_finished(&self) -> (r: bool)
        ensures
            r == self.finished(),
    {
        self.current_length >= self.full_text.len()
    }

    /// Advances the reveal by one frame and returns the line to show.
    ///
    /// While typing goes on and `tick.advance` is `Some(n)`, `n` more characters are
    /// revealed (no more than the line has) and the glitch is chosen anew from
    /// `tick.time_ms`; with `None` nothing changes. Once the line was fully revealed
    /// before the frame, the glitch is cleared. The line shown is the revealed prefix,
    /// then the glitch if any, then the cursor: always while typing, and on the
    /// cursor's visible phase once finished. The revealed length plus `n` must fit a
    /// `usize`.
    pub fn update(&mut self, tick: TypewriterTick) -> (r: Vec<char>)
        requires
            !old(self).finished() && tick.advance is Some ==>
                old(self).revealed() + tick.advance.unwrap() <= usize::MAX,
        ensures
            final(self).text() == old(self).text(),
            final(self).glitches() == old(self).glitches(),
            final(self).revealed() >= old(self).revealed(),
            final(self).revealed() <= final(self).text().len(),
            old(self).finished() ==> final(self).finished(),
            old(self).finished() ==> final(self).revealed() == old(self).revealed() && final(self).glitch() is None,
            !old(self).finished() && tick.advance is None ==> *final(self) == *old(self),
            !old(self).finished() && tick.advance is Some ==> {
                &&& final(self).revealed() == vstd::math::min(
                    old(self).revealed() + tick.advance.unwrap(),
                    old(self).text().len() as int,
                )
                &&& final(self).glitch() == glitch_for(old(self).glitches(), tick.time_ms)
            },
            r@ == shown_text(
                final(self).text(),
                final(self).revealed(),
                final(self).glitch(),
                !final(self).finished() || tick.cursor_phase_on,
            ),
    {
        proof { use_type_invariant(&*self); }
        let total = self.full_text.len();
        if !self.is_finished() {
            if let Some(chars_to_add) = tick.advance {
                let grown = self.current_length + chars_to_add;
                self.current_length = if grown < total { grown } else { total };
                if tick.time_ms % 3 == 0 {
                    let idx = tick.time_ms % self.glitch_chars.len();
                    self.active_glitch = Some(self.glitch_chars[idx]);
                } else {
                    self.active_glitch = None;
                }
            }
        } else {
            self.active_glitch = None;
        }
        let mut s: Vec<char> = Vec::new();
        let mut i: usize = 0;
        while i < self.current_length
            invariant
                self.current_length <= self.full_text@.len(),
                i <= self.current_length,
                s@ == self.full_text@.take(i as int),
            decreases self.current_length - i,
        {
            s.push(self.full_text[i]);
            i = i + 1;
            assert(s@ =~= self.full_text@.take(i as int));
        }
        if let Some(glitch) = self.active_glitch {
            s.push(glitch);
        }
        let show_cursor = if self.is_finished() {
            tick.cursor_phase_on
        } else {
            true
        };
        if show_cursor {
            s.push(CURSOR);
        }
        assert(s@ =~= shown_text(self.full_text@, self.current_length as nat, self.active_glitch, show_cursor));
        s
    }
}

/// Once the whole line is revealed and no glitch is shown, the line shown is the whole
/// text, followed by the cursor in its visible phase.
pub proof fn lemma_finished_shows_whole_line(full: Seq<char>, cursor: bool)
    ensures
        shown_text(full, full.len(), None, cursor) == full + if cursor { seq![CURSOR] } else { Seq::<char>::empty() },
{
    assert(full.take(full.len() as int) =~= full);
    assert(shown_text(full, full.len(), None, cursor) =~= full + if cursor { seq![CURSOR] } else { Seq::<char>::empty() });
}

/// Whatever glitch and cursor are shown, the shown line begins with exactly the
/// revealed characters of the text.
pub proof fn lemma_shown_line_starts_with_revealed(full: Seq<char>, len: nat, glitch: Option<char>, cursor: bool)
    requires
        len <= full.len(),
    ensures
        shown_text(full, len, glitch, cursor).take(len as int) == full.take(len as int),
        shown_text(full, len, glitch, cursor).len() == len + (if glitch is Some { 1int } else { 0 }) + (if cursor { 1int } else { 0 }),
{
    assert(shown_text(full, len, glitch, cursor).take(len as int) =~= full.take(len as int));
}

/// With the three glitch characters a typewriter starts with, a glitch is only ever
/// chosen on a time divisible by three, which always picks the first of them.
pub proof fn lemma_glitch_is_first_of_three(glitch_chars: Seq<char>, time_ms: usize)
    requires
        glitch_chars.len() == 3,
    ensures
        glitch_for(glitch_chars, time_ms) is None || glitch_for(glitch_chars, time_ms) == Some(glitch_chars[0]),
{
}

/// While typing, a glitch is shown on exactly the frames whose time is a multiple of
/// three milliseconds, and then it is the glitch character the time picks, counting
/// around the list; on any other frame no glitch is shown.
pub proof fn lemma_glitch_timing(glitch_chars: Seq<char>, time_ms: usize)
    requires
        glitch_chars.len() > 0,
        glitch_chars.len() <= usize::MAX,
    ensures
        glitch_for(glitch_chars, time_ms) is Some <==> time_ms % 3 == 0,
        time_ms % 3 != 0 ==> glitch_for(glitch_chars, time_ms) is None,
        time_ms % 3 == 0 ==> glitch_for(glitch_chars, time_ms)
            == Some(glitch_chars[(time_ms as int) % (glitch_chars.len() as int)]),
        glitch_for(glitch_chars, time_ms) matches Some(c) ==> glitch_chars.contains(c),
{
    if time_ms % 3 == 0 {
        let i = (time_ms as int) % (glitch_chars.len() as int);
        assert(0 <= i < glitch_chars.len());
        assert(glitch_chars[i] == glitch_chars[i]);
    }
}

/// The shown line is laid out as: the revealed characters, then the glitch character
/// right after them if there is one, then the cursor as the very last character if it
/// is shown; nothing else.
pub proof fn lemma_shown_text_layout(full: Seq<char>, len: nat, glitch: Option<char>, cursor: bool)
    requires
        len <= full.len(),
    ensures
        forall|i: int| 0 <= i < len ==> #[trigger] shown_text(full, len, glitch, cursor)[i] == full[i],
        glitch matches Some(g) ==> shown_text(full, len, glitch, cursor)[len as int] == g,
        cursor ==> shown_text(full, len, glitch, cursor).last() == CURSOR,
        !cursor && glitch is None ==> shown_text(full, len, glitch, cursor) == full.take(len as int),
        shown_text(full, len, glitch, cursor).len() == len + (if glitch is Some { 1int } else { 0 }) + (if cursor { 1int } else { 0 }),
{
    if !cursor && glitch is None {
        assert(shown_text(full, len, glitch, cursor) =~= full.take(len as int));
    }
}

} // verus!
