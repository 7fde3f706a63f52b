//! **CommLog**: a sci-fi comms / chat feed with a streaming typewriter reveal
//! and an optional scrollbar for full transcript scrolling.
//!
//! Each entry is a speaker prefix (`NEXUS-7 ▸ …`) followed by its body, wrapped
//! to the feed width. The last message can be revealed char by char with a
//! blinking caret. Two layouts:
//!
//! - bottom-anchored (default): the newest row is pinned to the bottom row of
//!   the area, older rows clip off the top;
//! - scrollable transcript ([`CommLog::scrollbar`] on): the wrapped rows are
//!   windowed by [`CommLogState::scroll`] with a proportional scrollbar on the
//!   right edge whenever they overflow the area.

use vstd::prelude::*;

use crate::text::char_count;
use crate::theme::Theme;
use crate::widgets::caret::{blink_on, blink_visible, caret_glyph, CaretShape};

verus! {

/// Who a [`CommLogMessage`] is from; drives its prefix color
/// (agent: `accent`, user: `accent2`, system: `muted`).
#[derive(Debug, Clone, Copy, PartialEq, Eq, Structural)]
pub enum CommKind {
    /// A neutral system / status note (the default).
    System,
    /// The local operator / user.
    User,
    /// A remote agent.
    Agent,
}

impl Default for CommKind {
    fn default() -> (k: CommKind)
        ensures
            k == CommKind::System,
    {
        CommKind::System
    }
}

/// A single comms-feed entry. `revealed` is the number of body chars shown so
/// far; the message is fully on screen once it reaches the body's char count.
#[derive(Debug, Clone)]
pub struct CommLogMessage {
    /// Speaker name shown as the colored prefix, e.g. `"NEXUS-7"`.
    pub speaker: String,
    /// The message body, wrapped to the feed width.
    pub body: String,
    /// Speaker kind; selects the prefix color.
    pub kind: CommKind,
    /// Chars of `body` currently shown.
    pub revealed: usize,
}

/// Whether a message still has hidden body chars.
pub open spec fn msg_streaming(m: CommLogMessage) -> bool {
    m.revealed < m.body@.len()
}

impl CommLogMessage {
    /// A fully revealed message from `speaker` saying `body`.
    pub fn new(speaker: &str, body: &str, kind: CommKind) -> (m: CommLogMessage)
        ensures
            m.speaker@ == speaker@,
            m.body@ == body@,
            m.kind == kind,
            m.revealed == body@.len(),
    {
        let revealed = char_count(body);
        CommLogMessage {
            speaker: String::from_str(speaker),
            body: String::from_str(body),
            kind,
            revealed,
        }
    }

    /// Like [`new`](Self::new) but fully hidden (`revealed == 0`), so it
    /// streams in as [`CommLogState::tick`] advances.
    pub fn streaming(speaker: &str, body: &str, kind: CommKind) -> (m: CommLogMessage)
        ensures
            m.speaker@ == speaker@,
            m.body@ == body@,
            m.kind == kind,
            m.revealed == 0,
    {
        CommLogMessage {
            speaker: String::from_str(speaker),
            body: String::from_str(body),
            kind,
            revealed: 0,
        }
    }

    /// Total char count of the body.
    pub fn char_count(&self) -> (n: usize)
        ensures
            n == self.body@.len(),
    {
        char_count(self.body.as_str())
    }

    /// Whether any body chars are still hidden.
    pub fn is_streaming(&self) -> (b: bool)
        ensures
            b == msg_streaming(*self),
    {
        self.revealed < self.char_count()
    }
}

/// How [`CommLog`] lays out its messages.
#[derive(Debug, Clone, Copy, PartialEq, Eq, Structural)]
pub enum CommStyle {
    /// Compact text feed (the default).
    Plain,
    /// Bordered per-message cards with markdown bodies.
    Chat,
}

impl Default for CommStyle {
    fn default() -> (s: CommStyle)
        ensures
            s == CommStyle::Plain,
    {
        CommStyle::Plain
    }
}

/// A sci-fi comms / chat feed. All message state lives in [`CommLogState`].
#[derive(Debug, Clone, Copy)]
pub struct CommLog {
    /// Theme whose palette drives the prefix / body colors.
    pub theme: Theme,
    /// Streaming caret glyph shape.
    pub caret: CaretShape,
    /// Render as a scrollable transcript with a right-edge scrollbar.
    pub scrollbar: bool,
    /// Render style.
    pub style: CommStyle,
}

impl Default for CommLog {
    fn default() -> (c: CommLog)
        ensures
            c.theme == Theme::Cyberpunk,
            c.caret == CaretShape::Block,
            !c.scrollbar,
            c.style == CommStyle::Plain,
    {
        CommLog {
            theme: Theme::Cyberpunk,
            caret: CaretShape::Block,
            scrollbar: false,
            style: CommStyle::Plain,
        }
    }
}

impl CommLog {
    /// A feed with the default theme, block caret, no scrollbar, plain style.
    pub fn new() -> (c: CommLog)
        ensures
            c.theme == Theme::Cyberpunk,
            c.caret == CaretShape::Block,
            !c.scrollbar,
            c.style == CommStyle::Plain,
    {
        CommLog::default()
    }

    /// Set the theme whose palette drives colors.
    pub fn theme(self, theme: Theme) -> (c: CommLog)
        ensures
            c == (CommLog { theme, ..self }),
    {
        CommLog { theme, ..self }
    }

    /// Set the streaming caret's glyph shape.
    pub fn caret(self, caret: CaretShape) -> (c: CommLog)
        ensures
            c == (CommLog { caret, ..self }),
    {
        CommLog { caret, ..self }
    }

    /// Enable or disable the scrollable transcript mode with its scrollbar.
    pub fn scrollbar(self, on: bool) -> (c: CommLog)
        ensures
            c == (CommLog { scrollbar: on, ..self }),
    {
        CommLog { scrollbar: on, ..self }
    }

    /// Set the render style.
    pub fn style(self, style: CommStyle) -> (c: CommLog)
        ensures
            c == (CommLog { style, ..self }),
    {
        CommLog { style, ..self }
    }
}

/// Mutable state for [`CommLog`]: the transcript plus the blink and scroll
/// clocks.
#[derive(Debug, Clone)]
pub struct CommLogState {
    /// The transcript, oldest first.
    pub messages: Vec<CommLogMessage>,
    /// Blink clock for the streaming caret; advanced each tick.
    pub blink: u64,
    /// Rows scrolled up from the bottom (0 = newest pinned to the bottom).
    pub scroll: usize,
}

impl Default for CommLogState {
    fn default() -> (s: CommLogState)
        ensures
            s.messages@.len() == 0,
            s.blink == 0,
            s.scroll == 0,
    {
        CommLogState { messages: Vec::new(), blink: 0, scroll: 0 }
    }
}

/// The same message with its `revealed` count replaced.
pub open spec fn with_revealed(m: CommLogMessage, r: usize) -> CommLogMessage {
    CommLogMessage { revealed: r, ..m }
}

/// The transcript with its tail message fully revealed (unchanged when empty).
pub open spec fn finish_tail(msgs: Seq<CommLogMessage>) -> Seq<CommLogMessage> {
    if msgs.len() == 0 {
        msgs
    } else {
        msgs.update(
            msgs.len() - 1,
            with_revealed(msgs.last(), msgs.last().body@.len() as usize),
        )
    }
}

/// The `revealed` count of a streaming tail after one tick unveiling up to
/// `step` chars: `min(revealed + step, body length)`.
pub open spec fn advance_reveal(m: CommLogMessage, step: usize) -> usize {
    if m.revealed + step >= m.body@.len() {
        m.body@.len() as usize
    } else {
        (m.revealed + step) as usize
    }
}

/// Every message but the tail is fully revealed: at most the tail streams.
pub open spec fn settled(msgs: Seq<CommLogMessage>) -> bool {
    forall|i: int| 0 <= i < msgs.len() - 1 ==> !msg_streaming(#[trigger] msgs[i])
}

/// The scroll offset after scrolling up `n` rows (saturating).
pub open spec fn scrolled_up(scroll: usize, n: usize) -> usize {
    if scroll + n > usize::MAX {
        usize::MAX
    } else {
        (scroll + n) as usize
    }
}

/// The scroll offset after scrolling down `n` rows (stopping at the bottom).
pub open spec fn scrolled_down(scroll: usize, n: usize) -> usize {
    if scroll >= n {
        (scroll - n) as usize
    } else {
        0
    }
}

/// Scrolling down undoes scrolling up by the same amount, unless the offset
/// saturated on the way up.
pub proof fn lemma_scroll_round_trip(scroll: usize, n: usize)
    requires
        scroll + n <= usize::MAX,
    ensures
        scrolled_down(scrolled_up(scroll, n), n) == scroll,
{
}

/// A tick with a positive step on a streaming message reveals at least one
/// more char, and never more than the body holds; so a streaming message
/// completes after at most as many such ticks as its body has chars.
pub proof fn lemma_reveal_progress(m: CommLogMessage, step: usize)
    requires
        msg_streaming(m),
        step >= 1,
        m.body@.len() <= usize::MAX,
    ensures
        m.revealed < advance_reveal(m, step) <= m.body@.len(),
        advance_reveal(m, step) == m.body@.len() || advance_reveal(m, step) >= m.revealed + step,
{
}

impl CommLogState {
    /// Empty transcript, clocks at zero, scroll at the bottom.
    pub fn new() -> (s: CommLogState)
        ensures
            s.messages@.len() == 0,
            s.blink == 0,
            s.scroll == 0,
    {
        CommLogState::default()
    }

    /// Append a fully revealed message (forces `revealed` to the body length)
    /// and follow the newest message (scroll back to the bottom).
    pub fn push(&mut self, msg: CommLogMessage)
        ensures
            final(self).messages@ == old(self).messages@.push(
                with_revealed(msg, msg.body@.len() as usize),
            ),
            final(self).scroll == 0,
            final(self).blink == old(self).blink,
            !msg_streaming(final(self).messages@.last()),
            settled(old(self).messages@) && !(old(self).messages@.len() > 0 && msg_streaming(
                old(self).messages@.last(),
            )) ==> settled(final(self).messages@),
    {
        let mut msg = msg;
        msg.revealed = msg.char_count();
        self.messages.push(msg);
        self.scroll = 0;
        proof {
            let o = old(self).messages@;
            if settled(o) && !(o.len() > 0 && msg_streaming(o.last())) {
                assert forall|i: int| 0 <= i < self.messages@.len() - 1 implies !msg_streaming(
                    #[trigger] self.messages@[i],
                ) by {
                    assert(self.messages@[i] == o[i]);
                }
            }
        }
    }

    /// Append a message that streams in char by char (`revealed` set to 0).
    /// A previous tail that was still streaming is finished first, so only one
    /// message ever streams at a time. Scrolls back to the bottom.
    pub fn push_streaming(&mut self, msg: CommLogMessage)
        ensures
            final(self).messages@ == finish_tail(old(self).messages@).push(
                with_revealed(msg, 0),
            ),
            final(self).scroll == 0,
            final(self).blink == old(self).blink,
            settled(old(self).messages@) ==> settled(final(self).messages@),
    {
        self.finish_streaming();
        let ghost mid = self.messages@;
        let mut msg = msg;
        msg.revealed = 0;
        self.messages.push(msg);
        self.scroll = 0;
        proof {
            if settled(old(self).messages@) {
                assert forall|i: int| 0 <= i < self.messages@.len() - 1 implies !msg_streaming(
                    #[trigger] self.messages@[i],
                ) by {
                    assert(self.messages@[i] == mid[i]);
                    assert(settled(mid));
                    if i < mid.len() - 1 {
                    }
                }
            }
        }
    }

    /// Fully reveal the tail message. No-op on an empty transcript.
    pub fn finish_streaming(&mut self)
        ensures
            final(self).messages@ == finish_tail(old(self).messages@),
            final(self).scroll == old(self).scroll,
            final(self).blink == old(self).blink,
            !(final(self).messages@.len() > 0 && msg_streaming(final(self).messages@.last())),
            settled(old(self).messages@) ==> settled(final(self).messages@),
    {
        match self.messages.pop() {
            Some(last) => {
                let mut last = last;
                last.revealed = last.char_count();
                self.messages.push(last);
                assert(self.messages@ =~= finish_tail(old(self).messages@));
                proof {
                    let o = old(self).messages@;
                    if settled(o) {
                        assert forall|i: int| 0 <= i < self.messages@.len() - 1 implies !msg_streaming(
                            #[trigger] self.messages@[i],
                        ) by {
                            assert(self.messages@[i] == o[i]);
                        }
                    }
                }
            },
            None => {},
        }
    }

    /// Whether the tail message is still revealing characters.
    pub fn is_streaming(&self) -> (b: bool)
        ensures
            b == (self.messages@.len() > 0 && msg_streaming(self.messages@.last())),
    {
        let n = self.messages.len();
        n > 0 && self.messages[n - 1].is_streaming()
    }

    /// The speaker name of the tail message, if any.
    pub fn last_speaker(&self) -> (r: Option<&str>)
        ensures
            r is None <==> self.messages@.len() == 0,
            r matches Some(s) ==> s@ == self.messages@.last().speaker@,
    {
        let n = self.messages.len();
        if n == 0 {
            None
        } else {
            Some(self.messages[n - 1].speaker.as_str())
        }
    }

    /// Scroll the view up (toward older messages) by `lines` rows, saturating.
    pub fn scroll_up(&mut self, lines: usize)
        ensures
            final(self).scroll == scrolled_up(old(self).scroll, lines),
            final(self).messages@ == old(self).messages@,
            final(self).blink == old(self).blink,
    {
        self.scroll = self.scroll.saturating_add(lines);
    }

    /// Scroll the view down (toward the newest message) by `lines` rows,
    /// stopping at the bottom.
    pub fn scroll_down(&mut self, lines: usize)
        ensures
            final(self).scroll == scrolled_down(old(self).scroll, lines),
            final(self).messages@ == old(self).messages@,
            final(self).blink == old(self).blink,
    {
        self.scroll = self.scroll.saturating_sub(lines);
    }

    /// Jump back to the newest message.
    pub fn scroll_to_bottom(&mut self)
        ensures
            final(self).scroll == 0,
            final(self).messages@ == old(self).messages@,
            final(self).blink == old(self).blink,
    {
        self.scroll = 0;
    }

    /// Whether the view is pinned to the newest message.
    pub fn at_bottom(&self) -> (b: bool)
        ensures
            b == (self.scroll == 0),
    {
        self.scroll == 0
    }

    /// Drop every message and scroll back to the bottom.
    pub fn clear(&mut self)
        ensures
            final(self).messages@.len() == 0,
            final(self).scroll == 0,
            final(self).blink == old(self).blink,
    {
        self.messages.clear();
        self.scroll = 0;
    }

    /// Advance one frame: step the caret blink clock (wrapping) and unveil up
    /// to `chars_per_tick` body chars of a streaming tail.
    pub fn tick(&mut self, chars_per_tick: usize)
        ensures
            final(self).blink == (if old(self).blink == u64::MAX {
                0
            } else {
                (old(self).blink + 1) as u64
            }),
            final(self).scroll == old(self).scroll,
            old(self).messages@.len() > 0 && msg_streaming(old(self).messages@.last())
                ==> final(self).messages@ == old(self).messages@.update(
                old(self).messages@.len() - 1,
                with_revealed(
                    old(self).messages@.last(),
                    advance_reveal(old(self).messages@.last(), chars_per_tick),
                ),
            ),
            !(old(self).messages@.len() > 0 && msg_streaming(old(self).messages@.last()))
                ==> final(self).messages@ == old(self).messages@,
            settled(old(self).messages@) ==> settled(final(self).messages@),
    {
        self.blink = self.blink.wrapping_add(1);
        match self.messages.pop() {
            Some(last) => {
                let mut last = last;
                let total = last.char_count();
                if last.revealed < total {
                    let step = chars_per_tick;
                    if step >= total - last.revealed {
                        last.revealed = total;
                    } else {
                        last.revealed = last.revealed + step;
                    }
                }
                self.messages.push(last);
                assert(self.messages@ =~= old(self).messages@.update(
                    old(self).messages@.len() - 1,
                    self.messages@.last(),
                ));
                proof {
                    let o = old(self).messages@;
                    if settled(o) {
                        assert forall|i: int| 0 <= i < self.messages@.len() - 1 implies !msg_streaming(
                            #[trigger] self.messages@[i],
                        ) by {
                            assert(self.messages@[i] == o[i]);
                        }
                    }
                }
            },
            None => {},
        }
    }

    /// Whether the streaming caret is in the visible half of its blink.
    pub fn caret_visible(&self) -> (b: bool)
        ensures
            b == blink_on(self.blink),
    {
        blink_visible(self.blink)
    }
}


/// `n` spaces.
pub open spec fn spaces(n: nat) -> Seq<char> {
    Seq::new(n, |i: int| ' ')
}

/// The speaker prefix of a message: `"<speaker> ▸ "`.
pub open spec fn msg_prefix(m: CommLogMessage) -> Seq<char> {
    m.speaker@ + seq![' ', '▸', ' ']
}

/// The part of the body on screen: its first `revealed` chars.
pub open spec fn shown_body(m: CommLogMessage) -> Seq<char> {
    if m.revealed >= m.body@.len() {
        m.body@
    } else {
        m.body@.take(m.revealed as int)
    }
}

/// Body chars per row for a message in a feed `width` cells wide: what the
/// prefix leaves, but at least one.
pub open spec fn body_width(m: CommLogMessage, width: nat) -> nat {
    if width > msg_prefix(m).len() {
        (width - msg_prefix(m).len()) as nat
    } else {
        1
    }
}

/// `s` cut into consecutive rows of `w` chars (the last one possibly
/// shorter). An empty `s` is one empty row.
pub open spec fn chunk_rows(s: Seq<char>, w: nat) -> Seq<Seq<char>>
    decreases s.len(),
{
    if s.len() <= w || w == 0 {
        seq![s]
    } else {
        seq![s.take(w as int)] + chunk_rows(s.skip(w as int), w)
    }
}

/// A row of a comms feed, as plain values.
pub ghost struct RowView {
    pub kind: CommKind,
    pub lead: Seq<char>,
    pub body: Seq<char>,
    pub caret: Option<char>,
}

/// One wrapped row of a message: the lead (the speaker prefix on a message's
/// first row, an indent of the same width on continuation rows), a body chunk,
/// and the caret glyph drawn after the body, if any.
#[derive(Debug, Clone)]
pub struct CommRow {
    /// Speaker kind of the message the row belongs to (selects the lead color).
    pub kind: CommKind,
    /// Speaker prefix or indent.
    pub lead: Vec<char>,
    /// Body chars of this row.
    pub body: Vec<char>,
    /// Caret glyph drawn right after the body, if any.
    pub caret: Option<char>,
}

impl View for CommRow {
    type V = RowView;

    open spec fn view(&self) -> RowView {
        RowView { kind: self.kind, lead: self.lead@, body: self.body@, caret: self.caret }
    }
}

/// The wrapped rows of one message, top to bottom. `caret` is the caret glyph
/// when the caret is in the visible half of its blink; it is drawn after the
/// last row of a still-streaming message.
pub open spec fn message_rows_of(m: CommLogMessage, width: nat, caret: Option<char>) -> Seq<
    RowView,
> {
    let chunks = chunk_rows(shown_body(m), body_width(m, width));
    Seq::new(
        chunks.len(),
        |i: int|
            RowView {
                kind: m.kind,
                lead: if i == 0 {
                    msg_prefix(m)
                } else {
                    spaces(msg_prefix(m).len())
                },
                body: chunks[i],
                caret: if msg_streaming(m) && i == chunks.len() - 1 {
                    caret
                } else {
                    None
                },
            },
    )
}

proof fn lemma_chunk_rows_spell(s: Seq<char>, w: nat)
    requires
        w > 0,
    ensures
        chunk_rows(s, w).len() >= 1,
        chunk_rows(s, w).map_values(|r: Seq<char>| r).flatten() == s,
        forall|i: int| 0 <= i < chunk_rows(s, w).len() ==> (#[trigger] chunk_rows(s, w)[i]).len() <= w,
        forall|i: int|
            0 <= i < chunk_rows(s, w).len() - 1 ==> (#[trigger] chunk_rows(s, w)[i]).len() == w,
    decreases s.len(),
{
    let c = chunk_rows(s, w);
    if s.len() <= w {
        assert(c.map_values(|r: Seq<char>| r) =~= seq![s]);
        seq![s].lemma_flatten_singleton();
    } else {
        let rest = chunk_rows(s.skip(w as int), w);
        lemma_chunk_rows_spell(s.skip(w as int), w);
        assert(c == seq![s.take(w as int)] + rest);
        assert(c.map_values(|r: Seq<char>| r) =~= c);
        assert(rest.map_values(|r: Seq<char>| r) =~= rest);
        vstd::seq_lib::lemma_flatten_concat(seq![s.take(w as int)], rest);
        seq![s.take(w as int)].lemma_flatten_singleton();
        assert(s.take(w as int) + s.skip(w as int) =~= s);
        assert forall|i: int| 0 <= i < c.len() implies (#[trigger] c[i]).len() <= w by {
            if i > 0 {
                assert(c[i] == rest[i - 1]);
            }
        }
        assert forall|i: int| 0 <= i < c.len() - 1 implies (#[trigger] c[i]).len() == w by {
            if i > 0 {
                assert(c[i] == rest[i - 1]);
            }
        }
    }
}

/// The rows of a message: at least one; the first leads with the speaker and
/// `" ▸ "`, the others with as many spaces; read in order, the row bodies
/// spell the shown part of the body (its first `revealed` chars), every row
/// full but the last; and a caret is drawn only after the last row, and
/// only while the message streams.
pub proof fn lemma_message_rows_layout(m: CommLogMessage, width: nat, caret: Option<char>)
    ensures
        message_rows_of(m, width, caret).len() >= 1,
        forall|i: int|
            0 <= i < message_rows_of(m, width, caret).len() ==> (#[trigger] message_rows_of(
                m,
                width,
                caret,
            )[i]).caret == (if msg_streaming(m) && i == message_rows_of(m, width, caret).len() - 1 {
                caret
            } else {
                None
            }),
        message_rows_of(m, width, caret)[0].lead == m.speaker@ + seq![' ', '▸', ' '],
        forall|i: int|
            0 < i < message_rows_of(m, width, caret).len() ==> (#[trigger] message_rows_of(
                m,
                width,
                caret,
            )[i]).lead == Seq::new(m.speaker@.len() + 3, |j: int| ' '),
        message_rows_of(m, width, caret).map_values(|r: RowView| r.body).flatten() == (if m.revealed
            >= m.body@.len() {
            m.body@
        } else {
            m.body@.take(m.revealed as int)
        }),
        forall|i: int|
            0 <= i < message_rows_of(m, width, caret).len() - 1 ==> (#[trigger] message_rows_of(
                m,
                width,
                caret,
            )[i]).body.len() == (if width > m.speaker@.len() + 3 {
                width - (m.speaker@.len() + 3)
            } else {
                1
            }),
{
    let w = body_width(m, width);
    let rows = message_rows_of(m, width, caret);
    let chunks = chunk_rows(shown_body(m), w);
    lemma_chunk_rows_spell(shown_body(m), w);
    assert(rows.map_values(|r: RowView| r.body) =~= chunks.map_values(|r: Seq<char>| r));
    assert(spaces(msg_prefix(m).len()) =~= Seq::new(m.speaker@.len() + 3, |j: int| ' '));
}

/// All rows of a transcript, oldest message first.
pub open spec fn feed_rows_of(msgs: Seq<CommLogMessage>, width: nat, caret: Option<char>) -> Seq<
    RowView,
>
    decreases msgs.len(),
{
    if msgs.len() == 0 {
        Seq::empty()
    } else {
        feed_rows_of(msgs.drop_last(), width, caret) + message_rows_of(msgs.last(), width, caret)
    }
}

proof fn lemma_chunk_rows_nonempty(s: Seq<char>, w: nat)
    ensures
        chunk_rows(s, w).len() >= 1,
    decreases s.len(),
{
    if !(s.len() <= w || w == 0) {
        lemma_chunk_rows_nonempty(s.skip(w as int), w);
    }
}

/// Cut `s` into rows of `w` chars.
fn chunk(s: &Vec<char>, w: usize) -> (r: Vec<Vec<char>>)
    requires
        w > 0,
    ensures
        r@.map_values(|c: Vec<char>| c@) == chunk_rows(s@, w as nat),
{
    let mut r: Vec<Vec<char>> = Vec::new();
    let mut pos: usize = 0;
    let mut done = false;
    assert(s@.skip(0) =~= s@);
    assert(r@.map_values(|c: Vec<char>| c@) + chunk_rows(s@.skip(0), w as nat) =~= chunk_rows(
        s@,
        w as nat,
    ));
    while !done
        invariant
            w > 0,
            pos <= s.len(),
            done ==> r@.map_values(|c: Vec<char>| c@) == chunk_rows(s@, w as nat),
            !done ==> r@.map_values(|c: Vec<char>| c@) + chunk_rows(s@.skip(pos as int), w as nat)
                == chunk_rows(s@, w as nat),
        decreases s.len() - pos + (if done { 0int } else { 1int }),
    {
        let ghost old_r = r@;
        let ghost rest = s@.skip(pos as int);
        let rem = s.len() - pos;
        let end = if rem <= w {
            s.len()
        } else {
            pos + w
        };
        let mut row: Vec<char> = Vec::new();
        let mut k = pos;
        while k < end
            invariant
                pos <= k <= end <= s.len(),
                row@ == s@.subrange(pos as int, k as int),
            decreases end - k,
        {
            row.push(s[k]);
            k = k + 1;
        }
        r.push(row);
        assert(r@.map_values(|c: Vec<char>| c@) =~= old_r.map_values(|c: Vec<char>| c@).push(
            s@.subrange(pos as int, end as int),
        ));
        if rem <= w {
            assert(rest =~= s@.subrange(pos as int, end as int));
            assert(chunk_rows(rest, w as nat) == seq![rest]);
            assert(r@.map_values(|c: Vec<char>| c@) =~= old_r.map_values(|c: Vec<char>| c@)
                + chunk_rows(rest, w as nat));
            done = true;
        } else {
            assert(rest.take(w as int) =~= s@.subrange(pos as int, end as int));
            assert(rest.skip(w as int) =~= s@.skip(end as int));
            assert(chunk_rows(rest, w as nat) == seq![rest.take(w as int)] + chunk_rows(
                rest.skip(w as int),
                w as nat,
            ));
            assert(r@.map_values(|c: Vec<char>| c@) + chunk_rows(s@.skip(end as int), w as nat)
                =~= old_r.map_values(|c: Vec<char>| c@) + chunk_rows(rest, w as nat));
            pos = end;
        }
    }
    r
}

/// The first `n` chars of `s` (all of `s` when shorter).
pub(crate) fn take_chars(s: &Vec<char>, n: usize) -> (r: Vec<char>)
    ensures
        r@ == (if n >= s@.len() {
            s@
        } else {
            s@.take(n as int)
        }),
{
    let end = if n >= s.len() {
        s.len()
    } else {
        n
    };
    let mut r: Vec<char> = Vec::new();
    let mut k: usize = 0;
    while k < end
        invariant
            k <= end <= s.len(),
            r@ == s@.take(k as int),
        decreases end - k,
    {
        r.push(s[k]);
        k = k + 1;
    }
    assert(r@ =~= (if n >= s@.len() {
        s@
    } else {
        s@.take(n as int)
    }));
    r
}

/// Split a message into its wrapped rows, top to bottom. `caret` is the caret
/// glyph when the caret is currently visible.
pub fn message_rows(m: &CommLogMessage, width: usize, caret: Option<char>) -> (rows: Vec<CommRow>)
    ensures
        rows@.map_values(|r: CommRow| r@) == message_rows_of(*m, width as nat, caret),
{
    let mut prefix = crate::text::chars_of(m.speaker.as_str());
    prefix.push(' ');
    prefix.push('▸');
    prefix.push(' ');
    assert(prefix@ =~= msg_prefix(*m));
    let pw = prefix.len();
    let cw = if width > pw {
        width - pw
    } else {
        1
    };
    let body = crate::text::chars_of(m.body.as_str());
    let shown = take_chars(&body, m.revealed);
    assert(shown@ =~= shown_body(*m));
    let chunks = chunk(&shown, cw);
    let streaming = m.is_streaming();
    let ghost spec_chunks = chunk_rows(shown_body(*m), body_width(*m, width as nat));
    assert(chunks@.map_values(|c: Vec<char>| c@) == spec_chunks);
    proof {
        lemma_chunk_rows_nonempty(shown_body(*m), body_width(*m, width as nat));
    }
    let mut indent: Vec<char> = Vec::new();
    let mut k: usize = 0;
    while k < pw
        invariant
            k <= pw,
            indent@ == spaces(k as nat),
        decreases pw - k,
    {
        indent.push(' ');
        k = k + 1;
        assert(indent@ =~= spaces(k as nat));
    }
    let n = chunks.len();
    let mut rows: Vec<CommRow> = Vec::new();
    let mut i: usize = 0;
    while i < n
        invariant
            n == chunks@.len(),
            n == spec_chunks.len(),
            n >= 1,
            i <= n,
            prefix@ == msg_prefix(*m),
            indent@ == spaces(msg_prefix(*m).len()),
            chunks@.map_values(|c: Vec<char>| c@) == spec_chunks,
            streaming == msg_streaming(*m),
            spec_chunks == chunk_rows(shown_body(*m), body_width(*m, width as nat)),
            rows@.map_values(|r: CommRow| r@) == message_rows_of(*m, width as nat, caret).take(
                i as int,
            ),
        decreases n - i,
    {
        let lead = if i == 0 {
            prefix.clone()
        } else {
            indent.clone()
        };
        let c = if streaming && i == n - 1 {
            caret
        } else {
            None
        };
        let row = CommRow { kind: m.kind, lead, body: chunks[i].clone(), caret: c };
        let ghost before = rows@.map_values(|r: CommRow| r@);
        assert(chunks@[i as int]@ == spec_chunks[i as int]);
        rows.push(row);
        assert(rows@.map_values(|r: CommRow| r@) =~= before.push(row@));
        assert(rows@.map_values(|r: CommRow| r@) =~= message_rows_of(*m, width as nat, caret).take(
            i + 1,
        ));
        i = i + 1;
    }
    assert(message_rows_of(*m, width as nat, caret).take(n as int) =~= message_rows_of(
        *m,
        width as nat,
        caret,
    ));
    rows
}

/// All wrapped rows of a transcript, oldest first.
pub fn feed_rows(msgs: &Vec<CommLogMessage>, width: usize, caret: Option<char>) -> (rows: Vec<
    CommRow,
>)
    ensures
        rows@.map_values(|r: CommRow| r@) == feed_rows_of(msgs@, width as nat, caret),
{
    let mut rows: Vec<CommRow> = Vec::new();
    let mut i: usize = 0;
    while i < msgs.len()
        invariant
            i <= msgs.len(),
            rows@.map_values(|r: CommRow| r@) == feed_rows_of(msgs@.take(i as int), width as nat, caret),
        decreases msgs.len() - i,
    {
        let mut more = message_rows(&msgs[i], width, caret);
        let ghost before = rows@.map_values(|r: CommRow| r@);
        let ghost add = more@.map_values(|r: CommRow| r@);
        rows.append(&mut more);
        assert(rows@.map_values(|r: CommRow| r@) =~= before + add);
        assert(msgs@.take(i + 1).drop_last() =~= msgs@.take(i as int));
        assert(msgs@.take(i + 1).last() == msgs@[i as int]);
        i = i + 1;
    }
    assert(msgs@.take(msgs@.len() as int) =~= msgs@);
    rows
}


/// What a [`CommLog`] draws in an area: rows of text (top to bottom, from row
/// `first_y` of the area down, clipped at `content_width` columns) and an
/// optional scrollbar thumb in the area's last column.
#[derive(Debug, Clone)]
pub struct CommLayout {
    /// Rows to draw, top to bottom.
    pub rows: Vec<CommRow>,
    /// Area row of the first row.
    pub first_y: u16,
    /// Columns available to the rows (the rest of the area is the scrollbar).
    pub content_width: u16,
    /// `(top row, height)` of the scrollbar thumb; `Some` exactly when the
    /// scrollbar (its `│` track plus the `█` thumb) is drawn.
    pub thumb: Option<(u16, u16)>,
}

/// The caret glyph handed to the row builder: the caret's glyph while it is
/// in the visible half of its blink.
pub open spec fn caret_for(c: CaretShape, blink: u64) -> Option<char> {
    if blink_on(blink) {
        Some(caret_glyph(c))
    } else {
        None
    }
}

/// Scroll offset clamped to what the content allows.
pub open spec fn max_scroll_of(total: nat, view_h: nat) -> nat {
    if total > view_h {
        (total - view_h) as nat
    } else {
        0
    }
}

/// Index of the first row shown in scrollbar mode, for an already clamped
/// scroll offset.
pub open spec fn window_start(total: nat, view_h: nat, scroll: nat) -> nat {
    (max_scroll_of(total, view_h) - scroll) as nat
}

/// Height of the scrollbar thumb: proportional to viewport / content, at
/// least one row.
pub open spec fn thumb_height(total: nat, view_h: nat) -> nat {
    if (view_h * view_h) / total >= 1 {
        (view_h * view_h) / total
    } else {
        1
    }
}

/// Top row of the scrollbar thumb: proportional to start / content, kept
/// inside the track.
pub open spec fn thumb_top(total: nat, view_h: nat, start: nat) -> nat {
    let t = (start * view_h) / total;
    let room = if view_h >= thumb_height(total, view_h) {
        (view_h - thumb_height(total, view_h)) as nat
    } else {
        0
    };
    if t <= room {
        t
    } else {
        room
    }
}

proof fn lemma_thumb_bounds(total: nat, h: nat, start: nat)
    requires
        total > h,
        h <= 0xffff,
        start <= total,
        total <= 0xffff_ffff_ffff_ffff,
    ensures
        h * h <= 0xffff_ffff,
        (h * h) / total <= h,
        start * h <= 0xffff_ffff_ffff_ffff_ffff,
        (start * h) / total <= h,
{
    assert(h * h <= 0xffff_ffff) by (nonlinear_arith)
        requires
            h <= 0xffff,
    ;
    assert((h * h) / total <= h) by (nonlinear_arith)
        requires
            total > h,
    ;
    assert(start * h <= 0xffff_ffff_ffff_ffff_ffff) by (nonlinear_arith)
        requires
            h <= 0xffff,
            start <= 0xffff_ffff_ffff_ffff,
    ;
    assert((start * h) / total <= h) by (nonlinear_arith)
        requires
            start <= total,
            total > 0,
    ;
}

fn copy_row(r: &CommRow) -> (c: CommRow)
    ensures
        c@ == r@,
{
    CommRow { kind: r.kind, lead: r.lead.clone(), body: r.body.clone(), caret: r.caret }
}

fn slice_rows(rows: &Vec<CommRow>, from: usize, to: usize) -> (r: Vec<CommRow>)
    requires
        from <= to <= rows.len(),
    ensures
        r@.map_values(|x: CommRow| x@) == rows@.map_values(|x: CommRow| x@).subrange(
            from as int,
            to as int,
        ),
{
    let mut r: Vec<CommRow> = Vec::new();
    let mut k = from;
    while k < to
        invariant
            from <= k <= to <= rows.len(),
            r@.map_values(|x: CommRow| x@) == rows@.map_values(|x: CommRow| x@).subrange(
                from as int,
                k as int,
            ),
        decreases to - k,
    {
        let ghost before = r@.map_values(|x: CommRow| x@);
        r.push(copy_row(&rows[k]));
        assert(r@[r@.len() - 1]@ == rows@[k as int]@);
        assert(r@.map_values(|x: CommRow| x@) =~= before.push(rows@[k as int]@));
        assert(r@.map_values(|x: CommRow| x@) =~= rows@.map_values(|x: CommRow| x@).subrange(
            from as int,
            k + 1,
        ));
        k = k + 1;
    }
    r
}

impl CommLog {
    /// Lay the transcript out in a `width × height` area.
    ///
    /// Nothing is drawn in an empty area or for an empty transcript. Otherwise
    /// the rows are those of [`feed_rows_of`] for the current caret blink:
    ///
    /// - without the scrollbar, the last `min(height, total)` rows, ending on
    ///   the area's bottom row (rows `width` wide);
    /// - with it, `state.scroll` is first clamped to the scrollable range, then
    ///   up to `height` rows from [`window_start`] are shown from the top row;
    ///   rows are one column narrower when the area is at least 3 wide, and
    ///   that last column holds the scrollbar whenever the rows overflow.
    pub fn layout(&self, width: u16, height: u16, state: &mut CommLogState) -> (l: CommLayout)
        ensures
            final(state).messages@ == old(state).messages@,
            final(state).blink == old(state).blink,
            ({
                let msgs = old(state).messages@;
                let caret = caret_for(self.caret, old(state).blink);
                let h = height as nat;
                if width == 0 || height == 0 || msgs.len() == 0 {
                    &&& l.rows@.len() == 0
                    &&& l.thumb is None
                    &&& final(state).scroll == old(state).scroll
                } else if !self.scrollbar {
                    let all = feed_rows_of(msgs, width as nat, caret);
                    let n = if all.len() <= h { all.len() } else { h };
                    &&& l.content_width == width
                    &&& l.rows@.map_values(|r: CommRow| r@) == all.subrange(all.len() - n, all.len() as int)
                    &&& l.first_y == h - n
                    &&& l.thumb is None
                    &&& final(state).scroll == old(state).scroll
                } else {
                    let cw: nat = if width >= 3 { (width - 1) as nat } else { width as nat };
                    let all = feed_rows_of(msgs, cw, caret);
                    let total = all.len();
                    let ms = max_scroll_of(total, h);
                    let sc: nat = if old(state).scroll > ms { ms } else { old(state).scroll as nat };
                    let start = window_start(total, h, sc);
                    let end = if start + h <= total { start + h } else { total };
                    &&& final(state).scroll == sc
                    &&& l.content_width == cw
                    &&& l.first_y == 0
                    &&& l.rows@.map_values(|r: CommRow| r@) == all.subrange(start as int, end as int)
                    &&& (l.thumb is Some <==> (width >= 3 && total > h))
                    &&& (l.thumb matches Some(t) ==> t.0 == thumb_top(total, h, start) && t.1
                        == thumb_height(total, h))
                }
            }),
    {
        let empty: Vec<CommRow> = Vec::new();
        if width == 0 || height == 0 || state.messages.len() == 0 {
            return CommLayout { rows: empty, first_y: 0, content_width: width, thumb: None };
        }
        let caret = if state.caret_visible() {
            Some(self.caret.glyph())
        } else {
            None
        };
        let h = height as usize;
        if !self.scrollbar {
            let all = feed_rows(&state.messages, width as usize, caret);
            let total = all.len();
            let n = if total <= h {
                total
            } else {
                h
            };
            let rows = slice_rows(&all, total - n, total);
            return CommLayout {
                rows,
                first_y: (h - n) as u16,
                content_width: width,
                thumb: None,
            };
        }
        let cw: u16 = if width >= 3 {
            width - 1
        } else {
            width
        };
        let all = feed_rows(&state.messages, cw as usize, caret);
        let total = all.len();
        let ms = if total > h {
            total - h
        } else {
            0
        };
        if state.scroll > ms {
            state.scroll = ms;
        }
        let start = ms - state.scroll;
        let end = if total - start >= h {
            start + h
        } else {
            total
        };
        let rows = slice_rows(&all, start, end);
        let thumb = if width >= 3 && total > h {
            proof {
                lemma_thumb_bounds(total as nat, h as nat, start as nat);
            }
            let hh = (h as u128) * (h as u128) / (total as u128);
            let th: u128 = if hh >= 1 {
                hh
            } else {
                1
            };
            let t = (start as u128) * (h as u128) / (total as u128);
            let room: u128 = if (h as u128) >= th {
                (h as u128) - th
            } else {
                0
            };
            let top = if t <= room {
                t
            } else {
                room
            };
            Some((top as u16, th as u16))
        } else {
            None
        };
        CommLayout { rows, first_y: 0, content_width: cw, thumb }
    }
}

} // verus!
