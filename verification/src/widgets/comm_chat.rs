//! Card layout of a [`CommLog`] in its [`Chat`](crate::widgets::comm_log::CommStyle::Chat)
//! style: each message is a bordered card with a markdown body. User cards
//! are narrower and pushed to the right; agent and system cards span the
//! width. Cards stack with a one-row gap and scroll like the plain feed.

use vstd::prelude::*;

use crate::theme::{palette_of, Theme};
use crate::widgets::caret::caret_glyph;
use crate::text::{chars_of, string_of};
use crate::widgets::comm_log::{
    caret_for, max_scroll_of, msg_streaming, shown_body, take_chars, thumb_height, thumb_top,
    window_start, CommKind, CommLog, CommLogMessage, CommLogState,
};
use crate::widgets::markdown::{
    fg_style, line_view, lines_view, markdown_lines, md_document, md_events_of, parse_markdown,
    MdEvent, MdSpan, MdStyle,
};

verus! {

/// One message card: its place in the stacked feed and its body lines.
#[derive(Debug, Clone)]
pub struct ChatCard {
    /// Feed row of the card's top border (0 = top of the whole feed).
    pub top: u128,
    /// Columns from the area's left edge to the card.
    pub x_offset: u16,
    pub width: u16,
    /// Border rows plus body rows.
    pub height: u16,
    /// Body lines (inside the border).
    pub body: Vec<Vec<MdSpan>>,
    pub kind: CommKind,
    pub speaker: String,
}

/// What the chat style draws: the cards, the feed row at the top of the
/// area, the columns the cards may use, and the scrollbar thumb.
#[derive(Debug, Clone)]
pub struct ChatLayout {
    pub cards: Vec<ChatCard>,
    /// Whether each card is drawn: its top row lies in the visible window.
    pub drawn: Vec<bool>,
    pub start: u128,
    pub content_width: u16,
    /// `(top row, height)` of the thumb; `Some` exactly when the scrollbar is
    /// drawn.
    pub thumb: Option<(u16, u16)>,
}

/// Width of a card in a feed `cw` columns wide: seven tenths of it (at least
/// 20, at most the feed) for the user, the whole feed otherwise.
pub open spec fn chat_card_width(kind: CommKind, cw: u16) -> u16 {
    if kind == CommKind::User {
        let w = cw * 7 / 10;
        let w2 = if w >= 20 { w } else { 20 };
        if w2 <= cw { w2 as u16 } else { cw }
    } else {
        cw
    }
}

/// The body lines of a card `card_w` wide: the rendered markdown of the
/// shown text at the width inside the border, with the caret (accent) at the
/// end of the last line while the message streams and the caret is lit.
pub open spec fn chat_body(events: Seq<MdEvent>, t: Theme, card_w: u16, caret: Option<char>, streaming: bool) -> Seq<Seq<(Seq<char>, MdStyle)>> {
    let bw: u16 = if card_w >= 3 { (card_w - 2) as u16 } else { 1 };
    let doc = md_document(events, t, bw);
    if streaming && caret is Some && doc.len() > 0 {
        doc.update(doc.len() - 1, doc.last().push((seq![caret->0], fg_style(palette_of(t).accent))))
    } else {
        doc
    }
}

/// Feed row of card `i`: the heights of the cards above it, one gap row each.
pub open spec fn stack_top(heights: Seq<u16>, i: int) -> nat
    decreases i,
{
    if i <= 0 {
        0
    } else {
        stack_top(heights, i - 1) + heights[i - 1] as nat + 1
    }
}

/// Whether `c` is the card of message `m` (whose shown text has the
/// markdown events `events`) in a feed `cw` columns wide, apart from its
/// place in the stack.
pub open spec fn is_chat_card(c: ChatCard, m: CommLogMessage, events: Seq<MdEvent>, t: Theme, cw: u16, caret: Option<char>) -> bool {
    &&& c.kind == m.kind
    &&& c.speaker@ == m.speaker@
    &&& c.width == chat_card_width(m.kind, cw)
    &&& c.x_offset == (if m.kind == CommKind::User { (cw - c.width) as u16 } else { 0 })
    &&& lines_view(c.body@) == chat_body(events, t, c.width, caret, msg_streaming(m))
    &&& c.height == (2 + c.body@.len()) as u16
}

/// The heights of a stack of cards.
pub open spec fn card_heights(cards: Seq<ChatCard>) -> Seq<u16> {
    cards.map_values(|c: ChatCard| c.height)
}

/// The event lists of the card bodies as plain sequences.
pub open spec fn bodies_view(bodies: Seq<Vec<MdEvent>>) -> Seq<Seq<MdEvent>> {
    bodies.map_values(|b: Vec<MdEvent>| b@)
}

/// `l` is the chat layout of the messages of `old` in a `width` × `height`
/// area, each card's body drawn from the events in `bodies`, and `new` is the
/// state after the scroll offset was clamped.
pub open spec fn is_chat_layout(
    log: CommLog,
    width: u16,
    height: u16,
    old: CommLogState,
    new: CommLogState,
    bodies: Seq<Seq<MdEvent>>,
    l: ChatLayout,
) -> bool {
    let msgs = old.messages@;
    let caret = caret_for(log.caret, old.blink);
    let cw: u16 = if log.scrollbar && width >= 3 { (width - 1) as u16 } else { width };
    let total = stack_top(card_heights(l.cards@), msgs.len() as int);
    let h = height as nat;
    let ms = max_scroll_of(total, h);
    let sc: nat = if old.scroll > ms { ms } else { old.scroll as nat };
    let start = window_start(total, h, sc);
    &&& new.messages@ == old.messages@
    &&& new.blink == old.blink
    &&& l.content_width == cw
    &&& l.cards@.len() == msgs.len()
    &&& l.drawn@.len() == msgs.len()
    &&& forall|i: int| 0 <= i < msgs.len() ==> is_chat_card(#[trigger] l.cards@[i], msgs[i], bodies[i], log.theme, cw, caret)
        && l.cards@[i].top == stack_top(card_heights(l.cards@), i)
        && l.drawn@[i] == (start <= l.cards@[i].top < start + h)
    &&& new.scroll == sc
    &&& l.start == start
    &&& (l.thumb is Some <==> (log.scrollbar && width >= 3 && total > h))
    &&& (l.thumb matches Some(t) ==> t.0 == thumb_top(total, h, start) && t.1 == thumb_height(total, h))
}

/// The events of the shown part of each message's body.
pub open spec fn shown_events(msgs: Seq<CommLogMessage>) -> Seq<Seq<MdEvent>> {
    msgs.map_values(|m: CommLogMessage| md_events_of(shown_body(m)))
}

impl CommLog {
    fn chat_card(&self, m: &CommLogMessage, events: &Vec<MdEvent>, cw: u16, caret: Option<char>, top: u128) -> (c: ChatCard)
        ensures
            is_chat_card(c, *m, events@, self.theme, cw, caret),
            c.top == top,
    {
        let card_w: u16 = if m.kind == CommKind::User {
            let w = (cw as u32) * 7 / 10;
            let w2 = if w >= 20 {
                w
            } else {
                20
            };
            if w2 <= cw as u32 {
                w2 as u16
            } else {
                cw
            }
        } else {
            cw
        };
        let bw: u16 = if card_w >= 3 {
            card_w - 2
        } else {
            1
        };
        let mut body = markdown_lines(events, self.theme, bw);
        let streaming = m.is_streaming();
        if streaming && caret.is_some() && body.len() > 0 {
            let k = body.len() - 1;
            let ghost b0 = body@;
            let mut last = body.pop().unwrap();
            let ghost l0 = last@;
            let mut t: Vec<char> = Vec::new();
            t.push(caret.unwrap());
            let accent = self.theme.palette().accent;
            last.push(MdSpan {
                text: t,
                style: MdStyle { fg: Some(accent), bg: None, bold: false, italic: false, crossed: false, underlined: false, dim: false },
            });
            body.push(last);
            proof {
                assert(line_view(last@) =~= line_view(l0).push((seq![caret->0], fg_style(palette_of(self.theme).accent))));
                assert(lines_view(body@) =~= lines_view(b0).update(k as int, line_view(last@)));
            }
        }
        let bl = body.len();
        let hgt: u16 = (2 + bl as u128) as u16;
        let x_off: u16 = if m.kind == CommKind::User {
            cw - card_w
        } else {
            0
        };
        ChatCard { top, x_offset: x_off, width: card_w, height: hgt, body, kind: m.kind, speaker: m.speaker.clone() }
    }

    fn chat_cards(&self, msgs: &Vec<CommLogMessage>, bodies: &Vec<Vec<MdEvent>>, cw: u16, caret: Option<char>) -> (r: (Vec<ChatCard>, u128))
        requires
            bodies@.len() == msgs@.len(),
        ensures
            r.0@.len() == msgs@.len(),
            r.1 == stack_top(card_heights(r.0@), msgs@.len() as int),
            r.1 <= msgs@.len() * 0x1_0001,
            forall|j: int| 0 <= j < msgs@.len() ==> is_chat_card(#[trigger] r.0@[j], msgs@[j], bodies@[j]@, self.theme, cw, caret)
                && r.0@[j].top == stack_top(card_heights(r.0@), j),
    {
        let n = msgs.len();
        let mut cards: Vec<ChatCard> = Vec::new();
        let mut y: u128 = 0;
        let mut i: usize = 0;
        while i < n
            invariant
                n == msgs@.len(),
                bodies@.len() == n,
                i <= n,
                cards@.len() == i,
                y == stack_top(card_heights(cards@), i as int),
                y <= i * 0x1_0001,
                forall|j: int| 0 <= j < i ==> is_chat_card(#[trigger] cards@[j], msgs@[j], bodies@[j]@, self.theme, cw, caret)
                    && cards@[j].top == stack_top(card_heights(cards@), j),
            decreases n - i,
        {
            let c = self.chat_card(&msgs[i], &bodies[i], cw, caret, y);
            let hgt = c.height;
            let ghost hs0 = card_heights(cards@);
            let ghost c0 = cards@;
            cards.push(c);
            proof {
                let hs1 = card_heights(cards@);
                assert(hs1 =~= hs0.push(hgt));
                assert forall|j: int| 0 <= j <= i implies stack_top(hs1, j) == stack_top(hs0, j) by {
                    lemma_stack_top_prefix(hs0, hs1, j);
                }
                assert(stack_top(hs1, i + 1) == stack_top(hs1, i as int) + hs1[i as int] + 1);
                assert forall|j: int| 0 <= j < i + 1 implies is_chat_card(#[trigger] cards@[j], msgs@[j], bodies@[j]@, self.theme, cw, caret)
                    && cards@[j].top == stack_top(card_heights(cards@), j) by {
                    if j < i {
                        assert(cards@[j] == c0[j]);
                    }
                }
            }
            y = y + hgt as u128 + 1;
            i = i + 1;
        }
        (cards, y)
    }

    /// Lay the transcript out as chat cards in a `width × height` area;
    /// `bodies[i]` holds the markdown events of message `i`'s shown text.
    ///
    /// The cards may use the whole width, less the last column when the
    /// scrollbar is on and the area is at least 3 wide. Each card has the
    /// [`chat_card_width`], the [`chat_body`] and a height of two border rows
    /// plus its body; cards stack from feed row 0 with a one-row gap.
    /// `state.scroll` is clamped to the scrollable range and the window
    /// starts at [`window_start`]; a card is drawn when its top row is in the
    /// window. The scrollbar is drawn when it is on, the area is at least 3
    /// wide and the cards overflow the height.
    pub fn chat_layout(
        &self,
        width: u16,
        height: u16,
        state: &mut CommLogState,
        bodies: &Vec<Vec<MdEvent>>,
    ) -> (l: ChatLayout)
        requires
            bodies@.len() == old(state).messages@.len(),
        ensures
            is_chat_layout(*self, width, height, *old(state), *final(state), bodies_view(bodies@), l),
    {
        let caret = if state.caret_visible() {
            Some(self.caret.glyph())
        } else {
            None
        };
        let cw: u16 = if self.scrollbar && width >= 3 {
            width - 1
        } else {
            width
        };
        let (cards, total) = self.chat_cards(&state.messages, bodies, cw, caret);
        let n = cards.len();
        let h: u128 = height as u128;
        let ms: u128 = if total > h {
            total - h
        } else {
            0
        };
        if state.scroll as u128 > ms {
            state.scroll = ms as usize;
        }
        let start: u128 = ms - state.scroll as u128;
        let drawn = window_flags(&cards, start, h);
        let thumb = if self.scrollbar && width >= 3 && total > h {
            Some(chat_thumb(total, h, start))
        } else {
            None
        };
        ChatLayout { cards, drawn, start, content_width: cw, thumb }
    }

    /// The chat layout of the transcript, each card's body parsed as
    /// markdown from the shown (revealed) part of its message.
    pub fn chat_layout_of(&self, width: u16, height: u16, state: &mut CommLogState) -> (l: ChatLayout)
        ensures
            is_chat_layout(*self, width, height, *old(state), *final(state), shown_events(old(state).messages@), l),
    {
        let mut bodies: Vec<Vec<MdEvent>> = Vec::new();
        let mut i: usize = 0;
        while i < state.messages.len()
            invariant
                i <= state.messages@.len(),
                bodies@.len() == i,
                forall|j: int| 0 <= j < i ==> #[trigger] bodies@[j]@ == md_events_of(shown_body(state.messages@[j])),
            decreases state.messages@.len() - i,
        {
            let m = &state.messages[i];
            let body = chars_of(m.body.as_str());
            let shown = string_of(&take_chars(&body, m.revealed));
            assert(shown@ =~= shown_body(*m));
            bodies.push(parse_markdown(shown.as_str()));
            i = i + 1;
        }
        assert(bodies_view(bodies@) =~= shown_events(state.messages@));
        self.chat_layout(width, height, state, &bodies)
    }
}

fn window_flags(cards: &Vec<ChatCard>, start: u128, h: u128) -> (drawn: Vec<bool>)
    requires
        start <= 0x1_0000_0000_0000_0000_0000_0000,
        h <= 0xffff,
    ensures
        drawn@.len() == cards@.len(),
        forall|j: int| 0 <= j < cards@.len() ==> #[trigger] drawn@[j] == (start <= cards@[j].top < start + h),
{
    let n = cards.len();
    let mut drawn: Vec<bool> = Vec::new();
    let mut k: usize = 0;
    while k < n
        invariant
            k <= n,
            n == cards@.len(),
            drawn@.len() == k,
            start <= 0x1_0000_0000_0000_0000_0000_0000,
            h <= 0xffff,
            forall|j: int| 0 <= j < k ==> #[trigger] drawn@[j] == (start <= cards@[j].top < start + h),
        decreases n - k,
    {
        let top = cards[k].top;
        drawn.push(start <= top && top < start + h);
        k = k + 1;
    }
    drawn
}

fn chat_thumb(total: u128, h: u128, start: u128) -> (t: (u16, u16))
    requires
        total > h,
        h <= 0xffff,
        start <= total,
        total <= 0x1_0000_0000_0000_0000_0000_0000,
    ensures
        t.0 == thumb_top(total as nat, h as nat, start as nat),
        t.1 == thumb_height(total as nat, h as nat),
{
    proof {
        lemma_chat_thumb_bounds(total as nat, h as nat, start as nat);
    }
    let th: u128 = if (h * h) / total >= 1 {
        (h * h) / total
    } else {
        1
    };
    let t: u128 = (start * h) / total;
    let room: u128 = if h >= th {
        h - th
    } else {
        0
    };
    let tt: u128 = if t <= room {
        t
    } else {
        room
    };
    (tt as u16, th as u16)
}

proof fn lemma_chat_thumb_bounds(total: nat, h: nat, start: nat)
    requires
        total > h,
        h <= 0xffff,
        start <= total,
        total <= 0x1_0000_0000_0000_0000_0000_0000,
    ensures
        h * h <= 0xffff_ffff,
        start * h <= 0x1_0000_0000_0000_0000_0000_0000 * 0x1_0000,
        (h * h) / total <= h,
        (start * h) / total <= h,
{
    assert(h * h <= 0xffff_ffff) by (nonlinear_arith)
        requires
            h <= 0xffff,
    ;
    assert(start * h <= 0x1_0000_0000_0000_0000_0000_0000 * 0x1_0000) by (nonlinear_arith)
        requires
            h <= 0xffff,
            start <= 0x1_0000_0000_0000_0000_0000_0000,
    ;
    assert((h * h) / total <= h) by (nonlinear_arith)
        requires
            total > h,
    ;
    assert((start * h) / total <= h) by (nonlinear_arith)
        requires
            start <= total,
            total > 0,
    ;
}

proof fn lemma_stack_top_prefix(a: Seq<u16>, b: Seq<u16>, j: int)
    requires
        0 <= j <= a.len(),
        a.len() <= b.len(),
        forall|k: int| 0 <= k < a.len() ==> a[k] == b[k],
    ensures
        stack_top(a, j) == stack_top(b, j),
    decreases j,
{
    if j > 0 {
        lemma_stack_top_prefix(a, b, j - 1);
    }
}

} // verus!
