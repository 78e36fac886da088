use vstd::prelude::*;
use vstd::string::StrSliceExecFns;
use crate::text::{find_char, find_char_from, lemma_find_char_bounds};
use crate::resolve::{link_action, link_action_of, Action, ActionModel, CursorKind};

verus! {

/// A link in a rendered note: the characters `start_offset ..
/// end_offset` (end excluded) of the note's text, and the link's target.
#[derive(Clone, Debug, PartialEq, Eq)]
pub struct LinkInfo {
    pub start_offset: i32,
    pub end_offset: i32,
    pub url: String,
}

/// A link span as offsets and target characters.
pub type SpanModel = (int, int, Seq<char>);

pub open spec fn span_view(l: LinkInfo) -> SpanModel {
    (l.start_offset as int, l.end_offset as int, l.url@)
}

pub open spec fn spans_view(v: Seq<LinkInfo>) -> Seq<SpanModel> {
    v.map_values(|l: LinkInfo| span_view(l))
}

pub open spec fn in_span(l: LinkInfo, offset: int) -> bool {
    l.start_offset <= offset < l.end_offset
}

/// Whether `k` is the first link whose span holds `offset`.
pub open spec fn first_span(links: Seq<LinkInfo>, offset: int, k: int) -> bool {
    &&& 0 <= k < links.len()
    &&& in_span(links[k], offset)
    &&& forall|j: int| 0 <= j < k ==> !in_span(#[trigger] links[j], offset)
}

pub open spec fn any_span(links: Seq<LinkInfo>, offset: int) -> bool {
    exists|k: int| 0 <= k < links.len() && in_span(#[trigger] links[k], offset)
}

/// The first link whose span holds `offset`, if any.
pub fn link_at_offset(links: &Vec<LinkInfo>, offset: i32) -> (r: Option<usize>)
    ensures
        r matches Some(k) ==> first_span(links@, offset as int, k as int),
        r is None ==> !any_span(links@, offset as int),
{
    let mut i: usize = 0;
    while i < links.len()
        invariant
            i <= links.len(),
            forall|j: int| 0 <= j < i ==> !in_span(#[trigger] links@[j], offset as int),
        decreases links.len() - i,
    {
        if links[i].start_offset <= offset && offset < links[i].end_offset {
            return Some(i);
        }
        i = i + 1;
    }
    None
}

/// The cursor over a note: a pointer where the text offset under the pointer
/// lies in a link, text elsewhere, and text where the pointer is over no text
/// (`offset` is `None`).
pub fn note_cursor(links: &Vec<LinkInfo>, offset: Option<i32>) -> (r: CursorKind)
    ensures
        r == (if offset matches Some(o) && any_span(links@, o as int) {
            CursorKind::Pointer
        } else {
            CursorKind::Text
        }),
{
    match offset {
        Some(o) => match link_at_offset(links, o) {
            Some(_) => CursorKind::Pointer,
            None => CursorKind::Text,
        },
        None => CursorKind::Text,
    }
}

/// The kinds of pointer event that a note view sees.
#[derive(Clone, Copy, Debug, PartialEq, Eq, Structural)]
pub enum PointerEventKind {
    ButtonPress,
    ButtonRelease,
    TouchBegin,
    TouchEnd,
    Motion,
    Other,
}

/// The primary pointer button.
pub const PRIMARY_BUTTON: u32 = 1;

/// A release of the primary button, or the end of a touch. Presses do not
/// count, so that starting a selection by dragging follows no link.
pub open spec fn is_click_or_tap_spec(kind: PointerEventKind, button: Option<u32>) -> bool {
    (kind == PointerEventKind::ButtonRelease && button == Some(PRIMARY_BUTTON))
        || kind == PointerEventKind::TouchEnd
}

pub fn is_click_or_tap(kind: PointerEventKind, button: Option<u32>) -> (r: bool)
    ensures
        r == is_click_or_tap_spec(kind, button),
{
    let is_click = match kind {
        PointerEventKind::ButtonRelease => match button {
            Some(b) => b == PRIMARY_BUTTON,
            None => false,
        },
        _ => false,
    };
    let is_tap = match kind {
        PointerEventKind::TouchEnd => true,
        _ => false,
    };
    is_click || is_tap
}

/// What a pointer event on a note asks for: on a click or tap at a text
/// offset inside a link, that link's action; otherwise nothing.
pub open spec fn note_event_spec(
    links: Seq<LinkInfo>,
    kind: PointerEventKind,
    button: Option<u32>,
    offset: Option<i32>,
) -> ActionModel {
    if is_click_or_tap_spec(kind, button) && offset is Some && any_span(
        links,
        offset->0 as int,
    ) {
        link_action(links[choose|k: int| first_span(links, offset->0 as int, k)].url@)
    } else {
        ActionModel::Nothing
    }
}

proof fn lemma_first_span_chosen(links: Seq<LinkInfo>, offset: int, k: int)
    requires
        first_span(links, offset, k),
    ensures
        any_span(links, offset),
        (choose|c: int| first_span(links, offset, c)) == k,
{
    let c = choose|c: int| first_span(links, offset, c);
    if c < k {
        assert(!in_span(links[c], offset));
    } else if k < c {
        assert(!in_span(links[k], offset));
    }
}

/// The action of a pointer event on a note whose links are `links`, with
/// `offset` the text offset under the pointer (`None` off the text).
pub fn note_event_action(
    links: &Vec<LinkInfo>,
    kind: PointerEventKind,
    button: Option<u32>,
    offset: Option<i32>,
) -> (r: Action)
    ensures
        r@ == note_event_spec(links@, kind, button, offset),
{
    if !is_click_or_tap(kind, button) {
        return Action::Nothing;
    }
    match offset {
        Some(o) => match link_at_offset(links, o) {
            Some(k) => {
                proof {
                    lemma_first_span_chosen(links@, o as int, k as int);
                }
                link_action_of(links[k].url.as_str())
            },
            None => Action::Nothing,
        },
        None => Action::Nothing,
    }
}

/// A rendered note: its text, and the spans of that text that are links.
#[derive(Clone, Debug)]
pub struct NoteBuffer {
    pub text: String,
    pub links: Vec<LinkInfo>,
}

/// Index of the `]` that closes a `[` at `i`.
pub open spec fn close_bracket(s: Seq<char>, i: int) -> int {
    find_char(s, i + 1, ']')
}

/// Index of the `)` that closes the target of a link starting at `i`.
pub open spec fn close_paren(s: Seq<char>, i: int) -> int {
    find_char(s, close_bracket(s, i) + 2, ')')
}

/// Whether a link `[label](target)` starts at `i`: a `[`, the first `]`
/// after it, right after that a `(`, and later a `)`.
pub open spec fn is_link_token(s: Seq<char>, i: int) -> bool {
    &&& 0 <= i < s.len()
    &&& s[i] == '['
    &&& close_bracket(s, i) + 1 < s.len()
    &&& s[close_bracket(s, i) + 1] == '('
    &&& close_paren(s, i) < s.len()
}

/// Renders `s` from index `i` on, after `text` and `spans` were produced
/// from what came before: each link `[label](target)` becomes its label, with
/// a span over the label's place in the output; every other character is
/// copied.
pub open spec fn render_rest(
    s: Seq<char>,
    i: int,
    text: Seq<char>,
    spans: Seq<SpanModel>,
) -> (Seq<char>, Seq<SpanModel>)
    decreases s.len() - i,
    via render_rest_decreases
{
    if i < 0 || i >= s.len() {
        (text, spans)
    } else if is_link_token(s, i) {
        let c = close_bracket(s, i);
        let e = close_paren(s, i);
        let label = s.subrange(i + 1, c);
        render_rest(
            s,
            e + 1,
            text + label,
            spans.push((text.len() as int, (text.len() + label.len()) as int, s.subrange(c + 2, e))),
        )
    } else {
        render_rest(s, i + 1, text.push(s[i]), spans)
    }
}

#[via_fn]
proof fn render_rest_decreases(s: Seq<char>, i: int, text: Seq<char>, spans: Seq<SpanModel>) {
    if 0 <= i < s.len() && is_link_token(s, i) {
        lemma_find_char_bounds(s, i + 1, ']');
        lemma_find_char_bounds(s, close_bracket(s, i) + 2, ')');
    }
}

/// The text and link spans of the note written as `s`.
pub open spec fn render_spec(s: Seq<char>) -> (Seq<char>, Seq<SpanModel>) {
    render_rest(s, 0, Seq::empty(), Seq::empty())
}

/// Renders note markup: links `[label](target)` show as their label and
/// become spans of the text; targets that start with the secret scheme are
/// secrets to reveal in place.
pub fn render_note(markup: &str) -> (r: NoteBuffer)
    requires
        markup@.len() <= i32::MAX,
    ensures
        (r.text@, spans_view(r.links@)) == render_spec(markup@),
{
    let ghost s = markup@;
    let n = markup.unicode_len();
    let mut text = String::new();
    let mut links: Vec<LinkInfo> = Vec::new();
    let mut tlen: usize = 0;
    let mut i: usize = 0;
    assert(spans_view(links@) =~= Seq::<SpanModel>::empty());
    while i < n
        invariant
            s == markup@,
            n == s.len(),
            n <= i32::MAX,
            i <= n,
            tlen == text@.len(),
            tlen <= i,
            render_rest(s, i as int, text@, spans_view(links@)) == render_spec(s),
        decreases n - i,
    {
        let c = markup.get_char(i);
        if c == '[' {
            let cb = find_char_from(markup, i + 1, ']');
            proof {
                lemma_find_char_bounds(s, i + 1, ']');
            }
            if cb + 1 < n && markup.get_char(cb + 1) == '(' {
                let cp = find_char_from(markup, cb + 2, ')');
                proof {
                    lemma_find_char_bounds(s, cb + 2, ')');
                }
                if cp < n {
                    assert(is_link_token(s, i as int));
                    let ghost old_text = text@;
                    let ghost old_spans = spans_view(links@);
                    let label = markup.substring_char(i + 1, cb);
                    let target = markup.substring_char(cb + 2, cp);
                    text.append(label);
                    let start = tlen;
                    tlen = tlen + (cb - i - 1);
                    let ghost before = links@;
                    let link = LinkInfo {
                        start_offset: start as i32,
                        end_offset: tlen as i32,
                        url: String::from_str(target),
                    };
                    links.push(link);
                    assert(spans_view(links@) =~= spans_view(before).push(span_view(link)));
                    assert(span_view(link) == (
                        old_text.len() as int,
                        (old_text.len() + label@.len()) as int,
                        s.subrange(cb + 2, cp as int),
                    ));
                    assert(text@ == old_text + s.subrange(i + 1, cb as int));
                    assert(render_rest(s, i as int, old_text, old_spans) == render_rest(
                        s,
                        cp + 1,
                        text@,
                        spans_view(links@),
                    ));
                    i = cp + 1;
                    continue;
                }
            }
        }
        assert(!is_link_token(s, i as int));
        let ghost old_text = text@;
        text.append(markup.substring_char(i, i + 1));
        assert(s.subrange(i as int, i + 1) =~= seq![s[i as int]]);
        assert(text@ =~= old_text.push(s[i as int]));
        tlen = tlen + 1;
        i = i + 1;
    }
    NoteBuffer { text, links }
}

} // verus!
