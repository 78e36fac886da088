use vstd::prelude::*;
use crate::geometry::Area;
use crate::item::{DetailKind, ItemRef, ProjectPadItem};
use crate::models::EnvironmentType;

verus! {

/// Height of one row of the search view; every row has it, whatever it shows.
pub const ROW_HEIGHT: i32 = 90;

/// Inset of every row from both sides of the canvas. Nested rows are
/// narrowed further by the margin that the theme gives them.
pub const LEFT_RIGHT_MARGIN: i32 = 150;

pub const ACTION_ICON_SIZE: i32 = 16;

pub const PROJECT_ICON_SIZE: i32 = 56;

/// Distance from the right end of a row to its action button.
pub const ACTION_ICON_OFFSET_FROM_RIGHT: i32 = 50;

/// Width at which titles and detail lines are ellipsized; the same for all rows.
pub const ELLIPSIZE_WIDTH: i32 = 350;

/// Largest theme metric or text extent, in pixels, that the layout accepts.
pub const MAX_METRIC: i32 = 10000;

/// Largest canvas width, in pixels.
pub const MAX_CANVAS_WIDTH: i32 = 1000000;

/// Largest number of rows painted at once.
pub const MAX_ROWS: usize = 1000000;

/// Place of an item in the two-level hierarchy.
#[derive(Clone, Copy, Debug, PartialEq, Eq, Structural)]
pub enum Depth {
    Parent,
    Child,
}

/// The symbolic icons that rows are drawn with.
#[derive(Clone, Copy, Debug, PartialEq, Eq, Structural)]
pub enum Icon {
    Http,
    User,
    PointOfInterest,
    Database,
    ServerLink,
    Note,
    Cog,
}

/// Space around a box, in pixels, as the theme gives it.
#[derive(Clone, Copy, Debug, PartialEq, Eq, Structural)]
pub struct Border {
    pub left: i32,
    pub right: i32,
    pub top: i32,
    pub bottom: i32,
}

#[derive(Clone, Copy, Debug, PartialEq, Eq, Structural)]
pub struct RowStyle {
    pub padding: Border,
    pub margin: Border,
}

/// The theme metrics that the layout reads.
#[derive(Clone, Copy, Debug, PartialEq, Eq, Structural)]
pub struct StyleMetrics {
    pub parent_row: RowStyle,
    pub child_row: RowStyle,
    /// Padding of an action button.
    pub action_button: Border,
    /// Padding of the link under a title.
    pub link_text: Border,
    /// Padding of the plain text line under a title.
    pub subtext: Border,
}

/// Measured size, in pixels, of the texts of one row.
#[derive(Clone, Copy, Debug, PartialEq, Eq, Structural)]
pub struct TextExtents {
    pub title_width: i32,
    pub title_height: i32,
    pub detail_width: i32,
    pub detail_height: i32,
}

/// One drawing command. Texts are named by the row that holds them: the
/// title and the detail line of that row's item.
#[derive(Clone, Copy, Debug, PartialEq, Eq, Structural)]
pub enum DrawOp {
    /// Background and frame of a row.
    Frame { area: Area, depth: Depth },
    Icon { icon: Icon, x: i32, y: i32 },
    Title { row: usize, x: i32, y: i32, project: bool },
    /// The icon of a project.
    Badge { row: usize, x: i32, y: i32, size: i32 },
    Environment { env: EnvironmentType, x: i32, y: i32 },
    Link { row: usize, x: i32, y: i32 },
    Subtext { row: usize, x: i32, y: i32 },
    ActionButton { area: Area, depth: Depth, pressed: bool },
}

/// Where the pointer can act, as found by one paint pass.
#[derive(Clone, Debug)]
pub struct RegionTable {
    /// Link areas, each with its target.
    pub links: Vec<(Area, String)>,
    /// Action button areas, each with the item it acts on.
    pub action_buttons: Vec<(Area, ItemRef)>,
}

pub open spec fn links_view(v: Seq<(Area, String)>) -> Seq<(Area, Seq<char>)> {
    v.map_values(|l: (Area, String)| (l.0, l.1@))
}

impl RegionTable {
    pub open spec fn link_regions(&self) -> Seq<(Area, Seq<char>)> {
        links_view(self.links@)
    }

    pub open spec fn button_regions(&self) -> Seq<(Area, ItemRef)> {
        self.action_buttons@
    }

    pub fn new() -> (r: RegionTable)
        ensures
            r.link_regions() == Seq::<(Area, Seq<char>)>::empty(),
            r.button_regions() == Seq::<(Area, ItemRef)>::empty(),
    {
        let r = RegionTable { links: Vec::new(), action_buttons: Vec::new() };
        assert(r.link_regions() =~= Seq::<(Area, Seq<char>)>::empty());
        r
    }
}

/// The result of a paint pass.
#[derive(Clone, Debug)]
pub struct PaintOutput {
    pub table: RegionTable,
    pub ops: Vec<DrawOp>,
    /// Height of all the rows together.
    pub content_height: i32,
}

pub open spec fn border_ok(b: Border) -> bool {
    &&& 0 <= b.left <= MAX_METRIC
    &&& 0 <= b.right <= MAX_METRIC
    &&& 0 <= b.top <= MAX_METRIC
    &&& 0 <= b.bottom <= MAX_METRIC
}

pub open spec fn metrics_ok(m: StyleMetrics) -> bool {
    &&& border_ok(m.parent_row.padding)
    &&& border_ok(m.parent_row.margin)
    &&& border_ok(m.child_row.padding)
    &&& border_ok(m.child_row.margin)
    &&& border_ok(m.action_button)
    &&& border_ok(m.link_text)
    &&& border_ok(m.subtext)
}

pub open spec fn extents_ok(e: TextExtents) -> bool {
    &&& 0 <= e.title_width <= MAX_METRIC
    &&& 0 <= e.title_height <= MAX_METRIC
    &&& 0 <= e.detail_width <= MAX_METRIC
    &&& 0 <= e.detail_height <= MAX_METRIC
}

pub open spec fn row_style(m: StyleMetrics, d: Depth) -> RowStyle {
    match d {
        Depth::Parent => m.parent_row,
        Depth::Child => m.child_row,
    }
}

/// Top of row `i`: a function of the index alone.
pub open spec fn row_top(i: int) -> int {
    i * ROW_HEIGHT
}

pub open spec fn content_x(m: StyleMetrics, d: Depth) -> int {
    row_style(m, d).padding.left + LEFT_RIGHT_MARGIN
}

/// Offset that centers something of height `inner` in a height `outer`,
/// rounded toward zero.
pub open spec fn centered(outer: int, inner: int) -> int {
    if inner <= outer {
        (outer - inner) / 2
    } else {
        -((inner - outer) / 2)
    }
}

pub open spec fn nonneg(v: int) -> int {
    if v < 0 {
        0
    } else {
        v
    }
}

pub open spec fn frame_area(m: StyleMetrics, d: Depth, i: int, w: int) -> Area {
    let mg = row_style(m, d).margin;
    Area {
        x: (mg.left + LEFT_RIGHT_MARGIN) as i32,
        y: (row_top(i) + mg.top) as i32,
        width: nonneg(w - mg.left - mg.right - 2 * LEFT_RIGHT_MARGIN) as i32,
        height: nonneg(ROW_HEIGHT - mg.top) as i32,
    }
}

pub open spec fn button_area(m: StyleMetrics, d: Depth, i: int, w: int) -> Area {
    let s = row_style(m, d);
    let ap = m.action_button;
    Area {
        x: (w - ACTION_ICON_OFFSET_FROM_RIGHT - LEFT_RIGHT_MARGIN) as i32,
        y: (row_top(i) + s.padding.top + s.margin.top) as i32,
        width: (ACTION_ICON_SIZE + ap.left + ap.right) as i32,
        height: (ACTION_ICON_SIZE + ap.top + ap.bottom) as i32,
    }
}

/// Left of the line under the title, drawn with padding `pad`.
pub open spec fn detail_x(m: StyleMetrics, d: Depth, pad: Border) -> int {
    content_x(m, d) + row_style(m, d).padding.left + pad.left
}

/// Top of the line under the title, drawn with padding `pad`.
pub open spec fn detail_y(m: StyleMetrics, d: Depth, i: int, e: TextExtents, pad: Border) -> int {
    let s = row_style(m, d);
    row_top(i) + s.margin.top + e.title_height + s.padding.top + pad.top
}

pub open spec fn link_area(m: StyleMetrics, d: Depth, i: int, e: TextExtents) -> Area {
    Area {
        x: detail_x(m, d, m.link_text) as i32,
        y: detail_y(m, d, i, e, m.link_text) as i32,
        width: e.detail_width,
        height: e.detail_height,
    }
}

pub open spec fn is_pressed(pressed: Option<ItemRef>, item: ProjectPadItem) -> bool {
    pressed == Some(item.spec_ref())
}

pub open spec fn action_ops(m: StyleMetrics, d: Depth, i: int, w: int, pressed: bool) -> Seq<
    DrawOp,
> {
    let a = button_area(m, d, i, w);
    seq![
        DrawOp::ActionButton { area: a, depth: d, pressed },
        DrawOp::Icon {
            icon: Icon::Cog,
            x: (a.x + m.action_button.left) as i32,
            y: (a.y + m.action_button.top) as i32,
        },
    ]
}

pub open spec fn detail_ops(
    item: ProjectPadItem,
    m: StyleMetrics,
    d: Depth,
    i: int,
    e: TextExtents,
) -> Seq<DrawOp> {
    match item.spec_detail_kind() {
        DetailKind::Link => seq![
            DrawOp::Link {
                row: i as usize,
                x: detail_x(m, d, m.link_text) as i32,
                y: detail_y(m, d, i, e, m.link_text) as i32,
            },
        ],
        DetailKind::Subtext => seq![
            DrawOp::Subtext {
                row: i as usize,
                x: detail_x(m, d, m.subtext) as i32,
                y: detail_y(m, d, i, e, m.subtext) as i32,
            },
        ],
        _ => Seq::empty(),
    }
}

/// Drawing of a row that has a leading icon, a title, an action button and
/// possibly a detail line.
pub open spec fn item_row_ops(
    item: ProjectPadItem,
    icon: Icon,
    d: Depth,
    i: int,
    w: int,
    m: StyleMetrics,
    e: TextExtents,
    pressed: Option<ItemRef>,
) -> Seq<DrawOp> {
    let s = row_style(m, d);
    let top = row_top(i) + s.margin.top + s.padding.top;
    seq![
        DrawOp::Frame { area: frame_area(m, d, i, w), depth: d },
        DrawOp::Icon { icon, x: (content_x(m, d) + s.padding.left) as i32, y: top as i32 },
        DrawOp::Title {
            row: i as usize,
            x: (content_x(m, d) + ACTION_ICON_SIZE + s.padding.left / 2
                + s.padding.left) as i32,
            y: (top + centered(ACTION_ICON_SIZE as int, e.title_height as int)) as i32,
            project: false,
        },
    ] + action_ops(m, d, i, w, is_pressed(pressed, item)) + detail_ops(item, m, d, i, e)
}

pub open spec fn project_row_ops(
    item: ProjectPadItem,
    d: Depth,
    i: int,
    m: StyleMetrics,
    e: TextExtents,
) -> Seq<DrawOp> {
    let p = row_style(m, d).padding;
    let icon_top = row_top(i) + ROW_HEIGHT - PROJECT_ICON_SIZE + p.top;
    seq![
        DrawOp::Title {
            row: i as usize,
            x: (content_x(m, d) + p.left) as i32,
            y: (icon_top + centered(PROJECT_ICON_SIZE as int, e.title_height as int)) as i32,
            project: true,
        },
    ] + if item.spec_has_badge() {
        seq![
            DrawOp::Badge {
                row: i as usize,
                x: (content_x(m, d) + e.title_width + p.left) as i32,
                y: icon_top as i32,
                size: PROJECT_ICON_SIZE,
            },
        ]
    } else {
        Seq::empty()
    }
}

pub open spec fn server_row_ops(
    item: ProjectPadItem,
    env: EnvironmentType,
    d: Depth,
    i: int,
    w: int,
    m: StyleMetrics,
    e: TextExtents,
    pressed: Option<ItemRef>,
) -> Seq<DrawOp> {
    let s = row_style(m, d);
    let x = (content_x(m, d) + s.padding.left) as i32;
    seq![
        DrawOp::Frame { area: frame_area(m, d, i, w), depth: d },
        DrawOp::Title {
            row: i as usize,
            x,
            y: (row_top(i) + s.margin.top + s.padding.top) as i32,
            project: false,
        },
        DrawOp::Environment {
            env,
            x,
            y: (row_top(i) + e.title_height + s.padding.top + s.margin.top) as i32,
        },
    ] + action_ops(m, d, i, w, is_pressed(pressed, item))
}

/// Everything drawn for the item at row `i`.
pub open spec fn row_ops(
    item: ProjectPadItem,
    d: Depth,
    i: int,
    w: int,
    m: StyleMetrics,
    e: TextExtents,
    pressed: Option<ItemRef>,
) -> Seq<DrawOp> {
    match item {
        ProjectPadItem::Project(_) => project_row_ops(item, d, i, m, e),
        ProjectPadItem::Server(s) => server_row_ops(item, s.environment, d, i, w, m, e, pressed),
        ProjectPadItem::ServerWebsite(_) => item_row_ops(item, Icon::Http, d, i, w, m, e, pressed),
        ProjectPadItem::ServerExtraUserAccount(_) => item_row_ops(
            item,
            Icon::User,
            d,
            i,
            w,
            m,
            e,
            pressed,
        ),
        ProjectPadItem::ServerPoi(_) => item_row_ops(
            item,
            Icon::PointOfInterest,
            d,
            i,
            w,
            m,
            e,
            pressed,
        ),
        ProjectPadItem::ProjectPoi(_) => item_row_ops(
            item,
            Icon::PointOfInterest,
            d,
            i,
            w,
            m,
            e,
            pressed,
        ),
        ProjectPadItem::ServerDatabase(_) => item_row_ops(
            item,
            Icon::Database,
            d,
            i,
            w,
            m,
            e,
            pressed,
        ),
        ProjectPadItem::ServerLink(_) => item_row_ops(
            item,
            Icon::ServerLink,
            d,
            i,
            w,
            m,
            e,
            pressed,
        ),
        ProjectPadItem::ServerNote(_) => item_row_ops(item, Icon::Note, d, i, w, m, e, pressed),
        ProjectPadItem::ProjectNote(_) => item_row_ops(item, Icon::Note, d, i, w, m, e, pressed),
    }
}

/// The link regions of row `i`: one for a website, with its address.
pub open spec fn row_links(item: ProjectPadItem, d: Depth, i: int, m: StyleMetrics, e: TextExtents) -> Seq<
    (Area, Seq<char>),
> {
    match item {
        ProjectPadItem::ServerWebsite(w) => seq![(link_area(m, d, i, e), w.url@)],
        _ => Seq::empty(),
    }
}

/// The action button regions of row `i`: one for every item but a project.
pub open spec fn row_buttons(item: ProjectPadItem, d: Depth, i: int, w: int, m: StyleMetrics) -> Seq<
    (Area, ItemRef),
> {
    match item {
        ProjectPadItem::Project(_) => Seq::empty(),
        _ => seq![(button_area(m, d, i, w), item.spec_ref())],
    }
}

pub open spec fn links_upto(
    rows: Seq<(ProjectPadItem, Depth)>,
    ext: Seq<TextExtents>,
    m: StyleMetrics,
    n: nat,
) -> Seq<(Area, Seq<char>)>
    decreases n,
{
    if n == 0 {
        Seq::empty()
    } else {
        let k = (n - 1) as nat;
        links_upto(rows, ext, m, k) + row_links(rows[k as int].0, rows[k as int].1, k as int, m, ext[k as int])
    }
}

pub open spec fn buttons_upto(
    rows: Seq<(ProjectPadItem, Depth)>,
    w: int,
    m: StyleMetrics,
    n: nat,
) -> Seq<(Area, ItemRef)>
    decreases n,
{
    if n == 0 {
        Seq::empty()
    } else {
        let k = (n - 1) as nat;
        buttons_upto(rows, w, m, k) + row_buttons(rows[k as int].0, rows[k as int].1, k as int, w, m)
    }
}

pub open spec fn ops_upto(
    rows: Seq<(ProjectPadItem, Depth)>,
    ext: Seq<TextExtents>,
    w: int,
    m: StyleMetrics,
    pressed: Option<ItemRef>,
    n: nat,
) -> Seq<DrawOp>
    decreases n,
{
    if n == 0 {
        Seq::empty()
    } else {
        let k = (n - 1) as nat;
        ops_upto(rows, ext, w, m, pressed, k) + row_ops(
            rows[k as int].0,
            rows[k as int].1,
            k as int,
            w,
            m,
            ext[k as int],
            pressed,
        )
    }
}

/// The link regions of a whole paint pass, top row first.
pub open spec fn painted_links(
    rows: Seq<(ProjectPadItem, Depth)>,
    ext: Seq<TextExtents>,
    m: StyleMetrics,
) -> Seq<(Area, Seq<char>)> {
    links_upto(rows, ext, m, rows.len())
}

/// The action button regions of a whole paint pass, top row first.
pub open spec fn painted_buttons(rows: Seq<(ProjectPadItem, Depth)>, w: int, m: StyleMetrics) -> Seq<
    (Area, ItemRef),
> {
    buttons_upto(rows, w, m, rows.len())
}

/// The drawing commands of a whole paint pass, in drawing order.
pub open spec fn painted_ops(
    rows: Seq<(ProjectPadItem, Depth)>,
    ext: Seq<TextExtents>,
    w: int,
    m: StyleMetrics,
    pressed: Option<ItemRef>,
) -> Seq<DrawOp> {
    ops_upto(rows, ext, w, m, pressed, rows.len())
}

fn style_of(m: &StyleMetrics, d: Depth) -> (r: RowStyle)
    ensures
        r == row_style(*m, d),
{
    match d {
        Depth::Parent => m.parent_row,
        Depth::Child => m.child_row,
    }
}

/// Conditions under which the layout of row `i` stays within `i32`.
pub open spec fn row_ok(m: StyleMetrics, i: int, w: int, e: TextExtents) -> bool {
    &&& metrics_ok(m)
    &&& extents_ok(e)
    &&& 0 <= w <= MAX_CANVAS_WIDTH
    &&& 0 <= i < MAX_ROWS
}

fn centered_offset(outer: i32, inner: i32) -> (r: i32)
    requires
        0 <= outer <= MAX_METRIC,
        0 <= inner <= MAX_METRIC,
    ensures
        r == centered(outer as int, inner as int),
{
    if inner <= outer {
        (outer - inner) / 2
    } else {
        -((inner - outer) / 2)
    }
}

/// Draws the background and frame of row `i`.
fn draw_box(m: &StyleMetrics, d: Depth, i: usize, w: i32, ops: &mut Vec<DrawOp>)
    requires
        metrics_ok(*m),
        0 <= w <= MAX_CANVAS_WIDTH,
        i < MAX_ROWS,
    ensures
        final(ops)@ == old(ops)@.push(
            DrawOp::Frame { area: frame_area(*m, d, i as int, w as int), depth: d },
        ),
{
    let s = style_of(m, d);
    let top = (i as i32) * ROW_HEIGHT;
    let width = w - s.margin.left - s.margin.right - 2 * LEFT_RIGHT_MARGIN;
    let width = if width < 0 {
        0
    } else {
        width
    };
    let height = ROW_HEIGHT - s.margin.top;
    let height = if height < 0 {
        0
    } else {
        height
    };
    let area = Area { x: s.margin.left + LEFT_RIGHT_MARGIN, y: top + s.margin.top, width, height };
    ops.push(DrawOp::Frame { area, depth: d });
}

/// Draws the action button of row `i` and records its region.
fn draw_action(
    m: &StyleMetrics,
    d: Depth,
    i: usize,
    w: i32,
    pressed: bool,
    item: ItemRef,
    action_buttons: &mut Vec<(Area, ItemRef)>,
    ops: &mut Vec<DrawOp>,
)
    requires
        metrics_ok(*m),
        0 <= w <= MAX_CANVAS_WIDTH,
        i < MAX_ROWS,
    ensures
        final(ops)@ == old(ops)@ + action_ops(*m, d, i as int, w as int, pressed),
        final(action_buttons)@ == old(action_buttons)@.push(
            (button_area(*m, d, i as int, w as int), item),
        ),
{
    let s = style_of(m, d);
    let ap = m.action_button;
    let area = Area {
        x: w - ACTION_ICON_OFFSET_FROM_RIGHT - LEFT_RIGHT_MARGIN,
        y: (i as i32) * ROW_HEIGHT + s.padding.top + s.margin.top,
        width: ACTION_ICON_SIZE + ap.left + ap.right,
        height: ACTION_ICON_SIZE + ap.top + ap.bottom,
    };
    ops.push(DrawOp::ActionButton { area, depth: d, pressed });
    ops.push(DrawOp::Icon { icon: Icon::Cog, x: area.x + ap.left, y: area.y + ap.top });
    action_buttons.push((area, item));
    assert(final(ops)@ =~= old(ops)@ + action_ops(*m, d, i as int, w as int, pressed));
}

/// Draws the line under the title of row `i`, and records a link's region.
fn draw_detail(
    item: &ProjectPadItem,
    m: &StyleMetrics,
    d: Depth,
    i: usize,
    e: &TextExtents,
    links: &mut Vec<(Area, String)>,
    ops: &mut Vec<DrawOp>,
)
    requires
        metrics_ok(*m),
        extents_ok(*e),
        i < MAX_ROWS,
    ensures
        final(ops)@ == old(ops)@ + detail_ops(*item, *m, d, i as int, *e),
        links_view(final(links)@) == links_view(old(links)@) + row_links(
            *item,
            d,
            i as int,
            *m,
            *e,
        ),
{
    let s = style_of(m, d);
    let x = s.padding.left + LEFT_RIGHT_MARGIN + s.padding.left;
    let y = (i as i32) * ROW_HEIGHT + s.margin.top + e.title_height + s.padding.top;
    match item {
        ProjectPadItem::ServerWebsite(website) => {
            let x = x + m.link_text.left;
            let y = y + m.link_text.top;
            ops.push(DrawOp::Link { row: i, x, y });
            let area = Area { x, y, width: e.detail_width, height: e.detail_height };
            let ghost before = links@;
            links.push((area, website.url.clone()));
            assert(links_view(links@) =~= links_view(before).push((area, website.url@)));
        },
        ProjectPadItem::ServerExtraUserAccount(_)
        | ProjectPadItem::ServerPoi(_)
        | ProjectPadItem::ProjectPoi(_)
        | ProjectPadItem::ServerDatabase(_) => {
            ops.push(DrawOp::Subtext { row: i, x: x + m.subtext.left, y: y + m.subtext.top });
        },
        _ => {},
    }
    assert(final(ops)@ =~= old(ops)@ + detail_ops(*item, *m, d, i as int, *e));
    assert(links_view(final(links)@) =~= links_view(old(links)@) + row_links(
        *item,
        d,
        i as int,
        *m,
        *e,
    ));
}

/// Draws a row with a leading icon, a title, an action button and the line
/// under the title.
fn draw_item_common(
    item: &ProjectPadItem,
    icon: Icon,
    d: Depth,
    i: usize,
    w: i32,
    m: &StyleMetrics,
    e: &TextExtents,
    pressed: Option<ItemRef>,
    links: &mut Vec<(Area, String)>,
    action_buttons: &mut Vec<(Area, ItemRef)>,
    ops: &mut Vec<DrawOp>,
)
    requires
        row_ok(*m, i as int, w as int, *e),
    ensures
        final(ops)@ == old(ops)@ + item_row_ops(*item, icon, d, i as int, w as int, *m, *e, pressed),
        links_view(final(links)@) == links_view(old(links)@) + row_links(
            *item,
            d,
            i as int,
            *m,
            *e,
        ),
        final(action_buttons)@ == old(action_buttons)@.push(
            (button_area(*m, d, i as int, w as int), item.spec_ref()),
        ),
{
    let s = style_of(m, d);
    let cx = s.padding.left + LEFT_RIGHT_MARGIN;
    let top = (i as i32) * ROW_HEIGHT + s.margin.top + s.padding.top;
    draw_box(m, d, i, w, ops);
    ops.push(DrawOp::Icon { icon, x: cx + s.padding.left, y: top });
    ops.push(
        DrawOp::Title {
            row: i,
            x: cx + ACTION_ICON_SIZE + s.padding.left / 2 + s.padding.left,
            y: top + centered_offset(ACTION_ICON_SIZE, e.title_height),
            project: false,
        },
    );
    let item_ref = item.item_ref();
    let is_pressed = match pressed {
        Some(p) => p == item_ref,
        None => false,
    };
    draw_action(m, d, i, w, is_pressed, item_ref, action_buttons, ops);
    draw_detail(item, m, d, i, e, links, ops);
    assert(final(ops)@ =~= old(ops)@ + item_row_ops(
        *item,
        icon,
        d,
        i as int,
        w as int,
        *m,
        *e,
        pressed,
    ));
}

/// Draws a server row: title, environment tag and action button.
fn draw_server(
    item: &ProjectPadItem,
    env: EnvironmentType,
    d: Depth,
    i: usize,
    w: i32,
    m: &StyleMetrics,
    e: &TextExtents,
    pressed: Option<ItemRef>,
    action_buttons: &mut Vec<(Area, ItemRef)>,
    ops: &mut Vec<DrawOp>,
)
    requires
        row_ok(*m, i as int, w as int, *e),
    ensures
        final(ops)@ == old(ops)@ + server_row_ops(*item, env, d, i as int, w as int, *m, *e, pressed),
        final(action_buttons)@ == old(action_buttons)@.push(
            (button_area(*m, d, i as int, w as int), item.spec_ref()),
        ),
{
    let s = style_of(m, d);
    let x = s.padding.left + LEFT_RIGHT_MARGIN + s.padding.left;
    let row_y = (i as i32) * ROW_HEIGHT;
    draw_box(m, d, i, w, ops);
    ops.push(DrawOp::Title { row: i, x, y: row_y + s.margin.top + s.padding.top, project: false });
    ops.push(
        DrawOp::Environment {
            env,
            x,
            y: row_y + e.title_height + s.padding.top + s.margin.top,
        },
    );
    let item_ref = item.item_ref();
    let is_pressed = match pressed {
        Some(p) => p == item_ref,
        None => false,
    };
    draw_action(m, d, i, w, is_pressed, item_ref, action_buttons, ops);
    assert(final(ops)@ =~= old(ops)@ + server_row_ops(
        *item,
        env,
        d,
        i as int,
        w as int,
        *m,
        *e,
        pressed,
    ));
}

/// Draws a project row: its title and, where it has one, its icon.
fn draw_project(
    item: &ProjectPadItem,
    d: Depth,
    i: usize,
    m: &StyleMetrics,
    e: &TextExtents,
    ops: &mut Vec<DrawOp>,
)
    requires
        metrics_ok(*m),
        extents_ok(*e),
        i < MAX_ROWS,
    ensures
        final(ops)@ == old(ops)@ + project_row_ops(*item, d, i as int, *m, *e),
{
    let p = style_of(m, d).padding;
    let cx = p.left + LEFT_RIGHT_MARGIN;
    let icon_top = (i as i32) * ROW_HEIGHT + ROW_HEIGHT - PROJECT_ICON_SIZE + p.top;
    ops.push(
        DrawOp::Title {
            row: i,
            x: cx + p.left,
            y: icon_top + centered_offset(PROJECT_ICON_SIZE, e.title_height),
            project: true,
        },
    );
    if item.has_badge() {
        ops.push(
            DrawOp::Badge {
                row: i,
                x: cx + e.title_width + p.left,
                y: icon_top,
                size: PROJECT_ICON_SIZE,
            },
        );
    }
    assert(final(ops)@ =~= old(ops)@ + project_row_ops(*item, d, i as int, *m, *e));
}

/// Draws the item at row `i`, recording its link and action button regions.
pub fn draw_child(
    item: &ProjectPadItem,
    d: Depth,
    i: usize,
    w: i32,
    m: &StyleMetrics,
    e: &TextExtents,
    pressed: Option<ItemRef>,
    links: &mut Vec<(Area, String)>,
    action_buttons: &mut Vec<(Area, ItemRef)>,
    ops: &mut Vec<DrawOp>,
)
    requires
        row_ok(*m, i as int, w as int, *e),
    ensures
        final(ops)@ == old(ops)@ + row_ops(*item, d, i as int, w as int, *m, *e, pressed),
        links_view(final(links)@) == links_view(old(links)@) + row_links(
            *item,
            d,
            i as int,
            *m,
            *e,
        ),
        final(action_buttons)@ == old(action_buttons)@ + row_buttons(
            *item,
            d,
            i as int,
            w as int,
            *m,
        ),
{
    match item {
        ProjectPadItem::Project(_) => {
            draw_project(item, d, i, m, e, ops);
            assert(links_view(links@) =~= links_view(links@) + Seq::<(Area, Seq<char>)>::empty());
            assert(action_buttons@ =~= action_buttons@ + Seq::<(Area, ItemRef)>::empty());
        },
        ProjectPadItem::Server(s) => {
            draw_server(item, s.environment, d, i, w, m, e, pressed, action_buttons, ops);
            assert(links_view(links@) =~= links_view(links@) + Seq::<(Area, Seq<char>)>::empty());
        },
        ProjectPadItem::ServerWebsite(_) => {
            draw_item_common(item, Icon::Http, d, i, w, m, e, pressed, links, action_buttons, ops);
        },
        ProjectPadItem::ServerExtraUserAccount(_) => {
            draw_item_common(item, Icon::User, d, i, w, m, e, pressed, links, action_buttons, ops);
        },
        ProjectPadItem::ServerPoi(_) | ProjectPadItem::ProjectPoi(_) => {
            draw_item_common(
                item,
                Icon::PointOfInterest,
                d,
                i,
                w,
                m,
                e,
                pressed,
                links,
                action_buttons,
                ops,
            );
        },
        ProjectPadItem::ServerDatabase(_) => {
            draw_item_common(
                item,
                Icon::Database,
                d,
                i,
                w,
                m,
                e,
                pressed,
                links,
                action_buttons,
                ops,
            );
        },
        ProjectPadItem::ServerLink(_) => {
            draw_item_common(
                item,
                Icon::ServerLink,
                d,
                i,
                w,
                m,
                e,
                pressed,
                links,
                action_buttons,
                ops,
            );
        },
        ProjectPadItem::ServerNote(_) | ProjectPadItem::ProjectNote(_) => {
            draw_item_common(item, Icon::Note, d, i, w, m, e, pressed, links, action_buttons, ops);
        },
    }
}

/// Lays out and draws `items` top to bottom on a canvas `canvas_width` wide,
/// with `extents[k]` the measured texts of `items[k]`. The region table is
/// built anew: links first found top to bottom, then action buttons the same
/// way; the pressed item's button is drawn pressed.
pub fn paint(
    items: &Vec<(ProjectPadItem, Depth)>,
    extents: &Vec<TextExtents>,
    canvas_width: i32,
    pressed: Option<ItemRef>,
    metrics: &StyleMetrics,
) -> (r: PaintOutput)
    requires
        items.len() == extents.len(),
        items.len() <= MAX_ROWS,
        0 <= canvas_width <= MAX_CANVAS_WIDTH,
        metrics_ok(*metrics),
        forall|k: int| 0 <= k < extents.len() ==> extents_ok(#[trigger] extents@[k]),
    ensures
        r.table.link_regions() == painted_links(items@, extents@, *metrics),
        r.table.button_regions() == painted_buttons(items@, canvas_width as int, *metrics),
        r.ops@ == painted_ops(items@, extents@, canvas_width as int, *metrics, pressed),
        r.content_height == items.len() * ROW_HEIGHT,
{
    let mut links: Vec<(Area, String)> = Vec::new();
    let mut action_buttons: Vec<(Area, ItemRef)> = Vec::new();
    let mut ops: Vec<DrawOp> = Vec::new();
    assert(links_view(links@) =~= Seq::<(Area, Seq<char>)>::empty());
    let n = items.len();
    let mut i: usize = 0;
    while i < n
        invariant
            n == items.len(),
            n == extents.len(),
            n <= MAX_ROWS,
            i <= n,
            0 <= canvas_width <= MAX_CANVAS_WIDTH,
            metrics_ok(*metrics),
            forall|k: int| 0 <= k < extents.len() ==> extents_ok(#[trigger] extents@[k]),
            links_view(links@) == links_upto(items@, extents@, *metrics, i as nat),
            action_buttons@ == buttons_upto(items@, canvas_width as int, *metrics, i as nat),
            ops@ == ops_upto(items@, extents@, canvas_width as int, *metrics, pressed, i as nat),
        decreases n - i,
    {
        let row = &items[i];
        let e = &extents[i];
        assert(extents_ok(extents@[i as int]));
        draw_child(
            &row.0,
            row.1,
            i,
            canvas_width,
            metrics,
            e,
            pressed,
            &mut links,
            &mut action_buttons,
            &mut ops,
        );
        i = i + 1;
    }
    PaintOutput {
        table: RegionTable { links, action_buttons },
        ops,
        content_height: (n as i32) * ROW_HEIGHT,
    }
}

/// A paint pass is deterministic: two passes over the same items, text
/// extents, canvas width, pressed item and metrics give the same region table
/// and the same drawing commands.
pub proof fn lemma_paint_deterministic(
    items: Seq<(ProjectPadItem, Depth)>,
    extents: Seq<TextExtents>,
    canvas_width: int,
    pressed: Option<ItemRef>,
    metrics: StyleMetrics,
    first: PaintOutput,
    second: PaintOutput,
)
    requires
        first.table.link_regions() == painted_links(items, extents, metrics),
        first.table.button_regions() == painted_buttons(items, canvas_width, metrics),
        first.ops@ == painted_ops(items, extents, canvas_width, metrics, pressed),
        second.table.link_regions() == painted_links(items, extents, metrics),
        second.table.button_regions() == painted_buttons(items, canvas_width, metrics),
        second.ops@ == painted_ops(items, extents, canvas_width, metrics, pressed),
    ensures
        first.table.link_regions() == second.table.link_regions(),
        first.table.button_regions() == second.table.button_regions(),
        first.ops@ == second.ops@,
{
}

/// Rows are a fixed height apart, whatever the items hold: the frame, the
/// action button and the link of row `i + 1` lie exactly `ROW_HEIGHT` below
/// those of row `i`, for any texts measured in either row.
pub proof fn lemma_row_pitch(
    m: StyleMetrics,
    d: Depth,
    i: int,
    w: int,
    e1: TextExtents,
    e2: TextExtents,
)
    requires
        metrics_ok(m),
        extents_ok(e1),
        extents_ok(e2),
        e1.title_height == e2.title_height,
        0 <= i,
        i + 1 < MAX_ROWS,
        0 <= w <= MAX_CANVAS_WIDTH,
    ensures
        frame_area(m, d, i + 1, w).y == frame_area(m, d, i, w).y + ROW_HEIGHT,
        button_area(m, d, i + 1, w).y == button_area(m, d, i, w).y + ROW_HEIGHT,
        link_area(m, d, i + 1, e2).y == link_area(m, d, i, e1).y + ROW_HEIGHT,
        row_top(i + 1) - row_top(i) == ROW_HEIGHT,
{
    assert(row_top(i + 1) == row_top(i) + ROW_HEIGHT) by (nonlinear_arith);
    assert(0 <= row_top(i) < MAX_ROWS * ROW_HEIGHT) by (nonlinear_arith)
        requires
            0 <= i,
            i + 1 < MAX_ROWS,
    ;
}

/// The regions of an item do not depend on where it is drawn but through its
/// row: painted at row `j` instead of row `i`, each of its link and action
/// button regions keeps its place across, its size and its payload, and moves
/// down by exactly `(j - i) * ROW_HEIGHT`, whatever the kind of the item and
/// whatever its texts.
pub proof fn lemma_row_regions_shift(
    item: ProjectPadItem,
    d: Depth,
    i: int,
    j: int,
    w: int,
    m: StyleMetrics,
    e: TextExtents,
)
    requires
        metrics_ok(m),
        extents_ok(e),
        0 <= i < MAX_ROWS,
        0 <= j < MAX_ROWS,
        0 <= w <= MAX_CANVAS_WIDTH,
    ensures
        row_links(item, d, j, m, e).len() == row_links(item, d, i, m, e).len(),
        forall|k: int|
            0 <= k < row_links(item, d, i, m, e).len() ==> {
                let a = #[trigger] row_links(item, d, i, m, e)[k];
                let b = row_links(item, d, j, m, e)[k];
                &&& b.1 == a.1
                &&& b.0.x == a.0.x
                &&& b.0.width == a.0.width
                &&& b.0.height == a.0.height
                &&& b.0.y == a.0.y + (j - i) * ROW_HEIGHT
            },
        row_buttons(item, d, j, w, m).len() == row_buttons(item, d, i, w, m).len(),
        forall|k: int|
            0 <= k < row_buttons(item, d, i, w, m).len() ==> {
                let a = #[trigger] row_buttons(item, d, i, w, m)[k];
                let b = row_buttons(item, d, j, w, m)[k];
                &&& b.1 == a.1
                &&& b.0.x == a.0.x
                &&& b.0.width == a.0.width
                &&& b.0.height == a.0.height
                &&& b.0.y == a.0.y + (j - i) * ROW_HEIGHT
            },
{
    assert(row_top(j) == row_top(i) + (j - i) * ROW_HEIGHT) by (nonlinear_arith);
    assert(0 <= row_top(i) < MAX_ROWS * ROW_HEIGHT) by (nonlinear_arith)
        requires
            0 <= i < MAX_ROWS,
    ;
    assert(0 <= row_top(j) < MAX_ROWS * ROW_HEIGHT) by (nonlinear_arith)
        requires
            0 <= j < MAX_ROWS,
    ;
}

} // verus!
