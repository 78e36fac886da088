use vstd::prelude::*;
use crate::geometry::Area;
use crate::item::{ItemRef, ProjectPadItem};
use crate::paint::{
    extents_ok, metrics_ok, paint, painted_buttons, painted_links, painted_ops, Depth, DrawOp,
    RegionTable, StyleMetrics, TextExtents, MAX_CANVAS_WIDTH, MAX_ROWS, ROW_HEIGHT,
};
use crate::resolve::{hover_cursor, resolve, resolve_spec, Action, ActionModel, CursorKind};

verus! {

/// Interaction state of the search view: the region table of the last paint
/// pass and the item whose action button is shown pressed.
#[derive(Clone, Debug)]
pub struct SearchView {
    pub table: RegionTable,
    pub pressed: Option<ItemRef>,
}

impl SearchView {
    /// What a pointer at `(px, py)` asks for, by the last paint pass.
    pub open spec fn action_at(&self, px: int, py: int) -> ActionModel {
        resolve_spec(self.table.link_regions(), self.table.button_regions(), px, py)
    }

    /// A view that has not been painted yet: nothing can be clicked.
    pub fn new() -> (r: SearchView)
        ensures
            r.table.link_regions() == Seq::<(Area, Seq<char>)>::empty(),
            r.table.button_regions() == Seq::<(Area, ItemRef)>::empty(),
            r.pressed is None,
    {
        SearchView { table: RegionTable::new(), pressed: None }
    }

    /// Paints `items` and puts the new region table in place of the old one,
    /// which nothing reads again. Returns the drawing commands and the height
    /// of the content.
    pub fn repaint(
        &mut self,
        items: &Vec<(ProjectPadItem, Depth)>,
        extents: &Vec<TextExtents>,
        canvas_width: i32,
        metrics: &StyleMetrics,
    ) -> (r: (Vec<DrawOp>, i32))
        requires
            items.len() == extents.len(),
            items.len() <= MAX_ROWS,
            0 <= canvas_width <= MAX_CANVAS_WIDTH,
            metrics_ok(*metrics),
            forall|k: int| 0 <= k < extents.len() ==> extents_ok(#[trigger] extents@[k]),
        ensures
            final(self).table.link_regions() == painted_links(items@, extents@, *metrics),
            final(self).table.button_regions() == painted_buttons(
                items@,
                canvas_width as int,
                *metrics,
            ),
            final(self).pressed == old(self).pressed,
            r.0@ == painted_ops(items@, extents@, canvas_width as int, *metrics, old(self).pressed),
            r.1 == items.len() * ROW_HEIGHT,
    {
        let out = paint(items, extents, canvas_width, self.pressed, metrics);
        self.table = out.table;
        (out.ops, out.content_height)
    }

    /// A pointer press: on an action button (and no link) it marks that
    /// button's item as pressed, so that the next paint shows it pressed.
    /// Returns whether the pressed item changed.
    pub fn pointer_down(&mut self, px: i32, py: i32) -> (r: bool)
        ensures
            final(self).table == old(self).table,
            final(self).pressed == (match old(self).action_at(px as int, py as int) {
                ActionModel::InvokeItemAction(item) => Some(item),
                _ => old(self).pressed,
            }),
            r == (final(self).pressed != old(self).pressed),
    {
        match resolve(px, py, &self.table) {
            Action::InvokeItemAction(item) => {
                let changed = match self.pressed {
                    Some(p) => p != item,
                    None => true,
                };
                self.pressed = Some(item);
                changed
            },
            _ => false,
        }
    }

    /// A pointer release: the action at that point by the last paint pass.
    /// The pressed mark is cleared whatever the action turns out to do.
    pub fn pointer_up(&mut self, px: i32, py: i32) -> (r: Action)
        ensures
            r@ == old(self).action_at(px as int, py as int),
            final(self).table == old(self).table,
            final(self).pressed is None,
    {
        let action = resolve(px, py, &self.table);
        self.pressed = None;
        action
    }

    /// The cursor shape over `(px, py)`; changes nothing.
    pub fn cursor_at(&self, px: i32, py: i32) -> (r: CursorKind)
        ensures
            r == (if self.action_at(px as int, py as int) is Nothing {
                CursorKind::Text
            } else {
                CursorKind::Pointer
            }),
    {
        hover_cursor(px, py, &self.table)
    }
}

/// After a repaint, what a point resolves to depends on that paint pass alone:
/// two views painted with the same items, extents, width and metrics resolve
/// every point alike, whatever tables they held before.
pub proof fn lemma_no_stale_regions(
    a: SearchView,
    b: SearchView,
    items: Seq<(ProjectPadItem, Depth)>,
    extents: Seq<TextExtents>,
    canvas_width: int,
    metrics: StyleMetrics,
    px: int,
    py: int,
)
    requires
        a.table.link_regions() == painted_links(items, extents, metrics),
        a.table.button_regions() == painted_buttons(items, canvas_width, metrics),
        b.table.link_regions() == painted_links(items, extents, metrics),
        b.table.button_regions() == painted_buttons(items, canvas_width, metrics),
    ensures
        a.action_at(px, py) == b.action_at(px, py),
{
}

} // verus!
