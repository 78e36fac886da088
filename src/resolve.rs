use vstd::prelude::*;
use vstd::string::StrSliceExecFns;
use crate::geometry::{area_contains, Area};
use crate::item::ItemRef;
use crate::paint::RegionTable;
use crate::text::{has_prefix, starts_with};

verus! {

/// Link targets that start with this reveal a secret in place instead of
/// being opened; the secret is what follows.
pub const SECRET_SCHEME: &'static str = "pass://";

pub open spec fn secret_scheme() -> Seq<char> {
    "pass://"@
}

/// What a pointer event asks for.
#[derive(Clone, Debug, PartialEq, Eq)]
pub enum Action {
    Nothing,
    OpenLink(String),
    RevealSecret(String),
    InvokeItemAction(ItemRef),
}

/// An [`Action`] with its texts as character sequences.
pub enum ActionModel {
    Nothing,
    OpenLink(Seq<char>),
    RevealSecret(Seq<char>),
    InvokeItemAction(ItemRef),
}

impl View for Action {
    type V = ActionModel;

    open spec fn view(&self) -> ActionModel {
        match self {
            Action::Nothing => ActionModel::Nothing,
            Action::OpenLink(u) => ActionModel::OpenLink(u@),
            Action::RevealSecret(s) => ActionModel::RevealSecret(s@),
            Action::InvokeItemAction(i) => ActionModel::InvokeItemAction(*i),
        }
    }
}

/// The shape of the pointer.
#[derive(Clone, Copy, Debug, PartialEq, Eq, Structural)]
pub enum CursorKind {
    Pointer,
    Text,
}

/// The action of a link with target `payload`.
pub open spec fn link_action(payload: Seq<char>) -> ActionModel {
    if has_prefix(payload, secret_scheme()) {
        ActionModel::RevealSecret(payload.subrange(secret_scheme().len() as int, payload.len() as int))
    } else {
        ActionModel::OpenLink(payload)
    }
}

/// Whether `k` is the first region of `regions` that holds the point.
pub open spec fn first_hit<T>(regions: Seq<(Area, T)>, px: int, py: int, k: int) -> bool {
    &&& 0 <= k < regions.len()
    &&& area_contains(regions[k].0, px, py)
    &&& forall|j: int| 0 <= j < k ==> !area_contains(#[trigger] regions[j].0, px, py)
}

/// Whether some region of `regions` holds the point.
pub open spec fn any_hit<T>(regions: Seq<(Area, T)>, px: int, py: int) -> bool {
    exists|k: int| 0 <= k < regions.len() && area_contains(#[trigger] regions[k].0, px, py)
}

/// The action at a point: the first link that holds it, else the first action
/// button that holds it, else none.
pub open spec fn resolve_spec(
    links: Seq<(Area, Seq<char>)>,
    buttons: Seq<(Area, ItemRef)>,
    px: int,
    py: int,
) -> ActionModel {
    if any_hit(links, px, py) {
        link_action(links[choose|k: int| first_hit(links, px, py, k)].1)
    } else if any_hit(buttons, px, py) {
        ActionModel::InvokeItemAction(buttons[choose|k: int| first_hit(buttons, px, py, k)].1)
    } else {
        ActionModel::Nothing
    }
}

/// The first region that holds a point is the only one that is first.
pub proof fn lemma_first_hit_unique<T>(regions: Seq<(Area, T)>, px: int, py: int, k1: int, k2: int)
    requires
        first_hit(regions, px, py, k1),
        first_hit(regions, px, py, k2),
    ensures
        k1 == k2,
{
    if k1 < k2 {
        assert(!area_contains(regions[k1].0, px, py));
    } else if k2 < k1 {
        assert(!area_contains(regions[k2].0, px, py));
    }
}

/// Index of the first region that holds the point, if any.
fn find_first<T>(regions: &Vec<(Area, T)>, px: i32, py: i32) -> (r: Option<usize>)
    ensures
        r matches Some(k) ==> first_hit(regions@, px as int, py as int, k as int),
        r is None ==> !any_hit(regions@, px as int, py as int),
{
    let mut i: usize = 0;
    while i < regions.len()
        invariant
            i <= regions.len(),
            forall|j: int| 0 <= j < i ==> !area_contains(#[trigger] regions@[j].0, px as int, py as int),
        decreases regions.len() - i,
    {
        if regions[i].0.contains(px, py) {
            return Some(i);
        }
        i = i + 1;
    }
    None
}

/// The action of a link with target `payload`.
pub fn link_action_of(payload: &str) -> (r: Action)
    ensures
        r@ == link_action(payload@),
{
    if starts_with(payload, SECRET_SCHEME) {
        proof {
            reveal_strlit("pass://");
        }
        let n = payload.unicode_len();
        let scheme_len = SECRET_SCHEME.unicode_len();
        Action::RevealSecret(String::from_str(payload.substring_char(scheme_len, n)))
    } else {
        Action::OpenLink(String::from_str(payload))
    }
}

/// The action that a pointer at `(px, py)` asks for, against `table`.
pub fn resolve(px: i32, py: i32, table: &RegionTable) -> (r: Action)
    ensures
        r@ == resolve_spec(table.link_regions(), table.button_regions(), px as int, py as int),
{
    let ghost links = table.link_regions();
    let ghost buttons = table.button_regions();
    let ghost (x, y) = (px as int, py as int);
    match find_first(&table.links, px, py) {
        Some(k) => {
            proof {
                assert(links[k as int].0 == table.links@[k as int].0);
                assert(first_hit(links, x, y, k as int)) by {
                    assert forall|j: int| 0 <= j < k implies !area_contains(
                        #[trigger] links[j].0,
                        x,
                        y,
                    ) by {
                        assert(links[j].0 == table.links@[j].0);
                        assert(!area_contains(table.links@[j].0, x, y));
                    }
                }
                let c = choose|c: int| first_hit(links, x, y, c);
                lemma_first_hit_unique(links, x, y, c, k as int);
            }
            link_action_of(table.links[k].1.as_str())
        },
        None => {
            proof {
                if any_hit(links, x, y) {
                    let c = choose|c: int| 0 <= c < links.len() && area_contains(#[trigger] links[c].0, x, y);
                    assert(links[c].0 == table.links@[c].0);
                }
            }
            match find_first(&table.action_buttons, px, py) {
                Some(k) => {
                    proof {
                        let c = choose|c: int| first_hit(buttons, x, y, c);
                        lemma_first_hit_unique(buttons, x, y, c, k as int);
                    }
                    Action::InvokeItemAction(table.action_buttons[k].1)
                },
                None => Action::Nothing,
            }
        },
    }
}

/// The cursor shape over `(px, py)`: a pointer wherever something can be
/// clicked, text elsewhere.
pub fn hover_cursor(px: i32, py: i32, table: &RegionTable) -> (r: CursorKind)
    ensures
        r == (if resolve_spec(table.link_regions(), table.button_regions(), px as int, py as int)
            is Nothing {
            CursorKind::Text
        } else {
            CursorKind::Pointer
        }),
{
    match resolve(px, py, table) {
        Action::Nothing => CursorKind::Text,
        _ => CursorKind::Pointer,
    }
}

/// The point in the middle of an area.
pub open spec fn center(a: Area) -> (int, int) {
    (a.x + a.width / 2, a.y + a.height / 2)
}

proof fn lemma_first_hit_chosen<T>(regions: Seq<(Area, T)>, px: int, py: int, k: int)
    requires
        first_hit(regions, px, py, k),
    ensures
        any_hit(regions, px, py),
        (choose|c: int| first_hit(regions, px, py, c)) == k,
{
    let c = choose|c: int| first_hit(regions, px, py, c);
    lemma_first_hit_unique(regions, px, py, c, k);
}

/// Resolving the middle of a link's area gives that link's action, where the
/// area is not empty and no earlier link covers that point.
pub proof fn lemma_link_center_resolves(
    links: Seq<(Area, Seq<char>)>,
    buttons: Seq<(Area, ItemRef)>,
    k: int,
)
    requires
        0 <= k < links.len(),
        links[k].0.width > 0,
        links[k].0.height > 0,
        forall|j: int|
            0 <= j < k ==> !area_contains(
                #[trigger] links[j].0,
                center(links[k].0).0,
                center(links[k].0).1,
            ),
    ensures
        resolve_spec(links, buttons, center(links[k].0).0, center(links[k].0).1) == link_action(
            links[k].1,
        ),
{
    let (px, py) = center(links[k].0);
    lemma_first_hit_chosen(links, px, py, k);
}

/// Resolving the middle of an action button's area gives that button's item,
/// where the area is not empty and neither a link nor an earlier button covers
/// that point.
pub proof fn lemma_button_center_resolves(
    links: Seq<(Area, Seq<char>)>,
    buttons: Seq<(Area, ItemRef)>,
    k: int,
)
    requires
        0 <= k < buttons.len(),
        buttons[k].0.width > 0,
        buttons[k].0.height > 0,
        !any_hit(links, center(buttons[k].0).0, center(buttons[k].0).1),
        forall|j: int|
            0 <= j < k ==> !area_contains(
                #[trigger] buttons[j].0,
                center(buttons[k].0).0,
                center(buttons[k].0).1,
            ),
    ensures
        resolve_spec(links, buttons, center(buttons[k].0).0, center(buttons[k].0).1)
            == ActionModel::InvokeItemAction(buttons[k].1),
{
    let (px, py) = center(buttons[k].0);
    lemma_first_hit_chosen(buttons, px, py, k);
}

/// Where two links overlap at a point, the earlier one wins, provided no link
/// before it covers the point too.
pub proof fn lemma_overlapping_links(
    links: Seq<(Area, Seq<char>)>,
    buttons: Seq<(Area, ItemRef)>,
    j: int,
    k: int,
    px: int,
    py: int,
)
    requires
        0 <= j < k < links.len(),
        area_contains(links[j].0, px, py),
        area_contains(links[k].0, px, py),
        forall|i: int| 0 <= i < j ==> !area_contains(#[trigger] links[i].0, px, py),
    ensures
        resolve_spec(links, buttons, px, py) == link_action(links[j].1),
{
    lemma_first_hit_chosen(links, px, py, j);
}

/// Where two action buttons overlap at a point that no link covers, the
/// earlier one wins, provided no button before it covers the point too.
pub proof fn lemma_overlapping_buttons(
    links: Seq<(Area, Seq<char>)>,
    buttons: Seq<(Area, ItemRef)>,
    j: int,
    k: int,
    px: int,
    py: int,
)
    requires
        0 <= j < k < buttons.len(),
        area_contains(buttons[j].0, px, py),
        area_contains(buttons[k].0, px, py),
        !any_hit(links, px, py),
        forall|i: int| 0 <= i < j ==> !area_contains(#[trigger] buttons[i].0, px, py),
    ensures
        resolve_spec(links, buttons, px, py) == ActionModel::InvokeItemAction(buttons[j].1),
{
    lemma_first_hit_chosen(buttons, px, py, j);
}

/// Where a link and an action button overlap at a point, the link, which comes
/// earlier in the table, wins, provided no earlier link covers the point.
pub proof fn lemma_link_over_button(
    links: Seq<(Area, Seq<char>)>,
    buttons: Seq<(Area, ItemRef)>,
    j: int,
    k: int,
    px: int,
    py: int,
)
    requires
        0 <= j < links.len(),
        0 <= k < buttons.len(),
        area_contains(links[j].0, px, py),
        area_contains(buttons[k].0, px, py),
        forall|i: int| 0 <= i < j ==> !area_contains(#[trigger] links[i].0, px, py),
    ensures
        resolve_spec(links, buttons, px, py) == link_action(links[j].1),
{
    lemma_first_hit_chosen(links, px, py, j);
}

} // verus!
