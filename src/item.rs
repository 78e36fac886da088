use vstd::prelude::*;
use crate::models::{
    Project, ProjectNote, ProjectPointOfInterest, Server, ServerDatabase, ServerExtraUserAccount,
    ServerLink, ServerNote, ServerPointOfInterest, ServerWebsite,
};

verus! {

/// The kinds of item that the search view shows.
#[derive(Clone, Copy, Debug, PartialEq, Eq, Structural)]
pub enum ItemKind {
    Project,
    Server,
    ServerNote,
    ProjectNote,
    ServerWebsite,
    ServerExtraUserAccount,
    ServerPoi,
    ProjectPoi,
    ServerDatabase,
    ServerLink,
}

/// The identity of an item: its kind and its row id.
#[derive(Clone, Copy, Debug, PartialEq, Eq, Structural)]
pub struct ItemRef {
    pub kind: ItemKind,
    pub id: i32,
}

/// One displayed item, holding a snapshot of its record.
#[derive(Clone, Debug)]
pub enum ProjectPadItem {
    Project(Project),
    Server(Server),
    ServerNote(ServerNote),
    ProjectNote(ProjectNote),
    ServerWebsite(ServerWebsite),
    ServerExtraUserAccount(ServerExtraUserAccount),
    ServerPoi(ServerPointOfInterest),
    ProjectPoi(ProjectPointOfInterest),
    ServerDatabase(ServerDatabase),
    ServerLink(ServerLink),
}

/// What is drawn under the title of a row.
#[derive(Clone, Copy, Debug, PartialEq, Eq, Structural)]
pub enum DetailKind {
    /// Nothing.
    Nothing,
    /// The environment tag of a server.
    Environment,
    /// A clickable link.
    Link,
    /// A line of plain text.
    Subtext,
}

impl ProjectPadItem {
    pub open spec fn spec_ref(&self) -> ItemRef {
        match self {
            ProjectPadItem::Project(p) => ItemRef { kind: ItemKind::Project, id: p.id },
            ProjectPadItem::Server(s) => ItemRef { kind: ItemKind::Server, id: s.id },
            ProjectPadItem::ServerNote(n) => ItemRef { kind: ItemKind::ServerNote, id: n.id },
            ProjectPadItem::ProjectNote(n) => ItemRef { kind: ItemKind::ProjectNote, id: n.id },
            ProjectPadItem::ServerWebsite(w) => ItemRef { kind: ItemKind::ServerWebsite, id: w.id },
            ProjectPadItem::ServerExtraUserAccount(u) => ItemRef {
                kind: ItemKind::ServerExtraUserAccount,
                id: u.id,
            },
            ProjectPadItem::ServerPoi(p) => ItemRef { kind: ItemKind::ServerPoi, id: p.id },
            ProjectPadItem::ProjectPoi(p) => ItemRef { kind: ItemKind::ProjectPoi, id: p.id },
            ProjectPadItem::ServerDatabase(d) => ItemRef {
                kind: ItemKind::ServerDatabase,
                id: d.id,
            },
            ProjectPadItem::ServerLink(l) => ItemRef { kind: ItemKind::ServerLink, id: l.id },
        }
    }

    /// The kind and row id of this item.
    pub fn item_ref(&self) -> (r: ItemRef)
        ensures
            r == self.spec_ref(),
    {
        match self {
            ProjectPadItem::Project(p) => ItemRef { kind: ItemKind::Project, id: p.id },
            ProjectPadItem::Server(s) => ItemRef { kind: ItemKind::Server, id: s.id },
            ProjectPadItem::ServerNote(n) => ItemRef { kind: ItemKind::ServerNote, id: n.id },
            ProjectPadItem::ProjectNote(n) => ItemRef { kind: ItemKind::ProjectNote, id: n.id },
            ProjectPadItem::ServerWebsite(w) => ItemRef { kind: ItemKind::ServerWebsite, id: w.id },
            ProjectPadItem::ServerExtraUserAccount(u) => ItemRef {
                kind: ItemKind::ServerExtraUserAccount,
                id: u.id,
            },
            ProjectPadItem::ServerPoi(p) => ItemRef { kind: ItemKind::ServerPoi, id: p.id },
            ProjectPadItem::ProjectPoi(p) => ItemRef { kind: ItemKind::ProjectPoi, id: p.id },
            ProjectPadItem::ServerDatabase(d) => ItemRef {
                kind: ItemKind::ServerDatabase,
                id: d.id,
            },
            ProjectPadItem::ServerLink(l) => ItemRef { kind: ItemKind::ServerLink, id: l.id },
        }
    }

    /// Whether two values stand for the same item (same kind, same row id).
    pub fn same_item(&self, other: &ProjectPadItem) -> (r: bool)
        ensures
            r == (self.spec_ref() == other.spec_ref()),
    {
        let a = self.item_ref();
        let b = other.item_ref();
        a == b
    }

    /// The title drawn for this item.
    pub open spec fn spec_title(&self) -> Seq<char> {
        match self {
            ProjectPadItem::Project(p) => p.name@,
            ProjectPadItem::Server(s) => s.desc@,
            ProjectPadItem::ServerNote(n) => n.title@,
            ProjectPadItem::ProjectNote(n) => n.title@,
            ProjectPadItem::ServerWebsite(w) => w.desc@,
            ProjectPadItem::ServerExtraUserAccount(u) => u.username@,
            ProjectPadItem::ServerPoi(p) => p.desc@,
            ProjectPadItem::ProjectPoi(p) => p.desc@,
            ProjectPadItem::ServerDatabase(d) => d.desc@,
            ProjectPadItem::ServerLink(l) => l.desc@,
        }
    }

    pub fn title(&self) -> (r: String)
        ensures
            r@ == self.spec_title(),
    {
        match self {
            ProjectPadItem::Project(p) => p.name.clone(),
            ProjectPadItem::Server(s) => s.desc.clone(),
            ProjectPadItem::ServerNote(n) => n.title.clone(),
            ProjectPadItem::ProjectNote(n) => n.title.clone(),
            ProjectPadItem::ServerWebsite(w) => w.desc.clone(),
            ProjectPadItem::ServerExtraUserAccount(u) => u.username.clone(),
            ProjectPadItem::ServerPoi(p) => p.desc.clone(),
            ProjectPadItem::ProjectPoi(p) => p.desc.clone(),
            ProjectPadItem::ServerDatabase(d) => d.desc.clone(),
            ProjectPadItem::ServerLink(l) => l.desc.clone(),
        }
    }

    pub open spec fn spec_detail_kind(&self) -> DetailKind {
        match self {
            ProjectPadItem::Server(_) => DetailKind::Environment,
            ProjectPadItem::ServerWebsite(_) => DetailKind::Link,
            ProjectPadItem::ServerExtraUserAccount(_) => DetailKind::Subtext,
            ProjectPadItem::ServerPoi(_) => DetailKind::Subtext,
            ProjectPadItem::ProjectPoi(_) => DetailKind::Subtext,
            ProjectPadItem::ServerDatabase(_) => DetailKind::Subtext,
            _ => DetailKind::Nothing,
        }
    }

    /// What kind of line is drawn under the title.
    pub fn detail_kind(&self) -> (r: DetailKind)
        ensures
            r == self.spec_detail_kind(),
    {
        match self {
            ProjectPadItem::Server(_) => DetailKind::Environment,
            ProjectPadItem::ServerWebsite(_) => DetailKind::Link,
            ProjectPadItem::ServerExtraUserAccount(_) => DetailKind::Subtext,
            ProjectPadItem::ServerPoi(_) => DetailKind::Subtext,
            ProjectPadItem::ProjectPoi(_) => DetailKind::Subtext,
            ProjectPadItem::ServerDatabase(_) => DetailKind::Subtext,
            _ => DetailKind::Nothing,
        }
    }

    /// The text of the line under the title: the link of a website, the
    /// environment tag of a server, the description of a user account, the
    /// text of a point of interest, the text and the user name of a database
    /// separated by one space; empty where nothing is drawn there.
    pub open spec fn spec_detail(&self) -> Seq<char> {
        match self {
            ProjectPadItem::Server(s) => s.environment.spec_label(),
            ProjectPadItem::ServerWebsite(w) => w.url@,
            ProjectPadItem::ServerExtraUserAccount(u) => u.desc@,
            ProjectPadItem::ServerPoi(p) => p.text@,
            ProjectPadItem::ProjectPoi(p) => p.text@,
            ProjectPadItem::ServerDatabase(d) => d.text@ + " "@ + d.username@,
            _ => Seq::empty(),
        }
    }

    pub fn detail(&self) -> (r: String)
        ensures
            r@ == self.spec_detail(),
    {
        match self {
            ProjectPadItem::Server(s) => String::from_str(s.environment.label()),
            ProjectPadItem::ServerWebsite(w) => w.url.clone(),
            ProjectPadItem::ServerExtraUserAccount(u) => u.desc.clone(),
            ProjectPadItem::ServerPoi(p) => p.text.clone(),
            ProjectPadItem::ProjectPoi(p) => p.text.clone(),
            ProjectPadItem::ServerDatabase(d) => {
                let mut s = d.text.clone();
                s.append(" ");
                s.append(d.username.as_str());
                s
            },
            _ => String::new(),
        }
    }

    /// Whether this is a project that has an icon to draw.
    pub open spec fn spec_has_badge(&self) -> bool {
        match self {
            ProjectPadItem::Project(p) => p.icon matches Some(icon) && icon@.len() > 0,
            _ => false,
        }
    }

    pub fn has_badge(&self) -> (r: bool)
        ensures
            r == self.spec_has_badge(),
    {
        match self {
            ProjectPadItem::Project(p) => match &p.icon {
                Some(icon) => icon.len() > 0,
                None => false,
            },
            _ => false,
        }
    }
}

impl PartialEq for ProjectPadItem {
    fn eq(&self, other: &ProjectPadItem) -> (r: bool) {
        self.same_item(other)
    }
}

impl vstd::std_specs::cmp::PartialEqSpecImpl for ProjectPadItem {
    open spec fn obeys_eq_spec() -> bool {
        true
    }

    open spec fn eq_spec(&self, other: &ProjectPadItem) -> bool {
        self.spec_ref() == other.spec_ref()
    }
}

} // verus!
