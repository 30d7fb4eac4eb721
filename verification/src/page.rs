//! Reading one page of a feed out of a response document.
//!
//! The four feeds differ in where the item array sits, where the cursor sits,
//! and which member of the last item is echoed back to ask for the next page.
//! The system feed further answers its first request in one shape and every
//! later request in another.

use crate::json::{json_tree, json_trees, member, JsonTree};
use crate::notify::{LIKED, MENTIONED, REPLIED};
use vstd::prelude::*;

verus! {

/// One of the four notification feeds.
#[derive(Clone, Copy, Debug, PartialEq, Eq, Structural)]
pub enum FeedKind {
    Liked,
    Replied,
    Mentioned,
    System,
}

impl FeedKind {
    /// The category code that records of a generic feed carry. The system feed
    /// has none: its records carry the subtype that the service names.
    pub open spec fn spec_code(self) -> u8 {
        match self {
            FeedKind::Liked => LIKED,
            FeedKind::Replied => REPLIED,
            FeedKind::Mentioned => MENTIONED,
            FeedKind::System => 0,
        }
    }

    /// See [`FeedKind::spec_code`].
    #[verifier::when_used_as_spec(spec_code)]
    pub fn code(self) -> (r: u8)
        ensures
            r == self.spec_code(),
    {
        match self {
            FeedKind::Liked => LIKED,
            FeedKind::Replied => REPLIED,
            FeedKind::Mentioned => MENTIONED,
            FeedKind::System => 0,
        }
    }

    /// The member of an item that is echoed back to ask for the page after it.
    pub open spec fn spec_last_field(self) -> Seq<char> {
        match self {
            FeedKind::Liked => "like_time"@,
            FeedKind::Replied => "reply_time"@,
            FeedKind::Mentioned => "at_time"@,
            FeedKind::System => "cursor"@,
        }
    }

    /// See [`FeedKind::spec_last_field`].
    pub fn last_field(self) -> (r: &'static str)
        ensures
            r@ == self.spec_last_field(),
    {
        match self {
            FeedKind::Liked => "like_time",
            FeedKind::Replied => "reply_time",
            FeedKind::Mentioned => "at_time",
            FeedKind::System => "cursor",
        }
    }
}

/// One item of a page: the id of the notification and the code that its record
/// will carry.
#[derive(Clone, Copy, Debug, PartialEq, Eq, Structural)]
pub struct PageItem {
    pub id: u64,
    pub tp: u8,
}

/// What one page of a feed holds, as far as pagination reads it.
#[derive(Clone, Debug, PartialEq, Eq)]
pub struct Page {
    /// The items, in the order of the response.
    pub items: Vec<PageItem>,
    /// The continuation id of the page's cursor, where it has one.
    pub cursor_id: Option<u64>,
    /// The value to echo back, taken from the last item, where it has one.
    pub last: Option<u64>,
    /// The end-of-list flag of the page's cursor, where it has one.
    pub is_end: Option<bool>,
}

/// The model of a [`Page`].
pub struct PageModel {
    pub items: Seq<PageItem>,
    pub cursor_id: Option<u64>,
    pub last: Option<u64>,
    pub is_end: Option<bool>,
}

impl View for Page {
    type V = PageModel;

    open spec fn view(&self) -> PageModel {
        PageModel {
            items: self.items@,
            cursor_id: self.cursor_id,
            last: self.last,
            is_end: self.is_end,
        }
    }
}

/// What a response document came to when read as a page.
#[derive(Clone, Debug, PartialEq, Eq)]
pub enum PageRead {
    /// The item array of a first system page is null or missing.
    Absent,
    /// The item array is no array, or one of its items lacks a member that a
    /// record is made of.
    Malformed,
    /// A page.
    Page(Page),
}

/// The model of a [`PageRead`].
pub enum PageReadModel {
    Absent,
    Malformed,
    Page(PageModel),
}

impl View for PageRead {
    type V = PageReadModel;

    open spec fn view(&self) -> PageReadModel {
        match *self {
            PageRead::Absent => PageReadModel::Absent,
            PageRead::Malformed => PageReadModel::Malformed,
            PageRead::Page(page) => PageReadModel::Page(page@),
        }
    }
}

/// Where the item array of a response sits. `first` tells the answer to a
/// feed's first request from the answers to the later ones.
pub open spec fn items_node(kind: FeedKind, first: bool, root: JsonTree) -> JsonTree {
    match kind {
        FeedKind::Liked => root.member("data"@).member("total"@).member("items"@),
        FeedKind::Replied | FeedKind::Mentioned => root.member("data"@).member("items"@),
        FeedKind::System => if first {
            root.member("data"@).member("system_notify_list"@)
        } else {
            root.member("data"@)
        },
    }
}

/// Where the cursor of a response sits. The system feed has none.
pub open spec fn cursor_node(kind: FeedKind, root: JsonTree) -> JsonTree {
    match kind {
        FeedKind::Liked => root.member("data"@).member("total"@).member("cursor"@),
        FeedKind::Replied | FeedKind::Mentioned => root.member("data"@).member("cursor"@),
        FeedKind::System => JsonTree::Null,
    }
}

/// The item that a member of the item array stands for: its `id`, and for the
/// system feed its `type` cut down to eight bits, for the others the feed's
/// category code. `None` where `id` (or `type`) is no non-negative integer.
pub open spec fn item_of(kind: FeedKind, node: JsonTree) -> Option<PageItem> {
    match node.member("id"@).as_u64() {
        Some(id) => if kind == FeedKind::System {
            match node.member("type"@).as_u64() {
                Some(subtype) => Some(PageItem { id, tp: (subtype % 256) as u8 }),
                None => None,
            }
        } else {
            Some(PageItem { id, tp: kind.spec_code() })
        },
        None => None,
    }
}

/// The items that an item array stands for; `None` where one of its members
/// stands for none.
pub open spec fn items_of(kind: FeedKind, nodes: Seq<JsonTree>) -> Option<Seq<PageItem>> {
    if forall|i: int| 0 <= i < nodes.len() ==> (#[trigger] item_of(kind, nodes[i])) is Some {
        Some(Seq::new(nodes.len(), |i: int| item_of(kind, nodes[i])->Some_0))
    } else {
        None
    }
}

/// The value to echo back: that of the last item, where there is one.
pub open spec fn last_of(kind: FeedKind, nodes: Seq<JsonTree>) -> Option<u64> {
    if nodes.len() == 0 {
        None
    } else {
        nodes.last().member(kind.spec_last_field()).as_u64()
    }
}

/// What a response document comes to when read as a page of feed `kind`.
pub open spec fn page_of(kind: FeedKind, first: bool, root: JsonTree) -> PageReadModel {
    let node = items_node(kind, first, root);
    let cursor = cursor_node(kind, root);
    if kind == FeedKind::System && first && node is Null {
        PageReadModel::Absent
    } else {
        match node.as_array() {
            None => PageReadModel::Malformed,
            Some(nodes) => match items_of(kind, nodes) {
                None => PageReadModel::Malformed,
                Some(items) => PageReadModel::Page(
                    PageModel {
                        items,
                        cursor_id: cursor.member("id"@).as_u64(),
                        last: last_of(kind, nodes),
                        is_end: cursor.member("is_end"@).as_bool(),
                    },
                ),
            },
        }
    }
}

/// Finds the item array of a response.
fn find_items<'a>(kind: FeedKind, first: bool, root: &'a serde_json::Value) -> (r:
    &'a serde_json::Value)
    ensures
        json_tree(*r) == items_node(kind, first, json_tree(*root)),
{
    let data = member(root, "data");
    match kind {
        FeedKind::Liked => member(member(data, "total"), "items"),
        FeedKind::Replied | FeedKind::Mentioned => member(data, "items"),
        FeedKind::System => if first {
            member(data, "system_notify_list")
        } else {
            data
        },
    }
}

/// Reads one member of the item array.
fn read_item(kind: FeedKind, node: &serde_json::Value) -> (r: Option<PageItem>)
    ensures
        r == item_of(kind, json_tree(*node)),
{
    match member(node, "id").as_u64() {
        Some(id) => match kind {
            FeedKind::System => match member(node, "type").as_u64() {
                Some(subtype) => Some(PageItem { id, tp: (subtype % 256) as u8 }),
                None => None,
            },
            _ => Some(PageItem { id, tp: kind.code() }),
        },
        None => None,
    }
}

/// Reads the item array.
fn read_items(kind: FeedKind, nodes: &Vec<serde_json::Value>) -> (r: Option<Vec<PageItem>>)
    ensures
        match r {
            Some(items) => items_of(kind, json_trees(nodes@)) == Some(items@),
            None => items_of(kind, json_trees(nodes@)) is None,
        },
{
    let ghost trees = json_trees(nodes@);
    let mut items: Vec<PageItem> = Vec::new();
    let mut i: usize = 0;
    while i < nodes.len()
        invariant
            i <= nodes.len(),
            trees == json_trees(nodes@),
            items@.len() == i,
            forall|j: int| 0 <= j < i ==> item_of(kind, trees[j]) == Some(#[trigger] items@[j]),
        decreases nodes.len() - i,
    {
        match read_item(kind, &nodes[i]) {
            Some(item) => items.push(item),
            None => {
                assert(item_of(kind, trees[i as int]) is None);
                return None;
            },
        }
        i += 1;
    }
    assert forall|j: int| 0 <= j < trees.len() implies (#[trigger] item_of(kind, trees[j])) is Some by {
        assert(item_of(kind, trees[j]) == Some(items@[j]));
    }
    assert(items_of(kind, trees)->Some_0 =~= items@);
    Some(items)
}

/// Reads a response document as one page of feed `kind`.
pub fn read_page(kind: FeedKind, first: bool, root: &serde_json::Value) -> (r: PageRead)
    ensures
        r@ == page_of(kind, first, json_tree(*root)),
{
    let node = find_items(kind, first, root);
    if kind == FeedKind::System && first && node.is_null() {
        return PageRead::Absent;
    }
    let nodes = match node.as_array() {
        Some(nodes) => nodes,
        None => return PageRead::Malformed,
    };
    let items = match read_items(kind, nodes) {
        Some(items) => items,
        None => return PageRead::Malformed,
    };
    let last = if nodes.len() == 0 {
        None
    } else {
        member(&nodes[nodes.len() - 1], kind.last_field()).as_u64()
    };
    let (cursor_id, is_end) = match kind {
        FeedKind::Liked => {
            let cursor = member(member(member(root, "data"), "total"), "cursor");
            (member(cursor, "id").as_u64(), member(cursor, "is_end").as_bool())
        },
        FeedKind::Replied | FeedKind::Mentioned => {
            let cursor = member(member(root, "data"), "cursor");
            (member(cursor, "id").as_u64(), member(cursor, "is_end").as_bool())
        },
        FeedKind::System => (None, None),
    };
    PageRead::Page(Page { items, cursor_id, last, is_end })
}

} // verus!
