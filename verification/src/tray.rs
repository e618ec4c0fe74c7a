//! The status notifier tray: item identity, the item registry, the watcher
//! service of host mode and the property fetch that both modes share.

use vstd::prelude::*;
use crate::text::{
    append_chars, chars_of, find, find_chars, lemma_filter_next, lemma_find_from, opt_text,
    same_chars, slice_of, starts_with, starts_with_chars, string_of, texts,
};

verus! {

/// The bus name that the watcher of host mode owns.
pub const WATCHER_BUS_NAME: &'static str = "org.kde.StatusNotifierWatcher";

/// The object path at which the watcher is served.
pub const WATCHER_OBJECT_PATH: &'static str = "/StatusNotifierWatcher";

/// The interface of a tray item's object.
pub const ITEM_INTERFACE: &'static str = "org.kde.StatusNotifierItem";

/// One tray icon, as an application registered it.
#[derive(Debug, Clone)]
pub struct TrayItem {
    pub service: String,
    pub path: String,
    pub icon_name: String,
    pub title: String,
}

/// What a tray item holds.
pub struct TrayItemView {
    pub service: Seq<char>,
    pub path: Seq<char>,
    pub icon_name: Seq<char>,
    pub title: Seq<char>,
}

impl View for TrayItem {
    type V = TrayItemView;

    open spec fn view(&self) -> TrayItemView {
        TrayItemView {
            service: self.service@,
            path: self.path@,
            icon_name: self.icon_name@,
            title: self.title@,
        }
    }
}

/// The identity of an item: its service followed by its path.
pub open spec fn item_key(item: TrayItemView) -> Seq<char> {
    item.service + item.path
}

impl TrayItem {
    /// The identity key of this item.
    pub fn key(&self) -> (k: String)
        ensures
            k@ == item_key(self@),
    {
        string_of(&self.key_chars())
    }

    fn key_chars(&self) -> (k: Vec<char>)
        ensures
            k@ == item_key(self@),
    {
        let mut out = chars_of(self.service.as_str());
        append_chars(&mut out, &chars_of(self.path.as_str()));
        out
    }

    /// A copy of this item.
    pub fn duplicate(&self) -> (copy: TrayItem)
        ensures
            copy@ == self@,
    {
        TrayItem {
            service: self.service.clone(),
            path: self.path.clone(),
            icon_name: self.icon_name.clone(),
            title: self.title.clone(),
        }
    }
}

/// What the tray service tells the consumer.
#[derive(Debug, Clone)]
pub enum TrayEvent {
    /// An item was registered.
    Added(TrayItem),
    /// The item with this identity key is gone.
    Removed(String),
}

/// What a tray event holds.
pub enum TrayEventView {
    Added(TrayItemView),
    Removed(Seq<char>),
}

impl View for TrayEvent {
    type V = TrayEventView;

    open spec fn view(&self) -> TrayEventView {
        match self {
            TrayEvent::Added(item) => TrayEventView::Added(item@),
            TrayEvent::Removed(key) => TrayEventView::Removed(key@),
        }
    }
}

/// What a list of tray items holds, in order.
pub open spec fn item_views(items: Seq<TrayItem>) -> Seq<TrayItemView> {
    items.map_values(|i: TrayItem| i@)
}

/// What a list of tray events holds, in order.
pub open spec fn event_views(events: Seq<TrayEvent>) -> Seq<TrayEventView> {
    events.map_values(|e: TrayEvent| e@)
}

// ---------------------------------------------------------------------------
// Service identifiers
// ---------------------------------------------------------------------------

/// The one-character text `/`.
pub open spec fn slash() -> Seq<char> {
    seq!['/']
}

/// The bus name in a service identifier: what stands before its first `/`,
/// or all of it.
pub open spec fn service_name(service: Seq<char>) -> Seq<char> {
    match find(service, slash()) {
        Some(i) => service.take(i),
        None => service,
    }
}

/// The object path in a service identifier: what stands from its first `/`
/// on, or the conventional item path.
pub open spec fn object_path(service: Seq<char>) -> Seq<char> {
    match find(service, slash()) {
        Some(i) => slash() + service.skip(i + 1),
        None => "/StatusNotifierItem"@,
    }
}

/// The identity key of the item that a service identifier names.
pub open spec fn service_key(service: Seq<char>) -> Seq<char> {
    service_name(service) + object_path(service)
}

/// The identifier under which a registration is recorded: a bare object
/// path is qualified with the caller's bus name.
pub open spec fn full_service(service: Seq<char>, sender: Option<Seq<char>>) -> Seq<char> {
    if starts_with(service, slash()) {
        (match sender {
            Some(name) => name,
            None => Seq::<char>::empty(),
        }) + service
    } else {
        service
    }
}

/// A service identifier that holds a `/` is the identity key of its item;
/// one that holds none gets the conventional item path behind it.
pub proof fn law_service_names_its_item(service: Seq<char>)
    ensures
        find(service, slash()) is Some ==> service_key(service) == service,
        find(service, slash()) is None ==> service_key(service) == service
            + "/StatusNotifierItem"@,
{
    if find(service, slash()) is Some {
        lemma_find_from(service, slash(), 0);
        let i = find(service, slash())->Some_0;
        assert(service.subrange(i, i + 1)[0] == '/');
        assert(service_key(service) =~= service);
    }
}

/// Splits a service identifier into bus name and object path.
pub fn split_service(service: &str) -> (parts: (String, String))
    ensures
        parts.0@ == service_name(service@),
        parts.1@ == object_path(service@),
{
    let chars = chars_of(service);
    let pat: Vec<char> = vec!['/'];
    assert(pat@ == slash());
    match find_chars(&chars, &pat) {
        Some(i) => {
            let name = slice_of(&chars, 0, i);
            let mut path: Vec<char> = vec!['/'];
            assert(path@ == slash());
            append_chars(&mut path, &slice_of(&chars, i + 1, chars.len()));
            (string_of(&name), string_of(&path))
        },
        None => (string_of(&chars), string_of(&chars_of("/StatusNotifierItem"))),
    }
}

/// The identifier under which a registration by `sender` is recorded.
pub fn qualify_service(service: &str, sender: Option<&str>) -> (full: String)
    ensures
        full@ == full_service(service@, opt_text(sender)),
{
    let chars = chars_of(service);
    let pat: Vec<char> = vec!['/'];
    assert(pat@ == slash());
    if starts_with_chars(&chars, &pat) {
        let mut out = match sender {
            Some(name) => chars_of(name),
            None => Vec::new(),
        };
        append_chars(&mut out, &chars);
        string_of(&out)
    } else {
        string_of(&chars)
    }
}

// ---------------------------------------------------------------------------
// Property fetch
// ---------------------------------------------------------------------------

/// Where a property fetch stands: what it asks of the bus next.
#[derive(Clone, Copy, Debug, PartialEq, Eq, Structural)]
pub enum FetchStage {
    /// Open a proxy to the item's object.
    Proxy,
    /// Read the property `IconName`.
    IconName,
    /// Read the property `Title`.
    Title,
    /// Read the property `Id`, which stands in for an empty title.
    Id,
    /// Nothing more: the item is complete.
    Done,
}

/// What the bus answered to the request of the current stage.
#[derive(Debug, Clone)]
pub enum FetchReply {
    /// The proxy was opened.
    Opened,
    /// The property was read and holds this text.
    Value(String),
    /// The request failed.
    Failed,
}

/// The fetch of one item's properties: the item as far as it is known, and
/// the stage that comes next.
pub struct ItemFetch {
    item: TrayItem,
    stage: FetchStage,
}

/// What a property fetch holds.
pub struct ItemFetchView {
    pub item: TrayItemView,
    pub stage: FetchStage,
}

impl View for ItemFetch {
    type V = ItemFetchView;

    closed spec fn view(&self) -> ItemFetchView {
        ItemFetchView { item: self.item@, stage: self.stage }
    }
}

/// The fetch for a service identifier before anything was asked: name and
/// path are those of the identifier, icon and title are empty.
pub open spec fn fetch_begun(service: Seq<char>) -> ItemFetchView {
    ItemFetchView {
        item: TrayItemView {
            service: service_name(service),
            path: object_path(service),
            icon_name: Seq::<char>::empty(),
            title: Seq::<char>::empty(),
        },
        stage: FetchStage::Proxy,
    }
}

/// The text that a reply carries, if it carries one.
pub open spec fn reply_text(reply: FetchReply) -> Option<Seq<char>> {
    match reply {
        FetchReply::Value(text) => Some(text@),
        _ => None,
    }
}

/// The fetch after the answer to its current request. A failure never
/// aborts the fetch: it leaves the field empty. Without a proxy nothing is
/// read. `Id` is read only when the title is still empty after `Title`.
pub open spec fn fetch_advanced(fetch: ItemFetchView, reply: FetchReply) -> ItemFetchView {
    match fetch.stage {
        FetchStage::Proxy => ItemFetchView {
            stage: if reply is Failed {
                FetchStage::Done
            } else {
                FetchStage::IconName
            },
            ..fetch
        },
        FetchStage::IconName => ItemFetchView {
            item: match reply_text(reply) {
                Some(text) => TrayItemView { icon_name: text, ..fetch.item },
                None => fetch.item,
            },
            stage: FetchStage::Title,
        },
        FetchStage::Title => {
            let item = match reply_text(reply) {
                Some(text) => TrayItemView { title: text, ..fetch.item },
                None => fetch.item,
            };
            ItemFetchView {
                item,
                stage: if item.title.len() == 0 {
                    FetchStage::Id
                } else {
                    FetchStage::Done
                },
            }
        },
        FetchStage::Id => ItemFetchView {
            item: match reply_text(reply) {
                Some(text) => TrayItemView { title: text, ..fetch.item },
                None => fetch.item,
            },
            stage: FetchStage::Done,
        },
        FetchStage::Done => fetch,
    }
}

/// The name of the property that a stage reads.
pub open spec fn stage_property(stage: FetchStage) -> Option<Seq<char>> {
    match stage {
        FetchStage::IconName => Some("IconName"@),
        FetchStage::Title => Some("Title"@),
        FetchStage::Id => Some("Id"@),
        _ => None,
    }
}

impl ItemFetch {
    /// Begins the fetch for a service identifier.
    pub fn begin(service: &str) -> (fetch: ItemFetch)
        ensures
            fetch@ == fetch_begun(service@),
    {
        let (name, path) = split_service(service);
        ItemFetch {
            item: TrayItem { service: name, path, icon_name: String::new(), title: String::new() },
            stage: FetchStage::Proxy,
        }
    }

    /// The stage that comes next.
    pub fn stage(&self) -> (stage: FetchStage)
        ensures
            stage == self@.stage,
    {
        self.stage
    }

    /// The bus name of the item's object.
    pub fn service(&self) -> (name: &String)
        ensures
            name@ == self@.item.service,
    {
        &self.item.service
    }

    /// The path of the item's object.
    pub fn path(&self) -> (path: &String)
        ensures
            path@ == self@.item.path,
    {
        &self.item.path
    }

    /// The name of the property to read at the current stage, if the stage
    /// reads one.
    pub fn property(&self) -> (name: Option<&'static str>)
        ensures
            match name {
                Some(n) => stage_property(self@.stage) == Some(n@),
                None => stage_property(self@.stage) is None,
            },
    {
        match self.stage {
            FetchStage::IconName => Some("IconName"),
            FetchStage::Title => Some("Title"),
            FetchStage::Id => Some("Id"),
            _ => None,
        }
    }

    /// Takes the answer to the current request and moves to the next stage.
    pub fn advance(self, reply: FetchReply) -> (next: ItemFetch)
        ensures
            next@ == fetch_advanced(self@, reply),
    {
        let ItemFetch { item, stage } = self;
        let TrayItem { service, path, icon_name, title } = item;
        match stage {
            FetchStage::Proxy => {
                let failed = match reply {
                    FetchReply::Failed => true,
                    _ => false,
                };
                ItemFetch {
                    item: TrayItem { service, path, icon_name, title },
                    stage: if failed {
                        FetchStage::Done
                    } else {
                        FetchStage::IconName
                    },
                }
            },
            FetchStage::IconName => {
                let icon_name = match reply {
                    FetchReply::Value(text) => text,
                    _ => icon_name,
                };
                ItemFetch {
                    item: TrayItem { service, path, icon_name, title },
                    stage: FetchStage::Title,
                }
            },
            FetchStage::Title => {
                let title = match reply {
                    FetchReply::Value(text) => text,
                    _ => title,
                };
                let empty = title.as_str().is_empty();
                ItemFetch {
                    item: TrayItem { service, path, icon_name, title },
                    stage: if empty {
                        FetchStage::Id
                    } else {
                        FetchStage::Done
                    },
                }
            },
            FetchStage::Id => {
                let title = match reply {
                    FetchReply::Value(text) => text,
                    _ => title,
                };
                ItemFetch { item: TrayItem { service, path, icon_name, title }, stage: FetchStage::Done }
            },
            FetchStage::Done => ItemFetch {
                item: TrayItem { service, path, icon_name, title },
                stage: FetchStage::Done,
            },
        }
    }

    /// The item as far as it is known. After stage `Done` it is complete.
    pub fn into_item(self) -> (item: TrayItem)
        ensures
            item@ == self@.item,
    {
        self.item
    }
}

/// The text of an answer, or the empty text where there was none.
pub open spec fn text_or_empty(text: Option<Seq<char>>) -> Seq<char> {
    match text {
        Some(t) => t,
        None => Seq::<char>::empty(),
    }
}

/// The item that a service identifier and the bus's answers give: without a
/// proxy, icon and title stay empty; a property that cannot be read stays
/// empty; an empty title is replaced by `Id`.
pub open spec fn fetched_item(
    service: Seq<char>,
    opened: bool,
    icon_name: Option<Seq<char>>,
    title: Option<Seq<char>>,
    id: Option<Seq<char>>,
) -> TrayItemView {
    TrayItemView {
        service: service_name(service),
        path: object_path(service),
        icon_name: if opened {
            text_or_empty(icon_name)
        } else {
            Seq::<char>::empty()
        },
        title: if !opened {
            Seq::<char>::empty()
        } else if text_or_empty(title).len() == 0 {
            text_or_empty(id)
        } else {
            text_or_empty(title)
        },
    }
}

/// The reply that stands for a property read: its value, or a failure.
pub open spec fn property_reply(reply: FetchReply, text: Option<Seq<char>>) -> bool {
    reply_text(reply) == text && !(reply is Opened)
}

/// A fetch that is carried through its stages ends, after at most four
/// answers, with the item that `fetched_item` describes, and asks for `Id`
/// only when the title came back empty or not at all.
pub proof fn law_fetch_gives_fetched_item(
    service: Seq<char>,
    icon: FetchReply,
    title: FetchReply,
    id: FetchReply,
)
    requires
        !(icon is Opened),
        !(title is Opened),
        !(id is Opened),
    ensures
        fetch_advanced(fetch_begun(service), FetchReply::Failed) == (ItemFetchView {
            item: fetched_item(service, false, None, None, None),
            stage: FetchStage::Done,
        }),
        ({
            let after_title = fetch_advanced(
                fetch_advanced(fetch_advanced(fetch_begun(service), FetchReply::Opened), icon),
                title,
            );
            if text_or_empty(reply_text(title)).len() == 0 {
                &&& after_title.stage == FetchStage::Id
                &&& fetch_advanced(after_title, id) == (ItemFetchView {
                    item: fetched_item(
                        service,
                        true,
                        reply_text(icon),
                        reply_text(title),
                        reply_text(id),
                    ),
                    stage: FetchStage::Done,
                })
            } else {
                after_title == (ItemFetchView {
                    item: fetched_item(
                        service,
                        true,
                        reply_text(icon),
                        reply_text(title),
                        reply_text(id),
                    ),
                    stage: FetchStage::Done,
                })
            }
        }),
{
    let t = text_or_empty(reply_text(title));
    if t.len() == 0 {
        assert(t =~= Seq::<char>::empty());
    }
}


// ---------------------------------------------------------------------------
// The item registry
// ---------------------------------------------------------------------------

/// Some item of the list has the identity key `key`.
pub open spec fn holds_key(items: Seq<TrayItemView>, key: Seq<char>) -> bool {
    exists|i: int| 0 <= i < items.len() && item_key(#[trigger] items[i]) == key
}

/// Exactly one item of the list has the identity key `key`.
pub open spec fn holds_key_once(items: Seq<TrayItemView>, key: Seq<char>) -> bool {
    exists|i: int|
        0 <= i < items.len() && item_key(#[trigger] items[i]) == key && forall|j: int|
            0 <= j < items.len() && item_key(#[trigger] items[j]) == key ==> j == i
}

/// No two items of the list have the same identity key.
pub open spec fn unique_keys(items: Seq<TrayItemView>) -> bool {
    forall|i: int, j: int|
        0 <= i < j < items.len() ==> item_key(#[trigger] items[i]) != item_key(
            #[trigger] items[j],
        )
}

/// The list after a registration: an item with a new key is appended; one
/// whose key is present changes nothing, so the first registration wins.
pub open spec fn upserted(items: Seq<TrayItemView>, item: TrayItemView) -> Seq<TrayItemView> {
    if holds_key(items, item_key(item)) {
        items
    } else {
        items.push(item)
    }
}

/// The test that keeps the items whose key is not `key`.
pub open spec fn key_differs(key: Seq<char>) -> spec_fn(TrayItemView) -> bool {
    |item: TrayItemView| item_key(item) != key
}

/// The list without the items whose key is `key`.
pub open spec fn without_key(items: Seq<TrayItemView>, key: Seq<char>) -> Seq<TrayItemView> {
    items.filter(key_differs(key))
}

/// The list after an event of the tray service.
pub open spec fn applied(items: Seq<TrayItemView>, event: TrayEventView) -> Seq<TrayItemView> {
    match event {
        TrayEventView::Added(item) => upserted(items, item),
        TrayEventView::Removed(key) => without_key(items, key),
    }
}

/// The tray items that the consumer shows. It never holds two items with the
/// same identity key.
pub struct TrayRegistry {
    items: Vec<TrayItem>,
}

impl View for TrayRegistry {
    type V = Seq<TrayItemView>;

    closed spec fn view(&self) -> Seq<TrayItemView> {
        item_views(self.items@)
    }
}

impl TrayRegistry {
    #[verifier::type_invariant]
    spec fn well_formed(&self) -> bool {
        unique_keys(item_views(self.items@))
    }

    /// An empty registry.
    pub fn new() -> (registry: TrayRegistry)
        ensures
            registry@ == Seq::<TrayItemView>::empty(),
    {
        let registry = TrayRegistry { items: Vec::new() };
        assert(registry@ =~= Seq::<TrayItemView>::empty());
        registry
    }

    /// The number of items.
    pub fn len(&self) -> (n: usize)
        ensures
            n == self@.len(),
            unique_keys(self@),
    {
        proof {
            use_type_invariant(self);
        }
        self.items.len()
    }

    /// Whether an item with the identity key `key` is held.
    pub fn contains_key(&self, key: &str) -> (held: bool)
        ensures
            held == holds_key(self@, key@),
    {
        let wanted = chars_of(key);
        let mut i: usize = 0;
        while i < self.items.len()
            invariant
                i <= self.items.len(),
                wanted@ == key@,
                forall|j: int| 0 <= j < i ==> item_key(#[trigger] self@[j]) != key@,
            decreases self.items.len() - i,
        {
            let k = self.items[i].key_chars();
            if same_chars(&k, &wanted) {
                assert(item_key(self@[i as int]) == key@);
                return true;
            }
            i += 1;
        }
        false
    }

    /// Registers an item: it is appended if its identity key is new, and
    /// dropped if the key is already held.
    pub fn upsert(&mut self, item: TrayItem)
        ensures
            final(self)@ == upserted(old(self)@, item@),
            unique_keys(final(self)@),
    {
        proof {
            use_type_invariant(&*self);
        }
        let key = item.key();
        if !self.contains_key(key.as_str()) {
            let mut items = self.snapshot();
            let ghost before = items@;
            items.push(item);
            assert(item_views(items@) =~= item_views(before).push(item@));
            assert forall|a: int, b: int| 0 <= a < b < items.len() implies item_key(
                #[trigger] item_views(items@)[a],
            ) != item_key(#[trigger] item_views(items@)[b]) by {
                assert(item_views(items@)[a] == self@[a]);
                if b < before.len() {
                    assert(item_views(items@)[b] == self@[b]);
                }
            }
            self.items = items;
        }
    }

    /// Removes the item with the identity key `key`, if there is one.
    pub fn remove(&mut self, key: &str)
        ensures
            final(self)@ == without_key(old(self)@, key@),
            unique_keys(final(self)@),
    {
        proof {
            use_type_invariant(&*self);
        }
        let wanted = chars_of(key);
        let mut kept: Vec<TrayItem> = Vec::new();
        let ghost all = item_views(self.items@);
        let mut i: usize = 0;
        assert(all.take(0).filter(key_differs(key@)) =~= Seq::<TrayItemView>::empty()) by {
            reveal(Seq::filter);
        }
        while i < self.items.len()
            invariant
                i <= self.items.len(),
                wanted@ == key@,
                all == item_views(self.items@),
                unique_keys(all),
                item_views(kept@) == all.take(i as int).filter(key_differs(key@)),
                unique_keys(item_views(kept@)),
                forall|j: int|
                    0 <= j < kept.len() ==> holds_key(
                        all.take(i as int),
                        item_key(#[trigger] item_views(kept@)[j]),
                    ),
            decreases self.items.len() - i,
        {
            let k = self.items[i].key_chars();
            proof {
                lemma_filter_next(all, key_differs(key@), i as int);
                assert(all.take(i + 1) == all.take(i as int).push(all[i as int]));
            }
            let ghost before = kept@;
            if !same_chars(&k, &wanted) {
                let copy = self.items[i].duplicate();
                kept.push(copy);
                assert(item_views(kept@) =~= item_views(before).push(all[i as int]));
                assert forall|a: int, b: int| 0 <= a < b < kept.len() implies item_key(
                    #[trigger] item_views(kept@)[a],
                ) != item_key(#[trigger] item_views(kept@)[b]) by {
                    if b == kept.len() - 1 {
                        assert(holds_key(all.take(i as int), item_key(item_views(before)[a])));
                        let m = choose|m: int|
                            0 <= m < all.take(i as int).len() && item_key(
                                #[trigger] all.take(i as int)[m],
                            ) == item_key(item_views(before)[a]);
                        assert(all.take(i as int)[m] == all[m]);
                    }
                }
            }
            assert forall|j: int| 0 <= j < kept.len() implies holds_key(
                all.take(i + 1),
                item_key(#[trigger] item_views(kept@)[j]),
            ) by {
                if j < before.len() {
                    assert(item_views(kept@)[j] == item_views(before)[j]);
                    assert(holds_key(all.take(i as int), item_key(item_views(before)[j])));
                    let m = choose|m: int|
                        0 <= m < all.take(i as int).len() && item_key(
                            #[trigger] all.take(i as int)[m],
                        ) == item_key(item_views(before)[j]);
                    assert(all.take(i + 1)[m] == all.take(i as int)[m]);
                } else {
                    assert(all.take(i + 1)[i as int] == all[i as int]);
                }
            }
            i += 1;
        }
        assert(all.take(self.items.len() as int) == all);
        self.items = kept;
    }

    /// Carries out one event of the tray service.
    pub fn apply(&mut self, event: TrayEvent)
        ensures
            final(self)@ == applied(old(self)@, event@),
            unique_keys(final(self)@),
    {
        match event {
            TrayEvent::Added(item) => self.upsert(item),
            TrayEvent::Removed(key) => self.remove(key.as_str()),
        }
    }

    /// A copy of the items, in the order of their registration.
    pub fn snapshot(&self) -> (items: Vec<TrayItem>)
        ensures
            item_views(items@) == self@,
            unique_keys(item_views(items@)),
    {
        proof {
            use_type_invariant(self);
        }
        let mut out: Vec<TrayItem> = Vec::new();
        let mut i: usize = 0;
        while i < self.items.len()
            invariant
                i <= self.items.len(),
                item_views(out@) == item_views(self.items@).take(i as int),
            decreases self.items.len() - i,
        {
            let ghost before = out@;
            out.push(self.items[i].duplicate());
            assert(item_views(out@) =~= item_views(before).push(self.items@[i as int]@));
            assert(item_views(self.items@).take(i + 1) =~= item_views(self.items@).take(
                i as int,
            ).push(self.items@[i as int]@));
            i += 1;
        }
        assert(item_views(self.items@).take(self.items.len() as int) == item_views(
            self.items@,
        ));
        out
    }
}

/// Registering twice under one identity key leaves what the first
/// registration left, and the key is then held exactly once.
pub proof fn law_registration_is_idempotent(
    items: Seq<TrayItemView>,
    first: TrayItemView,
    second: TrayItemView,
)
    requires
        unique_keys(items),
        item_key(first) == item_key(second),
    ensures
        upserted(upserted(items, first), second) == upserted(items, first),
        unique_keys(upserted(items, first)),
        holds_key_once(upserted(items, first), item_key(first)),
        items.len() == 0 ==> upserted(upserted(items, first), second).len() == 1,
{
    let once = upserted(items, first);
    if holds_key(items, item_key(first)) {
        let i = choose|i: int| 0 <= i < items.len() && item_key(#[trigger] items[i]) == item_key(first);
        assert(item_key(once[i]) == item_key(first));
        assert(holds_key_once(once, item_key(first)));
    } else {
        let i = items.len() as int;
        assert(item_key(once[i]) == item_key(first));
        assert forall|j: int| 0 <= j < once.len() && item_key(#[trigger] once[j]) == item_key(
            first,
        ) implies j == i by {
            if j < i {
                assert(item_key(items[j]) == item_key(first));
            }
        }
        assert(holds_key_once(once, item_key(first)));
        assert forall|a: int, b: int| 0 <= a < b < once.len() implies item_key(
            #[trigger] once[a],
        ) != item_key(#[trigger] once[b]) by {
            if b == i {
                assert(once[a] == items[a]);
            } else {
                assert(once[a] == items[a] && once[b] == items[b]);
            }
        }
    }
    assert(holds_key(once, item_key(second)));
}


// ---------------------------------------------------------------------------
// The watcher service of host mode
// ---------------------------------------------------------------------------

/// The role of this process towards the watcher's bus name. It is decided
/// once, at startup, and never changes.
#[derive(Clone, Copy, Debug, PartialEq, Eq, Structural)]
pub enum WatcherRole {
    /// This process owns the name and keeps the list of registered items.
    Host,
    /// Another process owns the name; this one observes it.
    Client,
}

/// The role after the race for the bus name: host where the watcher object
/// could be served and the name was acquired, client otherwise.
pub fn arbitrate(object_served: bool, name_acquired: bool) -> (role: WatcherRole)
    ensures
        role == if object_served && name_acquired {
            WatcherRole::Host
        } else {
            WatcherRole::Client
        },
{
    if object_served && name_acquired {
        WatcherRole::Host
    } else {
        WatcherRole::Client
    }
}

/// The test that keeps the service identifiers whose bus name is `name`.
pub open spec fn owned_by(name: Seq<char>) -> spec_fn(Seq<char>) -> bool {
    |service: Seq<char>| service_name(service) == name
}

/// The test that keeps the service identifiers whose bus name is not `name`.
pub open spec fn not_owned_by(name: Seq<char>) -> spec_fn(Seq<char>) -> bool {
    |service: Seq<char>| service_name(service) != name
}

/// The notification that the item of a service identifier is gone.
pub open spec fn removal_of() -> spec_fn(Seq<char>) -> TrayEventView {
    |service: Seq<char>| TrayEventView::Removed(service_key(service))
}

/// The notifications that follow when the bus name `name` changes its owner
/// to `new_owner`: none while the name has an owner; otherwise one removal
/// for each registered identifier of that name, in the order of registration.
pub open spec fn removals(
    registered: Seq<Seq<char>>,
    name: Seq<char>,
    new_owner: Seq<char>,
) -> Seq<TrayEventView> {
    if new_owner.len() > 0 {
        Seq::<TrayEventView>::empty()
    } else {
        registered.filter(owned_by(name)).map_values(removal_of())
    }
}

/// The registered identifiers after the bus name `name` changed its owner to
/// `new_owner`: those of a name that lost its owner leave the list.
pub open spec fn survivors(
    registered: Seq<Seq<char>>,
    name: Seq<char>,
    new_owner: Seq<char>,
) -> Seq<Seq<char>> {
    if new_owner.len() > 0 {
        registered
    } else {
        registered.filter(not_owned_by(name))
    }
}

/// What a registration asks of the caller.
#[derive(Debug, Clone)]
pub enum Registration {
    /// The identifier was registered before: nothing is to be done.
    AlreadyPresent,
    /// The identifier is new: fetch its properties and announce the item.
    Fetch(String),
}

/// The watcher of host mode: the service identifiers registered with it, in
/// the order of registration, each once.
pub struct WatcherService {
    items: Vec<String>,
}

impl View for WatcherService {
    type V = Seq<Seq<char>>;

    closed spec fn view(&self) -> Seq<Seq<char>> {
        texts(self.items@)
    }
}

impl WatcherService {
    #[verifier::type_invariant]
    spec fn well_formed(&self) -> bool {
        texts(self.items@).no_duplicates()
    }

    /// A watcher with nothing registered.
    pub fn new() -> (watcher: WatcherService)
        ensures
            watcher@ == Seq::<Seq<char>>::empty(),
    {
        let watcher = WatcherService { items: Vec::new() };
        assert(watcher@ =~= Seq::<Seq<char>>::empty());
        watcher
    }

    /// Whether the identifier `service` is registered.
    pub fn is_registered(&self, service: &str) -> (held: bool)
        ensures
            held == self@.contains(service@),
    {
        let wanted = chars_of(service);
        let mut i: usize = 0;
        while i < self.items.len()
            invariant
                i <= self.items.len(),
                wanted@ == service@,
                forall|j: int| 0 <= j < i ==> self@[j] != service@,
            decreases self.items.len() - i,
        {
            let k = chars_of(self.items[i].as_str());
            if same_chars(&k, &wanted) {
                assert(self@[i as int] == service@);
                return true;
            }
            i += 1;
        }
        false
    }

    /// The bus method `RegisterStatusNotifierItem`, called by `sender`. The
    /// identifier is qualified; if it is registered already nothing changes,
    /// otherwise it is recorded and handed back for its properties to be
    /// fetched and the item to be announced.
    pub fn register_status_notifier_item(&mut self, service: &str, sender: Option<&str>) -> (asked:
        Registration)
        ensures
            final(self)@.no_duplicates(),
            ({
                let full = full_service(service@, opt_text(sender));
                if old(self)@.contains(full) {
                    final(self)@ == old(self)@ && asked is AlreadyPresent
                } else {
                    final(self)@ == old(self)@.push(full) && (asked matches Registration::Fetch(s)
                        && s@ == full)
                }
            }),
    {
        proof {
            use_type_invariant(&*self);
        }
        let full = qualify_service(service, sender);
        if self.is_registered(full.as_str()) {
            Registration::AlreadyPresent
        } else {
            let mut items = self.registered_status_notifier_items();
            let ghost before = items@;
            items.push(full.clone());
            assert(texts(items@) =~= texts(before).push(full@));
            assert(texts(items@).no_duplicates()) by {
                assert forall|a: int, b: int|
                    0 <= a < texts(items@).len() && 0 <= b < texts(items@).len() && a
                        != b implies texts(items@)[a] != texts(items@)[b] by {
                    if a < before.len() {
                        assert(texts(items@)[a] == self@[a]);
                    }
                    if b < before.len() {
                        assert(texts(items@)[b] == self@[b]);
                    }
                }
            }
            self.items = items;
            Registration::Fetch(full)
        }
    }

    /// The bus method `RegisterStatusNotifierHost`: accepted and ignored.
    pub fn register_status_notifier_host(&self, service: &str) {
    }

    /// The bus property `RegisteredStatusNotifierItems`: the registered
    /// identifiers, in the order of registration.
    pub fn registered_status_notifier_items(&self) -> (items: Vec<String>)
        ensures
            texts(items@) == self@,
            self@.no_duplicates(),
    {
        proof {
            use_type_invariant(self);
        }
        let mut out: Vec<String> = Vec::new();
        let mut i: usize = 0;
        while i < self.items.len()
            invariant
                i <= self.items.len(),
                texts(out@) == texts(self.items@).take(i as int),
            decreases self.items.len() - i,
        {
            let ghost before = out@;
            out.push(self.items[i].clone());
            assert(texts(out@) =~= texts(before).push(self.items@[i as int]@));
            assert(texts(self.items@).take(i + 1) =~= texts(self.items@).take(i as int).push(
                self.items@[i as int]@,
            ));
            i += 1;
        }
        assert(texts(self.items@).take(self.items.len() as int) == texts(self.items@));
        out
    }

    /// The bus property `IsStatusNotifierHostRegistered`.
    pub fn is_status_notifier_host_registered(&self) -> (registered: bool)
        ensures
            registered,
    {
        true
    }

    /// The bus property `ProtocolVersion`.
    pub fn protocol_version(&self) -> (version: i32)
        ensures
            version == 0,
    {
        0
    }

    /// The bus broadcast that `name` changed its owner to `new_owner`. When
    /// the name lost its owner, every registered identifier of that name
    /// leaves the list and one removal per identifier is returned, keyed as
    /// the item was when it was added.
    pub fn name_owner_changed(&mut self, name: &str, new_owner: &str) -> (events: Vec<TrayEvent>)
        ensures
            final(self)@ == survivors(old(self)@, name@, new_owner@),
            event_views(events@) == removals(old(self)@, name@, new_owner@),
            final(self)@.no_duplicates(),
    {
        proof {
            use_type_invariant(&*self);
        }
        let mut events: Vec<TrayEvent> = Vec::new();
        if !new_owner.is_empty() {
            assert(event_views(events@) =~= Seq::<TrayEventView>::empty());
            return events;
        }
        let vanished = chars_of(name);
        let ghost all = texts(self.items@);
        let mut kept: Vec<String> = Vec::new();
        let mut i: usize = 0;
        proof {
            reveal(Seq::filter);
            assert(all.take(0).filter(not_owned_by(name@)) =~= Seq::<Seq<char>>::empty());
            assert(all.take(0).filter(owned_by(name@)).map_values(removal_of()) =~= Seq::<
                TrayEventView,
            >::empty());
            assert(event_views(events@) =~= Seq::<TrayEventView>::empty());
            assert(texts(kept@) =~= Seq::<Seq<char>>::empty());
        }
        while i < self.items.len()
            invariant
                i <= self.items.len(),
                vanished@ == name@,
                all == texts(self.items@),
                all.no_duplicates(),
                texts(kept@) == all.take(i as int).filter(not_owned_by(name@)),
                event_views(events@) == all.take(i as int).filter(owned_by(name@)).map_values(
                    removal_of(),
                ),
                texts(kept@).no_duplicates(),
                forall|j: int|
                    0 <= j < kept.len() ==> all.take(i as int).contains(#[trigger] texts(kept@)[j]),
            decreases self.items.len() - i,
        {
            let (owner, path) = split_service(self.items[i].as_str());
            let owner_chars = chars_of(owner.as_str());
            proof {
                lemma_filter_next(all, not_owned_by(name@), i as int);
                lemma_filter_next(all, owned_by(name@), i as int);
            }
            let ghost kept_before = kept@;
            let ghost events_before = events@;
            let ghost gone_before = all.take(i as int).filter(owned_by(name@));
            if same_chars(&owner_chars, &vanished) {
                let mut key = owner_chars;
                append_chars(&mut key, &chars_of(path.as_str()));
                events.push(TrayEvent::Removed(string_of(&key)));
                assert(event_views(events@) =~= event_views(events_before).push(
                    TrayEventView::Removed(service_key(all[i as int])),
                ));
                assert(gone_before.push(all[i as int]).map_values(removal_of())
                    =~= gone_before.map_values(removal_of()).push(
                    TrayEventView::Removed(service_key(all[i as int])),
                ));
            } else {
                kept.push(self.items[i].clone());
                assert(texts(kept@) =~= texts(kept_before).push(all[i as int]));
                assert forall|a: int, b: int|
                    0 <= a < texts(kept@).len() && 0 <= b < texts(kept@).len() && a
                        != b implies texts(kept@)[a] != texts(kept@)[b] by {
                    let last = kept_before.len() as int;
                    if a == last || b == last {
                        let other = if a == last {
                            b
                        } else {
                            a
                        };
                        assert(all.take(i as int).contains(texts(kept_before)[other]));
                        let m = choose|m: int|
                            0 <= m < all.take(i as int).len() && all.take(i as int)[m] == texts(
                                kept_before,
                            )[other];
                        assert(all[m] == texts(kept_before)[other]);
                    } else {
                        assert(texts(kept@)[a] == texts(kept_before)[a]);
                        assert(texts(kept@)[b] == texts(kept_before)[b]);
                    }
                }
            }
            assert forall|j: int| 0 <= j < kept.len() implies all.take(i + 1).contains(
                #[trigger] texts(kept@)[j],
            ) by {
                if j < kept_before.len() {
                    assert(texts(kept@)[j] == texts(kept_before)[j]);
                    assert(all.take(i as int).contains(texts(kept_before)[j]));
                    let m = choose|m: int|
                        0 <= m < all.take(i as int).len() && all.take(i as int)[m] == texts(
                            kept_before,
                        )[j];
                    assert(all.take(i + 1)[m] == texts(kept@)[j]);
                } else {
                    assert(all.take(i + 1)[i as int] == texts(kept@)[j]);
                }
            }
            i += 1;
        }
        assert(all.take(self.items.len() as int) == all);
        self.items = kept;
        events
    }
}

/// Begins, for the seeding of client mode, one property fetch for each
/// identifier that the watcher in charge lists, in the order of the list.
pub fn client_seed(registered: &Vec<String>) -> (fetches: Vec<ItemFetch>)
    ensures
        fetches.len() == registered.len(),
        forall|i: int|
            0 <= i < registered.len() ==> (#[trigger] fetches[i])@ == fetch_begun(registered[i]@),
{
    let mut out: Vec<ItemFetch> = Vec::new();
    let mut i: usize = 0;
    while i < registered.len()
        invariant
            i <= registered.len(),
            out.len() == i,
            forall|j: int| 0 <= j < i ==> (#[trigger] out[j])@ == fetch_begun(registered[j]@),
        decreases registered.len() - i,
    {
        out.push(ItemFetch::begin(registered[i].as_str()));
        i += 1;
    }
    out
}

/// After a bus name lost its owner, no identifier of that name is
/// registered, the others are all still registered, and there is one
/// removal for each identifier that left.
pub proof fn law_vanished_name_leaves(registered: Seq<Seq<char>>, name: Seq<char>)
    ensures
        forall|i: int|
            0 <= i < survivors(registered, name, Seq::empty()).len() ==> service_name(
                #[trigger] survivors(registered, name, Seq::empty())[i],
            ) != name,
        forall|i: int|
            0 <= i < registered.len() && service_name(#[trigger] registered[i]) != name
                ==> survivors(registered, name, Seq::empty()).contains(registered[i]),
        removals(registered, name, Seq::empty()).len() + survivors(
            registered,
            name,
            Seq::empty(),
        ).len() == registered.len(),
{
    let none = Seq::<char>::empty();
    let kept = registered.filter(not_owned_by(name));
    let gone = registered.filter(owned_by(name));
    assert forall|i: int| 0 <= i < kept.len() implies service_name(#[trigger] kept[i])
        != name by {
        registered.lemma_filter_pred(not_owned_by(name), i);
    }
    assert forall|i: int|
        0 <= i < registered.len() && service_name(#[trigger] registered[i])
            != name implies kept.contains(registered[i]) by {
        registered.lemma_filter_contains(not_owned_by(name), i);
    }
    lemma_filter_split(registered, name);
}

/// Every registered identifier either stays or leaves.
proof fn lemma_filter_split(registered: Seq<Seq<char>>, name: Seq<char>)
    ensures
        registered.filter(owned_by(name)).len() + registered.filter(not_owned_by(name)).len()
            == registered.len(),
    decreases registered.len(),
{
    reveal(Seq::filter);
    if registered.len() > 0 {
        lemma_filter_split(registered.drop_last(), name);
    }
}

} // verus!
