use crowbar::tray::{
    arbitrate, client_seed, qualify_service, split_service, FetchReply, FetchStage, ItemFetch,
    Registration, TrayEvent, TrayItem, TrayRegistry, WatcherRole, WatcherService,
    ITEM_INTERFACE, WATCHER_BUS_NAME, WATCHER_OBJECT_PATH,
};

fn item(service: &str, path: &str, icon: &str, title: &str) -> TrayItem {
    TrayItem {
        service: service.to_string(),
        path: path.to_string(),
        icon_name: icon.to_string(),
        title: title.to_string(),
    }
}

fn value(text: &str) -> FetchReply {
    FetchReply::Value(text.to_string())
}

fn fetch_all(service: &str, icon: FetchReply, title: FetchReply, id: FetchReply) -> TrayItem {
    let mut fetch = ItemFetch::begin(service);
    assert_eq!(fetch.stage(), FetchStage::Proxy);
    fetch = fetch.advance(FetchReply::Opened);
    assert_eq!(fetch.stage(), FetchStage::IconName);
    fetch = fetch.advance(icon);
    assert_eq!(fetch.stage(), FetchStage::Title);
    fetch = fetch.advance(title);
    if fetch.stage() == FetchStage::Id {
        fetch = fetch.advance(id);
    }
    assert_eq!(fetch.stage(), FetchStage::Done);
    fetch.into_item()
}

#[test]
fn bus_names_are_the_conventional_ones() {
    assert_eq!(WATCHER_BUS_NAME, "org.kde.StatusNotifierWatcher");
    assert_eq!(WATCHER_OBJECT_PATH, "/StatusNotifierWatcher");
    assert_eq!(ITEM_INTERFACE, "org.kde.StatusNotifierItem");
}

#[test]
fn item_key_is_service_then_path() {
    assert_eq!(item(":1.5", "/StatusNotifierItem", "", "").key(), ":1.5/StatusNotifierItem");
    assert_eq!(item("", "", "", "").key(), "");
    let copy = item("a", "/b", "c", "d").duplicate();
    assert_eq!((copy.service.as_str(), copy.path.as_str()), ("a", "/b"));
    assert_eq!((copy.icon_name.as_str(), copy.title.as_str()), ("c", "d"));
}

#[test]
fn service_identifiers_are_split_at_the_first_slash() {
    assert_eq!(
        split_service("foo.bar/StatusNotifierItem"),
        ("foo.bar".to_string(), "/StatusNotifierItem".to_string())
    );
    assert_eq!(split_service(":1.42/org/ayatana/x"), (":1.42".to_string(), "/org/ayatana/x".to_string()));
    assert_eq!(split_service("org.app"), ("org.app".to_string(), "/StatusNotifierItem".to_string()));
    assert_eq!(split_service("/only/path"), ("".to_string(), "/only/path".to_string()));
    assert_eq!(split_service(""), ("".to_string(), "/StatusNotifierItem".to_string()));
    assert_eq!(split_service("a/"), ("a".to_string(), "/".to_string()));
}

#[test]
fn bare_paths_are_qualified_with_the_sender() {
    assert_eq!(qualify_service("/org/x", Some(":1.7")), ":1.7/org/x");
    assert_eq!(qualify_service("/org/x", None), "/org/x");
    assert_eq!(qualify_service("org.app", Some(":1.7")), "org.app");
    assert_eq!(qualify_service("org.app/p", Some(":1.7")), "org.app/p");
    assert_eq!(qualify_service("", Some(":1.7")), "");
}

#[test]
fn registering_twice_leaves_one_entry() {
    let mut registry = TrayRegistry::new();
    registry.upsert(item("A", "/p", "first", "First"));
    registry.upsert(item("A", "/p", "second", "Second"));
    assert_eq!(registry.len(), 1);
    let items = registry.snapshot();
    assert_eq!(items.len(), 1);
    assert_eq!(items[0].icon_name, "first");
    assert_eq!(items[0].title, "First");
    assert!(registry.contains_key("A/p"));
}

#[test]
fn identity_is_the_joined_key() {
    let mut registry = TrayRegistry::new();
    registry.upsert(item("ab", "/c", "", ""));
    registry.upsert(item("a", "b/c", "", ""));
    assert_eq!(registry.len(), 1);
    registry.upsert(item("ab", "/d", "", ""));
    assert_eq!(registry.len(), 2);
    assert!(registry.contains_key("ab/c"));
    assert!(!registry.contains_key("ab"));
}

#[test]
fn removal_takes_the_key_out() {
    let mut registry = TrayRegistry::new();
    registry.upsert(item("A", "/1", "", ""));
    registry.upsert(item("B", "/1", "", ""));
    registry.upsert(item("C", "/1", "", ""));
    registry.remove("B/1");
    let keys: Vec<String> = registry.snapshot().iter().map(|i| i.key()).collect();
    assert_eq!(keys, vec!["A/1".to_string(), "C/1".to_string()]);
    registry.remove("B/1");
    registry.remove("nothing");
    assert_eq!(registry.len(), 2);
    registry.remove("A/1");
    registry.remove("C/1");
    assert_eq!(registry.len(), 0);
    assert!(registry.snapshot().is_empty());
}

#[test]
fn snapshot_is_a_copy() {
    let mut registry = TrayRegistry::new();
    registry.upsert(item("A", "/1", "i", "t"));
    let mut copy = registry.snapshot();
    copy[0].title = "changed".to_string();
    copy.clear();
    assert_eq!(registry.snapshot()[0].title, "t");
}

#[test]
fn events_are_applied() {
    let mut registry = TrayRegistry::new();
    registry.apply(TrayEvent::Added(item("A", "/1", "", "")));
    registry.apply(TrayEvent::Added(item("A", "/1", "x", "")));
    registry.apply(TrayEvent::Added(item("B", "/1", "", "")));
    assert_eq!(registry.len(), 2);
    registry.apply(TrayEvent::Removed("A/1".to_string()));
    assert_eq!(registry.len(), 1);
    assert_eq!(registry.snapshot()[0].service, "B");
}

#[test]
fn watcher_records_each_service_once() {
    let mut watcher = WatcherService::new();
    match watcher.register_status_notifier_item("/org/x", Some(":1.9")) {
        Registration::Fetch(full) => assert_eq!(full, ":1.9/org/x"),
        Registration::AlreadyPresent => panic!("expected a fetch"),
    }
    assert!(matches!(
        watcher.register_status_notifier_item("/org/x", Some(":1.9")),
        Registration::AlreadyPresent
    ));
    assert!(matches!(
        watcher.register_status_notifier_item(":1.9/org/x", Some(":1.1")),
        Registration::AlreadyPresent
    ));
    assert!(matches!(
        watcher.register_status_notifier_item("org.app", None),
        Registration::Fetch(_)
    ));
    assert_eq!(
        watcher.registered_status_notifier_items(),
        vec![":1.9/org/x".to_string(), "org.app".to_string()]
    );
    assert!(watcher.is_registered("org.app"));
    assert!(!watcher.is_registered("org"));
}

#[test]
fn watcher_properties() {
    let watcher = WatcherService::new();
    assert!(watcher.is_status_notifier_host_registered());
    assert_eq!(watcher.protocol_version(), 0);
    assert!(watcher.registered_status_notifier_items().is_empty());
    watcher.register_status_notifier_host("org.host");
    assert!(watcher.registered_status_notifier_items().is_empty());
}

#[test]
fn vanished_owner_removes_its_items() {
    let mut watcher = WatcherService::new();
    let mut registry = TrayRegistry::new();
    for service in ["A/one", "B", "A", "A/two", "AB/x"] {
        match watcher.register_status_notifier_item(service, None) {
            Registration::Fetch(full) => {
                let fetch = ItemFetch::begin(&full).advance(FetchReply::Failed);
                registry.apply(TrayEvent::Added(fetch.into_item()));
            }
            Registration::AlreadyPresent => panic!("new service"),
        }
    }
    assert_eq!(registry.len(), 5);
    let events = watcher.name_owner_changed("A", "");
    let keys: Vec<String> = events
        .iter()
        .map(|e| match e {
            TrayEvent::Removed(key) => key.clone(),
            TrayEvent::Added(_) => panic!("no additions"),
        })
        .collect();
    assert_eq!(
        keys,
        vec!["A/one".to_string(), "A/StatusNotifierItem".to_string(), "A/two".to_string()]
    );
    assert_eq!(
        watcher.registered_status_notifier_items(),
        vec!["B".to_string(), "AB/x".to_string()]
    );
    for event in events {
        registry.apply(event);
    }
    let left: Vec<String> = registry.snapshot().iter().map(|i| i.key()).collect();
    assert_eq!(left, vec!["B/StatusNotifierItem".to_string(), "AB/x".to_string()]);
}

#[test]
fn owner_changes_that_remove_nothing() {
    let mut watcher = WatcherService::new();
    watcher.register_status_notifier_item("A/one", None);
    assert!(watcher.name_owner_changed("A", ":1.5").is_empty());
    assert!(watcher.name_owner_changed("B", "").is_empty());
    assert!(watcher.name_owner_changed("A/one", "").is_empty());
    assert_eq!(watcher.registered_status_notifier_items(), vec!["A/one".to_string()]);
    assert_eq!(watcher.name_owner_changed("A", "").len(), 1);
    assert!(watcher.name_owner_changed("A", "").is_empty());
}

#[test]
fn role_is_host_only_with_object_and_name() {
    assert_eq!(arbitrate(true, true), WatcherRole::Host);
    assert_eq!(arbitrate(true, false), WatcherRole::Client);
    assert_eq!(arbitrate(false, true), WatcherRole::Client);
    assert_eq!(arbitrate(false, false), WatcherRole::Client);
}

#[test]
fn client_mode_seeds_the_registry() {
    assert_eq!(arbitrate(true, false), WatcherRole::Client);
    let listed = vec!["foo.bar/StatusNotifierItem".to_string()];
    let mut registry = TrayRegistry::new();
    for fetch in client_seed(&listed) {
        assert_eq!(fetch.service(), "foo.bar");
        assert_eq!(fetch.path(), "/StatusNotifierItem");
        let fetch = fetch.advance(FetchReply::Failed);
        assert_eq!(fetch.stage(), FetchStage::Done);
        registry.apply(TrayEvent::Added(fetch.into_item()));
    }
    let items = registry.snapshot();
    assert_eq!(items.len(), 1);
    assert_eq!(items[0].key(), "foo.bar/StatusNotifierItem");
}

#[test]
fn client_seed_keeps_the_order() {
    let listed = vec!["b/x".to_string(), "a".to_string(), "b/x".to_string()];
    let fetches = client_seed(&listed);
    assert_eq!(fetches.len(), 3);
    assert_eq!(fetches[0].service(), "b");
    assert_eq!(fetches[1].service(), "a");
    assert_eq!(fetches[1].path(), "/StatusNotifierItem");
    assert_eq!(fetches[2].path(), "/x");
    assert!(client_seed(&Vec::new()).is_empty());
}

#[test]
fn fetch_reads_icon_and_title() {
    let got = fetch_all("org.app/item", value("app-icon"), value("App"), value("never asked"));
    assert_eq!(got.service, "org.app");
    assert_eq!(got.path, "/item");
    assert_eq!(got.icon_name, "app-icon");
    assert_eq!(got.title, "App");
}

#[test]
fn fetch_falls_back_to_the_id() {
    let got = fetch_all("s", value("i"), value(""), value("the-id"));
    assert_eq!(got.title, "the-id");
    let got = fetch_all("s", value("i"), FetchReply::Failed, value("the-id"));
    assert_eq!(got.title, "the-id");
    let got = fetch_all("s", FetchReply::Failed, FetchReply::Failed, FetchReply::Failed);
    assert_eq!(got.icon_name, "");
    assert_eq!(got.title, "");
}

#[test]
fn fetch_asks_for_the_right_properties() {
    let fetch = ItemFetch::begin("s");
    assert_eq!(fetch.property(), None);
    let fetch = fetch.advance(FetchReply::Opened);
    assert_eq!(fetch.property(), Some("IconName"));
    let fetch = fetch.advance(FetchReply::Failed);
    assert_eq!(fetch.property(), Some("Title"));
    let fetch = fetch.advance(value("t"));
    assert_eq!(fetch.stage(), FetchStage::Done);
    assert_eq!(fetch.property(), None);
    let fetch = fetch.advance(value("late"));
    assert_eq!(fetch.stage(), FetchStage::Done);
    assert_eq!(fetch.into_item().title, "t");
    let fetch = ItemFetch::begin("s").advance(FetchReply::Opened).advance(value("i"));
    let fetch = fetch.advance(value(""));
    assert_eq!(fetch.property(), Some("Id"));
}

#[test]
fn fetch_without_proxy_reads_nothing() {
    let fetch = ItemFetch::begin("org.app").advance(FetchReply::Failed);
    assert_eq!(fetch.stage(), FetchStage::Done);
    let got = fetch.into_item();
    assert_eq!(got.service, "org.app");
    assert_eq!(got.path, "/StatusNotifierItem");
    assert_eq!(got.icon_name, "");
    assert_eq!(got.title, "");
}
