//! The application finder: reading desktop entries, searching them, and
//! turning their `Exec` lines into commands.

use vstd::prelude::*;
use crate::order::{arranged, is_sorted_by, key_rows, push_text_key, stable_order, text_key};
use crate::system::{Command, CommandView, invoke};
use crate::text::{
    chars_of, contains, contains_chars, is_text, join_chars, join_spaced, lines, lines_of,
    lowercase, lowercase_chars, remove_all, remove_all_chars, rows, same_chars, split,
    split_chars, split_once, split_once_chars, starts_with, starts_with_chars, string_of, texts,
    trim, trim_chars, words, words_of,
};

verus! {

/// One application, as its desktop file describes it.
#[derive(Debug, Clone)]
pub struct DesktopEntry {
    pub name: String,
    pub exec_line: String,
    pub icon: Option<String>,
    pub comment: Option<String>,
    pub categories: Vec<String>,
    pub no_display: bool,
}

/// What a desktop entry holds.
pub struct DesktopEntryView {
    pub name: Seq<char>,
    pub exec_line: Seq<char>,
    pub icon: Option<Seq<char>>,
    pub comment: Option<Seq<char>>,
    pub categories: Seq<Seq<char>>,
    pub no_display: bool,
}

/// The text of an optional string.
pub open spec fn opt_view(s: Option<String>) -> Option<Seq<char>> {
    match s {
        Some(t) => Some(t@),
        None => None,
    }
}

impl View for DesktopEntry {
    type V = DesktopEntryView;

    open spec fn view(&self) -> DesktopEntryView {
        DesktopEntryView {
            name: self.name@,
            exec_line: self.exec_line@,
            icon: opt_view(self.icon),
            comment: opt_view(self.comment),
            categories: texts(self.categories@),
            no_display: self.no_display,
        }
    }
}

/// What a list of desktop entries holds, in order.
pub open spec fn entry_views(list: Seq<DesktopEntry>) -> Seq<DesktopEntryView> {
    list.map_values(|e: DesktopEntry| e@)
}

// ---------------------------------------------------------------------------
// Desktop files
// ---------------------------------------------------------------------------

/// The value that the key `key` has after the lines from `i` on, `found`
/// being its value before. A line in square brackets opens a group; only
/// the group `[Desktop Entry]` counts. In it, a line `key=value` gives the
/// key its value, white space around both left out; a later line
/// overrides an earlier one.
pub open spec fn field_scan(
    lines: Seq<Seq<char>>,
    key: Seq<char>,
    i: int,
    inside: bool,
    found: Option<Seq<char>>,
) -> Option<Seq<char>>
    decreases lines.len() - i,
{
    if i < 0 || i >= lines.len() {
        found
    } else {
        let line = trim(lines[i]);
        if starts_with(line, seq!['[']) {
            field_scan(lines, key, i + 1, line == "[Desktop Entry]"@, found)
        } else if !inside {
            field_scan(lines, key, i + 1, inside, found)
        } else {
            match split_once(line, seq!['=']) {
                Some((k, v)) => field_scan(
                    lines,
                    key,
                    i + 1,
                    inside,
                    if trim(k) == key {
                        Some(trim(v))
                    } else {
                        found
                    },
                ),
                None => field_scan(lines, key, i + 1, inside, found),
            }
        }
    }
}

/// The value of the key `key` in a desktop file.
pub open spec fn field_of(content: Seq<char>, key: Seq<char>) -> Option<Seq<char>> {
    field_scan(lines(content), key, 0, false, None)
}

/// Whether a key of a desktop file is set to `true`, in any letter case.
pub open spec fn flag_of(content: Seq<char>, key: Seq<char>) -> bool {
    match field_of(content, key) {
        Some(value) => lowercase(value) == "true"@,
        None => false,
    }
}

/// The test that keeps the texts that are not empty.
pub open spec fn not_empty() -> spec_fn(Seq<char>) -> bool {
    |s: Seq<char>| s.len() > 0
}

/// The categories of a desktop file: the pieces of `Categories` between its
/// semicolons that are not empty.
pub open spec fn categories_of(content: Seq<char>) -> Seq<Seq<char>> {
    match field_of(content, "Categories"@) {
        Some(value) => split(value, ';').filter(not_empty()),
        None => Seq::empty(),
    }
}

/// The application that a desktop file describes. It needs a name and a
/// command; a file of another type than `Application`, and a hidden one,
/// describes none.
pub open spec fn desktop_entry_of(content: Seq<char>) -> Option<DesktopEntryView> {
    match (field_of(content, "Name"@), field_of(content, "Exec"@)) {
        (Some(name), Some(exec_line)) => if (field_of(content, "Type"@) matches Some(kind) && kind
            != "Application"@) || flag_of(content, "Hidden"@) {
            None
        } else {
            Some(
                DesktopEntryView {
                    name,
                    exec_line,
                    icon: field_of(content, "Icon"@),
                    comment: field_of(content, "Comment"@),
                    categories: categories_of(content),
                    no_display: flag_of(content, "NoDisplay"@),
                },
            )
        },
        _ => None,
    }
}

fn read_field(all: &Vec<Vec<char>>, key: &str) -> (value: Option<Vec<char>>)
    ensures
        match value {
            Some(v) => field_scan(rows(all@), key@, 0, false, None) == Some(v@),
            None => field_scan(rows(all@), key@, 0, false, None) is None,
        },
{
    let wanted = chars_of(key);
    let bracket: Vec<char> = vec!['['];
    let equals: Vec<char> = vec!['='];
    let mut inside = false;
    let mut found: Option<Vec<char>> = None;
    let mut i: usize = 0;
    while i < all.len()
        invariant
            i <= all.len(),
            wanted@ == key@,
            bracket@ == seq!['['],
            equals@ == seq!['='],
            field_scan(rows(all@), key@, 0, false, None) == field_scan(
                rows(all@),
                key@,
                i as int,
                inside,
                match found {
                    Some(v) => Some(v@),
                    None => None,
                },
            ),
        decreases all.len() - i,
    {
        assert(rows(all@)[i as int] == all@[i as int]@);
        let line = trim_chars(&all[i]);
        if starts_with_chars(&line, &bracket) {
            inside = is_text(&line, "[Desktop Entry]");
        } else if inside {
            match split_once_chars(&line, &equals) {
                Some((k, v)) => {
                    if same_chars(&trim_chars(&k), &wanted) {
                        found = Some(trim_chars(&v));
                    }
                },
                None => {},
            }
        }
        i += 1;
    }
    found
}

fn read_flag(all: &Vec<Vec<char>>, key: &str) -> (flag: bool)
    ensures
        flag == match field_scan(rows(all@), key@, 0, false, None) {
            Some(value) => lowercase(value) == "true"@,
            None => false,
        },
{
    match read_field(all, key) {
        Some(value) => is_text(&lowercase_chars(&value), "true"),
        None => false,
    }
}

fn read_optional(all: &Vec<Vec<char>>, key: &str) -> (value: Option<String>)
    ensures
        opt_view(value) == field_scan(rows(all@), key@, 0, false, None),
{
    match read_field(all, key) {
        Some(v) => Some(string_of(&v)),
        None => None,
    }
}

fn read_categories(all: &Vec<Vec<char>>) -> (list: Vec<String>)
    ensures
        texts(list@) == match field_scan(rows(all@), "Categories"@, 0, false, None) {
            Some(value) => split(value, ';').filter(not_empty()),
            None => Seq::empty(),
        },
{
    let mut out: Vec<String> = Vec::new();
    assert(texts(out@) =~= Seq::<Seq<char>>::empty());
    match read_field(all, "Categories") {
        Some(value) => {
            let pieces = split_chars(&value, ';');
            let ghost whole = rows(pieces@);
            let mut i: usize = 0;
            assert(whole.take(0).filter(not_empty()) =~= Seq::<Seq<char>>::empty()) by {
                reveal(Seq::filter);
            }
            while i < pieces.len()
                invariant
                    i <= pieces.len(),
                    whole == rows(pieces@),
                    texts(out@) == whole.take(i as int).filter(not_empty()),
                decreases pieces.len() - i,
            {
                proof {
                    crate::text::lemma_filter_next(whole, not_empty(), i as int);
                }
                if pieces[i].len() > 0 {
                    let ghost before = out@;
                    out.push(string_of(&pieces[i]));
                    assert(texts(out@) =~= texts(before).push(whole[i as int]));
                }
                i += 1;
            }
            assert(whole.take(pieces.len() as int) == whole);
            out
        },
        None => out,
    }
}

/// Reads the application that the content of a desktop file describes.
pub fn parse_desktop_file(content: &str) -> (entry: Option<DesktopEntry>)
    ensures
        match entry {
            Some(e) => desktop_entry_of(content@) == Some(e@),
            None => desktop_entry_of(content@) is None,
        },
{
    let all = lines_of(&chars_of(content));
    let name = read_field(&all, "Name");
    let exec_line = read_field(&all, "Exec");
    match (name, exec_line) {
        (Some(name), Some(exec_line)) => {
            let other_type = match read_field(&all, "Type") {
                Some(kind) => !is_text(&kind, "Application"),
                None => false,
            };
            if other_type || read_flag(&all, "Hidden") {
                return None;
            }
            Some(
                DesktopEntry {
                    name: string_of(&name),
                    exec_line: string_of(&exec_line),
                    icon: read_optional(&all, "Icon"),
                    comment: read_optional(&all, "Comment"),
                    categories: read_categories(&all),
                    no_display: read_flag(&all, "NoDisplay"),
                },
            )
        },
        _ => None,
    }
}

// ---------------------------------------------------------------------------
// The list of applications
// ---------------------------------------------------------------------------

/// Some entry of the list has the name `name`.
pub open spec fn has_name(list: Seq<DesktopEntryView>, name: Seq<char>) -> bool {
    exists|k: int| 0 <= k < list.len() && (#[trigger] list[k]).name == name
}

/// The applications to show once the entries from `i` on are looked at,
/// `found` being those found before: an entry that asks not to be shown is
/// left out, and each name counts once, the first time it occurs.
pub open spec fn shown_scan(entries: Seq<DesktopEntryView>, i: int, found: Seq<DesktopEntryView>) -> Seq<
    DesktopEntryView,
>
    decreases entries.len() - i,
{
    if i < 0 || i >= entries.len() {
        found
    } else if entries[i].no_display || has_name(found, entries[i].name) {
        shown_scan(entries, i + 1, found)
    } else {
        shown_scan(entries, i + 1, found.push(entries[i]))
    }
}

/// The key by which applications are sorted: their name in lower case.
pub open spec fn name_key(entry: DesktopEntryView) -> Seq<i64> {
    text_key(lowercase(entry.name))
}

fn name_found(list: &Vec<DesktopEntry>, name: &Vec<char>) -> (found: bool)
    ensures
        found == has_name(entry_views(list@), name@),
{
    let mut i: usize = 0;
    while i < list.len()
        invariant
            i <= list.len(),
            forall|j: int| 0 <= j < i ==> (#[trigger] entry_views(list@)[j]).name != name@,
        decreases list.len() - i,
    {
        if same_chars(&chars_of(list[i].name.as_str()), name) {
            assert(entry_views(list@)[i as int].name == name@);
            return true;
        }
        i += 1;
    }
    false
}

fn copy_strings(list: &Vec<String>) -> (copy: Vec<String>)
    ensures
        texts(copy@) == texts(list@),
{
    let mut out: Vec<String> = Vec::new();
    let mut i: usize = 0;
    while i < list.len()
        invariant
            i <= list.len(),
            out.len() == i,
            forall|j: int| 0 <= j < i ==> (#[trigger] out[j])@ == list[j]@,
        decreases list.len() - i,
    {
        out.push(list[i].clone());
        i += 1;
    }
    assert(texts(out@) =~= texts(list@));
    out
}

fn copy_entry(entry: &DesktopEntry) -> (copy: DesktopEntry)
    ensures
        copy@ == entry@,
{
    DesktopEntry {
        name: entry.name.clone(),
        exec_line: entry.exec_line.clone(),
        icon: match &entry.icon {
            Some(t) => Some(t.clone()),
            None => None,
        },
        comment: match &entry.comment {
            Some(t) => Some(t.clone()),
            None => None,
        },
        categories: copy_strings(&entry.categories),
        no_display: entry.no_display,
    }
}

/// The applications to show, sorted by name without regard to letter case.
/// `parsed` holds the entries that were read, in the order of the
/// directories and of the files in them.
pub fn load_desktop_entries(parsed: &Vec<DesktopEntry>) -> (list: Vec<DesktopEntry>)
    ensures
        is_sorted_by(
            shown_scan(entry_views(parsed@), 0, Seq::empty()),
            shown_scan(entry_views(parsed@), 0, Seq::empty()).map_values(
                |e: DesktopEntryView| name_key(e),
            ),
            entry_views(list@),
        ),
{
    let mut found: Vec<DesktopEntry> = Vec::new();
    let ghost all = entry_views(parsed@);
    assert(entry_views(found@) =~= Seq::<DesktopEntryView>::empty());
    let mut i: usize = 0;
    while i < parsed.len()
        invariant
            i <= parsed.len(),
            all == entry_views(parsed@),
            shown_scan(all, i as int, entry_views(found@)) == shown_scan(all, 0, Seq::empty()),
        decreases parsed.len() - i,
    {
        if !parsed[i].no_display && !name_found(&found, &chars_of(parsed[i].name.as_str())) {
            let ghost before = found@;
            let copy = copy_entry(&parsed[i]);
            found.push(copy);
            assert(entry_views(found@) =~= entry_views(before).push(all[i as int]));
        }
        i += 1;
    }
    let ghost found_views = entry_views(found@);
    let mut keys: Vec<Vec<i64>> = Vec::new();
    let mut k: usize = 0;
    while k < found.len()
        invariant
            k <= found.len(),
            keys.len() == k,
            found_views == entry_views(found@),
            forall|j: int| 0 <= j < k ==> (#[trigger] keys[j])@ == name_key(found_views[j]),
        decreases found.len() - k,
    {
        let mut key: Vec<i64> = Vec::new();
        push_text_key(&mut key, &lowercase_chars(&chars_of(found[k].name.as_str())));
        assert(key@ =~= name_key(found_views[k as int]));
        keys.push(key);
        k += 1;
    }
    assert(key_rows(keys@) =~= found_views.map_values(|e: DesktopEntryView| name_key(e)));
    let order = stable_order(&keys);
    let mut out: Vec<DesktopEntry> = Vec::new();
    let mut k: usize = 0;
    while k < order.len()
        invariant
            k <= order.len(),
            order.len() == found.len(),
            out.len() == k,
            found_views == entry_views(found@),
            forall|j: int| 0 <= j < order.len() ==> (#[trigger] order[j]) < found.len(),
            forall|j: int| 0 <= j < k ==> (#[trigger] out[j])@ == found_views[order[j] as int],
        decreases order.len() - k,
    {
        out.push(copy_entry(&found[order[k]]));
        k += 1;
    }
    assert(entry_views(out@) =~= arranged(found_views, order@));
    out
}

// ---------------------------------------------------------------------------
// Searching
// ---------------------------------------------------------------------------

/// How well an entry fits a query in lower case: 0 where its name begins
/// with it, 1 where its name holds it, 2 where its comment holds it, 3 where
/// its categories hold it; all in lower case. An entry that holds it nowhere
/// does not fit.
pub open spec fn priority_of(entry: DesktopEntryView, query_lower: Seq<char>) -> Option<i64> {
    let name = lowercase(entry.name);
    let comment = lowercase(
        match entry.comment {
            Some(c) => c,
            None => Seq::empty(),
        },
    );
    let categories = lowercase(join_spaced(entry.categories));
    if starts_with(name, query_lower) {
        Some(0)
    } else if contains(name, query_lower) {
        Some(1)
    } else if contains(comment, query_lower) {
        Some(2)
    } else if contains(categories, query_lower) {
        Some(3)
    } else {
        None
    }
}

/// The entries from `i` on that fit the query, each with its position in
/// the list and its priority.
pub open spec fn hits_from(entries: Seq<DesktopEntryView>, query_lower: Seq<char>, i: int) -> Seq<
    (usize, i64),
>
    decreases entries.len() - i,
{
    if i < 0 || i >= entries.len() {
        Seq::empty()
    } else {
        (match priority_of(entries[i], query_lower) {
            Some(priority) => seq![(i as usize, priority)],
            None => Seq::empty(),
        }) + hits_from(entries, query_lower, i + 1)
    }
}

/// The positions of the entries that a search shows. An empty query shows
/// the first twenty entries. Any other shows the entries that fit it, the
/// better fits first and equal fits in the order of the list, and of those
/// the first ten.
pub open spec fn is_search_result(entries: Seq<DesktopEntryView>, query: Seq<char>, shown: Seq<usize>) -> bool {
    if query.len() == 0 {
        shown == Seq::new(
            if entries.len() < 20 {
                entries.len()
            } else {
                20
            },
            |k: int| k as usize,
        )
    } else {
        let hits = hits_from(entries, lowercase(query), 0);
        exists|sorted: Seq<(usize, i64)>|
            is_sorted_by(hits, hits.map_values(|h: (usize, i64)| seq![h.1]), sorted) && shown
                == Seq::new(
                if sorted.len() < 10 {
                    sorted.len()
                } else {
                    10
                },
                |k: int| sorted[k].0,
            )
    }
}

fn read_priority(entry: &DesktopEntry, query_lower: &Vec<char>) -> (priority: Option<i64>)
    ensures
        priority == priority_of(entry@, query_lower@),
{
    let name = lowercase_chars(&chars_of(entry.name.as_str()));
    if starts_with_chars(&name, query_lower) {
        return Some(0);
    }
    if contains_chars(&name, query_lower) {
        return Some(1);
    }
    let comment = match &entry.comment {
        Some(c) => lowercase_chars(&chars_of(c.as_str())),
        None => {
            let none: Vec<char> = Vec::new();
            lowercase_chars(&none)
        },
    };
    if contains_chars(&comment, query_lower) {
        return Some(2);
    }
    let mut list: Vec<Vec<char>> = Vec::new();
    let mut i: usize = 0;
    while i < entry.categories.len()
        invariant
            i <= entry.categories.len(),
            list.len() == i,
            forall|j: int| 0 <= j < i ==> (#[trigger] list[j])@ == entry.categories[j]@,
        decreases entry.categories.len() - i,
    {
        list.push(chars_of(entry.categories[i].as_str()));
        i += 1;
    }
    assert(rows(list@) =~= texts(entry.categories@));
    assert(rows(list@).skip(0) =~= rows(list@));
    let categories = lowercase_chars(&join_chars(&list, 0));
    if contains_chars(&categories, query_lower) {
        Some(3)
    } else {
        None
    }
}

/// Searches the applications for `query`. The result holds the positions in
/// `entries` of the applications to show, in the order in which to show
/// them.
pub fn search_positions(entries: &Vec<DesktopEntry>, query: &str) -> (shown: Vec<usize>)
    ensures
        is_search_result(entry_views(entries@), query@, shown@),
        forall|k: int| 0 <= k < shown.len() ==> (#[trigger] shown[k]) < entries.len(),
{
    let mut shown: Vec<usize> = Vec::new();
    if query.is_empty() {
        let limit: usize = if entries.len() < 20 {
            entries.len()
        } else {
            20
        };
        let mut k: usize = 0;
        while k < limit
            invariant
                k <= limit <= entries.len(),
                shown.len() == k,
                forall|j: int| 0 <= j < k ==> (#[trigger] shown[j]) == j,
            decreases limit - k,
        {
            shown.push(k);
            k += 1;
        }
        assert(shown@ =~= Seq::new(limit as nat, |k: int| k as usize));
        return shown;
    }
    let query_lower = lowercase_chars(&chars_of(query));
    let ghost all = entry_views(entries@);
    let mut hits: Vec<(usize, i64)> = Vec::new();
    let mut keys: Vec<Vec<i64>> = Vec::new();
    let mut i: usize = 0;
    while i < entries.len()
        invariant
            i <= entries.len(),
            all == entry_views(entries@),
            query_lower@ == lowercase(query@),
            hits@ + hits_from(all, query_lower@, i as int) == hits_from(all, query_lower@, 0),
            keys.len() == hits.len(),
            forall|j: int| 0 <= j < hits.len() ==> (#[trigger] keys[j])@ == seq![hits[j].1],
            forall|j: int| 0 <= j < hits.len() ==> (#[trigger] hits[j]).0 < entries.len(),
        decreases entries.len() - i,
    {
        match read_priority(&entries[i], &query_lower) {
            Some(priority) => {
                let ghost before = hits@;
                hits.push((i, priority));
                let mut key: Vec<i64> = Vec::new();
                key.push(priority);
                keys.push(key);
                assert(before.push((i, priority)) + hits_from(all, query_lower@, i + 1) =~= before
                    + (seq![(i, priority)] + hits_from(all, query_lower@, i + 1)));
            },
            None => {
                assert(Seq::<(usize, i64)>::empty() + hits_from(all, query_lower@, i + 1)
                    =~= hits_from(all, query_lower@, i + 1));
            },
        }
        i += 1;
    }
    assert(hits@ + Seq::<(usize, i64)>::empty() =~= hits@);
    assert(key_rows(keys@) =~= hits@.map_values(|h: (usize, i64)| seq![h.1]));
    let order = stable_order(&keys);
    let ghost sorted = arranged(hits@, order@);
    let limit: usize = if order.len() < 10 {
        order.len()
    } else {
        10
    };
    let mut k: usize = 0;
    while k < limit
        invariant
            k <= limit <= order.len(),
            order.len() == hits.len(),
            shown.len() == k,
            sorted == arranged(hits@, order@),
            forall|j: int| 0 <= j < order.len() ==> (#[trigger] order[j]) < hits.len(),
            forall|j: int| 0 <= j < hits.len() ==> (#[trigger] hits[j]).0 < entries.len(),
            forall|j: int| 0 <= j < k ==> (#[trigger] shown[j]) == sorted[j].0,
        decreases limit - k,
    {
        shown.push(hits[order[k]].0);
        k += 1;
    }
    assert(sorted.len() == order.len());
    assert(shown@ =~= Seq::new(
        if sorted.len() < 10 {
            sorted.len()
        } else {
            10
        },
        |k: int| sorted[k].0,
    ));
    assert(is_sorted_by(hits@, hits@.map_values(|h: (usize, i64)| seq![h.1]), sorted));
    assert(hits@ == hits_from(entry_views(entries@), lowercase(query@), 0));
    shown
}

/// Searches the applications for `query`: the applications to show, in the
/// order in which to show them.
pub fn search_entries<'a>(entries: &'a Vec<DesktopEntry>, query: &str) -> (found: Vec<
    &'a DesktopEntry,
>)
    ensures
        exists|shown: Seq<usize>|
            {
                &&& is_search_result(entry_views(entries@), query@, shown)
                &&& found.len() == shown.len()
                &&& forall|k: int|
                    0 <= k < shown.len() ==> shown[k] < entries.len() && *(#[trigger] found[k])
                        == entries[shown[k] as int]
            },
{
    let shown = search_positions(entries, query);
    let mut found: Vec<&'a DesktopEntry> = Vec::new();
    let mut k: usize = 0;
    while k < shown.len()
        invariant
            k <= shown.len(),
            found.len() == k,
            forall|j: int| 0 <= j < shown.len() ==> (#[trigger] shown[j]) < entries.len(),
            forall|j: int| 0 <= j < k ==> *(#[trigger] found[j]) == entries[shown[j] as int],
        decreases shown.len() - k,
    {
        found.push(&entries[shown[k]]);
        k += 1;
    }
    assert(is_search_result(entry_views(entries@), query@, shown@));
    found
}

// ---------------------------------------------------------------------------
// Launching
// ---------------------------------------------------------------------------

/// The field codes of an `Exec` line, which stand for files and addresses
/// that a launcher would fill in.
pub open spec fn field_codes() -> Seq<Seq<char>> {
    seq![
        "%f"@,
        "%F"@,
        "%u"@,
        "%U"@,
        "%d"@,
        "%D"@,
        "%n"@,
        "%N"@,
        "%i"@,
        "%c"@,
        "%k"@,
        "%v"@,
        "%m"@,
    ]
}

/// `s` without the field codes from number `k` on, taken out one code after
/// the other.
pub open spec fn without_codes(s: Seq<char>, k: int) -> Seq<char>
    decreases field_codes().len() - k,
{
    if k < 0 || k >= field_codes().len() {
        s
    } else {
        without_codes(remove_all(s, field_codes()[k]), k + 1)
    }
}

/// The position of the first word from `i` on that holds no `=`.
pub open spec fn command_word(list: Seq<Seq<char>>, i: int) -> Option<int>
    decreases list.len() - i,
{
    if i < 0 || i >= list.len() {
        None
    } else if !contains(list[i], seq!['=']) {
        Some(i)
    } else {
        command_word(list, i + 1)
    }
}

/// A command line without a leading `env` and its assignments: where the
/// line begins with `env `, what follows from its first word after `env`
/// that is no assignment, with single spaces between the words.
pub open spec fn without_env(s: Seq<char>) -> Seq<char> {
    if starts_with(s, "env "@) {
        match command_word(words(s), 1) {
            Some(i) => join_spaced(words(s).skip(i)),
            None => s,
        }
    } else {
        s
    }
}

/// The command line of an `Exec` line: without field codes, without a
/// leading `env` and its assignments, without white space around it.
pub open spec fn cleaned_exec(line: Seq<char>) -> Seq<char> {
    trim(without_env(without_codes(line, 0)))
}

/// Turns an `Exec` line into a command line.
#[verifier::loop_isolation(false)]
pub fn clean_exec(exec_line: &str) -> (line: String)
    ensures
        line@ == cleaned_exec(exec_line@),
{
    let mut result = chars_of(exec_line);
    let codes: [&str; 13] = [
        "%f",
        "%F",
        "%u",
        "%U",
        "%d",
        "%D",
        "%n",
        "%N",
        "%i",
        "%c",
        "%k",
        "%v",
        "%m",
    ];
    proof {
        reveal_strlit("%f");
        reveal_strlit("%F");
        reveal_strlit("%u");
        reveal_strlit("%U");
        reveal_strlit("%d");
        reveal_strlit("%D");
        reveal_strlit("%n");
        reveal_strlit("%N");
        reveal_strlit("%i");
        reveal_strlit("%c");
        reveal_strlit("%k");
        reveal_strlit("%v");
        reveal_strlit("%m");
    }
    let mut k: usize = 0;
    while k < 13
        invariant
            k <= 13,
            codes@.len() == 13,
            forall|j: int| 0 <= j < 13 ==> (#[trigger] codes@[j])@ == field_codes()[j],
            forall|j: int| 0 <= j < 13 ==> (#[trigger] field_codes()[j]).len() == 2,
            without_codes(result@, k as int) == without_codes(exec_line@, 0),
        decreases 13 - k,
    {
        let code = chars_of(codes[k]);
        result = remove_all_chars(&result, &code);
        k += 1;
    }
    if starts_with_chars(&result, &chars_of("env ")) {
        let list = words_of(&result);
        let equals: Vec<char> = vec!['='];
        let mut i: usize = 1;
        while i < list.len()
            invariant
                1 <= i,
                equals@ == seq!['='],
                rows(list@) == words(result@),
                command_word(rows(list@), 1) == command_word(rows(list@), i as int),
            decreases list.len() - i,
        {
            assert(rows(list@)[i as int] == list@[i as int]@);
            if !contains_chars(&list[i], &equals) {
                let joined = join_chars(&list, i);
                return string_of(&trim_chars(&joined));
            }
            i += 1;
        }
    }
    string_of(&trim_chars(&result))
}

/// The command that launches an application: the first word of its cleaned
/// `Exec` line is the program, the other words are its arguments. A line
/// without a word launches nothing.
pub open spec fn launch_command(line: Seq<char>) -> Option<CommandView> {
    let list = words(cleaned_exec(line));
    if list.len() == 0 {
        None
    } else {
        Some(invoke(list[0], list.skip(1)))
    }
}

/// The command that launches the application of an entry.
pub fn launch_app(entry: &DesktopEntry) -> (command: Option<Command>)
    ensures
        match command {
            Some(c) => launch_command(entry.exec_line@) == Some(c@),
            None => launch_command(entry.exec_line@) is None,
        },
{
    let line = clean_exec(entry.exec_line.as_str());
    let list = words_of(&chars_of(line.as_str()));
    if list.len() == 0 {
        return None;
    }
    assert(rows(list@)[0] == list@[0]@);
    let mut args: Vec<String> = Vec::new();
    let mut i: usize = 1;
    while i < list.len()
        invariant
            1 <= i <= list.len(),
            args.len() == i - 1,
            forall|j: int| 0 <= j < i - 1 ==> (#[trigger] args[j])@ == list[j + 1]@,
        decreases list.len() - i,
    {
        args.push(string_of(&list[i]));
        i += 1;
    }
    let command = Command { program: string_of(&list[0]), args };
    assert(command@.args =~= rows(list@).skip(1));
    Some(command)
}

} // verus!
