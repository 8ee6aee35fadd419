//! Settings that outlive a run: window positions per monitor, and snippets.

use vstd::prelude::*;
use crate::strings::str_equals;

verus! {

/// Where the window stands and how large it is.
#[derive(Debug, Clone, Copy, PartialEq, Eq, Structural)]
pub struct WindowPosition {
    pub x: i32,
    pub y: i32,
    pub width: u32,
    pub height: u32,
}

impl Default for WindowPosition {
    fn default() -> (position: Self)
        ensures
            position == (WindowPosition { x: 100, y: 100, width: 650, height: 450 }),
    {
        WindowPosition { x: 100, y: 100, width: 650, height: 450 }
    }
}

/// A stored piece of text.
#[derive(Debug, Clone)]
pub struct Snippet {
    pub id: String,
    pub name: String,
    pub content: String,
    pub tags: Vec<String>,
    pub created_at: String,
    pub updated_at: String,
}

/// All stored snippets.
#[derive(Debug, Clone)]
pub struct SnippetsData {
    pub snippets: Vec<Snippet>,
}

impl Default for SnippetsData {
    fn default() -> (data: Self)
        ensures
            data.snippets@.len() == 0,
    {
        SnippetsData { snippets: Vec::new() }
    }
}

/// The window position remembered for each monitor, by the monitor's name.
#[derive(Debug)]
pub struct MonitorPositions {
    entries: Vec<(String, WindowPosition)>,
}

/// The map that a list of entries stands for: a later entry of a name
/// replaces an earlier one.
pub open spec fn positions_of(entries: Seq<(String, WindowPosition)>) -> Map<
    Seq<char>,
    WindowPosition,
>
    decreases entries.len(),
{
    if entries.len() == 0 {
        Map::empty()
    } else {
        positions_of(entries.drop_last()).insert(entries.last().0@, entries.last().1)
    }
}

/// No monitor's name occurs twice.
pub open spec fn distinct_names(entries: Seq<(String, WindowPosition)>) -> bool {
    forall|i: int, j: int|
        0 <= i < j < entries.len() ==> (#[trigger] entries[i]).0@ != (#[trigger] entries[j]).0@
}

/// An entry with the name sought and none after it decides the lookup; where
/// no entry has the name, the map has no such key.
pub proof fn lookup_by_last_entry(entries: Seq<(String, WindowPosition)>, name: Seq<char>, at: int)
    requires
        -1 <= at < entries.len(),
        at >= 0 ==> entries[at].0@ == name,
        forall|k: int| at < k < entries.len() ==> (#[trigger] entries[k]).0@ != name,
    ensures
        at >= 0 ==> positions_of(entries).contains_key(name) && positions_of(entries)[name]
            == entries[at].1,
        at < 0 ==> !positions_of(entries).contains_key(name),
    decreases entries.len(),
{
    if entries.len() > 0 {
        let rest = entries.drop_last();
        if at < entries.len() - 1 {
            assert(entries[entries.len() - 1].0@ != name);
            assert forall|k: int| at < k < rest.len() implies (#[trigger] rest[k]).0@ != name by {
                assert(rest[k] == entries[k]);
            }
            if at >= 0 {
                assert(rest[at] == entries[at]);
            }
            lookup_by_last_entry(rest, name, at);
        }
    }
}

/// Entries with pairwise different names stand for a map with as many keys
/// as there are entries.
pub proof fn distinct_names_count(entries: Seq<(String, WindowPosition)>)
    requires
        distinct_names(entries),
    ensures
        positions_of(entries).dom().finite(),
        positions_of(entries).dom().len() == entries.len(),
    decreases entries.len(),
{
    if entries.len() > 0 {
        let rest = entries.drop_last();
        let last = entries.last();
        assert forall|i: int, j: int| 0 <= i < j < rest.len() implies (#[trigger] rest[i]).0@ != (
        #[trigger] rest[j]).0@ by {
            assert(rest[i] == entries[i]);
            assert(rest[j] == entries[j]);
        }
        distinct_names_count(rest);
        assert forall|k: int| -1 < k < rest.len() implies (#[trigger] rest[k]).0@ != last.0@ by {
            assert(rest[k] == entries[k]);
            assert(entries[entries.len() - 1] == last);
        }
        lookup_by_last_entry(rest, last.0@, -1);
        assert(positions_of(entries).dom() =~= positions_of(rest).dom().insert(last.0@));
    }
}

/// Replacing the last entry of a name is inserting into the map.
pub proof fn replace_is_insert(
    entries: Seq<(String, WindowPosition)>,
    at: int,
    entry: (String, WindowPosition),
)
    requires
        0 <= at < entries.len(),
        entries[at].0@ == entry.0@,
        forall|k: int| at < k < entries.len() ==> (#[trigger] entries[k]).0@ != entry.0@,
    ensures
        positions_of(entries.update(at, entry)) =~= positions_of(entries).insert(
            entry.0@,
            entry.1,
        ),
    decreases entries.len(),
{
    let changed = entries.update(at, entry);
    let rest = entries.drop_last();
    if at == entries.len() - 1 {
        assert(changed.drop_last() =~= rest);
        assert(changed.last() == entry);
    } else {
        assert(entries[entries.len() - 1].0@ != entry.0@);
        assert(changed.drop_last() =~= rest.update(at, entry));
        assert(changed.last() == entries.last());
        assert forall|k: int| at < k < rest.len() implies (#[trigger] rest[k]).0@ != entry.0@ by {
            assert(rest[k] == entries[k]);
        }
        assert(rest[at] == entries[at]);
        replace_is_insert(rest, at, entry);
    }
}

impl View for MonitorPositions {
    type V = Map<Seq<char>, WindowPosition>;

    closed spec fn view(&self) -> Map<Seq<char>, WindowPosition> {
        positions_of(self.entries@)
    }
}

impl Default for MonitorPositions {
    fn default() -> (data: Self)
        ensures
            data@ == Map::<Seq<char>, WindowPosition>::empty(),
    {
        MonitorPositions { entries: Vec::new() }
    }
}

impl Clone for MonitorPositions {
    fn clone(&self) -> (copy: Self)
        ensures
            copy@ == self@,
    {
        proof {
            use_type_invariant(self);
        }
        let mut entries: Vec<(String, WindowPosition)> = Vec::new();
        let mut i: usize = 0;
        while i < self.entries.len()
            invariant
                i <= self.entries@.len(),
                entries@ == self.entries@.take(i as int),
            decreases self.entries@.len() - i,
        {
            entries.push((self.entries[i].0.clone(), self.entries[i].1));
            assert(entries@ =~= self.entries@.take(i + 1));
            i += 1;
        }
        assert(entries@ =~= self.entries@);
        MonitorPositions { entries }
    }
}

impl MonitorPositions {
    /// No monitor's name occurs twice.
    #[verifier::type_invariant]
    closed spec fn well_formed(&self) -> bool {
        distinct_names(self.entries@)
    }

    /// No position is remembered.
    pub fn new() -> (data: Self)
        ensures
            data@ == Map::<Seq<char>, WindowPosition>::empty(),
    {
        MonitorPositions { entries: Vec::new() }
    }

    /// How many entries are held: one for each monitor with a remembered
    /// position.
    pub fn len(&self) -> (count: usize)
        ensures
            self@.dom().finite(),
            count == self@.dom().len(),
    {
        proof {
            use_type_invariant(self);
            distinct_names_count(self.entries@);
        }
        self.entries.len()
    }

    fn find(&self, monitor_name: &str) -> (at: Option<usize>)
        ensures
            match at {
                Some(i) => i < self.entries@.len() && self.entries@[i as int].0@ == monitor_name@
                    && forall|k: int|
                    i < k < self.entries@.len() ==> (#[trigger] self.entries@[k]).0@
                        != monitor_name@,
                None => forall|k: int|
                    0 <= k < self.entries@.len() ==> (#[trigger] self.entries@[k]).0@
                        != monitor_name@,
            },
    {
        let mut i: usize = self.entries.len();
        while i > 0
            invariant
                i <= self.entries@.len(),
                forall|k: int|
                    i <= k < self.entries@.len() ==> (#[trigger] self.entries@[k]).0@
                        != monitor_name@,
            decreases i,
        {
            i -= 1;
            if str_equals(self.entries[i].0.as_str(), monitor_name) {
                return Some(i);
            }
        }
        None
    }

    /// The position remembered for a monitor.
    pub fn get(&self, monitor_name: &str) -> (position: Option<WindowPosition>)
        ensures
            position == (if self@.contains_key(monitor_name@) {
                Some(self@[monitor_name@])
            } else {
                None
            }),
    {
        match self.find(monitor_name) {
            Some(i) => {
                proof {
                    lookup_by_last_entry(self.entries@, monitor_name@, i as int);
                }
                Some(self.entries[i].1)
            },
            None => {
                proof {
                    lookup_by_last_entry(self.entries@, monitor_name@, -1);
                }
                None
            },
        }
    }

    /// Remembers `position` for a monitor, in place of what was remembered
    /// for it before.
    pub fn insert(&mut self, monitor_name: &str, position: WindowPosition)
        ensures
            final(self)@ == old(self)@.insert(monitor_name@, position),
    {
        proof {
            use_type_invariant(&*self);
        }
        let at = self.find(monitor_name);
        let mut entries: Vec<(String, WindowPosition)> = Vec::new();
        let mut i: usize = 0;
        while i < self.entries.len()
            invariant
                i <= self.entries@.len(),
                entries@.len() == i,
                forall|k: int|
                    0 <= k < i ==> #[trigger] entries@[k] == (if at == Some(k as usize) {
                        (self.entries@[k].0, position)
                    } else {
                        self.entries@[k]
                    }),
            decreases self.entries@.len() - i,
        {
            let kept = if at == Some(i) {
                position
            } else {
                self.entries[i].1
            };
            entries.push((self.entries[i].0.clone(), kept));
            i += 1;
        }
        match at {
            Some(found) => {
                proof {
                    let entry = (self.entries@[found as int].0, position);
                    replace_is_insert(self.entries@, found as int, entry);
                    assert(entries@ =~= self.entries@.update(found as int, entry));
                    assert forall|a: int, b: int| 0 <= a < b < entries@.len() implies (
                    #[trigger] entries@[a]).0@ != (#[trigger] entries@[b]).0@ by {
                        assert(entries@[a].0 == self.entries@[a].0);
                        assert(entries@[b].0 == self.entries@[b].0);
                    }
                }
            },
            None => {
                let entry = (monitor_name.to_owned(), position);
                proof {
                    assert(entries@ =~= self.entries@);
                    assert(entries@.push(entry).drop_last() =~= entries@);
                }
                entries.push(entry);
            },
        }
        *self = MonitorPositions { entries };
    }

    /// The remembered positions as pairs of a monitor's name and its
    /// position, each name once.
    pub fn entries(&self) -> (pairs: &Vec<(String, WindowPosition)>)
        ensures
            positions_of(pairs@) == self@,
            distinct_names(pairs@),
    {
        proof {
            use_type_invariant(self);
        }
        &self.entries
    }
}

/// The position remembered for a monitor in what was loaded, if anything was
/// loaded and holds one.
pub fn get_position_for_monitor(loaded: Option<&MonitorPositions>, monitor_name: &str) -> (position:
    Option<WindowPosition>)
    ensures
        position == (match loaded {
            Some(data) => if data@.contains_key(monitor_name@) {
                Some(data@[monitor_name@])
            } else {
                None
            },
            None => None,
        }),
{
    match loaded {
        Some(data) => data.get(monitor_name),
        None => None,
    }
}

/// What is to be stored once `position` is remembered for a monitor: what
/// was loaded, or nothing where loading failed, with that one entry set.
pub fn save_position_for_monitor(
    loaded: Option<MonitorPositions>,
    monitor_name: &str,
    position: WindowPosition,
) -> (data: MonitorPositions)
    ensures
        data@ == (match loaded {
            Some(before) => before@,
            None => Map::empty(),
        }).insert(monitor_name@, position),
{
    let mut data = match loaded {
        Some(before) => before,
        None => MonitorPositions::new(),
    };
    data.insert(monitor_name, position);
    data
}

/// The mathematical content of a [`Snippet`].
pub struct SnippetView {
    pub id: Seq<char>,
    pub name: Seq<char>,
    pub content: Seq<char>,
    pub tags: Seq<Seq<char>>,
    pub created_at: Seq<char>,
    pub updated_at: Seq<char>,
}

impl View for Snippet {
    type V = SnippetView;

    open spec fn view(&self) -> SnippetView {
        SnippetView {
            id: self.id@,
            name: self.name@,
            content: self.content@,
            tags: self.tags.deep_view(),
            created_at: self.created_at@,
            updated_at: self.updated_at@,
        }
    }
}

impl View for SnippetsData {
    type V = Seq<SnippetView>;

    open spec fn view(&self) -> Seq<SnippetView> {
        Seq::new(self.snippets@.len(), |i: int| self.snippets@[i]@)
    }
}

/// The position of the first snippet with the given identifier, or the
/// number of snippets if none has it.
pub open spec fn position_of(snippets: Seq<SnippetView>, id: Seq<char>) -> int
    decreases snippets.len(),
{
    if snippets.len() == 0 {
        0
    } else if snippets[0].id == id {
        0
    } else {
        1 + position_of(snippets.drop_first(), id)
    }
}

/// The snippets whose identifier is not `id`, in order.
pub open spec fn without_id(snippets: Seq<SnippetView>, id: Seq<char>) -> Seq<SnippetView>
    decreases snippets.len(),
{
    if snippets.len() == 0 {
        Seq::empty()
    } else if snippets.last().id == id {
        without_id(snippets.drop_last(), id)
    } else {
        without_id(snippets.drop_last(), id).push(snippets.last())
    }
}

/// The snippets with the first one of the given identifier, if there is
/// one, given a new name, content and tags, and the time of the change.
pub open spec fn with_update(
    snippets: Seq<SnippetView>,
    id: Seq<char>,
    name: Seq<char>,
    content: Seq<char>,
    tags: Seq<Seq<char>>,
    now: Seq<char>,
) -> Seq<SnippetView> {
    let at = position_of(snippets, id);
    if 0 <= at < snippets.len() {
        snippets.update(
            at,
            SnippetView {
                id: snippets[at].id,
                name,
                content,
                tags,
                created_at: snippets[at].created_at,
                updated_at: now,
            },
        )
    } else {
        snippets
    }
}

/// A position with no snippet of the identifier before it, which holds one
/// or is the end, is the position of the identifier.
pub proof fn position_of_is(snippets: Seq<SnippetView>, id: Seq<char>, at: int)
    requires
        0 <= at <= snippets.len(),
        forall|k: int| 0 <= k < at ==> (#[trigger] snippets[k]).id != id,
        at < snippets.len() ==> snippets[at].id == id,
    ensures
        position_of(snippets, id) == at,
    decreases snippets.len(),
{
    if at > 0 {
        let rest = snippets.drop_first();
        assert(snippets[0].id != id);
        assert forall|k: int| 0 <= k < at - 1 implies (#[trigger] rest[k]).id != id by {
            assert(rest[k] == snippets[k + 1]);
        }
        if at - 1 < rest.len() {
            assert(rest[at - 1] == snippets[at]);
        }
        position_of_is(rest, id, at - 1);
    }
}

/// After removal no snippet has the identifier, and every other snippet is
/// still there.
pub proof fn without_id_removes_exactly(snippets: Seq<SnippetView>, id: Seq<char>)
    ensures
        forall|k: int|
            0 <= k < without_id(snippets, id).len() ==> (#[trigger] without_id(snippets, id)[k]).id
                != id,
        forall|k: int|
            0 <= k < snippets.len() && (#[trigger] snippets[k]).id != id ==> without_id(
                snippets,
                id,
            ).contains(snippets[k]),
        without_id(snippets, id).len() <= snippets.len(),
    decreases snippets.len(),
{
    if snippets.len() > 0 {
        let rest = snippets.drop_last();
        let last = snippets.last();
        without_id_removes_exactly(rest, id);
        let kept = without_id(rest, id);
        let result = without_id(snippets, id);
        assert forall|k: int| 0 <= k < snippets.len() && (#[trigger] snippets[k]).id
            != id implies result.contains(snippets[k]) by {
            if k < rest.len() {
                assert(rest[k] == snippets[k]);
                assert(kept.contains(rest[k]));
                let j = choose|j: int| 0 <= j < kept.len() && kept[j] == rest[k];
                assert(result[j] == snippets[k]);
            } else {
                assert(result[result.len() - 1] == last);
            }
        }
    }
}

/// Adds a snippet with the given identifier, made at the given time, and
/// hands a copy of it out.
pub fn add_snippet(
    data: &mut SnippetsData,
    id: String,
    name: String,
    content: String,
    tags: Vec<String>,
    now: String,
) -> (snippet: Snippet)
    ensures
        snippet@ == (SnippetView {
            id: id@,
            name: name@,
            content: content@,
            tags: tags.deep_view(),
            created_at: now@,
            updated_at: now@,
        }),
        final(data)@ == old(data)@.push(snippet@),
{
    let copy = Snippet {
        id: id.clone(),
        name: name.clone(),
        content: content.clone(),
        tags: copy_strings(&tags),
        created_at: now.clone(),
        updated_at: now.clone(),
    };
    let snippet = Snippet { id, name, content, tags, created_at: now.clone(), updated_at: now };
    data.snippets.push(copy);
    assert(data@ =~= old(data)@.push(snippet@));
    snippet
}

fn copy_strings(texts: &Vec<String>) -> (copy: Vec<String>)
    ensures
        copy.deep_view() == texts.deep_view(),
{
    let mut copy: Vec<String> = Vec::new();
    let mut i: usize = 0;
    while i < texts.len()
        invariant
            i <= texts.len(),
            copy@.len() == i,
            forall|k: int| 0 <= k < i ==> (#[trigger] copy@[k])@ == texts@[k]@,
        decreases texts.len() - i,
    {
        copy.push(texts[i].clone());
        i += 1;
    }
    assert(copy.deep_view() =~= texts.deep_view());
    copy
}

/// Gives the first snippet of the given identifier a new name, content and
/// tags. Where no snippet has the identifier, nothing changes.
pub fn update_snippet(
    data: &mut SnippetsData,
    id: &str,
    name: String,
    content: String,
    tags: Vec<String>,
    now: String,
)
    ensures
        final(data)@ == with_update(
            old(data)@,
            id@,
            name@,
            content@,
            tags.deep_view(),
            now@,
        ),
{
    let mut i: usize = 0;
    while i < data.snippets.len()
        invariant
            i <= data.snippets@.len(),
            data.snippets@ == old(data).snippets@,
            forall|k: int| 0 <= k < i ==> (#[trigger] data@[k]).id != id@,
        decreases data.snippets@.len() - i,
    {
        if str_equals(data.snippets[i].id.as_str(), id) {
            proof {
                position_of_is(data@, id@, i as int);
            }
            let changed = Snippet {
                id: data.snippets[i].id.clone(),
                name,
                content,
                tags,
                created_at: data.snippets[i].created_at.clone(),
                updated_at: now,
            };
            data.snippets[i] = changed;
            assert(data@ =~= with_update(
                old(data)@,
                id@,
                name@,
                content@,
                tags.deep_view(),
                now@,
            ));
            return ;
        }
        i += 1;
    }
    proof {
        position_of_is(data@, id@, data@.len() as int);
    }
}

/// Removes every snippet of the given identifier.
pub fn delete_snippet(data: &mut SnippetsData, id: &str)
    ensures
        final(data)@ == without_id(old(data)@, id@),
{
    let ghost before = data@;
    let ghost mut done: int = 0;
    let mut i: usize = 0;
    proof {
        assert(before.take(0) =~= Seq::<SnippetView>::empty());
        assert(data@ =~= without_id(before.take(0), id@) + before.skip(0));
    }
    while i < data.snippets.len()
        invariant
            0 <= done <= before.len(),
            i <= data.snippets@.len(),
            i == without_id(before.take(done), id@).len(),
            data@ == without_id(before.take(done), id@) + before.skip(done),
        decreases before.len() - done,
    {
        proof {
            assert(data@.len() == i + (before.len() - done));
            assert(data@[i as int] == before.skip(done)[0]);
            assert(before.take(done + 1).drop_last() =~= before.take(done));
            assert(before.take(done + 1).last() == before[done]);
        }
        let ghost prev = data@;
        assert(prev[i as int] == before[done]);
        if str_equals(data.snippets[i].id.as_str(), id) {
            assert(before[done].id == id@);
            let _ = data.snippets.remove(i);
            proof {
                assert(data@ =~= prev.remove(i as int));
                assert(without_id(before.take(done + 1), id@) == without_id(
                    before.take(done),
                    id@,
                ));
                assert(prev.remove(i as int) =~= without_id(before.take(done), id@) + before.skip(
                    done + 1,
                ));
                done = done + 1;
            }
        } else {
            proof {
                assert(data@ =~= without_id(before.take(done + 1), id@) + before.skip(done + 1));
                done = done + 1;
            }
            i += 1;
        }
    }
    proof {
        assert(data@.len() == i + (before.len() - done));
        assert(before.take(done) =~= before);
        assert(data@ =~= without_id(before, id@));
    }
}

} // verus!
