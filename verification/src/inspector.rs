//! Entity inspector state: the list of entities shown (sorted by entity,
//! filtered by a search), the selection, expanded entities, and the handling
//! of navigation and search keys.
use std::collections::HashSet;
use vstd::prelude::*;
use crate::text::{chars_contain, chars_of, contains_seq, push_char, to_lowercase, unicode_lowercase};

verus! {

broadcast use vstd::std_specs::hash::group_hash_axioms;

/// What the inspector shows of one entity.
#[derive(Debug, Clone)]
pub struct EntityInfo {
    /// The entity, as its 64-bit identifier
    pub entity: u64,
    /// Index of the entity
    pub index: u32,
    /// Generation of the entity
    pub generation: u32,
    /// Display name
    pub name: String,
    /// The entity's identifier as displayed
    pub id_text: String,
    /// Number of components on this entity
    pub component_count: usize,
    /// Names of all components on this entity
    pub component_names: Vec<String>,
}

/// View modes of the inspector.
#[derive(Debug, Clone, Copy, PartialEq, Eq, Structural)]
pub enum InspectorViewMode {
    Entities,
    Components,
    Resources,
    Systems,
}

/// Keys the inspector reacts to.
#[derive(Debug, Clone, Copy, PartialEq, Eq, Structural)]
pub enum InspectorKey {
    Char(char),
    Up,
    Down,
    Left,
    Right,
    Backspace,
    Enter,
    Esc,
    Other,
}

/// Inspector state.
#[derive(Debug)]
pub struct BevyInspectorState {
    /// Whether the inspector overlay is visible
    pub visible: bool,
    /// Selected entity index in the list
    pub selected_index: usize,
    /// Entities shown
    pub entity_infos: Vec<EntityInfo>,
    /// Expanded entities
    pub expanded_entities: HashSet<u64>,
    /// Search query for filtering entities
    pub search_query: String,
    /// Whether search mode is active
    pub search_mode: bool,
    /// Current view mode
    pub view_mode: InspectorViewMode,
    /// Scroll offset of the component details
    pub detail_scroll: usize,
}

impl BevyInspectorState {
    /// Hidden, nothing listed, entity view.
    pub fn default() -> (s: Self)
        ensures
            !s.visible,
            s.selected_index == 0,
            s.entity_infos@.len() == 0,
            s.expanded_entities@ == Set::<u64>::empty(),
            s.search_query@.len() == 0,
            !s.search_mode,
            s.view_mode == InspectorViewMode::Entities,
            s.detail_scroll == 0,
    {
        BevyInspectorState {
            visible: false,
            selected_index: 0,
            entity_infos: Vec::new(),
            expanded_entities: HashSet::new(),
            search_query: String::new(),
            search_mode: false,
            view_mode: InspectorViewMode::Entities,
            detail_scroll: 0,
        }
    }

    /// Show or hide the inspector; opening resets the selection, search and
    /// scrolling.
    pub fn toggle(&mut self)
        ensures
            final(self).visible == !old(self).visible,
            final(self).visible ==> final(self).selected_index == 0 && final(self).search_query@.len() == 0
                && !final(self).search_mode && final(self).detail_scroll == 0,
            !final(self).visible ==> final(self).selected_index == old(self).selected_index
                && final(self).search_query == old(self).search_query
                && final(self).search_mode == old(self).search_mode
                && final(self).detail_scroll == old(self).detail_scroll,
            final(self).entity_infos == old(self).entity_infos,
            final(self).expanded_entities@ == old(self).expanded_entities@,
            final(self).view_mode == old(self).view_mode,
    {
        self.visible = !self.visible;
        if self.visible {
            self.selected_index = 0;
            self.search_query = String::new();
            self.search_mode = false;
            self.detail_scroll = 0;
        }
    }

    /// Select the next entity, stopping at the last.
    pub fn select_next(&mut self)
        ensures
            old(self).entity_infos@.len() == 0 ==> final(self).selected_index == old(self).selected_index,
            old(self).entity_infos@.len() > 0 ==> final(self).selected_index == if old(self).selected_index + 1
                < old(self).entity_infos@.len() {
                old(self).selected_index + 1
            } else {
                old(self).entity_infos@.len() - 1
            },
            final(self).entity_infos == old(self).entity_infos,
            final(self).visible == old(self).visible,
    {
        if self.entity_infos.len() == 0 {
            return;
        }
        let last = self.entity_infos.len() - 1;
        self.selected_index = if self.selected_index < last { self.selected_index + 1 } else { last };
    }

    /// Select the previous entity, stopping at the first.
    pub fn select_prev(&mut self)
        ensures
            final(self).selected_index == if old(self).selected_index > 0 {
                old(self).selected_index - 1
            } else {
                0
            },
            final(self).entity_infos == old(self).entity_infos,
            final(self).visible == old(self).visible,
    {
        if self.selected_index > 0 {
            self.selected_index = self.selected_index - 1;
        }
    }

    /// The selected entity, if the selection is within the list.
    pub fn selected_entity_info(&self) -> (r: Option<&EntityInfo>)
        ensures
            self.selected_index < self.entity_infos@.len() ==> r == Some(&self.entity_infos@[self.selected_index as int]),
            self.selected_index >= self.entity_infos@.len() ==> r is None,
    {
        if self.selected_index < self.entity_infos.len() {
            Some(&self.entity_infos[self.selected_index])
        } else {
            None
        }
    }

    /// Expand a collapsed entity, collapse an expanded one.
    pub fn toggle_expanded(&mut self, entity: u64)
        ensures
            old(self).expanded_entities@.contains(entity) ==> final(self).expanded_entities@
                == old(self).expanded_entities@.remove(entity),
            !old(self).expanded_entities@.contains(entity) ==> final(self).expanded_entities@
                == old(self).expanded_entities@.insert(entity),
            final(self).selected_index == old(self).selected_index,
            final(self).visible == old(self).visible,
    {
        if self.expanded_entities.contains(&entity) {
            self.expanded_entities.remove(&entity);
        } else {
            self.expanded_entities.insert(entity);
        }
    }

    /// Scroll the details down one line (saturating).
    pub fn scroll_detail_down(&mut self)
        ensures
            final(self).detail_scroll == if old(self).detail_scroll == usize::MAX {
                usize::MAX as int
            } else {
                old(self).detail_scroll + 1
            },
            final(self).entity_infos == old(self).entity_infos,
            final(self).visible == old(self).visible,
            final(self).selected_index == old(self).selected_index,
    {
        self.detail_scroll = self.detail_scroll.saturating_add(1);
    }

    /// Scroll the details up one line (saturating).
    pub fn scroll_detail_up(&mut self)
        ensures
            final(self).detail_scroll == if old(self).detail_scroll == 0 {
                0
            } else {
                old(self).detail_scroll - 1
            },
            final(self).entity_infos == old(self).entity_infos,
            final(self).visible == old(self).visible,
            final(self).selected_index == old(self).selected_index,
    {
        self.detail_scroll = self.detail_scroll.saturating_sub(1);
    }
}

/// Handle a key outside search mode: move the selection, collapse or
/// expand the selected entity, scroll the details, start a search, close.
pub fn handle_navigation_input(state: &mut BevyInspectorState, key: InspectorKey)
    ensures
        match key {
            InspectorKey::Char('j') | InspectorKey::Down => final(state).selected_index == (if old(state).entity_infos@.len() == 0 {
                old(state).selected_index as int
            } else if old(state).selected_index + 1 < old(state).entity_infos@.len() {
                old(state).selected_index + 1
            } else {
                old(state).entity_infos@.len() - 1
            }),
            InspectorKey::Char('k') | InspectorKey::Up => final(state).selected_index == (if old(state).selected_index > 0 {
                old(state).selected_index - 1
            } else {
                0
            }),
            InspectorKey::Char('h') | InspectorKey::Left => final(state).expanded_entities@ == (if old(state).selected_index
                < old(state).entity_infos@.len() {
                old(state).expanded_entities@.remove(old(state).entity_infos@[old(state).selected_index as int].entity)
            } else {
                old(state).expanded_entities@
            }),
            InspectorKey::Char('l') | InspectorKey::Right => final(state).expanded_entities@ == (if old(state).selected_index
                < old(state).entity_infos@.len() {
                old(state).expanded_entities@.insert(old(state).entity_infos@[old(state).selected_index as int].entity)
            } else {
                old(state).expanded_entities@
            }),
            InspectorKey::Char('/') => final(state).search_mode && final(state).search_query@.len() == 0,
            InspectorKey::Esc => !final(state).visible,
            _ => true,
        },
        final(state).entity_infos == old(state).entity_infos,
{
    match key {
        InspectorKey::Char('j') | InspectorKey::Down => state.select_next(),
        InspectorKey::Char('k') | InspectorKey::Up => state.select_prev(),
        InspectorKey::Char('h') | InspectorKey::Left => {
            if state.selected_index < state.entity_infos.len() {
                let e = state.entity_infos[state.selected_index].entity;
                state.expanded_entities.remove(&e);
            }
        },
        InspectorKey::Char('l') | InspectorKey::Right => {
            if state.selected_index < state.entity_infos.len() {
                let e = state.entity_infos[state.selected_index].entity;
                state.expanded_entities.insert(e);
            }
        },
        InspectorKey::Char('d') => state.scroll_detail_down(),
        InspectorKey::Char('u') => state.scroll_detail_up(),
        InspectorKey::Char('/') => {
            state.search_mode = true;
            state.search_query = String::new();
        },
        InspectorKey::Esc => {
            state.visible = false;
        },
        _ => {},
    }
}

/// Handle a key in search mode: characters extend the query, Backspace
/// deletes its last character, Enter ends the search, Escape ends and clears
/// it.
pub fn handle_search_input(state: &mut BevyInspectorState, key: InspectorKey)
    ensures
        match key {
            InspectorKey::Char(c) => final(state).search_query@ == old(state).search_query@.push(c)
                && final(state).search_mode == old(state).search_mode,
            InspectorKey::Backspace => final(state).search_query@ == (if old(state).search_query@.len() == 0 {
                old(state).search_query@
            } else {
                old(state).search_query@.drop_last()
            }) && final(state).search_mode == old(state).search_mode,
            InspectorKey::Enter => !final(state).search_mode && final(state).search_query == old(state).search_query,
            InspectorKey::Esc => !final(state).search_mode && final(state).search_query@.len() == 0,
            _ => final(state).search_query == old(state).search_query && final(state).search_mode == old(state).search_mode,
        },
        final(state).entity_infos == old(state).entity_infos,
        final(state).visible == old(state).visible,
        final(state).selected_index == old(state).selected_index,
{
    match key {
        InspectorKey::Char(c) => push_char(&mut state.search_query, c),
        InspectorKey::Backspace => {
            let chars = chars_of(state.search_query.as_str());
            if chars.len() > 0 {
                let mut q = String::new();
                let n = chars.len() - 1;
                crate::text::push_chars(&mut q, &chars.as_slice()[0..n]);
                proof {
                    assert(chars@.subrange(0, n as int) =~= chars@.drop_last());
                    assert(Seq::<char>::empty() + chars@.drop_last() =~= chars@.drop_last());
                }
                state.search_query = q;
            }
        },
        InspectorKey::Enter => {
            state.search_mode = false;
        },
        InspectorKey::Esc => {
            state.search_mode = false;
            state.search_query = String::new();
        },
        _ => {},
    }
}

// ==================== Entity list ====================

/// The ordering key of an entity: its index, then its generation.
pub open spec fn entity_key(e: EntityInfo) -> int {
    e.index * 0x1_0000_0000 + e.generation
}

/// An entity matches a search when its lower-cased name or displayed
/// identifier contains the lower-cased query.
pub open spec fn entity_matches(e: EntityInfo, query: Seq<char>) -> bool {
    let q = unicode_lowercase(query);
    contains_seq(unicode_lowercase(e.name@), q) || contains_seq(unicode_lowercase(e.id_text@), q)
}

/// `order` lists every index of `v` once, by entity key, equal keys in the
/// order given.
pub open spec fn is_entity_order(v: Seq<EntityInfo>, order: Seq<usize>) -> bool {
    &&& order.len() == v.len()
    &&& forall|k: int| 0 <= k < order.len() ==> order[k] < v.len()
    &&& forall|j: usize| j < v.len() ==> #[trigger] order.contains(j)
    &&& forall|a: int, b: int|
        0 <= a < b < order.len() ==> entity_key(v[#[trigger] order[a] as int]) < entity_key(v[#[trigger] order[b] as int])
            || (entity_key(v[order[a] as int]) == entity_key(v[order[b] as int]) && order[a] < order[b])
}

/// The entities of `v` in the order `order`.
pub open spec fn in_order(v: Seq<EntityInfo>, order: Seq<usize>) -> Seq<EntityInfo> {
    order.map_values(|j: usize| v[j as int])
}

/// Entities in entity order run by index upwards, and by generation
/// upwards among entities of one index.
pub proof fn lemma_entity_order_fields(v: Seq<EntityInfo>, order: Seq<usize>, i: int, j: int)
    requires
        is_entity_order(v, order),
        0 <= i < j < order.len(),
    ensures
        ({
            let a = in_order(v, order)[i];
            let b = in_order(v, order)[j];
            a.index < b.index || (a.index == b.index && a.generation <= b.generation)
        }),
{
    let a = in_order(v, order)[i];
    let b = in_order(v, order)[j];
    assert(a == v[order[i] as int]);
    assert(b == v[order[j] as int]);
    assert(entity_key(a) <= entity_key(b));
    if a.index > b.index {
        assert(a.index * 0x1_0000_0000 >= b.index * 0x1_0000_0000 + 0x1_0000_0000) by (nonlinear_arith)
            requires
                a.index > b.index,
        ;
    }
}

/// The test of `entity_matches` against one query.
pub open spec fn matching(query: Seq<char>) -> spec_fn(EntityInfo) -> bool {
    |e: EntityInfo| entity_matches(e, query)
}

/// What the inspector lists of entities already in order: all of them for
/// an empty query, else those that match it.
pub open spec fn listed_entities(sorted: Seq<EntityInfo>, query: Seq<char>) -> Seq<EntityInfo> {
    if query.len() == 0 {
        sorted
    } else {
        sorted.filter(matching(query))
    }
}

/// Sort the entities by key, keeping equal keys in their order (an
/// insertion sort that moves each entity into place).
fn sort_entities(infos: Vec<EntityInfo>) -> (sorted: Vec<EntityInfo>)
    ensures
        exists|order: Seq<usize>| is_entity_order(infos@, order) && sorted@ == in_order(infos@, order),
{
    let ghost v = infos@;
    let mut rest = infos;
    let mut sorted: Vec<EntityInfo> = Vec::new();
    let ghost mut order: Seq<usize> = Seq::empty();
    let n = rest.len();
    let mut i: usize = 0;
    while i < n
        invariant
            n == v.len(),
            i <= n,
            rest@ == v.subrange(i as int, n as int),
            order.len() == i,
            sorted@.len() == i,
            forall|m: int| 0 <= m < i ==> #[trigger] sorted@[m] == v[order[m] as int],
            forall|k: int| 0 <= k < order.len() ==> order[k] < i,
            forall|j: usize| j < i ==> #[trigger] order.contains(j),
            forall|a: int, b: int|
                0 <= a < b < order.len() ==> entity_key(v[#[trigger] order[a] as int]) < entity_key(v[#[trigger] order[b] as int])
                    || (entity_key(v[order[a] as int]) == entity_key(v[order[b] as int]) && order[a] < order[b]),
        decreases n - i,
    {
        let e = rest.remove(0);
        assert(e == v[i as int]);
        let ki: u64 = (e.index as u64) * 0x1_0000_0000u64 + e.generation as u64;
        let mut k: usize = 0;
        while k < sorted.len() && (sorted[k].index as u64) * 0x1_0000_0000u64 + sorted[k].generation as u64 <= ki
            invariant
                i < v.len(),
                k <= sorted@.len(),
                sorted@.len() == order.len(),
                ki == entity_key(v[i as int]),
                forall|m: int| 0 <= m < sorted@.len() ==> #[trigger] sorted@[m] == v[order[m] as int],
                forall|m: int| 0 <= m < k ==> entity_key(v[#[trigger] order[m] as int]) <= entity_key(v[i as int]),
            decreases sorted.len() - k,
        {
            assert(sorted@[k as int] == v[order[k as int] as int]);
            k = k + 1;
        }
        let ghost old_order = order;
        let ghost old_sorted = sorted@;
        sorted.insert(k, e);
        proof {
            order = order.insert(k as int, i);
            let no = order;
            assert forall|m: int| 0 <= m < i + 1 implies #[trigger] sorted@[m] == v[no[m] as int] by {
                if m < k {
                    assert(sorted@[m] == old_sorted[m] && no[m] == old_order[m]);
                } else if m > k {
                    assert(sorted@[m] == old_sorted[m - 1] && no[m] == old_order[m - 1]);
                }
            }
            assert forall|a: int, b: int| 0 <= a < b < no.len() implies entity_key(v[#[trigger] no[a] as int]) < entity_key(v[#[trigger] no[b] as int])
                || (entity_key(v[no[a] as int]) == entity_key(v[no[b] as int]) && no[a] < no[b]) by {
                if b < k {
                    assert(no[a] == old_order[a] && no[b] == old_order[b]);
                } else if b == k {
                    assert(no[a] == old_order[a]);
                } else if a == k {
                    assert(no[b] == old_order[b - 1]);
                    if b - 1 > k {
                        assert(entity_key(v[old_order[k as int] as int]) <= entity_key(v[old_order[b - 1] as int]));
                    }
                } else if a < k {
                    assert(no[a] == old_order[a] && no[b] == old_order[b - 1]);
                } else {
                    assert(no[a] == old_order[a - 1] && no[b] == old_order[b - 1]);
                }
            }
            assert forall|j: usize| j < i + 1 implies #[trigger] no.contains(j) by {
                if j == i {
                    assert(no[k as int] == i);
                } else {
                    assert(old_order.contains(j));
                    let w = choose|w: int| 0 <= w < old_order.len() && old_order[w] == j;
                    if w < k {
                        assert(no[w] == j);
                    } else {
                        assert(no[w + 1] == j);
                    }
                }
            }
        }
        i = i + 1;
    }
    proof {
        assert(sorted@ =~= in_order(v, order));
        assert(is_entity_order(v, order));
    }
    sorted
}

/// Keep the entities that match the query whose lower-cased form is `q`.
fn keep_matching(sorted: Vec<EntityInfo>, q: &[char], Ghost(query): Ghost<Seq<char>>) -> (kept: Vec<EntityInfo>)
    requires
        q@ == unicode_lowercase(query),
    ensures
        kept@ == sorted@.filter(matching(query)),
{
    let ghost s = sorted@;
    let mut rest = sorted;
    let mut kept: Vec<EntityInfo> = Vec::new();
    let n = rest.len();
    let mut i: usize = 0;
    while i < n
        invariant
            n == s.len(),
            i <= n,
            q@ == unicode_lowercase(query),
            rest@ == s.subrange(i as int, n as int),
            kept@ == s.subrange(0, i as int).filter(matching(query)),
        decreases n - i,
    {
        let e = rest.remove(0);
        assert(e == s[i as int]);
        proof {
            reveal(Seq::filter);
            assert(s.subrange(0, i + 1).drop_last() =~= s.subrange(0, i as int));
            assert(s.subrange(0, i + 1).last() == e);
        }
        if matches_lowered(&e, q) {
            kept.push(e);
        }
        i = i + 1;
    }
    assert(s.subrange(0, n as int) =~= s);
    kept
}

/// Replace the listed entities by `infos` while the inspector is visible:
/// sorted by index and generation, kept only where they match a non-empty
/// search, with the selection pulled back onto the last entity when it lies
/// past the end of a non-empty list. A hidden inspector is left as it is.
pub fn refresh_entity_list(state: &mut BevyInspectorState, infos: Vec<EntityInfo>)
    ensures
        !old(state).visible ==> final(state).entity_infos == old(state).entity_infos
            && final(state).selected_index == old(state).selected_index,
        old(state).visible ==> exists|order: Seq<usize>|
            is_entity_order(infos@, order) && final(state).entity_infos@ == listed_entities(
                in_order(infos@, order),
                old(state).search_query@,
            ),
        old(state).visible ==> final(state).selected_index == (if old(state).selected_index
            >= final(state).entity_infos@.len() && final(state).entity_infos@.len() > 0 {
            final(state).entity_infos@.len() - 1
        } else {
            old(state).selected_index as int
        }),
        final(state).visible == old(state).visible,
        final(state).search_query == old(state).search_query,
        final(state).search_mode == old(state).search_mode,
        final(state).view_mode == old(state).view_mode,
        final(state).detail_scroll == old(state).detail_scroll,
        final(state).expanded_entities@ == old(state).expanded_entities@,
{
    if !state.visible {
        return;
    }
    let sorted = sort_entities(infos);
    let ghost query = state.search_query@;
    let qchars = chars_of(state.search_query.as_str());
    let listed = if qchars.len() == 0 {
        sorted
    } else {
        let lowered = to_lowercase(state.search_query.as_str());
        let lq = chars_of(lowered.as_str());
        keep_matching(sorted, lq.as_slice(), Ghost(query))
    };
    if state.selected_index >= listed.len() && listed.len() > 0 {
        state.selected_index = listed.len() - 1;
    }
    state.entity_infos = listed;
}

/// Whether an entity matches a lower-cased query.
fn matches_lowered(e: &EntityInfo, q: &[char]) -> (r: bool)
    ensures
        r == (contains_seq(unicode_lowercase(e.name@), q@) || contains_seq(unicode_lowercase(e.id_text@), q@)),
{
    let n = to_lowercase(e.name.as_str());
    let nc = chars_of(n.as_str());
    if chars_contain(nc.as_slice(), q) {
        return true;
    }
    let t = to_lowercase(e.id_text.as_str());
    let tc = chars_of(t.as_str());
    chars_contain(tc.as_slice(), q)
}

} // verus!
