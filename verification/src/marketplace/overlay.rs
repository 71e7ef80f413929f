//! Marketplace view state: visibility, the current view, the selected plugin
//! and its scrolling, the category tabs, and the handling of one frame of
//! keyboard input.
use vstd::prelude::*;
use crate::input::keys::{typed_char, typed_key_char, Key, KeyboardState};
use crate::marketplace::search::{apply_filters, passing, plugin_views, sorted_by, texts, PluginInfo, SearchState};
use crate::text::{dec_digits, push_char, str_eq, string_of, u64_to_decimal, chars_of};

verus! {

/// Current view in the marketplace.
#[derive(Debug, Clone, Copy, PartialEq, Eq, Structural)]
pub enum MarketplaceView {
    /// List of available plugins
    PluginList,
    /// Details of the selected plugin
    PluginDetails,
    /// Installation progress
    Installing,
}

/// Number of plugin cards the list shows at once.
pub const VISIBLE_ITEMS: usize = 10;

/// Marketplace UI state.
#[derive(Debug, Clone)]
pub struct MarketplaceState {
    /// Whether the marketplace is visible
    pub visible: bool,
    /// Current view
    pub view: MarketplaceView,
    /// Search and filter state
    pub search: SearchState,
    /// Selected plugin index
    pub selected_index: usize,
    /// Scroll offset of the plugin list
    pub scroll_offset: usize,
    /// Filtered plugin list
    pub filtered_plugins: Vec<PluginInfo>,
    /// Selected category tab
    pub category: String,
    /// Available categories
    pub categories: Vec<String>,
}

/// The categories offered, in tab order.
pub open spec fn default_categories() -> Seq<Seq<char>> {
    seq!["All"@, "Prompt"@, "Editor"@, "VCS"@, "DevOps"@, "Network"@]
}

/// The scroll offset that keeps `sel` in view: scrolled up to it when it is
/// above, down so that it is the last visible item when it is below.
pub open spec fn scroll_for(sel: usize, scroll: usize) -> usize {
    if sel < scroll {
        sel
    } else if sel >= scroll + VISIBLE_ITEMS {
        (sel - (VISIBLE_ITEMS - 1)) as usize
    } else {
        scroll
    }
}

/// The index of the first occurrence of `c` in `cats`, or 0 when absent.
pub open spec fn category_index(cats: Seq<Seq<char>>, c: Seq<char>) -> int
    decreases cats.len(),
{
    if cats.len() == 0 {
        0
    } else if cats.last() == c && !cats.drop_last().contains(c) {
        cats.len() - 1
    } else {
        category_index(cats.drop_last(), c)
    }
}

/// The group of three digits ends after the character at `i` of `d`: a
/// comma follows it.
pub open spec fn comma_after(d: Seq<char>, i: int) -> bool {
    i < d.len() - 1 && (d.len() - 1 - i) % 3 == 0
}

/// The first `n` characters of `d`, with a comma after each that ends a group
/// of three digits counted from the right.
pub open spec fn grouped(d: Seq<char>, n: nat) -> Seq<char>
    decreases n,
{
    if n == 0 {
        seq![]
    } else {
        let prev = grouped(d, (n - 1) as nat) + seq![d[n - 1]];
        if comma_after(d, n - 1) {
            prev + seq![',']
        } else {
            prev
        }
    }
}

/// Format a number with commas between groups of three digits.
pub fn format_number(n: u64) -> (r: String)
    ensures
        r@ == grouped(dec_digits(n as nat), dec_digits(n as nat).len()),
{
    let s = u64_to_decimal(n);
    let d = chars_of(s.as_str());
    let mut r = String::new();
    let mut i: usize = 0;
    while i < d.len()
        invariant
            i <= d@.len(),
            r@ == grouped(d@, i as nat),
        decreases d.len() - i,
    {
        push_char(&mut r, d[i]);
        if i < d.len() - 1 && (d.len() - 1 - i) % 3 == 0 {
            push_char(&mut r, ',');
        }
        i = i + 1;
    }
    r
}

/// The state after selecting the next plugin: the selection moves down,
/// wrapping to the first, and the list scrolls to keep it visible.
pub open spec fn after_select_next(s: MarketplaceState) -> MarketplaceState {
    let n = s.filtered_plugins@.len();
    if n == 0 {
        s
    } else {
        let sel = ((s.selected_index + 1) % (n as int)) as usize;
        MarketplaceState { selected_index: sel, scroll_offset: scroll_for(sel, s.scroll_offset), ..s }
    }
}

/// The state after selecting the previous plugin: the selection moves up,
/// wrapping to the last, and the list scrolls to keep it visible.
pub open spec fn after_select_previous(s: MarketplaceState) -> MarketplaceState {
    let n = s.filtered_plugins@.len();
    if n == 0 {
        s
    } else {
        let sel = (if s.selected_index == 0 { n - 1 } else { s.selected_index - 1 }) as usize;
        MarketplaceState { selected_index: sel, scroll_offset: scroll_for(sel, s.scroll_offset), ..s }
    }
}

/// The state after moving to the next category tab, wrapping to the first.
pub open spec fn after_next_category(s: MarketplaceState) -> MarketplaceState {
    let i = category_index(texts(s.categories@), s.category@);
    MarketplaceState { category: s.categories@[(i + 1) % (s.categories@.len() as int)], ..s }
}

/// The state after moving to the previous category tab, wrapping to the
/// last.
pub open spec fn after_prev_category(s: MarketplaceState) -> MarketplaceState {
    let i = category_index(texts(s.categories@), s.category@);
    MarketplaceState {
        category: s.categories@[if i == 0 { s.categories@.len() - 1 } else { i - 1 }],
        ..s
    }
}

impl MarketplaceState {
    /// Hidden, on the plugin list, in the "All" category, nothing selected.
    pub fn default() -> (s: Self)
        ensures
            !s.visible,
            s.view == MarketplaceView::PluginList,
            s.search.query@.len() == 0 && !s.search.focused && s.search.tag_filter is None,
            s.selected_index == 0,
            s.scroll_offset == 0,
            s.filtered_plugins@.len() == 0,
            s.category@ == "All"@,
            texts(s.categories@) == default_categories(),
    {
        let categories = vec![
            string_of("All"),
            string_of("Prompt"),
            string_of("Editor"),
            string_of("VCS"),
            string_of("DevOps"),
            string_of("Network"),
        ];
        proof {
            assert(texts(categories@) =~= default_categories());
        }
        MarketplaceState {
            visible: false,
            view: MarketplaceView::PluginList,
            search: SearchState::default(),
            selected_index: 0,
            scroll_offset: 0,
            filtered_plugins: Vec::new(),
            category: string_of("All"),
            categories,
        }
    }

    /// Reset the selection, search, category and view, as when closing.
    pub fn reset(&mut self)
        ensures
            final(self).selected_index == 0,
            final(self).scroll_offset == 0,
            final(self).search.query@.len() == 0,
            !final(self).search.focused,
            final(self).search.tag_filter is None,
            final(self).search.sort == old(self).search.sort,
            final(self).search.min_rating_key == old(self).search.min_rating_key,
            final(self).category@ == "All"@,
            final(self).view == MarketplaceView::PluginList,
            final(self).visible == old(self).visible,
            final(self).filtered_plugins == old(self).filtered_plugins,
            final(self).categories == old(self).categories,
    {
        self.selected_index = 0;
        self.scroll_offset = 0;
        self.search.clear();
        self.category = string_of("All");
        self.view = MarketplaceView::PluginList;
    }

    /// The selected plugin, if the selection is within the list.
    pub fn selected_plugin(&self) -> (p: Option<&PluginInfo>)
        ensures
            self.selected_index < self.filtered_plugins@.len() ==> p == Some(
                &self.filtered_plugins@[self.selected_index as int],
            ),
            self.selected_index >= self.filtered_plugins@.len() ==> p is None,
    {
        if self.selected_index < self.filtered_plugins.len() {
            Some(&self.filtered_plugins[self.selected_index])
        } else {
            None
        }
    }

    /// Scroll so that the selected plugin is visible.
    fn adjust_scroll(&mut self)
        ensures
            final(self).scroll_offset == scroll_for(old(self).selected_index, old(self).scroll_offset),
            *final(self) == (MarketplaceState { scroll_offset: final(self).scroll_offset, ..*old(self) }),
    {
        if self.selected_index < self.scroll_offset {
            self.scroll_offset = self.selected_index;
        } else if self.selected_index - self.scroll_offset >= VISIBLE_ITEMS {
            self.scroll_offset = self.selected_index - (VISIBLE_ITEMS - 1);
        }
    }

    /// Select the next plugin, wrapping to the first.
    pub fn select_next(&mut self)
        requires
            old(self).selected_index < usize::MAX,
        ensures
            *final(self) == after_select_next(*old(self)),
    {
        if self.filtered_plugins.len() > 0 {
            self.selected_index = (self.selected_index + 1) % self.filtered_plugins.len();
            self.adjust_scroll();
        }
    }

    /// Select the previous plugin, wrapping to the last.
    pub fn select_previous(&mut self)
        ensures
            *final(self) == after_select_previous(*old(self)),
    {
        if self.filtered_plugins.len() > 0 {
            self.selected_index = if self.selected_index == 0 {
                self.filtered_plugins.len() - 1
            } else {
                self.selected_index - 1
            };
            self.adjust_scroll();
        }
    }

    /// Index of the current category among the categories (0 when absent).
    fn category_position(&self) -> (i: usize)
        ensures
            i == category_index(texts(self.categories@), self.category@),
            self.categories@.len() > 0 ==> i < self.categories@.len(),
    {
        let ghost cs = texts(self.categories@);
        let mut i: usize = 0;
        while i < self.categories.len()
            invariant
                cs == texts(self.categories@),
                i <= cs.len(),
                !cs.take(i as int).contains(self.category@),
            decreases self.categories.len() - i,
        {
            if str_eq(self.categories[i].as_str(), self.category.as_str()) {
                proof {
                    lemma_category_index_first(cs, self.category@, i as int);
                }
                return i;
            }
            proof {
                assert(cs.take(i + 1) =~= cs.take(i as int).push(cs[i as int]));
            }
            i = i + 1;
        }
        proof {
            assert(cs.take(cs.len() as int) =~= cs);
            lemma_category_index_absent(cs, self.category@);
        }
        0
    }

    /// Select the next category, wrapping to the first.
    pub fn next_category(&mut self)
        requires
            old(self).categories@.len() > 0,
        ensures
            *final(self) == after_next_category(*old(self)),
    {
        let current = self.category_position();
        let len = self.categories.len();
        let next = (current + 1) % len;
        self.category = self.categories[next].clone();
    }

    /// Select the previous category, wrapping to the last.
    pub fn prev_category(&mut self)
        requires
            old(self).categories@.len() > 0,
        ensures
            *final(self) == after_prev_category(*old(self)),
    {
        let current = self.category_position();
        let prev = if current == 0 {
            self.categories.len() - 1
        } else {
            current - 1
        };
        self.category = self.categories[prev].clone();
    }
}

/// The first occurrence is found at `i` when `c` is there and not before.
proof fn lemma_category_index_first(cats: Seq<Seq<char>>, c: Seq<char>, i: int)
    requires
        0 <= i < cats.len(),
        cats[i] == c,
        !cats.take(i).contains(c),
    ensures
        category_index(cats, c) == i,
    decreases cats.len(),
{
    if i < cats.len() - 1 {
        assert(cats.drop_last().take(i) =~= cats.take(i));
        assert(cats.drop_last()[i] == c);
        assert(cats.drop_last().contains(c));
        lemma_category_index_first(cats.drop_last(), c, i);
    } else {
        assert(cats.drop_last() =~= cats.take(i));
    }
}

/// Without an occurrence the index is 0.
proof fn lemma_category_index_absent(cats: Seq<Seq<char>>, c: Seq<char>)
    requires
        !cats.contains(c),
    ensures
        category_index(cats, c) == 0,
    decreases cats.len(),
{
    if cats.len() > 0 {
        assert(cats.last() != c) by {
            assert(cats[cats.len() - 1] == cats.last());
        }
        assert forall|x: Seq<char>| cats.drop_last().contains(x) implies cats.contains(x) by {
            let j = choose|j: int| 0 <= j < cats.drop_last().len() && cats.drop_last()[j] == x;
            assert(cats[j] == x);
        }
        lemma_category_index_absent(cats.drop_last(), c);
    }
}

/// Selecting the next plugin and then the previous one comes back to the
/// plugin that was selected, when the selection lies within a non-empty list.
pub proof fn lemma_select_next_then_previous(s: MarketplaceState)
    requires
        s.filtered_plugins@.len() > 0,
        s.selected_index < s.filtered_plugins@.len(),
    ensures
        after_select_previous(after_select_next(s)).selected_index == s.selected_index,
        after_select_previous(after_select_next(s)).filtered_plugins == s.filtered_plugins,
{
    let n = s.filtered_plugins@.len() as int;
    assert(n <= usize::MAX) by {
        assert(s.filtered_plugins.len() == s.filtered_plugins@.len());
    }
    let t = after_select_next(s);
    if s.selected_index + 1 < n {
        vstd::arithmetic::div_mod::lemma_small_mod((s.selected_index + 1) as nat, n as nat);
        assert(t.selected_index == s.selected_index + 1);
    } else {
        vstd::arithmetic::div_mod::lemma_mod_self_0(n);
        assert(t.selected_index == 0);
    }
    assert(t.filtered_plugins == s.filtered_plugins);
}

/// Moving to the next category and back returns to the category one started
/// from, when it is among the categories and they are distinct.
pub proof fn lemma_next_prev_category(s: MarketplaceState)
    requires
        s.categories@.len() > 0,
        texts(s.categories@).no_duplicates(),
        texts(s.categories@).contains(s.category@),
    ensures
        after_prev_category(after_next_category(s)).category@ == s.category@,
        after_prev_category(after_next_category(s)).categories == s.categories,
{
    let cats = texts(s.categories@);
    let c = s.category@;
    let k = choose|k: int| 0 <= k < cats.len() && cats[k] == c;
    assert(!cats.take(k).contains(c)) by {
        if cats.take(k).contains(c) {
            let j = choose|j: int| 0 <= j < cats.take(k).len() && cats.take(k)[j] == c;
            assert(cats[j] == cats[k]);
        }
    }
    lemma_category_index_first(cats, c, k);
    let m = (k + 1) % (cats.len() as int);
    if k + 1 < cats.len() {
        vstd::arithmetic::div_mod::lemma_small_mod((k + 1) as nat, cats.len());
    } else {
        vstd::arithmetic::div_mod::lemma_mod_self_0(cats.len() as int);
    }
    let n = cats[m];
    assert(!cats.take(m).contains(n)) by {
        if cats.take(m).contains(n) {
            let j = choose|j: int| 0 <= j < cats.take(m).len() && cats.take(m)[j] == n;
            assert(cats[j] == cats[m]);
        }
    }
    assert(after_next_category(s).category@ == n);
    lemma_category_index_first(cats, n, m);
}

// ==================== Opening, closing, input ====================

/// Events of the marketplace.
#[derive(Debug, Clone)]
pub enum MarketplaceEvent {
    /// Open the marketplace
    Open,
    /// Close the marketplace
    Close,
    /// Toggle marketplace visibility
    Toggle,
    /// Refresh the plugin list from the registry
    Refresh,
    /// Select plugin by index
    SelectPlugin(usize),
    /// View plugin details
    ViewDetails(String),
    /// Search query updated
    SearchUpdated(String),
    /// Filter category changed
    CategoryChanged(String),
}

/// Request to install a plugin.
#[derive(Debug, Clone)]
pub struct InstallPluginEvent {
    /// Plugin name
    pub name: String,
    /// Specific version (the latest when `None`)
    pub version: Option<String>,
    /// Whether this is an update
    pub is_update: bool,
}

/// Show the marketplace; returns whether it was hidden (and a refresh of
/// the plugin list is due).
pub fn open_marketplace(state: &mut MarketplaceState) -> (opened: bool)
    ensures
        opened == !old(state).visible,
        *final(state) == (MarketplaceState { visible: true, ..*old(state) }),
{
    if state.visible {
        return false;
    }
    state.visible = true;
    true
}

/// Hide the marketplace and reset its state; returns whether it was visible.
pub fn close_marketplace(state: &mut MarketplaceState) -> (closed: bool)
    ensures
        closed == old(state).visible,
        !closed ==> *final(state) == *old(state),
        closed ==> !final(state).visible && final(state).selected_index == 0
            && final(state).scroll_offset == 0 && final(state).search.query@.len() == 0
            && !final(state).search.focused && final(state).category@ == "All"@
            && final(state).view == MarketplaceView::PluginList
            && final(state).filtered_plugins == old(state).filtered_plugins,
{
    if !state.visible {
        return false;
    }
    state.visible = false;
    state.reset();
    true
}

/// The event that toggles the marketplace: close when visible, else open.
pub fn toggle_marketplace(state: &MarketplaceState) -> (e: MarketplaceEvent)
    ensures
        state.visible ==> e is Close,
        !state.visible ==> e is Open,
{
    if state.visible {
        MarketplaceEvent::Close
    } else {
        MarketplaceEvent::Open
    }
}

/// `k` was pressed this frame.
pub open spec fn just(kb: KeyboardState, k: Key) -> bool {
    kb.just_pressed@.contains(k)
}

/// `k` is held.
pub open spec fn held(kb: KeyboardState, k: Key) -> bool {
    kb.pressed@.contains(k)
}

/// The install request for the selected plugin, if one is selected.
pub open spec fn selected_install(s: MarketplaceState) -> Option<Seq<char>> {
    if s.selected_index < s.filtered_plugins@.len() {
        Some(s.filtered_plugins@[s.selected_index as int].name@)
    } else {
        None
    }
}

/// What one frame of input does on the plugin list: move the selection,
/// switch categories, focus the search, install or show the selected plugin,
/// refresh. Returns the state, the events sent and the plugin to install.
pub open spec fn list_input(s: MarketplaceState, kb: KeyboardState) -> (MarketplaceState, Seq<Seq<char>>, bool, Option<Seq<char>>) {
    let s1 = if just(kb, Key::ArrowDown) || just(kb, Key::KeyJ) { after_select_next(s) } else { s };
    let s2 = if just(kb, Key::ArrowUp) || just(kb, Key::KeyK) { after_select_previous(s1) } else { s1 };
    let s3 = if just(kb, Key::Tab) { after_next_category(s2) } else { s2 };
    let c3: Seq<Seq<char>> = if just(kb, Key::Tab) { seq![s3.category@] } else { seq![] };
    let s4 = if held(kb, Key::ShiftLeft) && just(kb, Key::Tab) { after_prev_category(s3) } else { s3 };
    let c4 = if held(kb, Key::ShiftLeft) && just(kb, Key::Tab) { c3.push(s4.category@) } else { c3 };
    let s5 = if just(kb, Key::Slash) || (held(kb, Key::ControlLeft) && just(kb, Key::KeyF)) {
        MarketplaceState { search: SearchState { focused: true, ..s4.search }, ..s4 }
    } else {
        s4
    };
    let install = if just(kb, Key::Enter) { selected_install(s5) } else { None };
    let s6 = if install is Some { MarketplaceState { view: MarketplaceView::Installing, ..s5 } } else { s5 };
    let s7 = if just(kb, Key::KeyD) && s6.selected_index < s6.filtered_plugins@.len() {
        MarketplaceState { view: MarketplaceView::PluginDetails, ..s6 }
    } else {
        s6
    };
    (s7, c4, just(kb, Key::KeyR), install)
}

/// What one frame of input does on the details view: go back to the list,
/// or install the selected plugin.
pub open spec fn details_input(s: MarketplaceState, kb: KeyboardState) -> (MarketplaceState, Option<Seq<char>>) {
    let s1 = if just(kb, Key::Escape) || just(kb, Key::KeyQ) || just(kb, Key::Backspace) {
        MarketplaceState { view: MarketplaceView::PluginList, ..s }
    } else {
        s
    };
    let install = if just(kb, Key::Enter) || just(kb, Key::KeyI) { selected_install(s1) } else { None };
    let s2 = if install is Some { MarketplaceState { view: MarketplaceView::Installing, ..s1 } } else { s1 };
    (s2, install)
}

/// The names carried by category-change events, in order.
pub open spec fn category_changes(events: Seq<MarketplaceEvent>) -> Seq<Seq<char>>
    decreases events.len(),
{
    if events.len() == 0 {
        seq![]
    } else {
        let rest = category_changes(events.drop_last());
        match events.last() {
            MarketplaceEvent::CategoryChanged(c) => rest.push(c@),
            _ => rest,
        }
    }
}

/// The events of a frame on the list view: the category changes, then a
/// refresh when asked.
pub open spec fn list_events(events: Seq<MarketplaceEvent>, changes: Seq<Seq<char>>, refresh: bool) -> bool {
    &&& events.len() == changes.len() + (if refresh { 1int } else { 0int })
    &&& forall|i: int| 0 <= i < changes.len() ==> ((#[trigger] events[i]) matches MarketplaceEvent::CategoryChanged(c) && c@ == changes[i])
    &&& refresh ==> events.last() is Refresh
}

/// One frame of input on the plugin list.
fn list_view_input(state: &mut MarketplaceState, keyboard: &KeyboardState) -> (r: (
    Vec<MarketplaceEvent>,
    Option<InstallPluginEvent>,
))
    requires
        old(state).selected_index < usize::MAX,
        keyboard.just_pressed@.contains(Key::Tab) ==> old(state).categories@.len() > 0,
    ensures
        ({
            let (s, changes, refresh, install) = list_input(*old(state), *keyboard);
            &&& *final(state) == s
            &&& list_events(r.0@, changes, refresh)
            &&& match install {
                Some(n) => (r.1 matches Some(ev) && ev.name@ == n && ev.version is None && !ev.is_update),
                None => r.1 is None,
            }
        }),
{
    let mut events: Vec<MarketplaceEvent> = Vec::new();
    let mut install: Option<InstallPluginEvent> = None;
    let n = state.filtered_plugins.len();
    if keyboard.just_pressed(Key::ArrowDown) || keyboard.just_pressed(Key::KeyJ) {
        state.select_next();
    }
    if keyboard.just_pressed(Key::ArrowUp) || keyboard.just_pressed(Key::KeyK) {
        proof {
            assert(state.filtered_plugins@.len() == n);
        }
        state.select_previous();
    }
    let ghost mut changes: Seq<Seq<char>> = seq![];
    if keyboard.just_pressed(Key::Tab) {
        state.next_category();
        events.push(MarketplaceEvent::CategoryChanged(state.category.clone()));
        proof {
            changes = changes.push(state.category@);
        }
    }
    if keyboard.pressed(Key::ShiftLeft) && keyboard.just_pressed(Key::Tab) {
        state.prev_category();
        events.push(MarketplaceEvent::CategoryChanged(state.category.clone()));
        proof {
            changes = changes.push(state.category@);
        }
    }
    if keyboard.just_pressed(Key::Slash) || (keyboard.pressed(Key::ControlLeft)
        && keyboard.just_pressed(Key::KeyF)) {
        state.search.focused = true;
    }
    if keyboard.just_pressed(Key::Enter) {
        if let Some(plugin) = state.selected_plugin() {
            install = Some(InstallPluginEvent { name: plugin.name.clone(), version: None, is_update: false });
            state.view = MarketplaceView::Installing;
        }
    }
    if keyboard.just_pressed(Key::KeyD) {
        if state.selected_plugin().is_some() {
            state.view = MarketplaceView::PluginDetails;
        }
    }
    if keyboard.just_pressed(Key::KeyR) {
        events.push(MarketplaceEvent::Refresh);
    }
    (events, install)
}

/// One frame of input on the details view.
fn details_view_input(state: &mut MarketplaceState, keyboard: &KeyboardState) -> (install: Option<
    InstallPluginEvent,
>)
    ensures
        ({
            let (s, inst) = details_input(*old(state), *keyboard);
            &&& *final(state) == s
            &&& match inst {
                Some(n) => (install matches Some(ev) && ev.name@ == n && ev.version is None && !ev.is_update),
                None => install is None,
            }
        }),
{
    let mut install: Option<InstallPluginEvent> = None;
    if keyboard.just_pressed(Key::Escape) || keyboard.just_pressed(Key::KeyQ)
        || keyboard.just_pressed(Key::Backspace) {
        state.view = MarketplaceView::PluginList;
    }
    if keyboard.just_pressed(Key::Enter) || keyboard.just_pressed(Key::KeyI) {
        if let Some(plugin) = state.selected_plugin() {
            install = Some(InstallPluginEvent { name: plugin.name.clone(), version: None, is_update: false });
            state.view = MarketplaceView::Installing;
        }
    }
    install
}

/// Whether the frame's input closes the marketplace: Ctrl+Shift+M, Escape
/// or `q`.
pub open spec fn closing_input(kb: KeyboardState) -> bool {
    (held(kb, Key::ControlLeft) && held(kb, Key::ShiftLeft) && just(kb, Key::KeyM))
        || just(kb, Key::Escape) || just(kb, Key::KeyQ)
}

/// Handles one frame of keyboard input on the visible marketplace: the
/// state changes, the events to send, and the plugin to install.
pub fn handle_marketplace_input(state: &mut MarketplaceState, keyboard: &KeyboardState) -> (r: (
    Vec<MarketplaceEvent>,
    Option<InstallPluginEvent>,
))
    requires
        old(state).selected_index < usize::MAX,
        keyboard.just_pressed@.contains(Key::Tab) ==> old(state).categories@.len() > 0,
    ensures
        !old(state).visible ==> *final(state) == *old(state) && r.0@.len() == 0 && r.1 is None,
        old(state).visible && closing_input(*keyboard) ==> *final(state) == *old(state)
            && r.0@.len() == 1 && r.0@[0] is Close && r.1 is None,
        old(state).visible && !closing_input(*keyboard) ==> match old(state).view {
            MarketplaceView::PluginList => {
                let (s, changes, refresh, install) = list_input(*old(state), *keyboard);
                &&& *final(state) == s
                &&& list_events(r.0@, changes, refresh)
                &&& match install {
                    Some(n) => (r.1 matches Some(ev) && ev.name@ == n && ev.version is None && !ev.is_update),
                    None => r.1 is None,
                }
            },
            MarketplaceView::PluginDetails => {
                let (s, install) = details_input(*old(state), *keyboard);
                &&& *final(state) == s
                &&& r.0@.len() == 0
                &&& match install {
                    Some(n) => (r.1 matches Some(ev) && ev.name@ == n && ev.version is None && !ev.is_update),
                    None => r.1 is None,
                }
            },
            MarketplaceView::Installing => {
                &&& r.0@.len() == 0
                &&& r.1 is None
                &&& *final(state) == if just(*keyboard, Key::Escape) || just(*keyboard, Key::Enter) {
                    MarketplaceState { view: MarketplaceView::PluginList, ..*old(state) }
                } else {
                    *old(state)
                }
            },
        },
{
    if !state.visible {
        return (Vec::new(), None);
    }
    if (keyboard.pressed(Key::ControlLeft) && keyboard.pressed(Key::ShiftLeft)
        && keyboard.just_pressed(Key::KeyM)) || keyboard.just_pressed(Key::Escape)
        || keyboard.just_pressed(Key::KeyQ) {
        let mut events: Vec<MarketplaceEvent> = Vec::new();
        events.push(MarketplaceEvent::Close);
        return (events, None);
    }
    match state.view {
        MarketplaceView::PluginList => list_view_input(state, keyboard),
        MarketplaceView::PluginDetails => {
            let install = details_view_input(state, keyboard);
            (Vec::new(), install)
        },
        MarketplaceView::Installing => {
            if keyboard.just_pressed(Key::Escape) || keyboard.just_pressed(Key::Enter) {
                state.view = MarketplaceView::PluginList;
            }
            (Vec::new(), None)
        },
    }
}

/// Refilter the plugin list for the current search and category, selecting
/// the first plugin.
pub fn update_filtered_list(state: &mut MarketplaceState, plugins: &[PluginInfo])
    ensures
        sorted_by(
            old(state).search.sort,
            plugin_views(plugins@).filter(passing(old(state).search, old(state).category@)),
            plugin_views(final(state).filtered_plugins@),
        ),
        final(state).selected_index == 0,
        final(state).scroll_offset == 0,
        *final(state) == (MarketplaceState {
            filtered_plugins: final(state).filtered_plugins,
            selected_index: 0,
            scroll_offset: 0,
            ..*old(state)
        }),
{
    state.filtered_plugins = apply_filters(plugins, &state.search, state.category.as_str());
    state.selected_index = 0;
    state.scroll_offset = 0;
}

/// The characters typed by the keys just pressed, in order.
pub open spec fn typed_chars(keys: Seq<Key>, shift: bool) -> Seq<char>
    decreases keys.len(),
{
    if keys.len() == 0 {
        seq![]
    } else {
        let rest = typed_chars(keys.drop_last(), shift);
        match typed_char(keys.last(), shift) {
            Some(c) => rest.push(c),
            None => rest,
        }
    }
}

/// Handles one frame of keyboard input in the focused search bar: Escape and
/// Enter leave the search, Backspace deletes the last character, typed
/// characters are appended; the plugin list is refiltered when the query
/// changes.
pub fn update_search(state: &mut MarketplaceState, plugins: &[PluginInfo], keyboard: &KeyboardState)
    ensures
        !(old(state).visible && old(state).search.focused) ==> *final(state) == *old(state),
        old(state).visible && old(state).search.focused ==> {
            let kb = *keyboard;
            if just(kb, Key::Escape) {
                *final(state) == (MarketplaceState { search: SearchState { focused: false, ..old(state).search }, ..*old(state) })
            } else if just(kb, Key::Backspace) {
                &&& final(state).search.query@ == (if old(state).search.query@.len() == 0 {
                    old(state).search.query@
                } else {
                    old(state).search.query@.drop_last()
                })
                &&& final(state).search.focused
                &&& final(state).selected_index == 0 && final(state).scroll_offset == 0
                &&& sorted_by(
                    old(state).search.sort,
                    plugin_views(plugins@).filter(passing(final(state).search, old(state).category@)),
                    plugin_views(final(state).filtered_plugins@),
                )
            } else if just(kb, Key::Enter) {
                *final(state) == (MarketplaceState { search: SearchState { focused: false, ..old(state).search }, ..*old(state) })
            } else {
                let typed = typed_chars(kb.just_pressed@, held(kb, Key::ShiftLeft));
                &&& final(state).search.query@ == old(state).search.query@ + typed
                &&& typed.len() == 0 ==> *final(state) == *old(state)
                &&& typed.len() > 0 ==> final(state).selected_index == 0 && final(state).scroll_offset == 0
                    && sorted_by(
                    old(state).search.sort,
                    plugin_views(plugins@).filter(passing(final(state).search, old(state).category@)),
                    plugin_views(final(state).filtered_plugins@),
                )
            }
        },
{
    if !state.visible || !state.search.focused {
        return;
    }
    if keyboard.just_pressed(Key::Escape) {
        state.search.focused = false;
        return;
    }
    if keyboard.just_pressed(Key::Backspace) {
        state.search.pop_char();
        update_filtered_list(state, plugins);
        return;
    }
    if keyboard.just_pressed(Key::Enter) {
        state.search.focused = false;
        return;
    }
    let shift = keyboard.pressed(Key::ShiftLeft);
    let mut changed = false;
    let ghost start = *state;
    let mut i: usize = 0;
    while i < keyboard.just_pressed.len()
        invariant
            i <= keyboard.just_pressed@.len(),
            state.search.query@ == start.search.query@ + typed_chars(keyboard.just_pressed@.take(i as int), shift),
            changed == (typed_chars(keyboard.just_pressed@.take(i as int), shift).len() > 0),
            !changed ==> *state == start,
            changed ==> *state == (MarketplaceState { search: SearchState { query: state.search.query, ..start.search }, ..start }),
        decreases keyboard.just_pressed.len() - i,
    {
        proof {
            assert(keyboard.just_pressed@.take(i + 1).drop_last() =~= keyboard.just_pressed@.take(i as int));
        }
        if let Some(c) = typed_key_char(keyboard.just_pressed[i], shift) {
            state.search.push_char(c);
            changed = true;
        }
        i = i + 1;
    }
    proof {
        assert(keyboard.just_pressed@.take(keyboard.just_pressed@.len() as int) =~= keyboard.just_pressed@);
    }
    if changed {
        update_filtered_list(state, plugins);
    }
}

} // verus!
