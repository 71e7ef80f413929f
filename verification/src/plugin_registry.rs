//! Plugin registry: tracks every registered plugin and the resources it owns
//! (overlays, status items, keybindings).
use vstd::prelude::*;
use crate::text::{str_eq, string_of};

verus! {

/// Information about a registered plugin.
///
/// Each plugin is uniquely identified by its ID and can own multiple
/// resources (overlays, status items, keybindings).
#[derive(Clone, Debug)]
pub struct RegisteredPlugin {
    /// Unique identifier for this plugin
    pub id: String,
    /// Human-readable plugin name
    pub name: String,
    /// Plugin version string (e.g., "1.0.0")
    pub version: String,
    /// Whether the plugin is currently enabled
    pub enabled: bool,
    /// IDs of overlays owned by this plugin
    pub overlay_ids: Vec<u64>,
    /// IDs of status items owned by this plugin
    pub status_item_ids: Vec<u64>,
    /// Action IDs of keybindings registered by this plugin
    pub keybinding_ids: Vec<String>,
}

/// The mathematical content of a registered plugin.
pub struct PluginView {
    pub id: Seq<char>,
    pub name: Seq<char>,
    pub version: Seq<char>,
    pub enabled: bool,
    pub overlay_ids: Seq<u64>,
    pub status_item_ids: Seq<u64>,
    pub keybinding_ids: Seq<Seq<char>>,
}

impl View for RegisteredPlugin {
    type V = PluginView;

    open spec fn view(&self) -> PluginView {
        PluginView {
            id: self.id@,
            name: self.name@,
            version: self.version@,
            enabled: self.enabled,
            overlay_ids: self.overlay_ids@,
            status_item_ids: self.status_item_ids@,
            keybinding_ids: self.keybinding_ids@.map_values(|s: String| s@),
        }
    }
}

/// A freshly registered plugin: enabled and owning nothing.
pub open spec fn fresh_plugin(id: Seq<char>, name: Seq<char>, version: Seq<char>) -> PluginView {
    PluginView {
        id,
        name,
        version,
        enabled: true,
        overlay_ids: seq![],
        status_item_ids: seq![],
        keybinding_ids: seq![],
    }
}

/// One registry slot: the key a plugin was registered under, and the plugin.
#[derive(Clone, Debug)]
struct PluginSlot {
    key: String,
    plugin: RegisteredPlugin,
}

/// Resource tracking all registered plugins.
///
/// The central registry for plugin management: it tracks plugin metadata,
/// enables and disables plugins, and allocates resource identifiers.
#[derive(Debug)]
pub struct PluginRegistry {
    /// Registered plugins, keyed by the ID they were registered under (no key
    /// occurs twice)
    slots: Vec<PluginSlot>,
    /// Next overlay ID to allocate
    next_overlay_id: u64,
    /// Next status item ID to allocate
    next_status_item_id: u64,
}

impl PluginRegistry {
    /// The keys of the registry, slot by slot.
    closed spec fn keys(&self) -> Seq<Seq<char>> {
        self.slots@.map_values(|s: PluginSlot| s.key@)
    }

    /// Well-formedness: no plugin ID is registered twice.
    pub closed spec fn wf(&self) -> bool {
        forall|i: int, j: int|
            0 <= i < self.slots@.len() && 0 <= j < self.slots@.len() && i != j
                ==> #[trigger] self.slots@[i].key@ != #[trigger] self.slots@[j].key@
    }

    /// The registered plugins, as a map from plugin ID to plugin.
    pub closed spec fn plugins(&self) -> Map<Seq<char>, PluginView> {
        Map::new(
            |k: Seq<char>| exists|i: int| 0 <= i < self.slots@.len() && #[trigger] self.slots@[i].key@ == k,
            |k: Seq<char>|
                self.slots@[choose|i: int| 0 <= i < self.slots@.len() && #[trigger] self.slots@[i].key@ == k].plugin@,
        )
    }

    /// The overlay ID that `next_overlay_id` hands out next.
    pub closed spec fn spec_next_overlay_id(&self) -> u64 {
        self.next_overlay_id
    }

    /// The status item ID that `next_status_item_id` hands out next.
    pub closed spec fn spec_next_status_item_id(&self) -> u64 {
        self.next_status_item_id
    }

    proof fn lemma_plugin_at(&self, i: int)
        requires
            self.wf(),
            0 <= i < self.slots@.len(),
        ensures
            self.plugins().dom().contains(self.slots@[i].key@),
            self.plugins()[self.slots@[i].key@] == self.slots@[i].plugin@,
    {
        let k = self.slots@[i].key@;
        assert(exists|j: int| 0 <= j < self.slots@.len() && #[trigger] self.slots@[j].key@ == k);
        let c = choose|j: int| 0 <= j < self.slots@.len() && #[trigger] self.slots@[j].key@ == k;
        assert(c == i);
    }

    /// Create a new empty plugin registry.
    pub fn new() -> (r: Self)
        ensures
            r.wf(),
            r.plugins() == Map::<Seq<char>, PluginView>::empty(),
            r.spec_next_overlay_id() == 0,
            r.spec_next_status_item_id() == 0,
    {
        let r = PluginRegistry { slots: Vec::new(), next_overlay_id: 0, next_status_item_id: 0 };
        assert(r.plugins() =~= Map::<Seq<char>, PluginView>::empty());
        r
    }

    /// The slot registered under `id`, if any.
    fn find(&self, id: &str) -> (r: Option<usize>)
        requires
            self.wf(),
        ensures
            match r {
                Some(i) => i < self.slots@.len() && self.slots@[i as int].key@ == id@,
                None => forall|i: int| 0 <= i < self.slots@.len() ==> self.slots@[i].key@ != id@,
            },
            r is Some <==> self.plugins().dom().contains(id@),
            r matches Some(i) ==> self.plugins()[id@] == self.slots@[i as int].plugin@,
    {
        let mut i: usize = 0;
        while i < self.slots.len()
            invariant
                self.wf(),
                i <= self.slots@.len(),
                forall|j: int| 0 <= j < i ==> self.slots@[j].key@ != id@,
            decreases self.slots.len() - i,
        {
            if str_eq(self.slots[i].key.as_str(), id) {
                proof {
                    self.lemma_plugin_at(i as int);
                }
                return Some(i);
            }
            i = i + 1;
        }
        None
    }

    /// Register a new plugin; a plugin already registered under the same ID is
    /// replaced.
    pub fn register(&mut self, id: String, name: String, version: String)
        requires
            old(self).wf(),
        ensures
            final(self).wf(),
            final(self).plugins() == old(self).plugins().insert(id@, fresh_plugin(id@, name@, version@)),
            final(self).plugins().dom().finite(),
            final(self).plugins().len() == old(self).plugins().len() + (if old(
                self,
            ).plugins().dom().contains(id@) {
                0int
            } else {
                1int
            }),
            final(self).spec_next_overlay_id() == old(self).spec_next_overlay_id(),
            final(self).spec_next_status_item_id() == old(self).spec_next_status_item_id(),
    {
        proof {
            old(self).lemma_plugins_finite();
        }
        let key = string_of(id.as_str());
        let plugin = RegisteredPlugin {
            id,
            name,
            version,
            enabled: true,
            overlay_ids: Vec::new(),
            status_item_ids: Vec::new(),
            keybinding_ids: Vec::new(),
        };
        proof {
            assert(plugin@.keybinding_ids =~= Seq::<Seq<char>>::empty());
        }
        let slot = PluginSlot { key, plugin };
        let ghost k = slot.key@;
        match self.find(slot.key.as_str()) {
            Some(i) => {
                self.slots.set(i, slot);
                proof {
                    self.lemma_replaced(*old(self), i as int);
                }
            },
            None => {
                self.slots.push(slot);
                proof {
                    assert(self.slots@.drop_last() =~= old(self).slots@);
                    self.lemma_pushed(*old(self));
                }
            },
        }
    }

    proof fn lemma_replaced(&self, prev: Self, i: int)
        requires
            prev.wf(),
            0 <= i < prev.slots@.len(),
            self.slots@ == prev.slots@.update(i, self.slots@[i]),
            self.slots@[i].key@ == prev.slots@[i].key@,
        ensures
            self.wf(),
            self.plugins() == prev.plugins().insert(self.slots@[i].key@, self.slots@[i].plugin@),
    {
        let k = self.slots@[i].key@;
        assert forall|a: int, b: int|
            0 <= a < self.slots@.len() && 0 <= b < self.slots@.len() && a != b implies #[trigger] self.slots@[a].key@
            != #[trigger] self.slots@[b].key@ by {
            assert(prev.slots@[a].key@ != prev.slots@[b].key@);
        }
        self.lemma_plugin_at(i);
        assert forall|kk: Seq<char>|
            #![auto]
            self.plugins().dom().contains(kk) == prev.plugins().insert(k, self.slots@[i].plugin@).dom().contains(kk)
            by {
            if kk == k {
                prev.lemma_plugin_at(i);
            } else {
                if prev.plugins().dom().contains(kk) {
                    let j = choose|j: int| 0 <= j < prev.slots@.len() && #[trigger] prev.slots@[j].key@ == kk;
                    assert(self.slots@[j].key@ == kk);
                }
                if self.plugins().dom().contains(kk) {
                    let j = choose|j: int| 0 <= j < self.slots@.len() && #[trigger] self.slots@[j].key@ == kk;
                    assert(prev.slots@[j].key@ == kk);
                }
            }
        }
        assert forall|kk: Seq<char>| #![auto] self.plugins().dom().contains(kk) implies self.plugins()[kk]
            == prev.plugins().insert(k, self.slots@[i].plugin@)[kk] by {
            if kk != k {
                let j = choose|j: int| 0 <= j < self.slots@.len() && #[trigger] self.slots@[j].key@ == kk;
                self.lemma_plugin_at(j);
                prev.lemma_plugin_at(j);
            }
        }
        assert(self.plugins() =~= prev.plugins().insert(k, self.slots@[i].plugin@));
    }

    proof fn lemma_pushed(&self, prev: Self)
        requires
            prev.wf(),
            self.slots@.len() == prev.slots@.len() + 1,
            self.slots@.drop_last() == prev.slots@,
            forall|j: int| 0 <= j < prev.slots@.len() ==> prev.slots@[j].key@ != self.slots@.last().key@,
        ensures
            self.wf(),
            self.plugins() == prev.plugins().insert(self.slots@.last().key@, self.slots@.last().plugin@),
    {
        let n = prev.slots@.len() as int;
        let k = self.slots@.last().key@;
        assert forall|j: int| 0 <= j < n implies self.slots@[j] == prev.slots@[j] by {
            assert(self.slots@.drop_last()[j] == self.slots@[j]);
        }
        assert forall|a: int, b: int|
            0 <= a < self.slots@.len() && 0 <= b < self.slots@.len() && a != b implies #[trigger] self.slots@[a].key@
            != #[trigger] self.slots@[b].key@ by {
            if a < n && b < n {
                assert(prev.slots@[a].key@ != prev.slots@[b].key@);
            }
        }
        self.lemma_plugin_at(n);
        assert forall|kk: Seq<char>|
            #![auto]
            self.plugins().dom().contains(kk) == prev.plugins().insert(k, self.slots@.last().plugin@).dom().contains(kk)
            by {
            if kk != k {
                if prev.plugins().dom().contains(kk) {
                    let j = choose|j: int| 0 <= j < prev.slots@.len() && #[trigger] prev.slots@[j].key@ == kk;
                    assert(self.slots@[j].key@ == kk);
                }
                if self.plugins().dom().contains(kk) {
                    let j = choose|j: int| 0 <= j < self.slots@.len() && #[trigger] self.slots@[j].key@ == kk;
                    assert(j != n);
                    assert(prev.slots@[j].key@ == kk);
                }
            }
        }
        assert forall|kk: Seq<char>| #![auto] self.plugins().dom().contains(kk) implies self.plugins()[kk]
            == prev.plugins().insert(k, self.slots@.last().plugin@)[kk] by {
            if kk != k {
                let j = choose|j: int| 0 <= j < self.slots@.len() && #[trigger] self.slots@[j].key@ == kk;
                self.lemma_plugin_at(j);
                prev.lemma_plugin_at(j);
            }
        }
        assert(self.plugins() =~= prev.plugins().insert(k, self.slots@.last().plugin@));
    }

    /// Unregister a plugin; returns its metadata if it was registered.
    pub fn unregister(&mut self, id: &str) -> (r: Option<RegisteredPlugin>)
        requires
            old(self).wf(),
        ensures
            final(self).wf(),
            final(self).plugins() == old(self).plugins().remove(id@),
            r is Some <==> old(self).plugins().dom().contains(id@),
            r matches Some(p) ==> p@ == old(self).plugins()[id@],
            final(self).plugins().dom().finite(),
            final(self).plugins().len() == old(self).plugins().len() - (if r is Some {
                1int
            } else {
                0int
            }),
            final(self).spec_next_overlay_id() == old(self).spec_next_overlay_id(),
            final(self).spec_next_status_item_id() == old(self).spec_next_status_item_id(),
    {
        proof {
            old(self).lemma_plugins_finite();
        }
        match self.find(id) {
            Some(i) => {
                let slot = self.slots.remove(i);
                proof {
                    self.lemma_removed(*old(self), i as int);
                }
                Some(slot.plugin)
            },
            None => {
                proof {
                    assert(old(self).plugins().remove(id@) =~= old(self).plugins());
                }
                None
            },
        }
    }

    proof fn lemma_removed(&self, prev: Self, i: int)
        requires
            prev.wf(),
            0 <= i < prev.slots@.len(),
            self.slots@ == prev.slots@.remove(i),
        ensures
            self.wf(),
            self.plugins() == prev.plugins().remove(prev.slots@[i].key@),
    {
        let k = prev.slots@[i].key@;
        let n = self.slots@.len() as int;
        assert forall|j: int| 0 <= j < n implies #[trigger] self.slots@[j] == prev.slots@[if j < i {
            j
        } else {
            j + 1
        }] by {}
        assert forall|a: int, b: int|
            0 <= a < n && 0 <= b < n && a != b implies #[trigger] self.slots@[a].key@
            != #[trigger] self.slots@[b].key@ by {
            let pa = if a < i { a } else { a + 1 };
            let pb = if b < i { b } else { b + 1 };
            assert(self.slots@[a] == prev.slots@[pa]);
            assert(self.slots@[b] == prev.slots@[pb]);
            assert(prev.slots@[pa].key@ != prev.slots@[pb].key@);
        }
        assert forall|kk: Seq<char>|
            #![auto]
            self.plugins().dom().contains(kk) == prev.plugins().remove(k).dom().contains(kk) by {
            if self.plugins().dom().contains(kk) {
                let j = choose|j: int| 0 <= j < n && #[trigger] self.slots@[j].key@ == kk;
                let pj = if j < i { j } else { j + 1 };
                assert(self.slots@[j] == prev.slots@[pj]);
                assert(prev.slots@[pj].key@ == kk);
                assert(pj != i);
                assert(prev.slots@[pj].key@ != prev.slots@[i].key@);
            }
            if kk != k && prev.plugins().dom().contains(kk) {
                let pj = choose|j: int| 0 <= j < prev.slots@.len() && #[trigger] prev.slots@[j].key@ == kk;
                assert(pj != i);
                let j = if pj < i { pj } else { pj - 1 };
                assert(self.slots@[j] == prev.slots@[pj]);
                assert(self.slots@[j].key@ == kk);
            }
        }
        assert forall|kk: Seq<char>| #![auto] self.plugins().dom().contains(kk) implies self.plugins()[kk]
            == prev.plugins().remove(k)[kk] by {
            let j = choose|j: int| 0 <= j < n && #[trigger] self.slots@[j].key@ == kk;
            let pj = if j < i { j } else { j + 1 };
            assert(self.slots@[j] == prev.slots@[pj]);
            self.lemma_plugin_at(j);
            prev.lemma_plugin_at(pj);
        }
        assert(self.plugins() =~= prev.plugins().remove(k));
    }

    /// Get the next available overlay ID; the counter wraps around.
    pub fn next_overlay_id(&mut self) -> (id: u64)
        ensures
            id == old(self).spec_next_overlay_id(),
            final(self).spec_next_overlay_id() == (if id == u64::MAX {
                0
            } else {
                (id + 1) as u64
            }),
            final(self).spec_next_status_item_id() == old(self).spec_next_status_item_id(),
            final(self).plugins() == old(self).plugins(),
            final(self).wf() == old(self).wf(),
    {
        let id = self.next_overlay_id;
        self.next_overlay_id = self.next_overlay_id.wrapping_add(1);
        id
    }

    /// Get the next available status item ID; the counter wraps around.
    pub fn next_status_item_id(&mut self) -> (id: u64)
        ensures
            id == old(self).spec_next_status_item_id(),
            final(self).spec_next_status_item_id() == (if id == u64::MAX {
                0
            } else {
                (id + 1) as u64
            }),
            final(self).spec_next_overlay_id() == old(self).spec_next_overlay_id(),
            final(self).plugins() == old(self).plugins(),
            final(self).wf() == old(self).wf(),
    {
        let id = self.next_status_item_id;
        self.next_status_item_id = self.next_status_item_id.wrapping_add(1);
        id
    }

    /// Whether a plugin is registered and enabled.
    pub fn is_enabled(&self, id: &str) -> (r: bool)
        requires
            self.wf(),
        ensures
            r == (self.plugins().dom().contains(id@) && self.plugins()[id@].enabled),
    {
        match self.find(id) {
            Some(i) => self.slots[i].plugin.enabled,
            None => false,
        }
    }

    /// A reference to a registered plugin.
    pub fn get(&self, id: &str) -> (r: Option<&RegisteredPlugin>)
        requires
            self.wf(),
        ensures
            r is Some <==> self.plugins().dom().contains(id@),
            r matches Some(p) ==> p@ == self.plugins()[id@],
    {
        match self.find(id) {
            Some(i) => Some(&self.slots[i].plugin),
            None => None,
        }
    }

    /// The registry after the plugin of one slot was replaced: still well
    /// formed, and the plugin map updated at that slot's key.
    proof fn lemma_updated(&self, prev: Self, i: int)
        requires
            prev.wf(),
            0 <= i < prev.slots@.len(),
            self.slots@.len() == prev.slots@.len(),
            forall|j: int| 0 <= j < prev.slots@.len() && j != i ==> self.slots@[j] == prev.slots@[j],
            self.slots@[i].key@ == prev.slots@[i].key@,
        ensures
            self.wf(),
            self.plugins() == prev.plugins().insert(prev.slots@[i].key@, self.slots@[i].plugin@),
    {
        assert(self.slots@ =~= prev.slots@.update(i, self.slots@[i]));
        self.lemma_replaced(prev, i);
    }

    /// Enable or disable a plugin; an unknown ID changes nothing.
    pub fn set_enabled(&mut self, id: &str, enabled: bool)
        requires
            old(self).wf(),
        ensures
            final(self).wf(),
            final(self).plugins() == update_plugin(old(self).plugins(), id@, PluginView { enabled, ..old(self).plugins()[id@] }),
            final(self).spec_next_overlay_id() == old(self).spec_next_overlay_id(),
            final(self).spec_next_status_item_id() == old(self).spec_next_status_item_id(),
    {
        if let Some(i) = self.find(id) {
            let mut slot = self.slots.remove(i);
            proof {
                assert(slot == old(self).slots@[i as int]);
                assert(self.slots@ == old(self).slots@.remove(i as int));
            }
            slot.plugin.enabled = enabled;
            self.slots.insert(i, slot);
            proof {
                assert(self.slots@ =~= old(self).slots@.update(i as int, self.slots@[i as int]));
                self.lemma_updated(*old(self), i as int);
                assert(self.slots@[i as int].plugin@ =~= PluginView { enabled, ..old(self).plugins()[id@] });
            }
        }
    }

    /// Add an overlay ID to a plugin's tracked resources; an unknown plugin
    /// changes nothing.
    pub fn add_overlay(&mut self, plugin_id: &str, overlay_id: u64)
        requires
            old(self).wf(),
        ensures
            final(self).wf(),
            final(self).plugins() == update_plugin(old(self).plugins(), plugin_id@, PluginView {
                overlay_ids: old(self).plugins()[plugin_id@].overlay_ids.push(overlay_id),
                ..old(self).plugins()[plugin_id@]
            }),
            final(self).spec_next_overlay_id() == old(self).spec_next_overlay_id(),
            final(self).spec_next_status_item_id() == old(self).spec_next_status_item_id(),
    {
        if let Some(i) = self.find(plugin_id) {
            let mut slot = self.slots.remove(i);
            proof {
                assert(slot == old(self).slots@[i as int]);
            }
            slot.plugin.overlay_ids.push(overlay_id);
            self.slots.insert(i, slot);
            proof {
                assert(self.slots@ =~= old(self).slots@.update(i as int, self.slots@[i as int]));
                self.lemma_updated(*old(self), i as int);
                assert(self.slots@[i as int].plugin@ =~= PluginView {
                    overlay_ids: old(self).plugins()[plugin_id@].overlay_ids.push(overlay_id),
                    ..old(self).plugins()[plugin_id@]
                });
            }
        }
    }

    /// Remove an overlay ID from a plugin's tracked resources; an unknown
    /// plugin changes nothing.
    pub fn remove_overlay(&mut self, plugin_id: &str, overlay_id: u64)
        requires
            old(self).wf(),
        ensures
            final(self).wf(),
            final(self).plugins() == update_plugin(old(self).plugins(), plugin_id@, PluginView {
                overlay_ids: old(self).plugins()[plugin_id@].overlay_ids.filter(keep_other(overlay_id)),
                ..old(self).plugins()[plugin_id@]
            }),
            final(self).spec_next_overlay_id() == old(self).spec_next_overlay_id(),
            final(self).spec_next_status_item_id() == old(self).spec_next_status_item_id(),
    {
        if let Some(i) = self.find(plugin_id) {
            let mut slot = self.slots.remove(i);
            proof {
                assert(slot == old(self).slots@[i as int]);
            }
            let kept = retain_ne(&slot.plugin.overlay_ids, overlay_id);
            slot.plugin.overlay_ids = kept;
            self.slots.insert(i, slot);
            proof {
                assert(self.slots@ =~= old(self).slots@.update(i as int, self.slots@[i as int]));
                self.lemma_updated(*old(self), i as int);
                assert(self.slots@[i as int].plugin@ =~= PluginView {
                    overlay_ids: old(self).plugins()[plugin_id@].overlay_ids.filter(keep_other(overlay_id)),
                    ..old(self).plugins()[plugin_id@]
                });
            }
        }
    }

    /// Add a status item ID to a plugin's tracked resources; an unknown plugin
    /// changes nothing.
    pub fn add_status_item(&mut self, plugin_id: &str, item_id: u64)
        requires
            old(self).wf(),
        ensures
            final(self).wf(),
            final(self).plugins() == update_plugin(old(self).plugins(), plugin_id@, PluginView {
                status_item_ids: old(self).plugins()[plugin_id@].status_item_ids.push(item_id),
                ..old(self).plugins()[plugin_id@]
            }),
            final(self).spec_next_overlay_id() == old(self).spec_next_overlay_id(),
            final(self).spec_next_status_item_id() == old(self).spec_next_status_item_id(),
    {
        if let Some(i) = self.find(plugin_id) {
            let mut slot = self.slots.remove(i);
            proof {
                assert(slot == old(self).slots@[i as int]);
            }
            slot.plugin.status_item_ids.push(item_id);
            self.slots.insert(i, slot);
            proof {
                assert(self.slots@ =~= old(self).slots@.update(i as int, self.slots@[i as int]));
                self.lemma_updated(*old(self), i as int);
                assert(self.slots@[i as int].plugin@ =~= PluginView {
                    status_item_ids: old(self).plugins()[plugin_id@].status_item_ids.push(item_id),
                    ..old(self).plugins()[plugin_id@]
                });
            }
        }
    }

    /// Remove a status item ID from a plugin's tracked resources; an unknown
    /// plugin changes nothing.
    pub fn remove_status_item(&mut self, plugin_id: &str, item_id: u64)
        requires
            old(self).wf(),
        ensures
            final(self).wf(),
            final(self).plugins() == update_plugin(old(self).plugins(), plugin_id@, PluginView {
                status_item_ids: old(self).plugins()[plugin_id@].status_item_ids.filter(keep_other(item_id)),
                ..old(self).plugins()[plugin_id@]
            }),
            final(self).spec_next_overlay_id() == old(self).spec_next_overlay_id(),
            final(self).spec_next_status_item_id() == old(self).spec_next_status_item_id(),
    {
        if let Some(i) = self.find(plugin_id) {
            let mut slot = self.slots.remove(i);
            proof {
                assert(slot == old(self).slots@[i as int]);
            }
            let kept = retain_ne(&slot.plugin.status_item_ids, item_id);
            slot.plugin.status_item_ids = kept;
            self.slots.insert(i, slot);
            proof {
                assert(self.slots@ =~= old(self).slots@.update(i as int, self.slots@[i as int]));
                self.lemma_updated(*old(self), i as int);
                assert(self.slots@[i as int].plugin@ =~= PluginView {
                    status_item_ids: old(self).plugins()[plugin_id@].status_item_ids.filter(keep_other(item_id)),
                    ..old(self).plugins()[plugin_id@]
                });
            }
        }
    }

    /// Add a keybinding action ID to a plugin's tracked resources; an unknown
    /// plugin changes nothing.
    pub fn add_keybinding(&mut self, plugin_id: &str, action_id: String)
        requires
            old(self).wf(),
        ensures
            final(self).wf(),
            final(self).plugins() == update_plugin(old(self).plugins(), plugin_id@, PluginView {
                keybinding_ids: old(self).plugins()[plugin_id@].keybinding_ids.push(action_id@),
                ..old(self).plugins()[plugin_id@]
            }),
            final(self).spec_next_overlay_id() == old(self).spec_next_overlay_id(),
            final(self).spec_next_status_item_id() == old(self).spec_next_status_item_id(),
    {
        if let Some(i) = self.find(plugin_id) {
            let mut slot = self.slots.remove(i);
            proof {
                assert(slot == old(self).slots@[i as int]);
            }
            let ghost before = slot.plugin.keybinding_ids@;
            let ghost a = action_id@;
            slot.plugin.keybinding_ids.push(action_id);
            self.slots.insert(i, slot);
            proof {
                assert(self.slots@ =~= old(self).slots@.update(i as int, self.slots@[i as int]));
                self.lemma_updated(*old(self), i as int);
                assert(self.slots@[i as int].plugin.keybinding_ids@ == before.push(self.slots@[i as int].plugin.keybinding_ids@.last()));
                assert(self.slots@[i as int].plugin.keybinding_ids@.map_values(|s: String| s@)
                    =~= before.map_values(|s: String| s@).push(a));
                assert(self.slots@[i as int].plugin@ =~= PluginView {
                    keybinding_ids: old(self).plugins()[plugin_id@].keybinding_ids.push(a),
                    ..old(self).plugins()[plugin_id@]
                });
            }
        }
    }

    /// Remove a keybinding action ID from a plugin's tracked resources; an
    /// unknown plugin changes nothing.
    pub fn remove_keybinding(&mut self, plugin_id: &str, action_id: &str)
        requires
            old(self).wf(),
        ensures
            final(self).wf(),
            final(self).plugins() == update_plugin(old(self).plugins(), plugin_id@, PluginView {
                keybinding_ids: old(self).plugins()[plugin_id@].keybinding_ids.filter(keep_other_text(action_id@)),
                ..old(self).plugins()[plugin_id@]
            }),
            final(self).spec_next_overlay_id() == old(self).spec_next_overlay_id(),
            final(self).spec_next_status_item_id() == old(self).spec_next_status_item_id(),
    {
        if let Some(i) = self.find(plugin_id) {
            let mut slot = self.slots.remove(i);
            proof {
                assert(slot == old(self).slots@[i as int]);
            }
            let kept = retain_other_strings(&slot.plugin.keybinding_ids, action_id);
            slot.plugin.keybinding_ids = kept;
            self.slots.insert(i, slot);
            proof {
                assert(self.slots@ =~= old(self).slots@.update(i as int, self.slots@[i as int]));
                self.lemma_updated(*old(self), i as int);
                assert(self.slots@[i as int].plugin@ =~= PluginView {
                    keybinding_ids: old(self).plugins()[plugin_id@].keybinding_ids.filter(keep_other_text(action_id@)),
                    ..old(self).plugins()[plugin_id@]
                });
            }
        }
    }

    /// The number of registered plugins.
    pub fn len(&self) -> (n: usize)
        requires
            self.wf(),
        ensures
            n == self.plugins().len(),
    {
        proof {
            self.lemma_len();
        }
        self.slots.len()
    }

    /// Whether no plugin is registered.
    pub fn is_empty(&self) -> (r: bool)
        requires
            self.wf(),
        ensures
            r == (self.plugins().len() == 0),
    {
        proof {
            self.lemma_len();
        }
        self.slots.len() == 0
    }

    /// A well-formed registry holds finitely many plugins.
    pub proof fn lemma_plugins_finite(&self)
        requires
            self.wf(),
        ensures
            self.plugins().dom().finite(),
    {
        self.lemma_len();
    }

    proof fn lemma_len(&self)
        requires
            self.wf(),
        ensures
            self.plugins().dom().finite(),
            self.plugins().len() == self.slots@.len(),
        decreases self.slots@.len(),
    {
        let n = self.slots@.len();
        let ks = self.keys();
        assert(self.plugins().dom() =~= ks.to_set()) by {
            assert forall|k: Seq<char>| self.plugins().dom().contains(k) <==> ks.to_set().contains(k) by {
                if self.plugins().dom().contains(k) {
                    let j = choose|j: int| 0 <= j < self.slots@.len() && #[trigger] self.slots@[j].key@ == k;
                    assert(ks[j] == k);
                }
                if ks.to_set().contains(k) {
                    let j = choose|j: int| 0 <= j < ks.len() && ks[j] == k;
                    assert(self.slots@[j].key@ == k);
                }
            }
        }
        assert(ks.no_duplicates()) by {
            assert forall|a: int, b: int| 0 <= a < ks.len() && 0 <= b < ks.len() && a != b implies ks[a] != ks[b] by {
                assert(self.slots@[a].key@ != self.slots@[b].key@);
            }
        }
        ks.unique_seq_to_set();
    }
}

/// Keeps the identifiers other than `x`.
pub open spec fn keep_other(x: u64) -> spec_fn(u64) -> bool {
    |y: u64| y != x
}

/// Keeps the texts other than `x`.
pub open spec fn keep_other_text(x: Seq<char>) -> spec_fn(Seq<char>) -> bool {
    |y: Seq<char>| y != x
}

/// `m` with the plugin under `id` replaced by `p` when `id` is registered;
/// `m` itself otherwise.
pub open spec fn update_plugin(m: Map<Seq<char>, PluginView>, id: Seq<char>, p: PluginView) -> Map<
    Seq<char>,
    PluginView,
> {
    if m.dom().contains(id) {
        m.insert(id, p)
    } else {
        m
    }
}

/// The IDs of `ids` other than `x`, in order.
fn retain_ne(ids: &Vec<u64>, x: u64) -> (r: Vec<u64>)
    ensures
        r@ == ids@.filter(keep_other(x)),
{
    let mut r: Vec<u64> = Vec::new();
    let mut i: usize = 0;
    while i < ids.len()
        invariant
            i <= ids@.len(),
            r@ == ids@.take(i as int).filter(keep_other(x)),
        decreases ids.len() - i,
    {
        proof {
            reveal(Seq::filter);
            assert(ids@.take(i + 1).drop_last() =~= ids@.take(i as int));
        }
        if ids[i] != x {
            r.push(ids[i]);
        }
        i = i + 1;
    }
    proof {
        assert(ids@.take(ids@.len() as int) =~= ids@);
    }
    r
}

/// The strings of `ids` whose characters differ from `x`, in order.
fn retain_other_strings(ids: &Vec<String>, x: &str) -> (r: Vec<String>)
    ensures
        r@.map_values(|s: String| s@) == ids@.map_values(|s: String| s@).filter(keep_other_text(x@)),
{
    let mut r: Vec<String> = Vec::new();
    let mut i: usize = 0;
    while i < ids.len()
        invariant
            i <= ids@.len(),
            r@.map_values(|s: String| s@) == ids@.take(i as int).map_values(|s: String| s@).filter(
                keep_other_text(x@),
            ),
        decreases ids.len() - i,
    {
        proof {
            reveal(Seq::filter);
            assert(ids@.take(i + 1).map_values(|s: String| s@).drop_last() =~= ids@.take(
                i as int,
            ).map_values(|s: String| s@));
            assert(ids@.take(i + 1).map_values(|s: String| s@).last() == ids@[i as int]@);
        }
        let ghost before = r@;
        if !str_eq(ids[i].as_str(), x) {
            let c = ids[i].clone();
            r.push(c);
            proof {
                assert(r@.map_values(|s: String| s@) =~= before.map_values(|s: String| s@).push(
                    ids@[i as int]@,
                ));
            }
        }
        i = i + 1;
    }
    proof {
        assert(ids@.take(ids@.len() as int) =~= ids@);
    }
    r
}

} // verus!
