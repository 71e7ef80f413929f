//! Plugin host: decides what each plugin action does.
//!
//! Every action is checked against the registry (the plugin must be
//! registered and enabled), resource identifiers are allocated, and the outcome
//! says which response goes back to the plugin and which entity or event the
//! host must create.
use vstd::prelude::*;
use crate::events::{NavFocusableAction, NotificationLevel, PluginAction, PluginResponse, StatusSide};
use crate::focusable::{FocusableRegion, FocusableSource, FocusableType};
use crate::navigation::NavAction;
use crate::plugin_registry::{PluginRegistry, PluginView, keep_other, update_plugin};
use crate::text::string_of;

verus! {

/// What the host creates or emits for an action.
#[derive(Debug, Clone)]
pub enum HostEffect {
    /// Spawn an overlay surface owned by a plugin
    SpawnOverlay { plugin_id: String, overlay_id: u64, x: u16, y: u16, width: u16, height: u16 },
    /// Spawn a notification, expiring `duration_ms` from now
    SpawnNotification {
        plugin_id: String,
        title: String,
        message: String,
        level: NotificationLevel,
        duration_ms: u64,
    },
    /// Spawn a status bar item owned by a plugin
    SpawnStatusItem { plugin_id: String, item_id: u64, side: StatusSide, priority: i32, content: String },
    /// Emit the event that enters hint mode
    EnterHintMode,
    /// Emit the event that exits hint mode
    ExitHintMode,
    /// Spawn a focusable region registered by a plugin
    SpawnFocusable { region: FocusableRegion, action: NavAction },
}

/// The outcome of one plugin action: the response for the plugin, if any, and
/// the effect for the host, if any.
#[derive(Debug, Clone)]
pub struct HostOutcome {
    pub response: Option<PluginResponse>,
    pub effect: Option<HostEffect>,
}

/// The registry is unchanged.
pub open spec fn same_registry(a: PluginRegistry, b: PluginRegistry) -> bool {
    &&& a.wf() == b.wf()
    &&& a.plugins() == b.plugins()
    &&& a.spec_next_overlay_id() == b.spec_next_overlay_id()
    &&& a.spec_next_status_item_id() == b.spec_next_status_item_id()
}

/// A plugin is registered and enabled.
pub open spec fn plugin_enabled(r: PluginRegistry, id: Seq<char>) -> bool {
    r.plugins().dom().contains(id) && r.plugins()[id].enabled
}

/// The counter value after one allocation.
pub open spec fn bump(id: u64) -> u64 {
    if id == u64::MAX {
        0
    } else {
        (id + 1) as u64
    }
}

/// The plugin `id` with `x` added to its overlays.
pub open spec fn with_overlay(m: Map<Seq<char>, PluginView>, id: Seq<char>, x: u64) -> Map<Seq<char>, PluginView> {
    update_plugin(m, id, PluginView { overlay_ids: m[id].overlay_ids.push(x), ..m[id] })
}

/// The plugin `id` with `x` removed from its overlays.
pub open spec fn without_overlay(m: Map<Seq<char>, PluginView>, id: Seq<char>, x: u64) -> Map<
    Seq<char>,
    PluginView,
> {
    update_plugin(m, id, PluginView { overlay_ids: m[id].overlay_ids.filter(keep_other(x)), ..m[id] })
}

/// The response refusing an action of a disabled (or unknown) plugin.
pub open spec fn is_disabled_error(r: Option<PluginResponse>, pid: Seq<char>, act: Seq<char>) -> bool {
    r matches Some(PluginResponse::Error { plugin_id, action, message }) && plugin_id@ == pid
        && action@ == act && message@ == "Plugin is disabled"@
}

/// The outcome when `pid` is refused for `act`: an error response, no effect,
/// and the registry unchanged.
pub open spec fn refused(
    old_r: PluginRegistry,
    new_r: PluginRegistry,
    out: HostOutcome,
    pid: Seq<char>,
    act: Seq<char>,
) -> bool {
    &&& is_disabled_error(out.response, pid, act)
    &&& out.effect is None
    &&& same_registry(old_r, new_r)
}

/// The navigation action a plugin focusable performs: URLs and files are
/// opened; custom actions are not supported and cancel.
pub open spec fn focusable_nav_action(a: NavFocusableAction) -> NavAction {
    match a {
        NavFocusableAction::OpenUrl(u) => NavAction::Open(u),
        NavFocusableAction::OpenFile(p) => NavAction::Open(p),
        NavFocusableAction::Custom(_) => NavAction::Cancel,
    }
}

fn refuse(plugin_id: &String, action: &str) -> (r: Option<PluginResponse>)
    ensures
        is_disabled_error(r, plugin_id@, action@),
{
    Some(
        PluginResponse::Error {
            plugin_id: plugin_id.clone(),
            action: string_of(action),
            message: string_of("Plugin is disabled"),
        },
    )
}

fn to_nav_action(a: &NavFocusableAction) -> (r: NavAction)
    ensures
        r == focusable_nav_action(*a),
{
    match a {
        NavFocusableAction::OpenUrl(u) => NavAction::Open(u.clone()),
        NavFocusableAction::OpenFile(p) => NavAction::Open(p.clone()),
        NavFocusableAction::Custom(_) => NavAction::Cancel,
    }
}

/// The plugin an action comes from.
pub open spec fn action_plugin(a: PluginAction) -> String {
    match a {
        PluginAction::SpawnOverlay { plugin_id, .. } => plugin_id,
        PluginAction::DespawnOverlay { plugin_id, .. } => plugin_id,
        PluginAction::ShowNotification { plugin_id, .. } => plugin_id,
        PluginAction::AddStatusItem { plugin_id, .. } => plugin_id,
        PluginAction::RemoveStatusItem { plugin_id, .. } => plugin_id,
        PluginAction::RegisterKeybinding { plugin_id, .. } => plugin_id,
        PluginAction::SendInput { plugin_id, .. } => plugin_id,
        PluginAction::RequestTerminalContent { plugin_id, .. } => plugin_id,
        PluginAction::UpdateTheme { plugin_id, .. } => plugin_id,
        PluginAction::ShowModal { plugin_id, .. } => plugin_id,
        PluginAction::NavEnterHintMode { plugin_id } => plugin_id,
        PluginAction::NavExitMode { plugin_id } => plugin_id,
        PluginAction::NavRegisterFocusable { plugin_id, .. } => plugin_id,
        PluginAction::NavUnregisterFocusable { plugin_id, .. } => plugin_id,
    }
}

/// The name of an action's variant, as it appears in error responses.
pub open spec fn action_name(a: PluginAction) -> Seq<char> {
    match a {
        PluginAction::SpawnOverlay { .. } => "SpawnOverlay"@,
        PluginAction::DespawnOverlay { .. } => "DespawnOverlay"@,
        PluginAction::ShowNotification { .. } => "ShowNotification"@,
        PluginAction::AddStatusItem { .. } => "AddStatusItem"@,
        PluginAction::RemoveStatusItem { .. } => "RemoveStatusItem"@,
        PluginAction::RegisterKeybinding { .. } => "RegisterKeybinding"@,
        PluginAction::SendInput { .. } => "SendInput"@,
        PluginAction::RequestTerminalContent { .. } => "RequestTerminalContent"@,
        PluginAction::UpdateTheme { .. } => "UpdateTheme"@,
        PluginAction::ShowModal { .. } => "ShowModal"@,
        PluginAction::NavEnterHintMode { .. } => "NavEnterHintMode"@,
        PluginAction::NavExitMode { .. } => "NavExitMode"@,
        PluginAction::NavRegisterFocusable { .. } => "NavRegisterFocusable"@,
        PluginAction::NavUnregisterFocusable { .. } => "NavUnregisterFocusable"@,
    }
}

fn plugin_and_name(a: &PluginAction) -> (r: (&String, &str))
    ensures
        *r.0 == action_plugin(*a),
        r.1@ == action_name(*a),
{
    match a {
        PluginAction::SpawnOverlay { plugin_id, .. } => (plugin_id, "SpawnOverlay"),
        PluginAction::DespawnOverlay { plugin_id, .. } => (plugin_id, "DespawnOverlay"),
        PluginAction::ShowNotification { plugin_id, .. } => (plugin_id, "ShowNotification"),
        PluginAction::AddStatusItem { plugin_id, .. } => (plugin_id, "AddStatusItem"),
        PluginAction::RemoveStatusItem { plugin_id, .. } => (plugin_id, "RemoveStatusItem"),
        PluginAction::RegisterKeybinding { plugin_id, .. } => (plugin_id, "RegisterKeybinding"),
        PluginAction::SendInput { plugin_id, .. } => (plugin_id, "SendInput"),
        PluginAction::RequestTerminalContent { plugin_id, .. } => (plugin_id, "RequestTerminalContent"),
        PluginAction::UpdateTheme { plugin_id, .. } => (plugin_id, "UpdateTheme"),
        PluginAction::ShowModal { plugin_id, .. } => (plugin_id, "ShowModal"),
        PluginAction::NavEnterHintMode { plugin_id } => (plugin_id, "NavEnterHintMode"),
        PluginAction::NavExitMode { plugin_id } => (plugin_id, "NavExitMode"),
        PluginAction::NavRegisterFocusable { plugin_id, .. } => (plugin_id, "NavRegisterFocusable"),
        PluginAction::NavUnregisterFocusable { plugin_id, .. } => (plugin_id, "NavUnregisterFocusable"),
    }
}

/// Processes one plugin action against the registry.
///
/// The plugin must be registered and enabled before any of its actions is
/// processed; otherwise it gets an error response naming the action, and
/// nothing changes. Overlay IDs and focusable IDs share one counter.
pub fn process_plugin_action(registry: &mut PluginRegistry, action: &PluginAction) -> (out: HostOutcome)
    requires
        old(registry).wf(),
        *action matches PluginAction::NavRegisterFocusable { plugin_id, x, y, width, height, .. }
            ==> plugin_enabled(*old(registry), plugin_id@) ==> x + width <= u16::MAX && y + height
            <= u16::MAX,
    ensures
        final(registry).wf(),
        !plugin_enabled(*old(registry), action_plugin(*action)@) ==> refused(
            *old(registry),
            *final(registry),
            out,
            action_plugin(*action)@,
            action_name(*action),
        ),
        plugin_enabled(*old(registry), action_plugin(*action)@) ==> match *action {
            PluginAction::SpawnOverlay { plugin_id, x, y, width, height, .. } => {
                let id = old(registry).spec_next_overlay_id();
                &&& final(registry).spec_next_overlay_id() == bump(id)
                &&& final(registry).spec_next_status_item_id() == old(registry).spec_next_status_item_id()
                &&& final(registry).plugins() == with_overlay(old(registry).plugins(), plugin_id@, id)
                &&& out.response matches Some(PluginResponse::OverlaySpawned { plugin_id: p, overlay_id })
                    && p@ == plugin_id@ && overlay_id == id
                &&& out.effect matches Some(HostEffect::SpawnOverlay { plugin_id: p, overlay_id, x: ex, y: ey, width: ew, height: eh })
                    && p@ == plugin_id@ && overlay_id == id && ex == x && ey == y && ew == width && eh == height
            },
            PluginAction::DespawnOverlay { plugin_id, overlay_id } => {
                &&& final(registry).plugins() == without_overlay(old(registry).plugins(), plugin_id@, overlay_id)
                &&& final(registry).spec_next_overlay_id() == old(registry).spec_next_overlay_id()
                &&& final(registry).spec_next_status_item_id() == old(registry).spec_next_status_item_id()
                &&& out.response is None
                &&& out.effect is None
            },
            PluginAction::ShowNotification { plugin_id, title, message, level, duration_ms } => {
                &&& same_registry(*old(registry), *final(registry))
                &&& out.response is None
                &&& out.effect matches Some(HostEffect::SpawnNotification { plugin_id: p, title: t, message: m, level: l, duration_ms: d })
                    && p@ == plugin_id@ && t@ == title@ && m@ == message@ && l == level && d == duration_ms
            },
            PluginAction::AddStatusItem { plugin_id, side, content, priority } => {
                let id = old(registry).spec_next_status_item_id();
                let m = old(registry).plugins();
                &&& final(registry).spec_next_status_item_id() == bump(id)
                &&& final(registry).spec_next_overlay_id() == old(registry).spec_next_overlay_id()
                &&& final(registry).plugins() == update_plugin(m, plugin_id@, PluginView {
                    status_item_ids: m[plugin_id@].status_item_ids.push(id),
                    ..m[plugin_id@]
                })
                &&& out.response is None
                &&& out.effect matches Some(HostEffect::SpawnStatusItem { plugin_id: p, item_id, side: s, priority: pr, content: c })
                    && p@ == plugin_id@ && item_id == id && s == side && pr == priority && c@ == content@
            },
            PluginAction::RemoveStatusItem { plugin_id, item_id } => {
                let m = old(registry).plugins();
                &&& final(registry).plugins() == update_plugin(m, plugin_id@, PluginView {
                    status_item_ids: m[plugin_id@].status_item_ids.filter(keep_other(item_id)),
                    ..m[plugin_id@]
                })
                &&& final(registry).spec_next_overlay_id() == old(registry).spec_next_overlay_id()
                &&& final(registry).spec_next_status_item_id() == old(registry).spec_next_status_item_id()
                &&& out.response is None
                &&& out.effect is None
            },
            PluginAction::RegisterKeybinding { plugin_id, action_id, .. } => {
                let m = old(registry).plugins();
                &&& final(registry).plugins() == update_plugin(m, plugin_id@, PluginView {
                    keybinding_ids: m[plugin_id@].keybinding_ids.push(action_id@),
                    ..m[plugin_id@]
                })
                &&& final(registry).spec_next_overlay_id() == old(registry).spec_next_overlay_id()
                &&& final(registry).spec_next_status_item_id() == old(registry).spec_next_status_item_id()
                &&& out.response is None
                &&& out.effect is None
            },
            PluginAction::RequestTerminalContent { plugin_id, .. } => {
                &&& same_registry(*old(registry), *final(registry))
                &&& out.response matches Some(PluginResponse::TerminalContent { plugin_id: p, rows })
                    && p@ == plugin_id@ && rows@.len() == 0
                &&& out.effect is None
            },
            PluginAction::SendInput { .. } | PluginAction::UpdateTheme { .. } | PluginAction::ShowModal { .. } => {
                &&& same_registry(*old(registry), *final(registry))
                &&& out.response is None
                &&& out.effect is None
            },
            PluginAction::NavEnterHintMode { plugin_id } => {
                &&& same_registry(*old(registry), *final(registry))
                &&& out.response matches Some(PluginResponse::NavModeEntered { plugin_id: p }) && p@ == plugin_id@
                &&& out.effect matches Some(HostEffect::EnterHintMode)
            },
            PluginAction::NavExitMode { plugin_id } => {
                &&& same_registry(*old(registry), *final(registry))
                &&& out.response matches Some(PluginResponse::NavModeExited { plugin_id: p }) && p@ == plugin_id@
                &&& out.effect matches Some(HostEffect::ExitHintMode)
            },
            PluginAction::NavRegisterFocusable { plugin_id, x, y, width, height, label, action: fa } => {
                let id = old(registry).spec_next_overlay_id();
                &&& final(registry).spec_next_overlay_id() == bump(id)
                &&& final(registry).spec_next_status_item_id() == old(registry).spec_next_status_item_id()
                &&& final(registry).plugins() == with_overlay(old(registry).plugins(), plugin_id@, id)
                &&& out.response matches Some(PluginResponse::NavFocusableRegistered { plugin_id: p, focusable_id })
                    && p@ == plugin_id@ && focusable_id == id
                &&& out.effect matches Some(HostEffect::SpawnFocusable { region, action: na }) && {
                    &&& region.region_type == FocusableType::Widget
                    &&& region.grid_start == (x, y)
                    &&& region.grid_end == ((x + width) as u16, (y + height) as u16)
                    &&& region.content@ == label@
                    &&& region.source == FocusableSource::Ratatui
                    &&& region.pane_id is None
                    &&& region.generation == 0
                    &&& na == focusable_nav_action(fa)
                }
            },
            PluginAction::NavUnregisterFocusable { plugin_id, focusable_id } => {
                &&& final(registry).plugins() == without_overlay(old(registry).plugins(), plugin_id@, focusable_id)
                &&& final(registry).spec_next_overlay_id() == old(registry).spec_next_overlay_id()
                &&& final(registry).spec_next_status_item_id() == old(registry).spec_next_status_item_id()
                &&& out.response matches Some(PluginResponse::NavFocusableUnregistered { plugin_id: p, focusable_id: f })
                    && p@ == plugin_id@ && f == focusable_id
                &&& out.effect is None
            },
        },
{
    let (pid, name) = plugin_and_name(action);
    if !registry.is_enabled(pid.as_str()) {
        return HostOutcome { response: refuse(pid, name), effect: None };
    }
    match action {
        PluginAction::SpawnOverlay { plugin_id, x, y, width, height, .. } => {
            let overlay_id = registry.next_overlay_id();
            registry.add_overlay(plugin_id.as_str(), overlay_id);
            HostOutcome {
                response: Some(PluginResponse::OverlaySpawned { plugin_id: plugin_id.clone(), overlay_id }),
                effect: Some(
                    HostEffect::SpawnOverlay {
                        plugin_id: plugin_id.clone(),
                        overlay_id,
                        x: *x,
                        y: *y,
                        width: *width,
                        height: *height,
                    },
                ),
            }
        },
        PluginAction::DespawnOverlay { plugin_id, overlay_id } => {
            registry.remove_overlay(plugin_id.as_str(), *overlay_id);
            HostOutcome { response: None, effect: None }
        },
        PluginAction::ShowNotification { plugin_id, title, message, level, duration_ms } => {
            HostOutcome {
                response: None,
                effect: Some(
                    HostEffect::SpawnNotification {
                        plugin_id: plugin_id.clone(),
                        title: title.clone(),
                        message: message.clone(),
                        level: *level,
                        duration_ms: *duration_ms,
                    },
                ),
            }
        },
        PluginAction::AddStatusItem { plugin_id, side, content, priority } => {
            let item_id = registry.next_status_item_id();
            registry.add_status_item(plugin_id.as_str(), item_id);
            HostOutcome {
                response: None,
                effect: Some(
                    HostEffect::SpawnStatusItem {
                        plugin_id: plugin_id.clone(),
                        item_id,
                        side: *side,
                        priority: *priority,
                        content: content.clone(),
                    },
                ),
            }
        },
        PluginAction::RemoveStatusItem { plugin_id, item_id } => {
            registry.remove_status_item(plugin_id.as_str(), *item_id);
            HostOutcome { response: None, effect: None }
        },
        PluginAction::RegisterKeybinding { plugin_id, action_id, .. } => {
            registry.add_keybinding(plugin_id.as_str(), action_id.clone());
            HostOutcome { response: None, effect: None }
        },
        PluginAction::RequestTerminalContent { plugin_id, .. } => {
            HostOutcome {
                response: Some(
                    PluginResponse::TerminalContent { plugin_id: plugin_id.clone(), rows: Vec::new() },
                ),
                effect: None,
            }
        },
        PluginAction::SendInput { .. } => HostOutcome { response: None, effect: None },
        PluginAction::UpdateTheme { .. } => HostOutcome { response: None, effect: None },
        PluginAction::ShowModal { .. } => HostOutcome { response: None, effect: None },
        PluginAction::NavEnterHintMode { plugin_id } => {
            HostOutcome {
                response: Some(PluginResponse::NavModeEntered { plugin_id: plugin_id.clone() }),
                effect: Some(HostEffect::EnterHintMode),
            }
        },
        PluginAction::NavExitMode { plugin_id } => {
            HostOutcome {
                response: Some(PluginResponse::NavModeExited { plugin_id: plugin_id.clone() }),
                effect: Some(HostEffect::ExitHintMode),
            }
        },
        PluginAction::NavRegisterFocusable { plugin_id, x, y, width, height, label, action } => {
            let focusable_id = registry.next_overlay_id();
            let nav_action = to_nav_action(action);
            let region = FocusableRegion {
                region_type: FocusableType::Widget,
                grid_start: (*x, *y),
                grid_end: (*x + *width, *y + *height),
                content: label.clone(),
                source: FocusableSource::Ratatui,
                pane_id: None,
                generation: 0,
            };
            registry.add_overlay(plugin_id.as_str(), focusable_id);
            HostOutcome {
                response: Some(
                    PluginResponse::NavFocusableRegistered { plugin_id: plugin_id.clone(), focusable_id },
                ),
                effect: Some(HostEffect::SpawnFocusable { region, action: nav_action }),
            }
        },
        PluginAction::NavUnregisterFocusable { plugin_id, focusable_id } => {
            registry.remove_overlay(plugin_id.as_str(), *focusable_id);
            HostOutcome {
                response: Some(
                    PluginResponse::NavFocusableUnregistered {
                        plugin_id: plugin_id.clone(),
                        focusable_id: *focusable_id,
                    },
                ),
                effect: None,
            }
        },
    }
}

/// Whether an overlay entity must be despawned: when its plugin is no longer
/// registered, or no longer tracks the overlay.
pub fn overlay_is_stale(registry: &PluginRegistry, plugin_id: &str, overlay_id: u64) -> (r: bool)
    requires
        registry.wf(),
    ensures
        r == !(registry.plugins().dom().contains(plugin_id@)
            && registry.plugins()[plugin_id@].overlay_ids.contains(overlay_id)),
{
    match registry.get(plugin_id) {
        Some(plugin) => {
            let mut i: usize = 0;
            while i < plugin.overlay_ids.len()
                invariant
                    registry.plugins().dom().contains(plugin_id@),
                    plugin@ == registry.plugins()[plugin_id@],
                    i <= plugin.overlay_ids@.len(),
                    forall|j: int| 0 <= j < i ==> plugin.overlay_ids@[j] != overlay_id,
                decreases plugin.overlay_ids.len() - i,
            {
                if plugin.overlay_ids[i] == overlay_id {
                    proof {
                        assert(plugin.overlay_ids@[i as int] == overlay_id);
                        assert(plugin.overlay_ids@.contains(overlay_id));
                        assert(plugin@.overlay_ids == plugin.overlay_ids@);
                    }
                    return false;
                }
                i = i + 1;
            }
            proof {
                assert(plugin@.overlay_ids == plugin.overlay_ids@);
                assert(!plugin.overlay_ids@.contains(overlay_id));
            }
            true
        },
        None => true,
    }
}

/// Refusing an action leaves the registry as it was: a disabled plugin can
/// neither allocate identifiers nor gain resources.
pub proof fn lemma_refusal_changes_nothing(
    old_r: PluginRegistry,
    new_r: PluginRegistry,
    out: HostOutcome,
    pid: Seq<char>,
    act: Seq<char>,
)
    requires
        refused(old_r, new_r, out, pid, act),
    ensures
        new_r.plugins() == old_r.plugins(),
        new_r.spec_next_overlay_id() == old_r.spec_next_overlay_id(),
        out.effect is None,
{
}

/// The counter value after `n` allocations from `start`.
pub open spec fn bumped(start: u64, n: nat) -> u64
    decreases n,
{
    if n == 0 {
        start
    } else {
        bump(bumped(start, (n - 1) as nat))
    }
}

/// After `n` allocations the counter has moved on by `n`, around the range
/// of `u64`.
pub proof fn lemma_bumped_wraps(start: u64, n: nat)
    ensures
        bumped(start, n) == (start + n) % 0x1_0000_0000_0000_0000,
    decreases n,
{
    if n > 0 {
        lemma_bumped_wraps(start, (n - 1) as nat);
        let x: int = start + n - 1;
        let m: int = 0x1_0000_0000_0000_0000;
        vstd::arithmetic::div_mod::lemma_add_mod_noop(x, 1, m);
        vstd::arithmetic::div_mod::lemma_small_mod(1, m as nat);
        let p = bumped(start, (n - 1) as nat);
        if p == u64::MAX {
            vstd::arithmetic::div_mod::lemma_mod_self_0(m);
        } else {
            vstd::arithmetic::div_mod::lemma_small_mod((p + 1) as nat, m as nat);
        }
    }
}

/// Identifiers are unique across all plugins: of fewer than 2^64 successive
/// allocations, no two give the same identifier.
pub proof fn lemma_allocated_ids_distinct(start: u64, i: nat, j: nat)
    requires
        i < j < 0x1_0000_0000_0000_0000,
    ensures
        bumped(start, i) != bumped(start, j),
{
    lemma_bumped_wraps(start, i);
    lemma_bumped_wraps(start, j);
    let m: int = 0x1_0000_0000_0000_0000;
    let a: int = start + i;
    let b: int = start + j;
    assert(a % m != b % m) by (nonlinear_arith)
        requires
            0 <= a < b,
            b - a < m,
            m > 0,
    {
        if a % m == b % m {
            vstd::arithmetic::div_mod::lemma_fundamental_div_mod(a, m);
            vstd::arithmetic::div_mod::lemma_fundamental_div_mod(b, m);
            assert(m * (b / m - a / m) == b - a);
        }
    }
}

} // verus!
