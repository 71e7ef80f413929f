//! Navigation input routing: key bindings per navigation style, a stack of
//! nested navigation modes, and the routing of one frame's keyboard state
//! to navigation actions.
use vstd::prelude::*;
use crate::input::keys::{keycode_to_char, letter_of, Key, KeyboardState};

verus! {

/// Navigation mode defining how input is interpreted.
#[derive(Debug, Clone, Copy, PartialEq, Eq, Structural)]
pub enum NavMode {
    /// Normal terminal mode (input passed through to the PTY)
    Normal,
    /// Link hints mode
    Hints,
    /// Copy mode for text selection and navigation
    Copy,
    /// Search mode for finding text in terminal output
    Search,
    /// Command palette for executing commands
    CommandPalette,
    /// Prompt navigation mode (jumping between shell prompts)
    PromptNav,
}

/// Navigation style defining the overall keymap philosophy.
#[derive(Debug, Clone, Copy, PartialEq, Eq, Structural)]
pub enum NavStyle {
    /// f for hints, Esc to cancel, letter keys for hint selection
    VimiumStyle,
    /// Space as leader key
    CosmosStyle,
    /// SPC prefix for commands
    SpacemacsStyle,
}

/// Actions that can be triggered by navigation input.
#[derive(Debug, Clone, Copy, PartialEq, Eq, Structural)]
pub enum NavAction {
    EnterHintMode,
    EnterCopyMode,
    EnterSearchMode,
    EnterCommandPalette,
    ExitCurrentMode,
    CancelAllModes,
    ActivateHint,
    HintChar(char),
    JumpToPrevPrompt,
    JumpToNextPrompt,
    CopyModeToggleSelection,
    CopyModeExit,
    SearchForward,
    SearchBackward,
    NextSearchMatch,
    PrevSearchMatch,
    ExecuteCommand,
    FilterCommands,
}

/// Keyboard modifiers.
#[derive(Debug, Clone, Copy, PartialEq, Eq, Structural)]
pub enum Modifier {
    Ctrl,
    Alt,
    Shift,
    Super,
}

/// Key binding mapping a key combination to a navigation action.
#[derive(Debug, Clone)]
pub struct KeyBinding {
    /// The primary key
    pub key: Key,
    /// Required modifiers (all must be held)
    pub modifiers: Vec<Modifier>,
    /// The action to trigger
    pub action: NavAction,
    /// Optional mode restriction (`None`: active in all modes)
    pub active_in_mode: Option<NavMode>,
}

/// The two keys of a modifier.
pub open spec fn modifier_keys(m: Modifier) -> (Key, Key) {
    match m {
        Modifier::Ctrl => (Key::ControlLeft, Key::ControlRight),
        Modifier::Alt => (Key::AltLeft, Key::AltRight),
        Modifier::Shift => (Key::ShiftLeft, Key::ShiftRight),
        Modifier::Super => (Key::SuperLeft, Key::SuperRight),
    }
}

/// A modifier is held when either of its keys is.
pub open spec fn modifier_held(kb: KeyboardState, m: Modifier) -> bool {
    kb.pressed@.contains(modifier_keys(m).0) || kb.pressed@.contains(modifier_keys(m).1)
}

/// A binding fires: its key was just pressed and all its modifiers are held.
pub open spec fn binding_fires(b: KeyBinding, kb: KeyboardState) -> bool {
    &&& kb.just_pressed@.contains(b.key)
    &&& forall|i: int| 0 <= i < b.modifiers@.len() ==> modifier_held(kb, #[trigger] b.modifiers@[i])
}

/// A binding applies in `mode`.
pub open spec fn binding_active(b: KeyBinding, mode: NavMode) -> bool {
    match b.active_in_mode {
        Some(m) => m == mode,
        None => true,
    }
}

impl KeyBinding {
    /// A binding of `key` to `action` in every mode, without modifiers.
    pub fn new(key: Key, action: NavAction) -> (b: Self)
        ensures
            b.key == key,
            b.modifiers@ == Seq::<Modifier>::empty(),
            b.action == action,
            b.active_in_mode is None,
    {
        KeyBinding { key, modifiers: Vec::new(), action, active_in_mode: None }
    }

    /// Require Ctrl.
    pub fn with_ctrl(self) -> (b: Self)
        ensures
            b.modifiers@ == self.modifiers@.push(Modifier::Ctrl),
            b.key == self.key && b.action == self.action && b.active_in_mode == self.active_in_mode,
    {
        let mut b = self;
        b.modifiers.push(Modifier::Ctrl);
        b
    }

    /// Require Alt.
    pub fn with_alt(self) -> (b: Self)
        ensures
            b.modifiers@ == self.modifiers@.push(Modifier::Alt),
            b.key == self.key && b.action == self.action && b.active_in_mode == self.active_in_mode,
    {
        let mut b = self;
        b.modifiers.push(Modifier::Alt);
        b
    }

    /// Require Shift.
    pub fn with_shift(self) -> (b: Self)
        ensures
            b.modifiers@ == self.modifiers@.push(Modifier::Shift),
            b.key == self.key && b.action == self.action && b.active_in_mode == self.active_in_mode,
    {
        let mut b = self;
        b.modifiers.push(Modifier::Shift);
        b
    }

    /// Require Super.
    pub fn with_super(self) -> (b: Self)
        ensures
            b.modifiers@ == self.modifiers@.push(Modifier::Super),
            b.key == self.key && b.action == self.action && b.active_in_mode == self.active_in_mode,
    {
        let mut b = self;
        b.modifiers.push(Modifier::Super);
        b
    }

    /// Restrict this binding to `mode`.
    pub fn in_mode(self, mode: NavMode) -> (b: Self)
        ensures
            b.active_in_mode == Some(mode),
            b.key == self.key && b.action == self.action && b.modifiers == self.modifiers,
    {
        let mut b = self;
        b.active_in_mode = Some(mode);
        b
    }

    /// Whether this binding fires for the keyboard state.
    pub fn matches(&self, keyboard: &KeyboardState) -> (r: bool)
        ensures
            r == binding_fires(*self, *keyboard),
    {
        if !keyboard.just_pressed(self.key) {
            return false;
        }
        let mut i: usize = 0;
        while i < self.modifiers.len()
            invariant
                i <= self.modifiers@.len(),
                forall|j: int| 0 <= j < i ==> modifier_held(*keyboard, #[trigger] self.modifiers@[j]),
            decreases self.modifiers.len() - i,
        {
            let m = self.modifiers[i];
            let held = match m {
                Modifier::Ctrl => keyboard.any_pressed(Key::ControlLeft, Key::ControlRight),
                Modifier::Alt => keyboard.any_pressed(Key::AltLeft, Key::AltRight),
                Modifier::Shift => keyboard.any_pressed(Key::ShiftLeft, Key::ShiftRight),
                Modifier::Super => keyboard.any_pressed(Key::SuperLeft, Key::SuperRight),
            };
            if !held {
                return false;
            }
            i = i + 1;
        }
        true
    }

    /// Whether this binding applies in `mode`.
    pub fn is_active_in(&self, mode: NavMode) -> (r: bool)
        ensures
            r == binding_active(*self, mode),
    {
        match self.active_in_mode {
            Some(m) => m == mode,
            None => true,
        }
    }
}

// ==================== Router ====================

/// Navigation input router holding the keymap of each style.
pub struct NavInputRouter {
    /// Currently active navigation style
    pub current_style: NavStyle,
    vimium: Vec<KeyBinding>,
    cosmos: Vec<KeyBinding>,
    spacemacs: Vec<KeyBinding>,
}

/// Key, modifiers, action and mode restriction of a binding.
pub open spec fn binding_is(
    b: KeyBinding,
    key: Key,
    mods: Seq<Modifier>,
    action: NavAction,
    mode: Option<NavMode>,
) -> bool {
    b.key == key && b.modifiers@ == mods && b.action == action && b.active_in_mode == mode
}

/// The bindings shared by every style: `f` for hints, Esc to cancel,
/// Ctrl+Up and Ctrl+Down to jump between prompts.
pub open spec fn common_bindings(bs: Seq<KeyBinding>) -> bool {
    &&& bs.len() == 4
    &&& binding_is(bs[0], Key::KeyF, seq![], NavAction::EnterHintMode, None)
    &&& binding_is(bs[1], Key::Escape, seq![], NavAction::CancelAllModes, None)
    &&& binding_is(bs[2], Key::ArrowUp, seq![Modifier::Ctrl], NavAction::JumpToPrevPrompt, None)
    &&& binding_is(bs[3], Key::ArrowDown, seq![Modifier::Ctrl], NavAction::JumpToNextPrompt, None)
}

/// The Vimium-style keymap.
pub open spec fn vimium_bindings(bs: Seq<KeyBinding>) -> bool {
    &&& bs.len() == 11
    &&& binding_is(bs[0], Key::KeyF, seq![], NavAction::EnterHintMode, None)
    &&& binding_is(bs[1], Key::KeyF, seq![Modifier::Ctrl], NavAction::EnterHintMode, Some(NavMode::Normal))
    &&& binding_is(bs[2], Key::Escape, seq![], NavAction::CancelAllModes, None)
    &&& binding_is(bs[3], Key::ArrowUp, seq![Modifier::Ctrl], NavAction::JumpToPrevPrompt, None)
    &&& binding_is(bs[4], Key::ArrowDown, seq![Modifier::Ctrl], NavAction::JumpToNextPrompt, None)
    &&& binding_is(bs[5], Key::KeyV, seq![Modifier::Ctrl], NavAction::EnterCopyMode, None)
    &&& binding_is(bs[6], Key::Escape, seq![], NavAction::CopyModeExit, Some(NavMode::Copy))
    &&& binding_is(bs[7], Key::Slash, seq![Modifier::Ctrl], NavAction::EnterSearchMode, None)
    &&& binding_is(bs[8], Key::KeyN, seq![], NavAction::NextSearchMatch, Some(NavMode::Search))
    &&& binding_is(bs[9], Key::KeyN, seq![Modifier::Shift], NavAction::PrevSearchMatch, Some(NavMode::Search))
    &&& binding_is(bs[10], Key::KeyP, seq![Modifier::Ctrl], NavAction::EnterCommandPalette, None)
}

/// The bindings shared by every style.
fn common_keymap() -> (bs: Vec<KeyBinding>)
    ensures
        common_bindings(bs@),
{
    let b0 = KeyBinding::new(Key::KeyF, NavAction::EnterHintMode);
    let b1 = KeyBinding::new(Key::Escape, NavAction::CancelAllModes);
    let b2 = KeyBinding::new(Key::ArrowUp, NavAction::JumpToPrevPrompt).with_ctrl();
    let b3 = KeyBinding::new(Key::ArrowDown, NavAction::JumpToNextPrompt).with_ctrl();
    proof {
        assert(b2.modifiers@ =~= seq![Modifier::Ctrl]);
        assert(b3.modifiers@ =~= seq![Modifier::Ctrl]);
    }
    vec![b0, b1, b2, b3]
}

/// The Vimium-style keymap.
fn vimium_keymap() -> (bs: Vec<KeyBinding>)
    ensures
        vimium_bindings(bs@),
{
    let b0 = KeyBinding::new(Key::KeyF, NavAction::EnterHintMode);
    let b1 = KeyBinding::new(Key::KeyF, NavAction::EnterHintMode).with_ctrl().in_mode(NavMode::Normal);
    let b2 = KeyBinding::new(Key::Escape, NavAction::CancelAllModes);
    let b3 = KeyBinding::new(Key::ArrowUp, NavAction::JumpToPrevPrompt).with_ctrl();
    let b4 = KeyBinding::new(Key::ArrowDown, NavAction::JumpToNextPrompt).with_ctrl();
    let b5 = KeyBinding::new(Key::KeyV, NavAction::EnterCopyMode).with_ctrl();
    let b6 = KeyBinding::new(Key::Escape, NavAction::CopyModeExit).in_mode(NavMode::Copy);
    let b7 = KeyBinding::new(Key::Slash, NavAction::EnterSearchMode).with_ctrl();
    let b8 = KeyBinding::new(Key::KeyN, NavAction::NextSearchMatch).in_mode(NavMode::Search);
    let b9 = KeyBinding::new(Key::KeyN, NavAction::PrevSearchMatch).with_shift().in_mode(NavMode::Search);
    let b10 = KeyBinding::new(Key::KeyP, NavAction::EnterCommandPalette).with_ctrl();
    proof {
        assert(b1.modifiers@ =~= seq![Modifier::Ctrl]);
        assert(b3.modifiers@ =~= seq![Modifier::Ctrl]);
        assert(b4.modifiers@ =~= seq![Modifier::Ctrl]);
        assert(b5.modifiers@ =~= seq![Modifier::Ctrl]);
        assert(b7.modifiers@ =~= seq![Modifier::Ctrl]);
        assert(b9.modifiers@ =~= seq![Modifier::Shift]);
        assert(b10.modifiers@ =~= seq![Modifier::Ctrl]);
    }
    vec![b0, b1, b2, b3, b4, b5, b6, b7, b8, b9, b10]
}

impl NavInputRouter {
    /// The active style.
    pub closed spec fn style(&self) -> NavStyle {
        self.current_style
    }

    /// The keymap of `style`.
    pub closed spec fn bindings_of(&self, style: NavStyle) -> Seq<KeyBinding> {
        match style {
            NavStyle::VimiumStyle => self.vimium@,
            NavStyle::CosmosStyle => self.cosmos@,
            NavStyle::SpacemacsStyle => self.spacemacs@,
        }
    }

    /// The keymaps are the built-in ones.
    pub open spec fn wf(&self) -> bool {
        &&& vimium_bindings(self.bindings_of(NavStyle::VimiumStyle))
        &&& common_bindings(self.bindings_of(NavStyle::CosmosStyle))
        &&& common_bindings(self.bindings_of(NavStyle::SpacemacsStyle))
    }

    /// A router with the built-in keymaps, in `style`.
    pub fn new(style: NavStyle) -> (r: Self)
        ensures
            r.wf(),
            r.style() == style,
    {
        NavInputRouter {
            current_style: style,
            vimium: vimium_keymap(),
            cosmos: common_keymap(),
            spacemacs: common_keymap(),
        }
    }

    /// A router in the Vimium style.
    pub fn default() -> (r: Self)
        ensures
            r.wf(),
            r.style() == NavStyle::VimiumStyle,
    {
        Self::new(NavStyle::VimiumStyle)
    }

    /// The keymap of the current style.
    pub fn current_bindings(&self) -> (bs: &[KeyBinding])
        ensures
            bs@ == self.bindings_of(self.style()),
    {
        match self.current_style {
            NavStyle::VimiumStyle => self.vimium.as_slice(),
            NavStyle::CosmosStyle => self.cosmos.as_slice(),
            NavStyle::SpacemacsStyle => self.spacemacs.as_slice(),
        }
    }

    /// Change the active navigation style.
    pub fn set_style(&mut self, style: NavStyle)
        ensures
            final(self).style() == style,
            forall|s: NavStyle| final(self).bindings_of(s) == old(self).bindings_of(s),
    {
        self.current_style = style;
    }
}

// ==================== Mode stack ====================

/// Stack of navigation modes allowing nested mode entry.
#[derive(Debug)]
pub struct ModeStack {
    /// Active modes, the current one on top
    modes: Vec<NavMode>,
}

impl View for ModeStack {
    type V = Seq<NavMode>;

    closed spec fn view(&self) -> Seq<NavMode> {
        self.modes@
    }
}

/// The mode on top of a stack (Normal when empty).
pub open spec fn top_mode(s: Seq<NavMode>) -> NavMode {
    if s.len() == 0 {
        NavMode::Normal
    } else {
        s.last()
    }
}

impl ModeStack {
    /// The stack is never empty: Normal mode is at its bottom.
    pub open spec fn wf(&self) -> bool {
        self@.len() >= 1 && self@[0] == NavMode::Normal
    }

    /// A stack holding Normal mode only.
    pub fn new() -> (s: Self)
        ensures
            s.wf(),
            s@ == seq![NavMode::Normal],
    {
        ModeStack { modes: vec![NavMode::Normal] }
    }

    /// The current mode.
    pub fn current(&self) -> (m: NavMode)
        ensures
            m == top_mode(self@),
    {
        if self.modes.len() == 0 {
            NavMode::Normal
        } else {
            self.modes[self.modes.len() - 1]
        }
    }

    /// Enter `mode` on top of the current one.
    pub fn push(&mut self, mode: NavMode)
        ensures
            final(self)@ == old(self)@.push(mode),
            old(self).wf() ==> final(self).wf(),
    {
        self.modes.push(mode);
    }

    /// Leave the current mode for its parent; Normal mode at the bottom is
    /// never left.
    pub fn pop(&mut self) -> (r: Option<NavMode>)
        ensures
            old(self)@.len() > 1 ==> r == Some(old(self)@.last()) && final(self)@
                == old(self)@.drop_last(),
            old(self)@.len() <= 1 ==> r is None && final(self)@ == old(self)@,
            old(self).wf() ==> final(self).wf(),
    {
        if self.modes.len() > 1 {
            self.modes.pop()
        } else {
            None
        }
    }

    /// Return to Normal mode alone.
    pub fn clear(&mut self)
        ensures
            final(self).wf(),
            final(self)@ == seq![NavMode::Normal],
    {
        self.modes.clear();
        self.modes.push(NavMode::Normal);
    }

    /// Whether `mode` is the current mode.
    pub fn is_in(&self, mode: NavMode) -> (r: bool)
        ensures
            r == (top_mode(self@) == mode),
    {
        self.current() == mode
    }

    /// Whether the current mode is Normal.
    pub fn is_normal(&self) -> (r: bool)
        ensures
            r == (top_mode(self@) == NavMode::Normal),
    {
        self.is_in(NavMode::Normal)
    }

    /// Number of stacked modes.
    pub fn depth(&self) -> (n: usize)
        ensures
            n == self@.len(),
    {
        self.modes.len()
    }
}

/// Entering a mode and leaving it returns to the mode stack as it was.
pub proof fn lemma_push_then_pop(s: Seq<NavMode>, m: NavMode)
    requires
        s.len() >= 1,
    ensures
        s.push(m).len() > 1,
        s.push(m).last() == m,
        s.push(m).drop_last() == s,
        top_mode(s.push(m).drop_last()) == top_mode(s),
{
    assert(s.push(m).drop_last() =~= s);
}

// ==================== Routing ====================

/// The first binding, from index `i` on, that applies in `mode` and fires.
pub open spec fn first_firing(bs: Seq<KeyBinding>, mode: NavMode, kb: KeyboardState, i: int) -> Option<int>
    decreases bs.len() - i,
{
    if i < 0 || i >= bs.len() {
        None
    } else if binding_active(bs[i], mode) && binding_fires(bs[i], kb) {
        Some(i)
    } else {
        first_firing(bs, mode, kb, i + 1)
    }
}

/// Typed hint characters keep the order of their keys: when every key just
/// pressed is a letter key, there is one hint character per key, its letter;
/// in any case every hint character is a lower-case letter.
pub proof fn lemma_hint_chars(keys: Seq<Key>)
    ensures
        hint_chars(keys).len() <= keys.len(),
        forall|i: int| 0 <= i < hint_chars(keys).len() ==> (#[trigger] hint_chars(keys)[i] matches NavAction::HintChar(c)
            && 'a' <= c <= 'z'),
        (forall|i: int| 0 <= i < keys.len() ==> (#[trigger] letter_of(keys[i])) is Some) ==> hint_chars(keys).len()
            == keys.len() && forall|i: int|
            0 <= i < keys.len() ==> #[trigger] hint_chars(keys)[i] == NavAction::HintChar(letter_of(keys[i])->0),
    decreases keys.len(),
{
    if keys.len() > 0 {
        let rest = keys.drop_last();
        lemma_hint_chars(rest);
        crate::input::keys::lemma_letters_distinct(keys.last(), keys.last());
        if forall|i: int| 0 <= i < keys.len() ==> (#[trigger] letter_of(keys[i])) is Some {
            assert forall|i: int| 0 <= i < rest.len() implies (#[trigger] letter_of(rest[i])) is Some by {
                assert(rest[i] == keys[i]);
                assert(letter_of(keys[i]) is Some);
            }
            assert(letter_of(keys[keys.len() - 1]) is Some);
        }
    }
}

/// The binding that fires is the first one, from `i` on, that applies in
/// the mode and fires; when none does, no binding from `i` on both applies
/// and fires.
pub proof fn lemma_first_firing(bs: Seq<KeyBinding>, mode: NavMode, kb: KeyboardState, i: int)
    requires
        0 <= i,
    ensures
        first_firing(bs, mode, kb, i) matches Some(k) ==> i <= k < bs.len() && binding_active(bs[k], mode)
            && binding_fires(bs[k], kb) && forall|j: int|
            i <= j < k ==> !(binding_active(#[trigger] bs[j], mode) && binding_fires(bs[j], kb)),
        first_firing(bs, mode, kb, i) is None ==> forall|j: int|
            i <= j < bs.len() ==> !(binding_active(#[trigger] bs[j], mode) && binding_fires(bs[j], kb)),
    decreases bs.len() - i,
{
    if i < bs.len() && !(binding_active(bs[i], mode) && binding_fires(bs[i], kb)) {
        lemma_first_firing(bs, mode, kb, i + 1);
    }
}

/// The mode stack after a binding's action: entering a mode pushes it,
/// leaving pops (never below Normal), cancelling clears.
pub open spec fn stack_after(s: Seq<NavMode>, action: NavAction) -> Seq<NavMode> {
    match action {
        NavAction::EnterHintMode => s.push(NavMode::Hints),
        NavAction::EnterCopyMode => s.push(NavMode::Copy),
        NavAction::EnterSearchMode => s.push(NavMode::Search),
        NavAction::EnterCommandPalette => s.push(NavMode::CommandPalette),
        NavAction::ExitCurrentMode => if s.len() > 1 { s.drop_last() } else { s },
        NavAction::CancelAllModes => seq![NavMode::Normal],
        _ => s,
    }
}

/// Entering a mode makes it the current mode on top of the modes before;
/// leaving it again gives back the stack as it was; cancelling leaves only
/// normal mode.
pub proof fn lemma_mode_transitions(s: Seq<NavMode>)
    requires
        s.len() >= 1,
    ensures
        stack_after(s, NavAction::EnterHintMode) == s.push(NavMode::Hints),
        stack_after(s, NavAction::EnterCopyMode) == s.push(NavMode::Copy),
        stack_after(s, NavAction::EnterSearchMode) == s.push(NavMode::Search),
        stack_after(s, NavAction::EnterCommandPalette) == s.push(NavMode::CommandPalette),
        top_mode(stack_after(s, NavAction::EnterHintMode)) == NavMode::Hints,
        top_mode(stack_after(s, NavAction::EnterCopyMode)) == NavMode::Copy,
        top_mode(stack_after(s, NavAction::EnterSearchMode)) == NavMode::Search,
        top_mode(stack_after(s, NavAction::EnterCommandPalette)) == NavMode::CommandPalette,
        stack_after(stack_after(s, NavAction::EnterCopyMode), NavAction::ExitCurrentMode) == s,
        stack_after(stack_after(s, NavAction::EnterHintMode), NavAction::ExitCurrentMode) == s,
        stack_after(stack_after(s, NavAction::EnterSearchMode), NavAction::ExitCurrentMode) == s,
        stack_after(stack_after(s, NavAction::EnterCommandPalette), NavAction::ExitCurrentMode) == s,
        top_mode(stack_after(s, NavAction::CancelAllModes)) == NavMode::Normal,
        stack_after(s, NavAction::CancelAllModes).len() == 1,
{
    assert(s.push(NavMode::Copy).drop_last() =~= s);
    assert(s.push(NavMode::Hints).drop_last() =~= s);
    assert(s.push(NavMode::Search).drop_last() =~= s);
    assert(s.push(NavMode::CommandPalette).drop_last() =~= s);
}

/// The hint characters typed by the keys just pressed, in order.
pub open spec fn hint_chars(keys: Seq<Key>) -> Seq<NavAction>
    decreases keys.len(),
{
    if keys.len() == 0 {
        seq![]
    } else {
        let rest = hint_chars(keys.drop_last());
        match letter_of(keys.last()) {
            Some(c) => rest.push(NavAction::HintChar(c)),
            None => rest,
        }
    }
}

/// Routes one frame of keyboard input: the first binding of the current
/// style that applies in the current mode and fires gives the single action,
/// and moves the mode stack; without one, letter keys in hint mode give hint
/// characters.
pub fn route_nav_input(
    keyboard: &KeyboardState,
    router: &NavInputRouter,
    mode_stack: &mut ModeStack,
) -> (actions: Vec<NavAction>)
    requires
        old(mode_stack).wf(),
    ensures
        final(mode_stack).wf(),
        match first_firing(router.bindings_of(router.style()), top_mode(old(mode_stack)@), *keyboard, 0) {
            Some(k) => {
                let a = router.bindings_of(router.style())[k].action;
                &&& actions@ == seq![a]
                &&& final(mode_stack)@ == stack_after(old(mode_stack)@, a)
                &&& a == NavAction::EnterHintMode ==> final(mode_stack)@ == old(mode_stack)@.push(NavMode::Hints)
                &&& a == NavAction::EnterCopyMode ==> final(mode_stack)@ == old(mode_stack)@.push(NavMode::Copy)
                &&& a == NavAction::EnterSearchMode ==> final(mode_stack)@ == old(mode_stack)@.push(NavMode::Search)
                &&& a == NavAction::EnterCommandPalette ==> final(mode_stack)@ == old(mode_stack)@.push(
                    NavMode::CommandPalette,
                )
            },
            None => {
                &&& final(mode_stack)@ == old(mode_stack)@
                &&& actions@ == (if top_mode(old(mode_stack)@) == NavMode::Hints {
                    hint_chars(keyboard.just_pressed@)
                } else {
                    seq![]
                })
            },
        },
{
    let current_mode = mode_stack.current();
    let bindings = router.current_bindings();
    let ghost bs = bindings@;
    let mut i: usize = 0;
    while i < bindings.len()
        invariant
            i <= bs.len(),
            bs == bindings@,
            bs == router.bindings_of(router.style()),
            current_mode == top_mode(mode_stack@),
            mode_stack@ == old(mode_stack)@,
            mode_stack.wf(),
            first_firing(bs, current_mode, *keyboard, 0) == first_firing(bs, current_mode, *keyboard, i as int),
        decreases bindings.len() - i,
    {
        let binding = &bindings[i];
        if binding.is_active_in(current_mode) && binding.matches(keyboard) {
            let action = binding.action;
            match action {
                NavAction::EnterHintMode => mode_stack.push(NavMode::Hints),
                NavAction::EnterCopyMode => mode_stack.push(NavMode::Copy),
                NavAction::EnterSearchMode => mode_stack.push(NavMode::Search),
                NavAction::EnterCommandPalette => mode_stack.push(NavMode::CommandPalette),
                NavAction::ExitCurrentMode => {
                    let _ = mode_stack.pop();
                },
                NavAction::CancelAllModes => mode_stack.clear(),
                _ => {},
            }
            proof {
                assert(first_firing(bs, current_mode, *keyboard, i as int) == Some(i as int));

            }
            let r = vec![action];
            proof {
                assert(r@ =~= seq![action]);
            }
            return r;
        }
        i = i + 1;
    }
    let mut actions: Vec<NavAction> = Vec::new();
    if current_mode == NavMode::Hints {
        let mut j: usize = 0;
        while j < keyboard.just_pressed.len()
            invariant
                j <= keyboard.just_pressed@.len(),
                actions@ == hint_chars(keyboard.just_pressed@.take(j as int)),
            decreases keyboard.just_pressed.len() - j,
        {
            proof {
                assert(keyboard.just_pressed@.take(j + 1).drop_last() =~= keyboard.just_pressed@.take(j as int));
            }
            if let Some(c) = keycode_to_char(keyboard.just_pressed[j]) {
                actions.push(NavAction::HintChar(c));
            }
            j = j + 1;
        }
        proof {
            assert(keyboard.just_pressed@.take(keyboard.just_pressed@.len() as int) =~= keyboard.just_pressed@);
        }
    }
    actions
}

} // verus!
