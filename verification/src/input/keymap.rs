//! Declarative keybinding definitions.
//!
//! Keys are modelled by the library's own types; the terminal layer converts
//! its events into them.
use vstd::prelude::*;

use crate::actions::registry::{builtin_action, builtin_specs, ActionSpec};
use crate::actions::types::app_action;
use crate::actions::{Action, ActionRegistry, ActionType, AppAction, Context};
use crate::text::{decimal, push_decimal};

verus! {

/// A key, as the terminal reports it.
#[derive(Debug, Clone, Copy, PartialEq, Eq, Hash, Structural)]
pub enum KeyCode {
    Backspace,
    Enter,
    Left,
    Right,
    Up,
    Down,
    Home,
    End,
    PageUp,
    PageDown,
    Tab,
    BackTab,
    Delete,
    Insert,
    /// Function key `F(n)`
    F(u8),
    /// A character key
    Char(char),
    Null,
    Esc,
    CapsLock,
    ScrollLock,
    NumLock,
    PrintScreen,
    Pause,
    Menu,
    KeypadBegin,
}

/// Modifier keys held with a key.
#[derive(Debug, Clone, Copy, PartialEq, Eq, Hash, Structural)]
pub struct KeyModifiers {
    pub shift: bool,
    pub control: bool,
    pub alt: bool,
    pub super_key: bool,
    pub hyper: bool,
    pub meta: bool,
}

/// No modifier held.
pub open spec fn no_modifiers() -> KeyModifiers {
    KeyModifiers {
        shift: false,
        control: false,
        alt: false,
        super_key: false,
        hyper: false,
        meta: false,
    }
}

/// Only Ctrl held.
pub open spec fn ctrl_modifiers() -> KeyModifiers {
    KeyModifiers { control: true, ..no_modifiers() }
}

/// A character key without modifiers.
pub open spec fn char_key(c: char) -> KeyBinding {
    KeyBinding { code: KeyCode::Char(c), modifiers: no_modifiers() }
}

impl KeyModifiers {
    /// No modifier held.
    pub fn none() -> (res: Self)
        ensures
            res == no_modifiers(),
    {
        KeyModifiers {
            shift: false,
            control: false,
            alt: false,
            super_key: false,
            hyper: false,
            meta: false,
        }
    }

    /// Only Ctrl held.
    pub fn control() -> (res: Self)
        ensures
            res == ctrl_modifiers(),
    {
        KeyModifiers {
            shift: false,
            control: true,
            alt: false,
            super_key: false,
            hyper: false,
            meta: false,
        }
    }
}

/// A key press: a key code and its modifiers.
#[derive(Debug, Clone, Copy, PartialEq, Eq, Hash, Structural)]
pub struct KeyEvent {
    pub code: KeyCode,
    pub modifiers: KeyModifiers,
}

impl KeyEvent {
    /// A key press with the given modifiers.
    pub fn new(code: KeyCode, modifiers: KeyModifiers) -> (res: Self)
        ensures
            res.code == code,
            res.modifiers == modifiers,
    {
        KeyEvent { code, modifiers }
    }

    /// A key press without modifiers.
    pub fn from_code(code: KeyCode) -> (res: Self)
        ensures
            res.code == code,
            res.modifiers == no_modifiers(),
    {
        KeyEvent { code, modifiers: KeyModifiers::none() }
    }
}

impl From<KeyCode> for KeyEvent {
    /// A key press without modifiers.
    fn from(code: KeyCode) -> (res: Self) {
        KeyEvent::from_code(code)
    }
}

impl vstd::std_specs::convert::FromSpecImpl<KeyCode> for KeyEvent {
    open spec fn obeys_from_spec() -> bool {
        true
    }

    open spec fn from_spec(code: KeyCode) -> KeyEvent {
        KeyEvent { code, modifiers: no_modifiers() }
    }
}

/// A key binding (key code + modifiers)
#[derive(Debug, Clone, Copy, PartialEq, Eq, Hash, Structural)]
pub struct KeyBinding {
    /// The key code
    pub code: KeyCode,
    /// Required modifiers (Ctrl, Alt, Shift)
    pub modifiers: KeyModifiers,
}

/// The name under which a key is shown.
pub open spec fn key_name(code: KeyCode) -> Seq<char> {
    match code {
        KeyCode::Char(c) => if c == ' ' {
            "Space"@
        } else {
            seq![c]
        },
        KeyCode::Enter => "Enter"@,
        KeyCode::Esc => "Esc"@,
        KeyCode::Tab => "Tab"@,
        KeyCode::Backspace => "Backspace"@,
        KeyCode::F(n) => "F"@ + decimal(n as nat),
        KeyCode::Left => "Left"@,
        KeyCode::Right => "Right"@,
        KeyCode::Up => "Up"@,
        KeyCode::Down => "Down"@,
        KeyCode::Home => "Home"@,
        KeyCode::End => "End"@,
        KeyCode::PageUp => "PageUp"@,
        KeyCode::PageDown => "PageDown"@,
        KeyCode::BackTab => "BackTab"@,
        KeyCode::Delete => "Delete"@,
        KeyCode::Insert => "Insert"@,
        KeyCode::Null => "Null"@,
        KeyCode::CapsLock => "CapsLock"@,
        KeyCode::ScrollLock => "ScrollLock"@,
        KeyCode::NumLock => "NumLock"@,
        KeyCode::PrintScreen => "PrintScreen"@,
        KeyCode::Pause => "Pause"@,
        KeyCode::Menu => "Menu"@,
        KeyCode::KeypadBegin => "KeypadBegin"@,
    }
}

/// The label of a binding: held modifiers in the order Ctrl, Alt, Shift, each
/// followed by `+`, then the key name.
pub open spec fn binding_label(b: KeyBinding) -> Seq<char> {
    (if b.modifiers.control {
        "Ctrl+"@
    } else {
        seq![]
    }) + (if b.modifiers.alt {
        "Alt+"@
    } else {
        seq![]
    }) + (if b.modifiers.shift {
        "Shift+"@
    } else {
        seq![]
    }) + key_name(b.code)
}

/// Appends the name of a key.
fn push_key_name(out: &mut String, code: KeyCode)
    ensures
        final(out)@ == old(out)@ + key_name(code),
{
    match code {
        KeyCode::Char(c) => {
            if c == ' ' {
                out.append("Space");
            } else {
                crate::text::push_char(out, c);
                assert(old(out)@.push(c) == old(out)@ + seq![c]);
            }
        },
        KeyCode::Enter => out.append("Enter"),
        KeyCode::Esc => out.append("Esc"),
        KeyCode::Tab => out.append("Tab"),
        KeyCode::Backspace => out.append("Backspace"),
        KeyCode::F(n) => {
            out.append("F");
            push_decimal(out, n as u64);
        },
        KeyCode::Left => out.append("Left"),
        KeyCode::Right => out.append("Right"),
        KeyCode::Up => out.append("Up"),
        KeyCode::Down => out.append("Down"),
        KeyCode::Home => out.append("Home"),
        KeyCode::End => out.append("End"),
        KeyCode::PageUp => out.append("PageUp"),
        KeyCode::PageDown => out.append("PageDown"),
        KeyCode::BackTab => out.append("BackTab"),
        KeyCode::Delete => out.append("Delete"),
        KeyCode::Insert => out.append("Insert"),
        KeyCode::Null => out.append("Null"),
        KeyCode::CapsLock => out.append("CapsLock"),
        KeyCode::ScrollLock => out.append("ScrollLock"),
        KeyCode::NumLock => out.append("NumLock"),
        KeyCode::PrintScreen => out.append("PrintScreen"),
        KeyCode::Pause => out.append("Pause"),
        KeyCode::Menu => out.append("Menu"),
        KeyCode::KeypadBegin => out.append("KeypadBegin"),
    }
}

/// The binding a key press matches.
pub open spec fn event_binding(e: KeyEvent) -> KeyBinding {
    KeyBinding { code: e.code, modifiers: e.modifiers }
}

impl KeyBinding {
    /// Create a new key binding
    pub fn new(code: KeyCode, modifiers: KeyModifiers) -> (res: Self)
        ensures
            res.code == code,
            res.modifiers == modifiers,
    {
        KeyBinding { code, modifiers }
    }

    /// Create a key binding with no modifiers
    pub fn key(code: KeyCode) -> (res: Self)
        ensures
            res.code == code,
            res.modifiers == no_modifiers(),
    {
        KeyBinding::new(code, KeyModifiers::none())
    }

    /// Create a key binding for a character
    pub fn char(c: char) -> (res: Self)
        ensures
            res.code == KeyCode::Char(c),
            res.modifiers == no_modifiers(),
    {
        KeyBinding::key(KeyCode::Char(c))
    }

    /// Create a key binding with Ctrl modifier
    pub fn ctrl(code: KeyCode) -> (res: Self)
        ensures
            res.code == code,
            res.modifiers == ctrl_modifiers(),
    {
        KeyBinding::new(code, KeyModifiers::control())
    }

    /// Create a key binding for Ctrl+char
    pub fn ctrl_char(c: char) -> (res: Self)
        ensures
            res.code == KeyCode::Char(c),
            res.modifiers == ctrl_modifiers(),
    {
        KeyBinding::ctrl(KeyCode::Char(c))
    }

    /// The label shown for this binding, e.g. `Ctrl+d` or `Space`.
    pub fn label(&self) -> (res: String)
        ensures
            res@ == binding_label(*self),
    {
        let mut out = String::new();
        if self.modifiers.control {
            out.append("Ctrl+");
        }
        if self.modifiers.alt {
            out.append("Alt+");
        }
        if self.modifiers.shift {
            out.append("Shift+");
        }
        push_key_name(&mut out, self.code);
        out
    }

    /// The binding a key press matches.
    pub fn from_event(event: KeyEvent) -> (res: Self)
        ensures
            res == event_binding(event),
    {
        KeyBinding { code: event.code, modifiers: event.modifiers }
    }
}

impl From<KeyEvent> for KeyBinding {
    /// The binding a key press matches.
    fn from(event: KeyEvent) -> (res: Self) {
        KeyBinding::from_event(event)
    }
}

impl vstd::std_specs::convert::FromSpecImpl<KeyEvent> for KeyBinding {
    open spec fn obeys_from_spec() -> bool {
        true
    }

    open spec fn from_spec(event: KeyEvent) -> KeyBinding {
        event_binding(event)
    }
}

// ---------------------------------------------------------------------------
// Keymap
// ---------------------------------------------------------------------------

/// Later bindings replace earlier ones for the same key.
pub open spec fn global_map(s: Seq<(KeyBinding, AppAction)>) -> Map<KeyBinding, AppAction>
    decreases s.len(),
{
    if s.len() == 0 {
        Map::empty()
    } else {
        global_map(s.drop_last()).insert(s.last().0, s.last().1)
    }
}

/// Later bindings replace earlier ones for the same context and key.
pub open spec fn context_map(s: Seq<(Context, KeyBinding, AppAction)>) -> Map<
    (Context, KeyBinding),
    AppAction,
>
    decreases s.len(),
{
    if s.len() == 0 {
        Map::empty()
    } else {
        context_map(s.drop_last()).insert((s.last().0, s.last().1), s.last().2)
    }
}

/// Declarative keymap that maps key bindings to actions
#[derive(Debug)]
pub struct Keymap {
    /// Global bindings (always checked), in the order they were made
    global: Vec<(KeyBinding, AppAction)>,
    /// Context-specific bindings, in the order they were made
    contextual: Vec<(Context, KeyBinding, AppAction)>,
}

/// The abstract keymap: global bindings and per-context bindings.
pub type KeymapView = (Map<KeyBinding, AppAction>, Map<(Context, KeyBinding), AppAction>);

impl View for Keymap {
    type V = KeymapView;

    closed spec fn view(&self) -> KeymapView {
        (global_map(self.global@), context_map(self.contextual@))
    }
}

/// The value under `k`, if any.
pub open spec fn map_get<K, V>(m: Map<K, V>, k: K) -> Option<V> {
    if m.contains_key(k) {
        Some(m[k])
    } else {
        None
    }
}

/// What a keymap gives for a key in a context: a binding of that context
/// first, else a global binding.
pub open spec fn keymap_lookup(km: KeymapView, b: KeyBinding, ctx: Context) -> Option<AppAction> {
    if km.1.contains_key((ctx, b)) {
        Some(km.1[(ctx, b)])
    } else if km.0.contains_key(b) {
        Some(km.0[b])
    } else {
        None
    }
}

/// Binds `b` to `act` in every context of `ctxs` but `Global`.
pub open spec fn bind_contexts(
    m: Map<(Context, KeyBinding), AppAction>,
    ctxs: Seq<Context>,
    b: KeyBinding,
    act: AppAction,
) -> Map<(Context, KeyBinding), AppAction>
    decreases ctxs.len(),
{
    if ctxs.len() == 0 {
        m
    } else {
        let m2 = bind_contexts(m, ctxs.drop_last(), b, act);
        if ctxs.last() == Context::Global {
            m2
        } else {
            m2.insert((ctxs.last(), b), act)
        }
    }
}

/// The keymap that the registry's actions define: each built-in action with
/// a binding is bound globally when it is a global action, and in each of its
/// other contexts.
pub open spec fn registry_keymap(actions: Seq<Action>) -> KeymapView
    decreases actions.len(),
{
    if actions.len() == 0 {
        (Map::empty(), Map::empty())
    } else {
        let km = registry_keymap(actions.drop_last());
        let a = actions.last();
        match (a.action_type, a.binding) {
            (ActionType::App(x), Some(b)) => {
                let g = if a.contexts@.contains(Context::Global) {
                    km.0.insert(b, x)
                } else {
                    km.0
                };
                (g, bind_contexts(km.1, a.contexts@, b, x))
            },
            _ => km,
        }
    }
}


/// The keymap that a list of action descriptions defines, as for
/// `registry_keymap`.
pub open spec fn spec_keymap(specs: Seq<ActionSpec>) -> KeymapView
    decreases specs.len(),
{
    if specs.len() == 0 {
        (Map::empty(), Map::empty())
    } else {
        let km = spec_keymap(specs.drop_last());
        let a = specs.last();
        let g = if a.3.contains(Context::Global) {
            km.0.insert(a.0, a.2)
        } else {
            km.0
        };
        (g, bind_contexts(km.1, a.3, a.0, a.2))
    }
}

/// Actions built from descriptions define the keymap the descriptions define.
pub proof fn lemma_builtin_keymap(actions: Seq<Action>, specs: Seq<ActionSpec>)
    requires
        actions.len() == specs.len(),
        forall|i: int|
            0 <= i < specs.len() ==> app_action(
                specs[i].0,
                specs[i].1,
                specs[i].2,
                specs[i].3,
                specs[i].4,
                specs[i].5,
                #[trigger] actions[i],
            ),
    ensures
        registry_keymap(actions) == spec_keymap(specs),
    decreases specs.len(),
{
    if specs.len() > 0 {
        lemma_builtin_keymap(actions.drop_last(), specs.drop_last());
        assert(app_action(
            specs.last().0,
            specs.last().1,
            specs.last().2,
            specs.last().3,
            specs.last().4,
            specs.last().5,
            actions[actions.len() - 1],
        ));
    }
}

impl Default for Keymap {
    fn default() -> (res: Self)
        ensures
            res@.0 == Map::<KeyBinding, AppAction>::empty(),
            res@.1 == Map::<(Context, KeyBinding), AppAction>::empty(),
    {
        Keymap { global: Vec::new(), contextual: Vec::new() }
    }
}

impl Keymap {
    /// Create a new empty keymap
    pub fn new() -> (res: Self)
        ensures
            res@.0 == Map::<KeyBinding, AppAction>::empty(),
            res@.1 == Map::<(Context, KeyBinding), AppAction>::empty(),
    {
        Keymap::default()
    }

    /// Create a keymap with default bindings
    pub fn with_defaults() -> (res: Self)
        ensures
            res@ == spec_keymap(builtin_specs()),
    {
        let registry = ActionRegistry::new();
        proof {
            let specs = builtin_specs();
            assert forall|i: int| 0 <= i < specs.len() implies app_action(
                specs[i].0,
                specs[i].1,
                specs[i].2,
                specs[i].3,
                specs[i].4,
                specs[i].5,
                #[trigger] registry@[i],
            ) by {
                assert(builtin_action(i, registry@[i]));
            }
            lemma_builtin_keymap(registry@, specs);
        }
        Keymap::from_registry(&registry)
    }

    /// Add a global binding
    pub fn bind_global(&mut self, binding: KeyBinding, action: AppAction)
        ensures
            final(self)@.0 == old(self)@.0.insert(binding, action),
            final(self)@.1 == old(self)@.1,
    {
        let ghost old_g = self.global@;
        self.global.push((binding, action));
        assert(self.global@.drop_last() == old_g);
    }

    /// Add a contextual binding
    pub fn bind(&mut self, context: Context, binding: KeyBinding, action: AppAction)
        ensures
            final(self)@.1 == old(self)@.1.insert((context, binding), action),
            final(self)@.0 == old(self)@.0,
    {
        let ghost old_c = self.contextual@;
        self.contextual.push((context, binding, action));
        assert(self.contextual@.drop_last() == old_c);
    }

    /// Look up an action for a key event in a given context
    pub fn lookup(&self, key: KeyEvent, context: Context) -> (res: Option<AppAction>)
        ensures
            res == keymap_lookup(self@, event_binding(key), context),
    {
        let binding = KeyBinding::from_event(key);
        let ghost ck = (context, binding);
        let mut j = self.contextual.len();
        assert(self.contextual@.take(j as int) == self.contextual@);
        while j > 0
            invariant
                j <= self.contextual@.len(),
                ck == (context, binding),
                binding == event_binding(key),
                map_get(context_map(self.contextual@), ck) == map_get(
                    context_map(self.contextual@.take(j as int)),
                    ck,
                ),
            decreases j,
        {
            let e = self.contextual[j - 1];
            assert(self.contextual@.take(j as int).drop_last() == self.contextual@.take(j - 1));
            assert(self.contextual@.take(j as int).last() == e);
            assert(context_map(self.contextual@.take(j as int)) == context_map(
                self.contextual@.take(j - 1),
            ).insert((e.0, e.1), e.2));
            if e.0 == context && e.1 == binding {
                assert((e.0, e.1) == ck);
                assert(map_get(context_map(self.contextual@), ck) == Some(e.2));
                assert(self@.1 == context_map(self.contextual@));
                assert(event_binding(key) == binding);
                return Some(e.2);
            }
            j = j - 1;
        }
        let mut i = self.global.len();
        assert(self.global@.take(i as int) == self.global@);
        while i > 0
            invariant
                i <= self.global@.len(),
                ck == (context, binding),
                binding == event_binding(key),
                !context_map(self.contextual@).contains_key(ck),
                map_get(global_map(self.global@), binding) == map_get(
                    global_map(self.global@.take(i as int)),
                    binding,
                ),
            decreases i,
        {
            let e = self.global[i - 1];
            assert(self.global@.take(i as int).drop_last() == self.global@.take(i - 1));
            assert(self.global@.take(i as int).last() == e);
            assert(global_map(self.global@.take(i as int)) == global_map(
                self.global@.take(i - 1),
            ).insert(e.0, e.1));
            if e.0 == binding {
                assert(map_get(global_map(self.global@), binding) == Some(e.1));
                assert(self@.0 == global_map(self.global@));
                assert(event_binding(key) == binding);
                return Some(e.1);
            }
            i = i - 1;
        }
        None
    }

    /// Build keybindings from the action registry
    pub fn from_registry(registry: &ActionRegistry) -> (res: Self)
        ensures
            res@ == registry_keymap(registry@),
    {
        let mut keymap = Keymap::new();
        let actions = registry.actions();
        let n = actions.len();
        for i in 0..n
            invariant
                n == actions@.len(),
                actions@ == registry@,
                keymap@ == registry_keymap(registry@.take(i as int)),
        {
            let action = &actions[i];
            assert(registry@.take(i + 1).drop_last() == registry@.take(i as int));
            assert(registry@.take(i + 1).last() == *action);
            match (&action.action_type, action.binding) {
                (ActionType::App(app_action), Some(binding)) => {
                    let app_action = *app_action;
                    if contains_context(&action.contexts, Context::Global) {
                        keymap.bind_global(binding, app_action);
                    }
                    let ghost g = keymap@.0;
                    let ghost start = keymap@.1;
                    let m = action.contexts.len();
                    for k in 0..m
                        invariant
                            m == action.contexts@.len(),
                            keymap@.0 == g,
                            keymap@.1 == bind_contexts(
                                start,
                                action.contexts@.take(k as int),
                                binding,
                                app_action,
                            ),
                    {
                        assert(action.contexts@.take(k + 1).drop_last() == action.contexts@.take(
                            k as int,
                        ));
                        let context = action.contexts[k];
                        if context != Context::Global {
                            keymap.bind(context, binding, app_action);
                        }
                    }
                    assert(action.contexts@.take(m as int) == action.contexts@);
                },
                _ => {},
            }
        }
        assert(registry@.take(n as int) == registry@);
        keymap
    }
}

/// Whether `ctx` is among `v`.
pub fn contains_context(v: &Vec<Context>, ctx: Context) -> (res: bool)
    ensures
        res == v@.contains(ctx),
{
    let n = v.len();
    for i in 0..n
        invariant
            n == v@.len(),
            forall|j: int| 0 <= j < i ==> v@[j] != ctx,
    {
        if v[i] == ctx {
            assert(v@[i as int] == ctx);
            return true;
        }
    }
    false
}

/// A key bound in a context gives, in that context, the action it was bound
/// to last.
pub proof fn lemma_bind_then_lookup(km: KeymapView, ctx: Context, b: KeyBinding, act: AppAction)
    ensures
        keymap_lookup((km.0, km.1.insert((ctx, b), act)), b, ctx) == Some(act),
{
}

/// A key bound globally gives its action in every context that has no
/// binding of its own for that key.
pub proof fn lemma_global_binding(km: KeymapView, b: KeyBinding, act: AppAction, ctx: Context)
    requires
        !km.1.contains_key((ctx, b)),
    ensures
        keymap_lookup((km.0.insert(b, act), km.1), b, ctx) == Some(act),
{
}

/// A binding of the context takes precedence over a global binding of the
/// same key.
pub proof fn lemma_context_first(km: KeymapView, b: KeyBinding, ctx: Context)
    requires
        km.1.contains_key((ctx, b)),
    ensures
        keymap_lookup(km, b, ctx) == Some(km.1[(ctx, b)]),
{
}

} // verus!
