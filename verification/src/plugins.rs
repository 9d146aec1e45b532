//! Plugin records and the registry that drives them.
//!
//! A plugin binds, per loaded module, the subset of conventionally named
//! hooks that module actually exports: a capability table built once at
//! load time, not looked up on every call. Absence of a hook is not an
//! error; an export under the agreed name with the wrong signature is.
//! The registry keeps plugins in load order, which is dispatch order.

use crate::meta::PluginMeta;
use vstd::prelude::*;

verus! {

/// Load-time errors. Each aborts loading of that single plugin only; the
/// messages carried by the first four variants are reported by the
/// surrounding application, which is where the failing file access,
/// descriptor parse and module instantiation happen.
#[derive(Debug)]
pub enum PluginError {
    /// Failed to read a plugin file.
    LoadFile(String),
    /// Failed to deserialize the descriptor file.
    Deserialize(String),
    /// Failed to compile the module.
    Compile(String),
    /// Failed to instantiate the module.
    Instantiate(String),
    /// A module entrypoint function is of an incorrect type.
    FunctionType,
}

/// What the host found when looking up one conventionally named export
/// of a loaded module.
#[derive(Clone, Copy, Debug, PartialEq, Eq, Structural)]
pub enum HookLookup {
    /// Exported under the agreed name with the expected signature.
    Found,
    /// Not exported at all.
    Missing,
    /// Exported under the agreed name, but with the wrong signature.
    IncompatibleType,
}

/// Outcome of one call of a status-returning hook: the code the guest
/// returned, or a trap caught at the call site.
#[derive(Clone, Copy, Debug, PartialEq, Eq, Structural)]
pub enum CallOutcome {
    Status(i32),
    Trapped,
}

/// Decision for binding one optional hook: present, absent, or a
/// load-time error for a signature mismatch.
pub fn bind_hook(lookup: HookLookup) -> (r: Result<bool, PluginError>)
    ensures
        lookup == HookLookup::Found ==> r == Ok::<bool, PluginError>(true),
        lookup == HookLookup::Missing ==> r == Ok::<bool, PluginError>(false),
        lookup == HookLookup::IncompatibleType <==> (r matches Err(e) && e is FunctionType),
{
    match lookup {
        HookLookup::Found => Ok(true),
        HookLookup::Missing => Ok(false),
        HookLookup::IncompatibleType => Err(PluginError::FunctionType),
    }
}

/// Mathematical model of a [`Plugin`]: its descriptor fields, lifecycle
/// state, and which optional hooks the module exports.
pub struct PluginView {
    pub name: Seq<char>,
    pub version: Seq<char>,
    pub ready: bool,
    pub has_update: bool,
    pub has_event_init: bool,
    pub has_event_reset: bool,
    pub has_event_alloc: bool,
    pub has_event_update: bool,
}

/// One loaded module: its descriptor and its capability table of optional
/// hooks, plus its lifecycle state. A plugin starts in the `Loaded` state
/// (`ready == false`) and becomes `Ready` once its event-init phase has
/// completed successfully; only then does the per-tick event dispatch run
/// for it.
pub struct Plugin {
    meta: PluginMeta,
    ready: bool,
    has_update: bool,
    has_event_init: bool,
    has_event_reset: bool,
    has_event_alloc: bool,
    has_event_update: bool,
}

impl View for Plugin {
    type V = PluginView;

    closed spec fn view(&self) -> PluginView {
        PluginView {
            name: self.meta.name@,
            version: self.meta.version@,
            ready: self.ready,
            has_update: self.has_update,
            has_event_init: self.has_event_init,
            has_event_reset: self.has_event_reset,
            has_event_alloc: self.has_event_alloc,
            has_event_update: self.has_event_update,
        }
    }
}

/// Whether a plugin is ready after its event-init phase: a missing init
/// hook simply skips the phase, a zero status is success, a nonzero
/// status or a trap is an application-level failure that keeps the plugin
/// out of the ready state.
pub open spec fn spec_ready_after_init(outcome: Option<CallOutcome>) -> bool {
    match outcome {
        None => true,
        Some(CallOutcome::Status(code)) => code == 0,
        Some(CallOutcome::Trapped) => false,
    }
}

impl Plugin {
    /// Build one plugin record from its descriptor and the lookup result
    /// of each conventionally named hook. Any signature mismatch aborts
    /// the load of this plugin; missing hooks are simply absent from the
    /// capability table. The new plugin is in the `Loaded` state.
    pub fn build(
        meta: PluginMeta,
        update: HookLookup,
        event_init: HookLookup,
        event_reset: HookLookup,
        event_alloc: HookLookup,
        event_update: HookLookup,
    ) -> (r: Result<Plugin, PluginError>)
        ensures
            r is Ok <==> update != HookLookup::IncompatibleType && event_init
                != HookLookup::IncompatibleType && event_reset != HookLookup::IncompatibleType
                && event_alloc != HookLookup::IncompatibleType && event_update
                != HookLookup::IncompatibleType,
            r matches Err(e) ==> e is FunctionType,
            r matches Ok(p) ==> {
                &&& p@.name == meta.name@
                &&& p@.version == meta.version@
                &&& !p@.ready
                &&& p@.has_update == (update == HookLookup::Found)
                &&& p@.has_event_init == (event_init == HookLookup::Found)
                &&& p@.has_event_reset == (event_reset == HookLookup::Found)
                &&& p@.has_event_alloc == (event_alloc == HookLookup::Found)
                &&& p@.has_event_update == (event_update == HookLookup::Found)
            },
    {
        let has_update = bind_hook(update)?;
        let has_event_init = bind_hook(event_init)?;
        let has_event_reset = bind_hook(event_reset)?;
        let has_event_alloc = bind_hook(event_alloc)?;
        let has_event_update = bind_hook(event_update)?;
        Ok(
            Plugin {
                meta,
                ready: false,
                has_update,
                has_event_init,
                has_event_reset,
                has_event_alloc,
                has_event_update,
            },
        )
    }

    /// The plugin's descriptor.
    pub fn meta(&self) -> (m: &PluginMeta)
        ensures
            m.name@ == self@.name,
            m.version@ == self@.version,
    {
        &self.meta
    }

    /// Whether the event-init phase has completed successfully.
    pub fn is_ready(&self) -> (b: bool)
        ensures
            b == self@.ready,
    {
        self.ready
    }

    /// Whether the module exports the per-frame update hook.
    pub fn has_update_fn(&self) -> (b: bool)
        ensures
            b == self@.has_update,
    {
        self.has_update
    }

    /// Whether the module exports the event-init hook.
    pub fn has_event_init_fn(&self) -> (b: bool)
        ensures
            b == self@.has_event_init,
    {
        self.has_event_init
    }

    /// Whether the module exports the event-reset hook.
    pub fn has_event_reset_fn(&self) -> (b: bool)
        ensures
            b == self@.has_event_reset,
    {
        self.has_event_reset
    }

    /// Whether the module exports the event-alloc hook.
    pub fn has_event_alloc_fn(&self) -> (b: bool)
        ensures
            b == self@.has_event_alloc,
    {
        self.has_event_alloc
    }

    /// Whether the module exports the event-update hook.
    pub fn has_event_update_fn(&self) -> (b: bool)
        ensures
            b == self@.has_event_update,
    {
        self.has_event_update
    }

    /// Record the outcome of the event-init phase, moving the plugin from
    /// `Loaded` to `Ready` exactly when the phase succeeded. The caller
    /// hands in the init hook's outcome, or `None` when the module does
    /// not export that hook (the phase is then skipped, which counts as
    /// success).
    pub fn complete_init(&mut self, outcome: Option<CallOutcome>)
        requires
            outcome is Some <==> old(self)@.has_event_init,
        ensures
            final(self)@ == (PluginView { ready: spec_ready_after_init(outcome), ..old(self)@ }),
    {
        self.ready = match outcome {
            None => true,
            Some(CallOutcome::Status(code)) => code == 0,
            Some(CallOutcome::Trapped) => false,
        };
    }
}

/// Registry of instantiated plugin modules, in load order. Load order is
/// dispatch order: insertion-ordered, never reordered.
pub struct Plugins {
    plugins: Vec<Plugin>,
}

impl View for Plugins {
    type V = Seq<PluginView>;

    closed spec fn view(&self) -> Seq<PluginView> {
        self.plugins@.map_values(|p: Plugin| p@)
    }
}

impl Plugins {
    /// An empty registry.
    pub fn new() -> (r: Self)
        ensures
            r@.len() == 0,
    {
        Plugins { plugins: Vec::new() }
    }

    /// Append a loaded plugin at the back of the dispatch order.
    pub fn register(&mut self, plugin: Plugin)
        ensures
            final(self)@ == old(self)@.push(plugin@),
    {
        self.plugins.push(plugin);
        proof {
            assert(final(self)@ =~= old(self)@.push(plugin@));
        }
    }

    /// Number of loaded plugins.
    pub fn plugin_count(&self) -> (n: usize)
        ensures
            n == self@.len(),
    {
        self.plugins.len()
    }

    /// The plugin at the given position of the dispatch order.
    pub fn get_plugin(&self, index: usize) -> (p: &Plugin)
        requires
            index < self@.len(),
        ensures
            p@ == self@[index as int],
    {
        &self.plugins[index]
    }

    /// Mutable access to the plugin at the given position, for lifecycle
    /// transitions.
    pub fn get_plugin_mut(&mut self, index: usize) -> (p: &mut Plugin)
        requires
            index < old(self)@.len(),
        ensures
            (*p)@ == old(self)@[index as int],
            final(self)@ == old(self)@.update(index as int, final(p)@),
    {
        &mut self.plugins[index]
    }
}

impl Default for Plugins {
    /// Same as [`Plugins::new`]: an empty registry.
    fn default() -> (r: Self)
        ensures
            r@.len() == 0,
    {
        Plugins::new()
    }
}

} // verus!
