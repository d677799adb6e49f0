//! The plugin registry: loaded plugins by id, with each plugin's sandbox
//! context and, for WASM plugins, its supervisor.

use vstd::prelude::*;
use std::sync::Arc;
use crate::abi::EntryKind;
use crate::dispatch::CatalogCaps;
use crate::ipc::MediaTab;
use crate::text::str_eq;
use crate::ipc_types::{PluginInfo, PluginListResponse, PluginStatus};
use crate::dispatch::copy_names;

verus! {

/// A capability a plugin declares.
#[derive(Debug, Clone, Copy, PartialEq, Eq, Hash, Structural)]
pub enum PluginCapability {
    Catalog,
    Streams,
    Subtitles,
    Metadata,
}

/// How a plugin's code runs.
#[derive(Debug, Clone, Copy, PartialEq, Eq, Hash, Structural)]
pub enum ExecutionMode {
    /// Compiled to WebAssembly and run under a supervisor.
    Wasm,
    /// Run through its sandbox context.
    Sandboxed,
}

/// A plugin the engine has loaded, with the manifest facts the runtime
/// reads.
#[derive(Debug, Clone)]
pub struct LoadedPlugin {
    /// Runtime-assigned id (a UUID).
    pub id: String,
    /// Display name from the manifest.
    pub name: String,
    pub version: String,
    /// The manifest's plugin type, as written.
    pub plugin_type: String,
    /// The manifest's one-line description, if any.
    pub description: Option<String>,
    /// The manifest's author, if any.
    pub author: Option<String>,
    pub tags: Vec<String>,
    pub is_metadata_provider: bool,
    pub catalog: CatalogCaps,
    /// Entry kinds the catalog declares.
    pub kinds: Vec<EntryKind>,
    pub capabilities: Vec<PluginCapability>,
    pub mode: ExecutionMode,
}

/// Whether `p` declares `cap`.
pub open spec fn has_capability(p: LoadedPlugin, cap: PluginCapability) -> bool {
    p.capabilities@.contains(cap)
}

impl LoadedPlugin {
    /// Whether the plugin declares `cap`.
    pub fn has_capability(&self, cap: PluginCapability) -> (r: bool)
        ensures
            r == has_capability(*self, cap),
    {
        let mut i: usize = 0;
        while i < self.capabilities.len()
            invariant
                i <= self.capabilities@.len(),
                forall|q: int| 0 <= q < i ==> self.capabilities@[q] != cap,
            decreases self.capabilities@.len() - i,
        {
            if self.capabilities[i] == cap {
                assert(self.capabilities@[i as int] == cap);
                return true;
            }
            i += 1;
        }
        false
    }
}

/// The first plugin with id `id`.
pub open spec fn plugin_with_id(ps: Seq<LoadedPlugin>, id: Seq<char>) -> Option<LoadedPlugin>
    decreases ps.len(),
{
    if ps.len() == 0 {
        None
    } else if ps[0].id@ == id {
        Some(ps[0])
    } else {
        plugin_with_id(ps.drop_first(), id)
    }
}

/// The value of the first entry with key `k`.
pub open spec fn keyed<T>(s: Seq<(String, T)>, k: Seq<char>) -> Option<T>
    decreases s.len(),
{
    if s.len() == 0 {
        None
    } else if s[0].0@ == k {
        Some(s[0].1)
    } else {
        keyed(s.drop_first(), k)
    }
}

/// No id occurs twice.
pub open spec fn ids_distinct(ps: Seq<LoadedPlugin>) -> bool {
    forall|i: int, j: int| 0 <= i < j < ps.len() ==> ps[i].id@ != ps[j].id@
}

/// No key occurs twice.
pub open spec fn keys_distinct<T>(s: Seq<(String, T)>) -> bool {
    forall|i: int, j: int| 0 <= i < j < s.len() ==> s[i].0@ != s[j].0@
}

/// With distinct ids, the plugin found for an id is the one carrying it.
pub proof fn lemma_plugin_with_id(ps: Seq<LoadedPlugin>, id: Seq<char>)
    requires
        ids_distinct(ps),
    ensures
        match plugin_with_id(ps, id) {
            Some(p) => exists|i: int| 0 <= i < ps.len() && ps[i] == p && p.id@ == id,
            None => forall|i: int| 0 <= i < ps.len() ==> ps[i].id@ != id,
        },
        forall|i: int| 0 <= i < ps.len() && ps[i].id@ == id ==> plugin_with_id(ps, id) == Some(ps[i]),
    decreases ps.len(),
{
    if ps.len() > 0 {
        let t = ps.drop_first();
        assert(ids_distinct(t)) by {
            assert forall|a: int, b: int| 0 <= a < b < t.len() implies t[a].id@ != t[b].id@ by {
                assert(t[a] == ps[a + 1] && t[b] == ps[b + 1]);
            }
        }
        lemma_plugin_with_id(t, id);
        if ps[0].id@ != id {
            match plugin_with_id(t, id) {
                Some(p) => {
                    let i = choose|i: int| 0 <= i < t.len() && t[i] == p && p.id@ == id;
                    assert(ps[i + 1] == t[i]);
                },
                None => {
                    assert forall|i: int| 0 <= i < ps.len() implies ps[i].id@ != id by {
                        if i > 0 {
                            assert(ps[i] == t[i - 1]);
                        }
                    }
                },
            }
            assert forall|i: int| 0 <= i < ps.len() && ps[i].id@ == id implies plugin_with_id(
                ps,
                id,
            ) == Some(ps[i]) by {
                assert(ps[i] == t[i - 1]);
            }
        }
    }
}

/// With distinct keys, the value found for a key is the one it carries.
pub proof fn lemma_keyed<T>(s: Seq<(String, T)>, k: Seq<char>)
    requires
        keys_distinct(s),
    ensures
        match keyed(s, k) {
            Some(v) => exists|i: int| 0 <= i < s.len() && s[i].0@ == k && s[i].1 == v,
            None => forall|i: int| 0 <= i < s.len() ==> s[i].0@ != k,
        },
        forall|i: int| 0 <= i < s.len() && s[i].0@ == k ==> keyed(s, k) == Some(s[i].1),
    decreases s.len(),
{
    if s.len() > 0 {
        let t = s.drop_first();
        assert(keys_distinct(t)) by {
            assert forall|a: int, b: int| 0 <= a < b < t.len() implies t[a].0@ != t[b].0@ by {
                assert(t[a] == s[a + 1] && t[b] == s[b + 1]);
            }
        }
        lemma_keyed(t, k);
        if s[0].0@ != k {
            match keyed(t, k) {
                Some(v) => {
                    let i = choose|i: int| 0 <= i < t.len() && t[i].0@ == k && t[i].1 == v;
                    assert(s[i + 1] == t[i]);
                },
                None => {
                    assert forall|i: int| 0 <= i < s.len() implies s[i].0@ != k by {
                        if i > 0 {
                            assert(s[i] == t[i - 1]);
                        }
                    }
                },
            }
            assert forall|i: int| 0 <= i < s.len() && s[i].0@ == k implies keyed(s, k) == Some(
                s[i].1,
            ) by {
                assert(s[i] == t[i - 1]);
            }
        }
    }
}

/// Loaded plugins by id, with their sandbox contexts (`C`) and WASM
/// supervisors (`S`).
pub struct PluginRegistry<C, S> {
    plugins: Vec<LoadedPlugin>,
    sandbox: Vec<(String, C)>,
    wasm_supervisors: Vec<(String, Arc<S>)>,
}

/// `b` is registry `a` after registering plugin `p` with context `ctx`.
pub open spec fn inserted_into<C, S>(a: PluginRegistry<C, S>, b: PluginRegistry<C, S>, p: LoadedPlugin, ctx: C) -> bool {
    &&& forall|k: Seq<char>| #[trigger] b.plugin_of(k) == if k == p.id@ {
        Some(p)
    } else {
        a.plugin_of(k)
    }
    &&& forall|k: Seq<char>| #[trigger] b.sandbox_of(k) == if k == p.id@ {
        Some(ctx)
    } else {
        a.sandbox_of(k)
    }
    &&& forall|k: Seq<char>| #[trigger] b.supervisor_of(k) == a.supervisor_of(k)
}

/// `b` is registry `a` after unregistering `id`.
pub open spec fn removed_from<C, S>(a: PluginRegistry<C, S>, b: PluginRegistry<C, S>, id: Seq<char>) -> bool {
    &&& forall|k: Seq<char>| #[trigger] b.plugin_of(k) == if k == id {
        None
    } else {
        a.plugin_of(k)
    }
    &&& forall|k: Seq<char>| #[trigger] b.sandbox_of(k) == if k == id {
        None
    } else {
        a.sandbox_of(k)
    }
    &&& forall|k: Seq<char>| #[trigger] b.supervisor_of(k) == if k == id {
        None
    } else {
        a.supervisor_of(k)
    }
}

/// A registered plugin is found under its id with its context, and no
/// other id's lookup changes.
pub proof fn lemma_get_after_insert<C, S>(a: PluginRegistry<C, S>, b: PluginRegistry<C, S>, p: LoadedPlugin, ctx: C, other: Seq<char>)
    requires
        inserted_into(a, b, p, ctx),
    ensures
        b.plugin_of(p.id@) == Some(p),
        b.sandbox_of(p.id@) == Some(ctx),
        other != p.id@ ==> b.plugin_of(other) == a.plugin_of(other) && b.sandbox_of(other) == a.sandbox_of(
            other,
        ) && b.supervisor_of(other) == a.supervisor_of(other),
{
    assert(b.plugin_of(p.id@) == Some(p));
    assert(b.sandbox_of(p.id@) == Some(ctx));
    assert(b.plugin_of(other) == if other == p.id@ { Some(p) } else { a.plugin_of(other) });
    assert(b.sandbox_of(other) == if other == p.id@ { Some(ctx) } else { a.sandbox_of(other) });
    assert(b.supervisor_of(other) == a.supervisor_of(other));
}

/// An unregistered id is found nowhere afterwards.
pub proof fn lemma_get_after_remove<C, S>(a: PluginRegistry<C, S>, b: PluginRegistry<C, S>, id: Seq<char>)
    requires
        removed_from(a, b, id),
    ensures
        b.plugin_of(id) is None,
        b.sandbox_of(id) is None,
        b.supervisor_of(id) is None,
{
    assert(b.plugin_of(id) is None);
    assert(b.sandbox_of(id) is None);
    assert(b.supervisor_of(id) is None);
}

/// Unregistering a plugin that was just registered under a fresh id gives
/// back every lookup of the registry before.
pub proof fn lemma_remove_undoes_insert<C, S>(
    a: PluginRegistry<C, S>,
    b: PluginRegistry<C, S>,
    c: PluginRegistry<C, S>,
    p: LoadedPlugin,
    ctx: C,
)
    requires
        a.plugin_of(p.id@) is None,
        a.sandbox_of(p.id@) is None,
        a.supervisor_of(p.id@) is None,
        inserted_into(a, b, p, ctx),
        removed_from(b, c, p.id@),
    ensures
        forall|k: Seq<char>| #[trigger] c.plugin_of(k) == a.plugin_of(k),
        forall|k: Seq<char>| #[trigger] c.sandbox_of(k) == a.sandbox_of(k),
        forall|k: Seq<char>| #[trigger] c.supervisor_of(k) == a.supervisor_of(k),
{
    assert forall|k: Seq<char>| #[trigger] c.plugin_of(k) == a.plugin_of(k) by {
        assert(c.plugin_of(k) == if k == p.id@ { None } else { b.plugin_of(k) });
        assert(b.plugin_of(k) == if k == p.id@ { Some(p) } else { a.plugin_of(k) });
    }
    assert forall|k: Seq<char>| #[trigger] c.sandbox_of(k) == a.sandbox_of(k) by {
        assert(c.sandbox_of(k) == if k == p.id@ { None } else { b.sandbox_of(k) });
        assert(b.sandbox_of(k) == if k == p.id@ { Some(ctx) } else { a.sandbox_of(k) });
    }
    assert forall|k: Seq<char>| #[trigger] c.supervisor_of(k) == a.supervisor_of(k) by {
        assert(c.supervisor_of(k) == if k == p.id@ { None } else { b.supervisor_of(k) });
        assert(b.supervisor_of(k) == a.supervisor_of(k));
    }
}

/// Calls std `Arc::clone`: a new handle to the same value.
#[verifier::external_body]
fn share<S>(a: &Arc<S>) -> (r: Arc<S>)
    ensures
        r == *a,
{
    Arc::clone(a)
}

impl<C, S> PluginRegistry<C, S> {
    /// Ids, context keys and supervisor keys are each distinct.
    pub closed spec fn wf(&self) -> bool {
        &&& ids_distinct(self.plugins@)
        &&& keys_distinct(self.sandbox@)
        &&& keys_distinct(self.wasm_supervisors@)
    }

    /// The loaded plugins, in registration order.
    pub closed spec fn plugin_list(&self) -> Seq<LoadedPlugin> {
        self.plugins@
    }

    /// The plugin registered under `id`.
    pub closed spec fn plugin_of(&self, id: Seq<char>) -> Option<LoadedPlugin> {
        plugin_with_id(self.plugins@, id)
    }

    /// The sandbox context registered under `id`.
    pub closed spec fn sandbox_of(&self, id: Seq<char>) -> Option<C> {
        keyed(self.sandbox@, id)
    }

    /// The supervisor registered under `id`.
    pub closed spec fn supervisor_of(&self, id: Seq<char>) -> Option<Arc<S>> {
        keyed(self.wasm_supervisors@, id)
    }

    /// The plugin found under an id is the listed plugin carrying it.
    pub proof fn lemma_plugin_of(&self, id: Seq<char>)
        requires
            self.wf(),
        ensures
            match self.plugin_of(id) {
                Some(p) => p.id@ == id && self.plugin_list().contains(p),
                None => forall|i: int|
                    0 <= i < self.plugin_list().len() ==> self.plugin_list()[i].id@ != id,
            },
    {
        lemma_plugin_with_id(self.plugins@, id);
        if let Some(p) = self.plugin_of(id) {
            let i = choose|i: int| 0 <= i < self.plugins@.len() && self.plugins@[i] == p && p.id@ == id;
            assert(self.plugin_list()[i] == p);
        }
    }

    /// An empty registry.
    pub fn new() -> (r: Self)
        ensures
            r.wf(),
            r.plugin_list().len() == 0,
            forall|k: Seq<char>| #[trigger] r.plugin_of(k) is None,
            forall|k: Seq<char>| #[trigger] r.sandbox_of(k) is None,
            forall|k: Seq<char>| #[trigger] r.supervisor_of(k) is None,
    {
        PluginRegistry { plugins: Vec::new(), sandbox: Vec::new(), wasm_supervisors: Vec::new() }
    }

    /// The plugin registered under `id`.
    pub fn get(&self, id: &str) -> (r: Option<&LoadedPlugin>)
        ensures
            match r {
                Some(p) => self.plugin_of(id@) == Some(*p),
                None => self.plugin_of(id@) is None,
            },
    {
        let mut i: usize = 0;
        assert(self.plugins@.subrange(0, self.plugins@.len() as int) =~= self.plugins@);
        while i < self.plugins.len()
            invariant
                i <= self.plugins@.len(),
                plugin_with_id(self.plugins@, id@) == plugin_with_id(
                    self.plugins@.subrange(i as int, self.plugins@.len() as int),
                    id@,
                ),
            decreases self.plugins@.len() - i,
        {
            let ghost rest = self.plugins@.subrange(i as int, self.plugins@.len() as int);
            assert(rest.drop_first() =~= self.plugins@.subrange(i + 1, self.plugins@.len() as int));
            if str_eq(self.plugins[i].id.as_str(), id) {
                return Some(&self.plugins[i]);
            }
            i += 1;
        }
        None
    }

    /// Every loaded plugin, in registration order.
    pub fn all(&self) -> (r: Vec<&LoadedPlugin>)
        ensures
            r@.map_values(|p: &LoadedPlugin| *p) == self.plugin_list(),
    {
        let mut out: Vec<&LoadedPlugin> = Vec::new();
        let mut i: usize = 0;
        while i < self.plugins.len()
            invariant
                i <= self.plugins@.len(),
                out@.map_values(|p: &LoadedPlugin| *p) == self.plugins@.subrange(0, i as int),
            decreases self.plugins@.len() - i,
        {
            let ghost before = out@.map_values(|p: &LoadedPlugin| *p);
            out.push(&self.plugins[i]);
            assert(out@.map_values(|p: &LoadedPlugin| *p) =~= before.push(self.plugins@[i as int]));
            i += 1;
            assert(out@.map_values(|p: &LoadedPlugin| *p) =~= self.plugins@.subrange(0, i as int));
        }
        assert(self.plugins@.subrange(0, i as int) =~= self.plugins@);
        out
    }

    /// Every loaded plugin, in registration order.
    pub fn all_plugins(&self) -> (r: Vec<&LoadedPlugin>)
        ensures
            r@.map_values(|p: &LoadedPlugin| *p) == self.plugin_list(),
    {
        self.all()
    }

    /// The sandbox context registered under `id`.
    pub fn sandbox_for(&self, id: &str) -> (r: Option<&C>)
        ensures
            match r {
                Some(c) => self.sandbox_of(id@) == Some(*c),
                None => self.sandbox_of(id@) is None,
            },
    {
        match find_key(&self.sandbox, id) {
            Some(i) => Some(&self.sandbox[i].1),
            None => None,
        }
    }

    /// The supervisor registered under `id`, shared.
    pub fn wasm_supervisor_for(&self, id: &str) -> (r: Option<Arc<S>>)
        ensures
            r == self.supervisor_of(id@),
    {
        match find_key(&self.wasm_supervisors, id) {
            Some(i) => Some(share(&self.wasm_supervisors[i].1)),
            None => None,
        }
    }

    /// Register `plugin` under its id with sandbox context `ctx`, replacing
    /// what the id had (a replaced plugin keeps its place in the list).
    pub fn insert(&mut self, plugin: LoadedPlugin, ctx: C)
        requires
            old(self).wf(),
        ensures
            final(self).wf(),
            inserted_into(*old(self), *final(self), plugin, ctx),
            final(self).plugin_list().len() == old(self).plugin_list().len() + if old(self).plugin_of(
                plugin.id@,
            ) is Some {
                0int
            } else {
                1int
            },
    {
        let id = plugin.id.clone();
        let ghost pid = plugin.id@;
        let ghost ps0 = self.plugins@;
        proof {
            lemma_plugin_with_id(ps0, pid);
        }
        let pos = find_plugin(&self.plugins, id.as_str());
        let found = pos.is_some();
        let i: usize = match pos {
            Some(i) => i,
            None => self.plugins.len(),
        };
        if found {
            self.plugins.set(i, plugin);
        } else {
            self.plugins.push(plugin);
        }
        proof {
            let ps = self.plugins@;
            assert(ids_distinct(ps)) by {
                assert forall|a: int, b: int| 0 <= a < b < ps.len() implies ps[a].id@ != ps[b].id@ by {
                    if a != i && b != i && b < ps0.len() {
                        assert(ps[a] == ps0[a] && ps[b] == ps0[b]);
                    } else if found {
                        assert(ps0[i as int].id@ == pid);
                        if a == i {
                            assert(ps[b] == ps0[b]);
                        } else {
                            assert(ps[a] == ps0[a]);
                        }
                    } else {
                        assert(ps[a] == ps0[a]);
                    }
                }
            }
            lemma_plugin_with_id(ps, pid);
            assert forall|k: Seq<char>| #[trigger] plugin_with_id(ps, k) == if k == pid {
                Some(plugin)
            } else {
                plugin_with_id(ps0, k)
            } by {
                lemma_plugin_with_id(ps, k);
                lemma_plugin_with_id(ps0, k);
                if k == pid {
                    let j = if found { i as int } else { ps0.len() as int };
                    assert(ps[j] == plugin);
                } else {
                    match plugin_with_id(ps0, k) {
                        Some(p) => {
                            let j = choose|j: int| 0 <= j < ps0.len() && ps0[j] == p && p.id@ == k;
                            assert(ps[j] == ps0[j]);
                        },
                        None => {
                            assert forall|j: int| 0 <= j < ps.len() implies ps[j].id@ != k by {
                                if j < ps0.len() && !(found && j == i) {
                                    assert(ps[j] == ps0[j]);
                                }
                            }
                        },
                    }
                }
            }
        }
        keyed_insert(&mut self.sandbox, id, ctx);
    }

    /// Register supervisor `sup` under `plugin_id`, replacing what the id had.
    pub fn insert_wasm_supervisor(&mut self, plugin_id: &str, sup: Arc<S>)
        requires
            old(self).wf(),
        ensures
            final(self).wf(),
            final(self).plugin_list() == old(self).plugin_list(),
            forall|k: Seq<char>| #[trigger] final(self).plugin_of(k) == old(self).plugin_of(k),
            forall|k: Seq<char>| #[trigger] final(self).sandbox_of(k) == old(self).sandbox_of(k),
            forall|k: Seq<char>| #[trigger] final(self).supervisor_of(k) == if k == plugin_id@ {
                Some(sup)
            } else {
                old(self).supervisor_of(k)
            },
    {
        keyed_insert(&mut self.wasm_supervisors, crate::text::owned(plugin_id), sup);
    }

    /// Unregister `id`: its plugin, sandbox context and supervisor. Returns
    /// the plugin it had.
    pub fn remove(&mut self, id: &str) -> (r: Option<LoadedPlugin>)
        requires
            old(self).wf(),
        ensures
            final(self).wf(),
            r == old(self).plugin_of(id@),
            removed_from(*old(self), *final(self), id@),
            final(self).plugin_list() == old(self).plugin_list().filter(
                |p: LoadedPlugin| p.id@ != id@,
            ),
    {
        keyed_remove(&mut self.sandbox, id);
        keyed_remove(&mut self.wasm_supervisors, id);
        let ghost ps0 = self.plugins@;
        proof {
            lemma_plugin_with_id(ps0, id@);
        }
        let pos = find_plugin(&self.plugins, id);
        let found = pos.is_some();
        let i: usize = match pos {
            Some(i) => i,
            None => self.plugins.len(),
        };
        if !found {
            proof {
                assert(ps0.filter(|p: LoadedPlugin| p.id@ != id@) =~= ps0) by {
                    lemma_filter_all(ps0, |p: LoadedPlugin| p.id@ != id@);
                }
            }
            return None;
        }
        let p = self.plugins.remove(i);
        proof {
            let ps = self.plugins@;
            assert(ps =~= ps0.subrange(0, i as int) + ps0.subrange(i + 1, ps0.len() as int));
            assert(ids_distinct(ps)) by {
                assert forall|a: int, b: int| 0 <= a < b < ps.len() implies ps[a].id@ != ps[b].id@ by {
                    let a0 = if a < i { a } else { a + 1 };
                    let b0 = if b < i { b } else { b + 1 };
                    assert(ps[a] == ps0[a0] && ps[b] == ps0[b0]);
                }
            }
            assert forall|k: Seq<char>| #[trigger] plugin_with_id(ps, k) == if k == id@ {
                None
            } else {
                plugin_with_id(ps0, k)
            } by {
                lemma_plugin_with_id(ps, k);
                lemma_plugin_with_id(ps0, k);
                if k == id@ {
                    assert forall|j: int| 0 <= j < ps.len() implies ps[j].id@ != k by {
                        let j0 = if j < i { j } else { j + 1 };
                        assert(ps[j] == ps0[j0]);
                    }
                } else {
                    match plugin_with_id(ps0, k) {
                        Some(q) => {
                            let j = choose|j: int| 0 <= j < ps0.len() && ps0[j] == q && q.id@ == k;
                            let j1 = if j < i { j } else { j - 1 };
                            assert(ps[j1] == ps0[j]);
                        },
                        None => {
                            assert forall|j: int| 0 <= j < ps.len() implies ps[j].id@ != k by {
                                let j0 = if j < i { j } else { j + 1 };
                                assert(ps[j] == ps0[j0]);
                            }
                        },
                    }
                }
            }
            lemma_filter_drop_one(ps0, i as int, |q: LoadedPlugin| q.id@ != id@);
        }
        Some(p)
    }

    /// The plugins that declare `cap`, in registration order.
    pub fn find_by_capability(&self, cap: PluginCapability) -> (r: Vec<&LoadedPlugin>)
        ensures
            r@.map_values(|p: &LoadedPlugin| *p) == self.plugin_list().filter(
                |p: LoadedPlugin| has_capability(p, cap),
            ),
    {
        let mut out: Vec<&LoadedPlugin> = Vec::new();
        let mut i: usize = 0;
        while i < self.plugins.len()
            invariant
                i <= self.plugins@.len(),
                out@.map_values(|p: &LoadedPlugin| *p) == self.plugins@.subrange(0, i as int).filter(
                    |p: LoadedPlugin| has_capability(p, cap),
                ),
            decreases self.plugins@.len() - i,
        {
            let p = &self.plugins[i];
            let ghost pre = self.plugins@.subrange(0, i as int);
            assert(self.plugins@.subrange(0, i + 1) =~= pre.push(*p));
            proof {
                crate::sources::lemma_filter_push(pre, *p, |p: LoadedPlugin| has_capability(p, cap));
            }
            if p.has_capability(cap) {
                let ghost before = out@.map_values(|p: &LoadedPlugin| *p);
                out.push(p);
                assert(out@.map_values(|p: &LoadedPlugin| *p) =~= before.push(*p));
            }
            i += 1;
        }
        assert(self.plugins@.subrange(0, i as int) =~= self.plugins@);
        out
    }

    /// The plugins that can serve catalog content. Every catalog plugin is
    /// taken to serve every tab; per-tab filtering is the plugin's own.
    pub fn find_providers_for_tab(&self, tab: &MediaTab) -> (r: Vec<&LoadedPlugin>)
        ensures
            r@.map_values(|p: &LoadedPlugin| *p) == self.plugin_list().filter(
                |p: LoadedPlugin| has_capability(p, PluginCapability::Catalog),
            ),
    {
        self.find_by_capability(PluginCapability::Catalog)
    }

    /// The plugins that can resolve stream URLs.
    pub fn find_stream_providers(&self) -> (r: Vec<&LoadedPlugin>)
        ensures
            r@.map_values(|p: &LoadedPlugin| *p) == self.plugin_list().filter(
                |p: LoadedPlugin| has_capability(p, PluginCapability::Streams),
            ),
    {
        self.find_by_capability(PluginCapability::Streams)
    }

    /// The plugins that can provide subtitle tracks.
    pub fn find_subtitle_providers(&self) -> (r: Vec<&LoadedPlugin>)
        ensures
            r@.map_values(|p: &LoadedPlugin| *p) == self.plugin_list().filter(
                |p: LoadedPlugin| has_capability(p, PluginCapability::Subtitles),
            ),
    {
        self.find_by_capability(PluginCapability::Subtitles)
    }
}

/// Filtering by a predicate every element meets keeps everything.
pub proof fn lemma_filter_all<A>(s: Seq<A>, pred: spec_fn(A) -> bool)
    requires
        forall|i: int| 0 <= i < s.len() ==> pred(s[i]),
    ensures
        s.filter(pred) == s,
    decreases s.len(),
{
    reveal(Seq::filter);
    if s.len() > 0 {
        lemma_filter_all(s.drop_last(), pred);
        assert(s.drop_last().push(s.last()) =~= s);
    }
}

/// Filtering out the one element at `i` that fails the predicate is
/// removing it.
pub proof fn lemma_filter_drop_one<A>(s: Seq<A>, i: int, pred: spec_fn(A) -> bool)
    requires
        0 <= i < s.len(),
        !pred(s[i]),
        forall|j: int| 0 <= j < s.len() && j != i ==> pred(s[j]),
    ensures
        s.filter(pred) == s.subrange(0, i) + s.subrange(i + 1, s.len() as int),
    decreases s.len(),
{
    reveal(Seq::filter);
    if i == s.len() - 1 {
        lemma_filter_all(s.drop_last(), pred);
        assert(s.subrange(0, i) =~= s.drop_last());
        assert(s.subrange(i + 1, s.len() as int) =~= Seq::<A>::empty());
        assert(s.subrange(0, i) + s.subrange(i + 1, s.len() as int) =~= s.drop_last());
    } else {
        lemma_filter_drop_one(s.drop_last(), i, pred);
        assert(s.drop_last().subrange(0, i) =~= s.subrange(0, i));
        assert((s.drop_last().subrange(0, i) + s.drop_last().subrange(i + 1, s.len() - 1)).push(s.last())
            =~= s.subrange(0, i) + s.subrange(i + 1, s.len() as int));
    }
}

/// The position of the plugin with id `id`.
fn find_plugin(ps: &Vec<LoadedPlugin>, id: &str) -> (r: Option<usize>)
    ensures
        match r {
            Some(i) => i < ps@.len() && ps@[i as int].id@ == id@,
            None => forall|q: int| 0 <= q < ps@.len() ==> ps@[q].id@ != id@,
        },
{
    let mut i: usize = 0;
    while i < ps.len()
        invariant
            i <= ps@.len(),
            forall|q: int| 0 <= q < i ==> ps@[q].id@ != id@,
        decreases ps@.len() - i,
    {
        if str_eq(ps[i].id.as_str(), id) {
            return Some(i);
        }
        i += 1;
    }
    None
}

/// The position of the entry with key `k`.
fn find_key<T>(s: &Vec<(String, T)>, k: &str) -> (r: Option<usize>)
    ensures
        match r {
            Some(i) => i < s@.len() && s@[i as int].0@ == k@ && keyed(s@, k@) == Some(s@[i as int].1),
            None => keyed(s@, k@) is None,
        },
{
    let mut i: usize = 0;
    assert(s@.subrange(0, s@.len() as int) =~= s@);
    while i < s.len()
        invariant
            i <= s@.len(),
            keyed(s@, k@) == keyed(s@.subrange(i as int, s@.len() as int), k@),
        decreases s@.len() - i,
    {
        let ghost rest = s@.subrange(i as int, s@.len() as int);
        assert(rest.drop_first() =~= s@.subrange(i + 1, s@.len() as int));
        if str_eq(s[i].0.as_str(), k) {
            return Some(i);
        }
        i += 1;
    }
    None
}

/// Put `v` under `k`, replacing what the key had.
pub(crate) fn keyed_insert<T>(s: &mut Vec<(String, T)>, k: String, v: T)
    requires
        keys_distinct(old(s)@),
    ensures
        keys_distinct(final(s)@),
        forall|q: Seq<char>| #[trigger] keyed(final(s)@, q) == if q == k@ {
            Some(v)
        } else {
            keyed(old(s)@, q)
        },
{
    let ghost s0 = s@;
    let ghost kv = k@;
    let pos = find_key(s, k.as_str());
    proof {
        lemma_keyed(s0, kv);
    }
    let ghost j: int = match pos {
        Some(i) => i as int,
        None => s0.len() as int,
    };
    match pos {
        Some(i) => {
            s.set(i, (k, v));
        },
        None => {
            s.push((k, v));
        },
    }
    proof {
        let s1 = s@;
        assert(keys_distinct(s1)) by {
            assert forall|a: int, b: int| 0 <= a < b < s1.len() implies s1[a].0@ != s1[b].0@ by {
                if a != j && b != j {
                    assert(s1[a] == s0[a] && s1[b] == s0[b]);
                } else if a == j {
                    assert(s1[b] == s0[b]);
                } else {
                    assert(s1[a] == s0[a]);
                }
            }
        }
        assert forall|q: Seq<char>| #[trigger] keyed(s1, q) == if q == kv {
            Some(v)
        } else {
            keyed(s0, q)
        } by {
            lemma_keyed(s1, q);
            lemma_keyed(s0, q);
            if q == kv {
                assert(s1[j].0@ == kv);
            } else {
                match keyed(s0, q) {
                    Some(w) => {
                        let a = choose|a: int| 0 <= a < s0.len() && s0[a].0@ == q && s0[a].1 == w;
                        assert(s1[a] == s0[a]);
                    },
                    None => {
                        assert forall|a: int| 0 <= a < s1.len() implies s1[a].0@ != q by {
                            if a != j {
                                assert(s1[a] == s0[a]);
                            }
                        }
                    },
                }
            }
        }
    }
}

/// Drop the entry with key `k`, if any.
fn keyed_remove<T>(s: &mut Vec<(String, T)>, k: &str)
    requires
        keys_distinct(old(s)@),
    ensures
        keys_distinct(final(s)@),
        forall|q: Seq<char>| #[trigger] keyed(final(s)@, q) == if q == k@ {
            None
        } else {
            keyed(old(s)@, q)
        },
{
    let ghost s0 = s@;
    proof {
        lemma_keyed(s0, k@);
    }
    match find_key(s, k) {
        Some(i) => {
            let _ = s.remove(i);
            proof {
                let s1 = s@;
                assert(keys_distinct(s1)) by {
                    assert forall|a: int, b: int| 0 <= a < b < s1.len() implies s1[a].0@ != s1[b].0@ by {
                        let a0 = if a < i { a } else { a + 1 };
                        let b0 = if b < i { b } else { b + 1 };
                        assert(s1[a] == s0[a0] && s1[b] == s0[b0]);
                    }
                }
                assert forall|q: Seq<char>| #[trigger] keyed(s1, q) == if q == k@ {
                    None
                } else {
                    keyed(s0, q)
                } by {
                    lemma_keyed(s1, q);
                    lemma_keyed(s0, q);
                    if q == k@ {
                        assert forall|a: int| 0 <= a < s1.len() implies s1[a].0@ != q by {
                            let a0 = if a < i { a } else { a + 1 };
                            assert(s1[a] == s0[a0]);
                        }
                    } else {
                        match keyed(s0, q) {
                            Some(w) => {
                                let a = choose|a: int| 0 <= a < s0.len() && s0[a].0@ == q && s0[a].1 == w;
                                let a1 = if a < i { a } else { a - 1 };
                                assert(s1[a1] == s0[a]);
                            },
                            None => {
                                assert forall|a: int| 0 <= a < s1.len() implies s1[a].0@ != q by {
                                    let a0 = if a < i { a } else { a + 1 };
                                    assert(s1[a] == s0[a0]);
                                }
                            },
                        }
                    }
                }
            }
        },
        None => {},
    }
}

// ── Listing ──────────────────────────────────────────────────────────────────

/// The text of an optional manifest field (absent: empty).
pub open spec fn text_or_empty(o: Option<String>) -> Seq<char> {
    match o {
        Some(t) => t@,
        None => Seq::empty(),
    }
}

/// `i` reports plugin `p` as loaded and enabled, with its manifest facts.
pub open spec fn is_info_of(i: PluginInfo, p: LoadedPlugin) -> bool {
    &&& i.id@ == p.id@
    &&& i.name@ == p.name@
    &&& i.version@ == p.version@
    &&& i.plugin_type@ == p.plugin_type@
    &&& i.status is Loaded
    &&& i.enabled
    &&& i.tags@ == p.tags@
    &&& i.description@ == text_or_empty(p.description)
    &&& i.author@ == text_or_empty(p.author)
}

fn text_of(o: &Option<String>) -> (r: String)
    ensures
        r@ == text_or_empty(*o),
{
    match o {
        Some(t) => t.clone(),
        None => String::new(),
    }
}

/// What the TUI is told of plugin `p`.
pub fn plugin_info(p: &LoadedPlugin) -> (r: PluginInfo)
    ensures
        is_info_of(r, *p),
{
    PluginInfo {
        id: p.id.clone(),
        name: p.name.clone(),
        version: p.version.clone(),
        plugin_type: p.plugin_type.clone(),
        status: PluginStatus::Loaded,
        enabled: true,
        tags: copy_names(&p.tags),
        description: text_of(&p.description),
        author: text_of(&p.author),
    }
}

/// Every loaded plugin as reported to the TUI, in registration order.
pub fn list_plugins<C, S>(reg: &PluginRegistry<C, S>) -> (r: PluginListResponse)
    ensures
        r.plugins@.len() == reg.plugin_list().len(),
        forall|i: int| 0 <= i < reg.plugin_list().len() ==> #[trigger] is_info_of(r.plugins@[i], reg.plugin_list()[i]),
{
    let all = reg.all();
    let ghost ps = all@.map_values(|p: &LoadedPlugin| *p);
    let mut out: Vec<PluginInfo> = Vec::new();
    let mut i: usize = 0;
    while i < all.len()
        invariant
            i <= all@.len(),
            ps == all@.map_values(|p: &LoadedPlugin| *p),
            ps == reg.plugin_list(),
            out@.len() == i,
            forall|q: int| 0 <= q < i ==> #[trigger] is_info_of(out@[q], ps[q]),
        decreases all@.len() - i,
    {
        let p = all[i];
        assert(ps[i as int] == *p);
        out.push(plugin_info(p));
        i += 1;
    }
    PluginListResponse { plugins: out }
}

} // verus!
