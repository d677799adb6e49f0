//! Per-scope dispatch map built from plugin manifests: for each search
//! scope, the ordered ids of the plugins whose declared catalog kinds map to
//! it. A plugin that declared no kinds is in no scope (strict opt-in).

use vstd::prelude::*;
use crate::abi::{EntryKind, SearchScope};
use crate::sources::names;
use crate::registry::{LoadedPlugin, PluginRegistry};

verus! {

/// A plugin id with the catalog kinds its manifest declares.
#[derive(Debug, Clone)]
pub struct PluginEntryInfo {
    pub id: String,
    pub kinds: Vec<EntryKind>,
}

/// The search scope that serves entries of kind `k`.
pub open spec fn scope_for(k: EntryKind) -> SearchScope {
    match k {
        EntryKind::Artist => SearchScope::Artist,
        EntryKind::Album => SearchScope::Album,
        EntryKind::Track => SearchScope::Track,
        EntryKind::Movie => SearchScope::Movie,
        EntryKind::Series => SearchScope::Series,
        EntryKind::Episode => SearchScope::Episode,
    }
}

/// The search scope that serves entries of kind `k`.
pub fn scope_of(k: EntryKind) -> (s: SearchScope)
    ensures
        s == scope_for(k),
{
    match k {
        EntryKind::Artist => SearchScope::Artist,
        EntryKind::Album => SearchScope::Album,
        EntryKind::Track => SearchScope::Track,
        EntryKind::Movie => SearchScope::Movie,
        EntryKind::Series => SearchScope::Series,
        EntryKind::Episode => SearchScope::Episode,
    }
}

/// `id` once for each of `kinds` that maps to scope `s`, in order.
pub open spec fn id_per_kind(id: Seq<char>, kinds: Seq<EntryKind>, s: SearchScope) -> Seq<Seq<char>>
    decreases kinds.len(),
{
    if kinds.len() == 0 {
        Seq::empty()
    } else {
        id_per_kind(id, kinds.drop_last(), s) + if scope_for(kinds.last()) == s {
            seq![id]
        } else {
            Seq::empty()
        }
    }
}

/// The ids a scope lists after building from `ps`: plugin by plugin, each
/// plugin's id once per declared kind of that scope.
pub open spec fn scope_members(ps: Seq<PluginEntryInfo>, s: SearchScope) -> Seq<Seq<char>>
    decreases ps.len(),
{
    if ps.len() == 0 {
        Seq::empty()
    } else {
        scope_members(ps.drop_last(), s) + id_per_kind(ps.last().id@, ps.last().kinds@, s)
    }
}

/// Every id a scope lists belongs to a plugin that declared a kind of that
/// scope; so a plugin that declared no kinds is in no scope.
pub proof fn lemma_scope_members_declare(ps: Seq<PluginEntryInfo>, s: SearchScope, i: int)
    requires
        0 <= i < scope_members(ps, s).len(),
    ensures
        exists|j: int, q: int|
            0 <= j < ps.len() && 0 <= q < ps[j].kinds@.len() && ps[j].id@ == scope_members(ps, s)[i]
                && #[trigger] scope_for(ps[j].kinds@[q]) == s,
    decreases ps.len(),
{
    let pre = scope_members(ps.drop_last(), s);
    if i < pre.len() {
        lemma_scope_members_declare(ps.drop_last(), s, i);
        let (j, q) = choose|j: int, q: int|
            0 <= j < ps.drop_last().len() && 0 <= q < ps.drop_last()[j].kinds@.len()
                && ps.drop_last()[j].id@ == pre[i] && #[trigger] scope_for(ps.drop_last()[j].kinds@[q]) == s;
        assert(ps[j] == ps.drop_last()[j]);
        assert(scope_for(ps[j].kinds@[q]) == s);
    } else {
        let last = ps.last();
        lemma_id_per_kind_declares(last.id@, last.kinds@, s, i - pre.len());
        let q = choose|q: int| 0 <= q < last.kinds@.len() && #[trigger] scope_for(last.kinds@[q]) == s;
        assert(scope_for(ps[ps.len() - 1].kinds@[q]) == s);
    }
}

/// Each entry of `id_per_kind` is the id, for a kind of that scope.
proof fn lemma_id_per_kind_declares(id: Seq<char>, kinds: Seq<EntryKind>, s: SearchScope, i: int)
    requires
        0 <= i < id_per_kind(id, kinds, s).len(),
    ensures
        id_per_kind(id, kinds, s)[i] == id,
        exists|q: int| 0 <= q < kinds.len() && #[trigger] scope_for(kinds[q]) == s,
    decreases kinds.len(),
{
    let pre = id_per_kind(id, kinds.drop_last(), s);
    if i < pre.len() {
        lemma_id_per_kind_declares(id, kinds.drop_last(), s, i);
        let q = choose|q: int| 0 <= q < kinds.drop_last().len() && #[trigger] scope_for(kinds.drop_last()[q]) == s;
        assert(kinds[q] == kinds.drop_last()[q]);
        assert(scope_for(kinds[q]) == s);
    } else {
        assert(scope_for(kinds[kinds.len() - 1]) == s);
    }
}

/// The plugin ids of each search scope, in registration order.
#[derive(Debug, Clone)]
pub struct DispatchMap {
    artist: Vec<String>,
    album: Vec<String>,
    track: Vec<String>,
    movie: Vec<String>,
    series: Vec<String>,
    episode: Vec<String>,
}

impl DispatchMap {
    /// The ids listed for scope `s`.
    pub closed spec fn members(self, s: SearchScope) -> Seq<Seq<char>> {
        names(
            match s {
                SearchScope::Artist => self.artist@,
                SearchScope::Album => self.album@,
                SearchScope::Track => self.track@,
                SearchScope::Movie => self.movie@,
                SearchScope::Series => self.series@,
                SearchScope::Episode => self.episode@,
            },
        )
    }

    /// Append `id` to the list of scope `s`.
    fn push_to(&mut self, s: SearchScope, id: String)
        ensures
            forall|t: SearchScope| #[trigger]
                final(self).members(t) == if t == s {
                    old(self).members(t).push(id@)
                } else {
                    old(self).members(t)
                },
    {
        match s {
            SearchScope::Artist => self.artist.push(id),
            SearchScope::Album => self.album.push(id),
            SearchScope::Track => self.track.push(id),
            SearchScope::Movie => self.movie.push(id),
            SearchScope::Series => self.series.push(id),
            SearchScope::Episode => self.episode.push(id),
        }
        assert forall|t: SearchScope| #[trigger]
            self.members(t) == if t == s {
                old(self).members(t).push(id@)
            } else {
                old(self).members(t)
            } by {
            if t == s {
                match s {
                    SearchScope::Artist => assert(self.members(t) =~= old(self).members(t).push(id@)),
                    SearchScope::Album => assert(self.members(t) =~= old(self).members(t).push(id@)),
                    SearchScope::Track => assert(self.members(t) =~= old(self).members(t).push(id@)),
                    SearchScope::Movie => assert(self.members(t) =~= old(self).members(t).push(id@)),
                    SearchScope::Series => assert(self.members(t) =~= old(self).members(t).push(id@)),
                    SearchScope::Episode => assert(self.members(t) =~= old(self).members(t).push(id@)),
                }
            }
        }
    }

    /// Group the plugins by the scopes of their declared kinds, keeping
    /// registration order within each scope.
    pub fn build(plugins: &[PluginEntryInfo]) -> (m: Self)
        ensures
            forall|s: SearchScope| #[trigger] m.members(s) == scope_members(plugins@, s),
    {
        let mut m = DispatchMap::default();
        let mut i: usize = 0;
        assert forall|s: SearchScope| #[trigger] m.members(s) == scope_members(plugins@.subrange(0, 0), s) by {
            assert(m.members(s) =~= Seq::<Seq<char>>::empty());
        }
        while i < plugins.len()
            invariant
                i <= plugins@.len(),
                forall|s: SearchScope| #[trigger]
                    m.members(s) == scope_members(plugins@.subrange(0, i as int), s),
            decreases plugins@.len() - i,
        {
            let p = &plugins[i];
            let ghost base = m;
            let mut j: usize = 0;
            assert forall|s: SearchScope| #[trigger]
                m.members(s) == base.members(s) + id_per_kind(p.id@, p.kinds@.subrange(0, 0), s) by {
                assert(base.members(s) + id_per_kind(p.id@, p.kinds@.subrange(0, 0), s) =~= base.members(s));
            }
            while j < p.kinds.len()
                invariant
                    j <= p.kinds@.len(),
                    p == plugins@[i as int],
                    forall|s: SearchScope| #[trigger]
                        m.members(s) == base.members(s) + id_per_kind(p.id@, p.kinds@.subrange(0, j as int), s),
                decreases p.kinds@.len() - j,
            {
                let ghost prev = m;
                let k = p.kinds[j];
                m.push_to(scope_of(k), p.id.clone());
                proof {
                    let ks = p.kinds@.subrange(0, j + 1);
                    assert(ks.drop_last() =~= p.kinds@.subrange(0, j as int));
                    assert(ks.last() == k);
                    assert forall|s: SearchScope| #[trigger]
                        m.members(s) == base.members(s) + id_per_kind(p.id@, ks, s) by {
                        let pre = id_per_kind(p.id@, p.kinds@.subrange(0, j as int), s);
                        if s == scope_for(k) {
                            assert(base.members(s) + id_per_kind(p.id@, ks, s) =~= (base.members(s) + pre).push(p.id@));
                        } else {
                            assert(base.members(s) + id_per_kind(p.id@, ks, s) =~= base.members(s) + pre);
                        }
                    }
                }
                j += 1;
            }
            proof {
                let ps = plugins@.subrange(0, i + 1);
                assert(ps.drop_last() =~= plugins@.subrange(0, i as int));
                assert(ps.last() == plugins@[i as int]);
                assert(p.kinds@.subrange(0, p.kinds@.len() as int) =~= p.kinds@);
            }
            i += 1;
        }
        assert(plugins@.subrange(0, plugins@.len() as int) =~= plugins@);
        m
    }

    /// The plugin ids of scope `scope`, in registration order.
    pub fn plugins_for(&self, scope: SearchScope) -> (r: Vec<String>)
        ensures
            names(r@) == self.members(scope),
    {
        let v = match scope {
            SearchScope::Artist => &self.artist,
            SearchScope::Album => &self.album,
            SearchScope::Track => &self.track,
            SearchScope::Movie => &self.movie,
            SearchScope::Series => &self.series,
            SearchScope::Episode => &self.episode,
        };
        let mut out: Vec<String> = Vec::new();
        let mut i: usize = 0;
        while i < v.len()
            invariant
                i <= v@.len(),
                names(out@) == names(v@.subrange(0, i as int)),
            decreases v@.len() - i,
        {
            let ghost before = out@;
            out.push(v[i].clone());
            assert(out@ == before.push(v@[i as int]));
            assert(names(v@.subrange(0, i + 1)) =~= names(v@.subrange(0, i as int)).push(v@[i as int]@));
            assert(names(out@) =~= names(before).push(v@[i as int]@));
            i += 1;
        }
        assert(v@.subrange(0, v@.len() as int) =~= v@);
        out
    }

    /// Whether scope `scope` has no plugin.
    pub fn is_empty_for(&self, scope: SearchScope) -> (r: bool)
        ensures
            r == (self.members(scope).len() == 0),
    {
        let n = match scope {
            SearchScope::Artist => self.artist.len(),
            SearchScope::Album => self.album.len(),
            SearchScope::Track => self.track.len(),
            SearchScope::Movie => self.movie.len(),
            SearchScope::Series => self.series.len(),
            SearchScope::Episode => self.episode.len(),
        };
        n == 0
    }
}

impl Default for DispatchMap {
    /// The map with no plugin in any scope.
    fn default() -> (m: Self)
        ensures
            forall|s: SearchScope| #[trigger] m.members(s).len() == 0,
    {
        DispatchMap {
            artist: Vec::new(),
            album: Vec::new(),
            track: Vec::new(),
            movie: Vec::new(),
            series: Vec::new(),
            episode: Vec::new(),
        }
    }
}

// ── From the registry ────────────────────────────────────────────────────────

/// `infos` lists each plugin of `ps`, in order, by its id and declared kinds.
pub open spec fn infos_of(infos: Seq<PluginEntryInfo>, ps: Seq<LoadedPlugin>) -> bool {
    &&& infos.len() == ps.len()
    &&& forall|i: int|
        #![trigger infos[i]]
        0 <= i < ps.len() ==> infos[i].id@ == ps[i].id@ && infos[i].kinds@ == ps[i].kinds@
}

/// The ids scope `s` lists for the loaded plugins `ps`: plugin by plugin,
/// each id once per declared kind of that scope.
pub open spec fn registry_members(ps: Seq<LoadedPlugin>, s: SearchScope) -> Seq<Seq<char>>
    decreases ps.len(),
{
    if ps.len() == 0 {
        Seq::empty()
    } else {
        registry_members(ps.drop_last(), s) + id_per_kind(ps.last().id@, ps.last().kinds@, s)
    }
}

proof fn lemma_infos_members(infos: Seq<PluginEntryInfo>, ps: Seq<LoadedPlugin>, s: SearchScope)
    requires
        infos_of(infos, ps),
    ensures
        scope_members(infos, s) == registry_members(ps, s),
    decreases ps.len(),
{
    if ps.len() > 0 {
        let n = ps.len() - 1;
        assert(infos[n].id@ == ps[n].id@ && infos[n].kinds@ == ps[n].kinds@);
        assert forall|i: int| #![trigger infos.drop_last()[i]] 0 <= i < ps.drop_last().len() implies
            infos.drop_last()[i].id@ == ps.drop_last()[i].id@ && infos.drop_last()[i].kinds@
                == ps.drop_last()[i].kinds@ by {
            assert(infos[i].id@ == ps[i].id@ && infos[i].kinds@ == ps[i].kinds@);
        }
        lemma_infos_members(infos.drop_last(), ps.drop_last(), s);
    }
}

/// A copy of a list of kinds.
fn copy_kinds(v: &Vec<EntryKind>) -> (r: Vec<EntryKind>)
    ensures
        r@ == v@,
{
    let mut out: Vec<EntryKind> = Vec::new();
    let mut i: usize = 0;
    while i < v.len()
        invariant
            i <= v@.len(),
            out@ == v@.subrange(0, i as int),
        decreases v@.len() - i,
    {
        out.push(v[i]);
        i += 1;
        assert(out@ =~= v@.subrange(0, i as int));
    }
    assert(out@ =~= v@);
    out
}

/// The dispatch entries of the registry's plugins, in registration order.
pub fn dispatch_infos<C, S>(reg: &PluginRegistry<C, S>) -> (r: Vec<PluginEntryInfo>)
    ensures
        infos_of(r@, reg.plugin_list()),
{
    let all = reg.all();
    let ghost ps = all@.map_values(|p: &LoadedPlugin| *p);
    let mut out: Vec<PluginEntryInfo> = Vec::new();
    let mut i: usize = 0;
    while i < all.len()
        invariant
            i <= all@.len(),
            ps == all@.map_values(|p: &LoadedPlugin| *p),
            ps == reg.plugin_list(),
            infos_of(out@, ps.subrange(0, i as int)),
        decreases all@.len() - i,
    {
        let p = all[i];
        assert(ps[i as int] == *p);
        let ghost before = out@;
        let info = PluginEntryInfo { id: p.id.clone(), kinds: copy_kinds(&p.kinds) };
        assert(info.id@ == p.id@ && info.kinds@ == p.kinds@);
        out.push(info);
        i += 1;
        assert forall|q: int| #![trigger out@[q]] 0 <= q < i implies out@[q].id@ == ps.subrange(0, i as int)[q].id@
            && out@[q].kinds@ == ps.subrange(0, i as int)[q].kinds@ by {
            if q < i - 1 {
                assert(out@[q] == before[q]);
                assert(ps.subrange(0, i as int)[q] == ps.subrange(0, i - 1)[q]);
            } else {
                assert(out@[q] == info);
            }
        }
    }
    assert(ps.subrange(0, ps.len() as int) =~= ps);
    out
}

/// The per-scope map of the registry's plugins, rebuilt from their
/// declared kinds in registration order.
pub fn rebuild_dispatch_map<C, S>(reg: &PluginRegistry<C, S>) -> (m: DispatchMap)
    ensures
        forall|s: SearchScope| #[trigger] m.members(s) == registry_members(reg.plugin_list(), s),
{
    let infos = dispatch_infos(reg);
    let m = DispatchMap::build(infos.as_slice());
    assert forall|s: SearchScope| #[trigger] m.members(s) == registry_members(reg.plugin_list(), s) by {
        lemma_infos_members(infos@, reg.plugin_list(), s);
    }
    m
}

} // verus!
