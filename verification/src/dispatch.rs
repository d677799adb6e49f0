//! The host capability probe: which plugins serve which metadata verb, for
//! which kind tags, and with which declared id sources, as snapshotted from
//! the plugin manifests. The runtime-native TVDB and fanart.tv clients are
//! answered by name.

use vstd::prelude::*;
use crate::abi::MetadataVerb;
use crate::registry::{LoadedPlugin, PluginRegistry};
use crate::sources::{SourceCapabilityProbe, names};
use crate::text::{ascii_lower_seq, owned, str_eq, to_ascii_lowercase};

verus! {

/// Set of metadata verbs a plugin supports.
#[derive(Debug, Default, Clone, Copy, PartialEq, Eq)]
pub struct VerbSet {
    pub search: bool,
    pub lookup: bool,
    pub enrich: bool,
    pub credits: bool,
    pub artwork: bool,
    pub related: bool,
}

/// Whether a verb set covers `verb`. The rating aggregator is runtime
/// native: no plugin serves it.
pub open spec fn verbs_cover(v: VerbSet, verb: MetadataVerb) -> bool {
    match verb {
        MetadataVerb::Enrich => v.enrich,
        MetadataVerb::Credits => v.credits,
        MetadataVerb::Artwork => v.artwork,
        MetadataVerb::Related => v.related,
        MetadataVerb::RatingsAggregator => false,
    }
}

impl VerbSet {
    /// Whether the set covers `verb` (a declared stub counts: it is still
    /// asked, so the fan-out can fall through properly).
    pub fn supports(&self, verb: MetadataVerb) -> (r: bool)
        ensures
            r == verbs_cover(*self, verb),
    {
        match verb {
            MetadataVerb::Enrich => self.enrich,
            MetadataVerb::Credits => self.credits,
            MetadataVerb::Artwork => self.artwork,
            MetadataVerb::Related => self.related,
            MetadataVerb::RatingsAggregator => false,
        }
    }
}

/// Per-plugin capability bundle: declared verbs, lowercased kind tags, and
/// the id sources declared per verb (absent or empty: no constraint).
#[derive(Debug, Clone)]
pub struct PluginCaps {
    /// Display name; priority and disabled lists are kept by name.
    pub name: String,
    pub verbs: VerbSet,
    pub tags: Vec<String>,
    pub verb_id_sources: Vec<(MetadataVerb, Vec<String>)>,
}

/// Capability probe over a registry snapshot. Each plugin is registered
/// under both its display name and its id.
#[derive(Debug, Clone)]
pub struct ManifestCapabilityProbe {
    pub plugin_caps: Vec<(String, PluginCaps)>,
    /// Whether the runtime-native TVDB client is available.
    pub tvdb_available: bool,
    /// Whether the runtime-native fanart.tv client is available.
    pub fanart_available: bool,
}

/// The capabilities registered under key `k` (first entry wins).
pub open spec fn caps_lookup(caps: Seq<(String, PluginCaps)>, k: Seq<char>) -> Option<PluginCaps>
    decreases caps.len(),
{
    if caps.len() == 0 {
        None
    } else if caps[0].0@ == k {
        Some(caps[0].1)
    } else {
        caps_lookup(caps.drop_first(), k)
    }
}

/// The id sources declared for `verb` (first entry wins; none: empty).
pub open spec fn verb_sources_lookup(vs: Seq<(MetadataVerb, Vec<String>)>, verb: MetadataVerb) -> Seq<
    Seq<char>,
>
    decreases vs.len(),
{
    if vs.len() == 0 {
        Seq::empty()
    } else if vs[0].0 == verb {
        names(vs[0].1@)
    } else {
        verb_sources_lookup(vs.drop_first(), verb)
    }
}

/// What the probe says of `plugin` and `verb`: TVDB serves enrich, credits
/// and artwork when its client is available; fanart serves artwork when
/// its client is available; any other plugin serves the verbs its manifest
/// declares, and an unknown plugin serves nothing.
pub open spec fn probe_supports(p: ManifestCapabilityProbe, plugin: Seq<char>, verb: MetadataVerb) -> bool {
    if plugin == "tvdb"@ {
        p.tvdb_available && (verb is Enrich || verb is Credits || verb is Artwork)
    } else if plugin == "fanart"@ {
        p.fanart_available && verb is Artwork
    } else {
        match caps_lookup(p.plugin_caps@, plugin) {
            Some(c) => verbs_cover(c.verbs, verb),
            None => false,
        }
    }
}

/// The runtime-native sources are answered from their own keys alone:
/// fanart serves artwork exactly when it has its key, whatever TVDB has;
/// TVDB serves enrich, credits and artwork exactly when it has its key,
/// whatever fanart has; neither is looked up among the plugins.
pub proof fn lemma_native_sources_supported(p: ManifestCapabilityProbe, verb: MetadataVerb)
    ensures
        probe_supports(p, "fanart"@, verb) == (p.fanart_available && verb == MetadataVerb::Artwork),
        probe_supports(p, "tvdb"@, verb) == (p.tvdb_available && (verb == MetadataVerb::Enrich || verb
            == MetadataVerb::Credits || verb == MetadataVerb::Artwork)),
        forall|t: bool|
            probe_supports(ManifestCapabilityProbe { tvdb_available: t, ..p }, "fanart"@, verb)
                == probe_supports(p, "fanart"@, verb),
        forall|f: bool|
            probe_supports(ManifestCapabilityProbe { fanart_available: f, ..p }, "tvdb"@, verb)
                == probe_supports(p, "tvdb"@, verb),
{
    reveal_strlit("fanart");
    reveal_strlit("tvdb");
    assert("fanart"@ != "tvdb"@) by {
        assert("fanart"@.len() != "tvdb"@.len());
    }
}

/// The plugins discovered among the first `i` entries: an entry whose
/// name is new (not carried by an earlier entry), whose verbs cover `verb`
/// and whose tags include `kind`, contributes its name.
pub open spec fn discovered_upto(
    caps: Seq<(String, PluginCaps)>,
    verb: MetadataVerb,
    kind: Seq<char>,
    i: int,
) -> Seq<Seq<char>>
    decreases i,
{
    if i <= 0 {
        Seq::empty()
    } else {
        let prev = discovered_upto(caps, verb, kind, i - 1);
        let c = caps[i - 1].1;
        let fresh = forall|q: int| 0 <= q < i - 1 ==> #[trigger] caps[q].1.name@ != c.name@;
        if fresh && verbs_cover(c.verbs, verb) && names(c.tags@).contains(kind) {
            prev.push(c.name@)
        } else {
            prev
        }
    }
}

/// The first entry registered under `k`, with its position.
fn caps_find(caps: &Vec<(String, PluginCaps)>, k: &str) -> (r: Option<usize>)
    ensures
        match r {
            Some(i) => i < caps@.len() && caps@[i as int].0@ == k@ && caps_lookup(caps@, k@) == Some(
                caps@[i as int].1,
            ),
            None => caps_lookup(caps@, k@) is None,
        },
{
    let mut i: usize = 0;
    assert(caps@.subrange(0, caps@.len() as int) =~= caps@);
    while i < caps.len()
        invariant
            i <= caps@.len(),
            caps_lookup(caps@, k@) == caps_lookup(caps@.subrange(i as int, caps@.len() as int), k@),
        decreases caps@.len() - i,
    {
        let ghost rest = caps@.subrange(i as int, caps@.len() as int);
        assert(rest.drop_first() =~= caps@.subrange(i + 1, caps@.len() as int));
        if str_eq(caps[i].0.as_str(), k) {
            return Some(i);
        }
        i += 1;
    }
    None
}

impl SourceCapabilityProbe for ManifestCapabilityProbe {
    /// Whether `plugin` serves `verb` (the kind plays no part).
    open spec fn supports_spec(&self, plugin: Seq<char>, verb: MetadataVerb, kind_hint: Seq<char>) -> bool {
        probe_supports(*self, plugin, verb)
    }

    /// The plugins whose verbs cover `verb` and whose tags include
    /// `kind_hint`, each once, in registration order.
    open spec fn discover_spec(&self, verb: MetadataVerb, kind_hint: Seq<char>) -> Seq<Seq<char>> {
        discovered_upto(self.plugin_caps@, verb, kind_hint, self.plugin_caps@.len() as int)
    }

    /// Whether `plugin` serves `verb` (the kind plays no part).
    fn supports(&self, plugin: &str, verb: MetadataVerb, kind_hint: &str) -> (r: bool)
        ensures
            r == probe_supports(*self, plugin@, verb),
            plugin@ == "fanart"@ ==> r == (self.fanart_available && verb == MetadataVerb::Artwork),
            plugin@ == "tvdb"@ ==> r == (self.tvdb_available && (verb == MetadataVerb::Enrich || verb
                == MetadataVerb::Credits || verb == MetadataVerb::Artwork)),
    {
        proof {
            lemma_native_sources_supported(*self, verb);
        }
        if str_eq(plugin, "tvdb") {
            return self.tvdb_available && match verb {
                MetadataVerb::Enrich | MetadataVerb::Credits | MetadataVerb::Artwork => true,
                _ => false,
            };
        }
        if str_eq(plugin, "fanart") {
            return self.fanart_available && match verb {
                MetadataVerb::Artwork => true,
                _ => false,
            };
        }
        match caps_find(&self.plugin_caps, plugin) {
            Some(i) => self.plugin_caps[i].1.verbs.supports(verb),
            None => false,
        }
    }

    /// The names of the plugins whose verbs cover `verb` and whose tags
    /// include `kind_hint`, each once, in registration order.
    fn discover(&self, verb: MetadataVerb, kind_hint: &str) -> (r: Vec<String>)
        ensures
            names(r@) == discovered_upto(self.plugin_caps@, verb, kind_hint@, self.plugin_caps@.len() as int),
    {
        let caps = &self.plugin_caps;
        let n = caps.len();
        let mut out: Vec<String> = Vec::new();
        let mut i: usize = 0;
        while i < n
            invariant
                n == caps@.len(),
                i <= n,
                names(out@) == discovered_upto(caps@, verb, kind_hint@, i as int),
            decreases n - i,
        {
            let c = &caps[i].1;
            let mut fresh = true;
            let mut q: usize = 0;
            while q < i
                invariant
                    q <= i,
                    i < n,
                    n == caps@.len(),
                    c == caps@[i as int].1,
                    fresh == forall|x: int| 0 <= x < q ==> #[trigger] caps@[x].1.name@ != c.name@,
                decreases i - q,
            {
                if str_eq(caps[q].1.name.as_str(), c.name.as_str()) {
                    fresh = false;
                }
                q += 1;
            }
            let mut tagged = false;
            let mut t: usize = 0;
            while t < c.tags.len()
                invariant
                    t <= c.tags@.len(),
                    tagged == exists|x: int| 0 <= x < t && c.tags@[x]@ == kind_hint@,
                decreases c.tags@.len() - t,
            {
                if str_eq(c.tags[t].as_str(), kind_hint) {
                    tagged = true;
                }
                t += 1;
            }
            proof {
                if tagged {
                    let x = choose|x: int| 0 <= x < c.tags@.len() && c.tags@[x]@ == kind_hint@;
                    assert(names(c.tags@)[x] == kind_hint@);
                }
                if names(c.tags@).contains(kind_hint@) {
                    let x = choose|x: int| 0 <= x < names(c.tags@).len() && names(c.tags@)[x]
                        == kind_hint@;
                    assert(c.tags@[x]@ == kind_hint@);
                }
            }
            if fresh && c.verbs.supports(verb) && tagged {
                let ghost before = names(out@);
                out.push(c.name.clone());
                assert(names(out@) =~= before.push(c.name@));
            }
            i += 1;
        }
        out
    }
}

impl ManifestCapabilityProbe {
    /// The id sources `plugin`'s manifest declares for `verb`; empty when it
    /// declares none or the plugin is unknown.
    pub fn id_sources_for(&self, plugin: &str, verb: MetadataVerb) -> (r: Vec<String>)
        ensures
            names(r@) == match caps_lookup(self.plugin_caps@, plugin@) {
                Some(c) => verb_sources_lookup(c.verb_id_sources@, verb),
                None => Seq::empty(),
            },
    {
        match caps_find(&self.plugin_caps, plugin) {
            Some(i) => {
                let vs = &self.plugin_caps[i].1.verb_id_sources;
                let mut j: usize = 0;
                assert(vs@.subrange(0, vs@.len() as int) =~= vs@);
                while j < vs.len()
                    invariant
                        j <= vs@.len(),
                        i < self.plugin_caps@.len(),
                        caps_lookup(self.plugin_caps@, plugin@) == Some(self.plugin_caps@[i as int].1),
                        vs@ == self.plugin_caps@[i as int].1.verb_id_sources@,
                        verb_sources_lookup(vs@, verb) == verb_sources_lookup(
                            vs@.subrange(j as int, vs@.len() as int),
                            verb,
                        ),
                    decreases vs@.len() - j,
                {
                    let ghost rest = vs@.subrange(j as int, vs@.len() as int);
                    assert(rest.drop_first() =~= vs@.subrange(j + 1, vs@.len() as int));
                    if vs[j].0 == verb {
                        return copy_names(&vs[j].1);
                    }
                    j += 1;
                }
                Vec::new()
            },
            None => Vec::new(),
        }
    }
}

/// A copy of a list of names.
pub(crate) fn copy_names(v: &Vec<String>) -> (r: Vec<String>)
    ensures
        r@ == v@,
{
    let mut out: Vec<String> = Vec::new();
    let mut i: usize = 0;
    while i < v.len()
        invariant
            i <= v@.len(),
            out@ == v@.subrange(0, i as int),
        decreases v@.len() - i,
    {
        out.push(v[i].clone());
        i += 1;
        assert(out@ =~= v@.subrange(0, i as int));
    }
    assert(out@ =~= v@);
    out
}

// ── Building the snapshot ────────────────────────────────────────────────────

/// What a plugin manifest declares about its catalog verbs.
#[derive(Debug, Clone)]
pub enum CatalogCaps {
    /// Per-verb declarations: a verb present is supported; enrich, credits
    /// and related may list the id sources they accept.
    Typed {
        search: Option<bool>,
        lookup: bool,
        enrich: Option<Vec<String>>,
        credits: Option<Vec<String>>,
        artwork: bool,
        related: Option<Vec<String>>,
    },
    /// The legacy `enabled = true` form: every verb supported.
    Legacy,
}

/// The verbs a catalog declaration supports.
pub open spec fn verbs_of(cat: CatalogCaps) -> VerbSet {
    match cat {
        CatalogCaps::Typed { search, lookup, enrich, credits, artwork, related } => VerbSet {
            search: search == Some(true),
            lookup,
            enrich: enrich is Some,
            credits: credits is Some,
            artwork,
            related: related is Some,
        },
        CatalogCaps::Legacy => VerbSet {
            search: true,
            lookup: true,
            enrich: true,
            credits: true,
            artwork: true,
            related: true,
        },
    }
}

/// The names of an optional list (none: empty).
pub open spec fn listed(o: Option<Vec<String>>) -> Seq<Seq<char>> {
    match o {
        Some(v) => names(v@),
        None => Seq::empty(),
    }
}

/// The id sources a catalog declaration lists for `verb`.
pub open spec fn declared_sources(cat: CatalogCaps, verb: MetadataVerb) -> Seq<Seq<char>> {
    match cat {
        CatalogCaps::Typed { enrich, credits, related, .. } => match verb {
            MetadataVerb::Enrich => listed(enrich),
            MetadataVerb::Credits => listed(credits),
            MetadataVerb::Related => listed(related),
            _ => Seq::empty(),
        },
        CatalogCaps::Legacy => Seq::empty(),
    }
}

/// `c` is the capability bundle of plugin `p`: its name, declared verbs,
/// ASCII-lowercased tags and declared id sources.
pub open spec fn is_caps_of(c: PluginCaps, p: LoadedPlugin) -> bool {
    &&& c.name@ == p.name@
    &&& c.verbs == verbs_of(p.catalog)
    &&& names(c.tags@) == p.tags@.map_values(|t: String| ascii_lower_seq(t@))
    &&& forall|verb: MetadataVerb| #[trigger]
        verb_sources_lookup(c.verb_id_sources@, verb) == declared_sources(p.catalog, verb)
}

/// No key is registered twice.
pub open spec fn keys_unique(caps: Seq<(String, PluginCaps)>) -> bool {
    forall|i: int, j: int| 0 <= i < j < caps.len() ==> caps[i].0@ != caps[j].0@
}

/// The last metadata provider among `ps` whose name or id is `k`.
pub open spec fn latest_provider(ps: Seq<LoadedPlugin>, k: Seq<char>) -> Option<
    LoadedPlugin,
>
    decreases ps.len(),
{
    if ps.len() == 0 {
        None
    } else if ps.last().is_metadata_provider && (ps.last().name@ == k || ps.last().id@ == k) {
        Some(ps.last())
    } else {
        latest_provider(ps.drop_last(), k)
    }
}

/// With unique keys, a lookup finds exactly the entry carrying the key.
pub proof fn lemma_caps_lookup_unique(caps: Seq<(String, PluginCaps)>, k: Seq<char>, i: int)
    requires
        keys_unique(caps),
        0 <= i < caps.len(),
        caps[i].0@ == k,
    ensures
        caps_lookup(caps, k) == Some(caps[i].1),
    decreases i,
{
    if i > 0 {
        assert(caps[0].0@ != k);
        let t = caps.drop_first();
        assert(keys_unique(t)) by {
            assert forall|a: int, b: int| 0 <= a < b < t.len() implies t[a].0@ != t[b].0@ by {
                assert(t[a] == caps[a + 1] && t[b] == caps[b + 1]);
            }
        }
        lemma_caps_lookup_unique(t, k, i - 1);
    }
}

/// A lookup finds nothing exactly when no entry carries the key.
pub proof fn lemma_caps_lookup_none(caps: Seq<(String, PluginCaps)>, k: Seq<char>)
    ensures
        caps_lookup(caps, k) is None <==> forall|i: int| 0 <= i < caps.len() ==> caps[i].0@ != k,
    decreases caps.len(),
{
    if caps.len() > 0 {
        let t = caps.drop_first();
        lemma_caps_lookup_none(t, k);
        if caps[0].0@ != k {
            assert forall|i: int| 0 <= i < caps.len() && (forall|q: int| 0 <= q < t.len() ==> t[q].0@ != k)
                implies caps[i].0@ != k by {
                if i > 0 {
                    assert(caps[i] == t[i - 1]);
                }
            }
            if caps_lookup(caps, k) is Some {
                let q = choose|q: int| 0 <= q < t.len() && !(t[q].0@ != k);
                assert(caps[q + 1] == t[q]);
            }
        }
    }
}

/// The declared id sources of one verb, as a one-entry list (empty when
/// none are declared).
fn declared_entry(verb: MetadataVerb, o: &Option<Vec<String>>) -> (r: Vec<(MetadataVerb, Vec<String>)>)
    ensures
        forall|w: MetadataVerb| #[trigger] verb_sources_lookup(r@, w) == if w == verb {
            listed(*o)
        } else {
            Seq::empty()
        },
        r@.len() <= 1,
        r@.len() == 1 ==> r@[0].0 == verb,
{
    let mut out: Vec<(MetadataVerb, Vec<String>)> = Vec::new();
    match o {
        Some(v) => {
            if v.len() > 0 {
                out.push((verb, copy_names(v)));
            }
        },
        None => {},
    }
    proof {
        assert forall|w: MetadataVerb| #[trigger] verb_sources_lookup(out@, w) == if w == verb {
            listed(*o)
        } else {
            Seq::empty()
        } by {
            if out@.len() == 1 {
                assert(out@.drop_first() =~= Seq::<(MetadataVerb, Vec<String>)>::empty());
                assert(verb_sources_lookup(out@.drop_first(), w) == Seq::<Seq<char>>::empty());
            } else {
                assert(verb_sources_lookup(out@, w) == Seq::<Seq<char>>::empty());
                if o is Some {
                    assert(names(o.unwrap()@) =~= Seq::<Seq<char>>::empty());
                }
            }
        }
    }
    out
}

/// Lookup in a concatenation of entry lists: the first list that has the
/// verb answers.
proof fn lemma_sources_append(a: Seq<(MetadataVerb, Vec<String>)>, b: Seq<(MetadataVerb, Vec<String>)>, w: MetadataVerb)
    requires
        a.len() <= 1,
    ensures
        verb_sources_lookup(a + b, w) == if a.len() == 1 && a[0].0 == w {
            verb_sources_lookup(a, w)
        } else {
            verb_sources_lookup(b, w)
        },
{
    if a.len() == 1 {
        assert((a + b).drop_first() =~= b);
        assert(a.drop_first() =~= Seq::<(MetadataVerb, Vec<String>)>::empty());
    } else {
        assert(a + b =~= b);
    }
}

/// The capability bundle of one plugin manifest.
pub fn caps_of(p: &LoadedPlugin) -> (c: PluginCaps)
    ensures
        is_caps_of(c, *p),
{
    let verbs = match &p.catalog {
        CatalogCaps::Typed { search, lookup, enrich, credits, artwork, related } => VerbSet {
            search: match search {
                Some(b) => *b,
                None => false,
            },
            lookup: *lookup,
            enrich: enrich.is_some(),
            credits: credits.is_some(),
            artwork: *artwork,
            related: related.is_some(),
        },
        CatalogCaps::Legacy => VerbSet {
            search: true,
            lookup: true,
            enrich: true,
            credits: true,
            artwork: true,
            related: true,
        },
    };
    let verb_id_sources: Vec<(MetadataVerb, Vec<String>)> = match &p.catalog {
        CatalogCaps::Typed { enrich, credits, related, .. } => {
            let e = declared_entry(MetadataVerb::Enrich, enrich);
            let c = declared_entry(MetadataVerb::Credits, credits);
            let r = declared_entry(MetadataVerb::Related, related);
            let mut all = e;
            let mut c2 = c;
            let mut r2 = r;
            let ghost (ev, cv, rv) = (all@, c2@, r2@);
            all.append(&mut c2);
            all.append(&mut r2);
            proof {
                assert(all@ =~= ev + (cv + rv));
                assert forall|w: MetadataVerb| #[trigger]
                    verb_sources_lookup(all@, w) == declared_sources(p.catalog, w) by {
                    lemma_sources_append(ev, cv + rv, w);
                    lemma_sources_append(cv, rv, w);
                    assert(verb_sources_lookup(ev, w) == if w == MetadataVerb::Enrich {
                        listed(*enrich)
                    } else {
                        Seq::<Seq<char>>::empty()
                    });
                    assert(verb_sources_lookup(cv, w) == if w == MetadataVerb::Credits {
                        listed(*credits)
                    } else {
                        Seq::<Seq<char>>::empty()
                    });
                    assert(verb_sources_lookup(rv, w) == if w == MetadataVerb::Related {
                        listed(*related)
                    } else {
                        Seq::<Seq<char>>::empty()
                    });
                    if ev.len() == 0 {
                        assert(verb_sources_lookup(ev, w) == Seq::<Seq<char>>::empty());
                    }
                    if cv.len() == 0 {
                        assert(verb_sources_lookup(cv, w) == Seq::<Seq<char>>::empty());
                    }
                }
            }
            all
        },
        CatalogCaps::Legacy => Vec::new(),
    };
    let mut tags: Vec<String> = Vec::new();
    let mut i: usize = 0;
    while i < p.tags.len()
        invariant
            i <= p.tags@.len(),
            names(tags@) == p.tags@.subrange(0, i as int).map_values(|t: String| ascii_lower_seq(t@)),
        decreases p.tags@.len() - i,
    {
        let ghost before = names(tags@);
        tags.push(to_ascii_lowercase(p.tags[i].as_str()));
        i += 1;
        assert(names(tags@) =~= before.push(ascii_lower_seq(p.tags@[i - 1]@)));
        assert(p.tags@.subrange(0, i as int).map_values(|t: String| ascii_lower_seq(t@)) =~= p.tags@.subrange(0, i - 1).map_values(|t: String| ascii_lower_seq(t@)).push(ascii_lower_seq(p.tags@[i - 1]@)));
    }
    assert(p.tags@.subrange(0, p.tags@.len() as int) =~= p.tags@);
    PluginCaps { name: p.name.clone(), verbs, tags, verb_id_sources }
}

/// Register `c` under `key`, replacing what the key had.
fn caps_insert(caps: &mut Vec<(String, PluginCaps)>, key: String, c: PluginCaps)
    requires
        keys_unique(old(caps)@),
    ensures
        keys_unique(final(caps)@),
        forall|k: Seq<char>| #[trigger] caps_lookup(final(caps)@, k) == if k == key@ {
            Some(c)
        } else {
            caps_lookup(old(caps)@, k)
        },
{
    let ghost before = caps@;
    let ghost kv = key@;
    match caps_find(caps, key.as_str()) {
        Some(i) => {
            caps.set(i, (key, c));
            proof {
                assert(caps@ == before.update(i as int, (key, c)));
                assert(keys_unique(caps@)) by {
                    assert forall|a: int, b: int| 0 <= a < b < caps@.len() implies caps@[a].0@
                        != caps@[b].0@ by {
                        assert(before[i as int].0@ == kv);
                        if a != i && b != i {
                            assert(caps@[a] == before[a] && caps@[b] == before[b]);
                        } else if a == i {
                            assert(caps@[b] == before[b]);
                        } else {
                            assert(caps@[a] == before[a]);
                        }
                    }
                }
                assert forall|k: Seq<char>| #[trigger] caps_lookup(caps@, k) == if k == kv {
                    Some(c)
                } else {
                    caps_lookup(before, k)
                } by {
                    if k == kv {
                        lemma_caps_lookup_unique(caps@, k, i as int);
                    } else {
                        lemma_caps_lookup_none(before, k);
                        lemma_caps_lookup_none(caps@, k);
                        if caps_lookup(before, k) is Some {
                            let j = choose|j: int| 0 <= j < before.len() && !(before[j].0@ != k);
                            lemma_caps_lookup_unique(before, k, j);
                            lemma_caps_lookup_unique(caps@, k, j);
                        }
                    }
                }
            }
        },
        None => {
            caps.push((key, c));
            proof {
                lemma_caps_lookup_none(before, kv);
                assert(keys_unique(caps@)) by {
                    assert forall|a: int, b: int| 0 <= a < b < caps@.len() implies caps@[a].0@
                        != caps@[b].0@ by {
                        if b == before.len() {
                            assert(caps@[a] == before[a]);
                        } else {
                            assert(caps@[a] == before[a] && caps@[b] == before[b]);
                        }
                    }
                }
                assert forall|k: Seq<char>| #[trigger] caps_lookup(caps@, k) == if k == kv {
                    Some(c)
                } else {
                    caps_lookup(before, k)
                } by {
                    if k == kv {
                        lemma_caps_lookup_unique(caps@, k, before.len() as int);
                    } else {
                        lemma_caps_lookup_none(before, k);
                        lemma_caps_lookup_none(caps@, k);
                        if caps_lookup(before, k) is Some {
                            let j = choose|j: int| 0 <= j < before.len() && !(before[j].0@ != k);
                            lemma_caps_lookup_unique(before, k, j);
                            assert(caps@[j] == before[j]);
                            lemma_caps_lookup_unique(caps@, k, j);
                        } else {
                            assert forall|j: int| 0 <= j < caps@.len() implies caps@[j].0@ != k by {
                                if j < before.len() {
                                    assert(caps@[j] == before[j]);
                                }
                            }
                        }
                    }
                }
            }
        },
    }
}

impl ManifestCapabilityProbe {
    /// Snapshot per-plugin capabilities from the registry: every metadata
    /// provider is registered under its name and under its id (a later
    /// plugin replaces an earlier one under the same key); other plugins
    /// are skipped.
    pub fn from_registry<C, S>(
        reg: &PluginRegistry<C, S>,
        tvdb_available: bool,
        fanart_available: bool,
    ) -> (r: ManifestCapabilityProbe)
        ensures
            r.tvdb_available == tvdb_available,
            r.fanart_available == fanart_available,
            keys_unique(r.plugin_caps@),
            forall|k: Seq<char>| #[trigger] caps_lookup(r.plugin_caps@, k) matches Some(c)
                ==> latest_provider(reg.plugin_list(), k) is Some && is_caps_of(
                c,
                latest_provider(reg.plugin_list(), k).unwrap(),
            ),
            forall|k: Seq<char>| #[trigger] caps_lookup(r.plugin_caps@, k) is None
                <==> latest_provider(reg.plugin_list(), k) is None,
    {
        let all = reg.all();
        let ghost plugins = reg.plugin_list();
        let mut caps: Vec<(String, PluginCaps)> = Vec::new();
        let n = all.len();
        let mut i: usize = 0;
        while i < n
            invariant
                n == plugins.len(),
                all@.map_values(|p: &LoadedPlugin| *p) == plugins,
                i <= n,
                keys_unique(caps@),
                forall|k: Seq<char>| #[trigger] caps_lookup(caps@, k) matches Some(c)
                    ==> latest_provider(plugins.subrange(0, i as int), k) is Some && is_caps_of(
                    c,
                    latest_provider(plugins.subrange(0, i as int), k).unwrap(),
                ),
                forall|k: Seq<char>| #[trigger] caps_lookup(caps@, k) is None
                    <==> latest_provider(plugins.subrange(0, i as int), k) is None,
            decreases n - i,
        {
            let p: &LoadedPlugin = all[i];
            let ghost pre = plugins.subrange(0, i as int);
            assert(plugins[i as int] == *p);
            assert(plugins.subrange(0, i + 1).drop_last() =~= pre);
            assert(plugins.subrange(0, i + 1).last() == *p);
            if p.is_metadata_provider {
                let c1 = caps_of(p);
                let c2 = caps_of(p);
                caps_insert(&mut caps, p.name.clone(), c1);
                caps_insert(&mut caps, p.id.clone(), c2);
            }
            i += 1;
        }
        assert(plugins.subrange(0, n as int) =~= plugins);
        ManifestCapabilityProbe { plugin_caps: caps, tvdb_available, fanart_available }
    }
}

} // verus!
