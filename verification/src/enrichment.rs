//! Kubernetes metadata of pods, cached by IP address text.
use vstd::prelude::*;
use std::collections::HashMap;
use dashmap::DashMap;

verus! {

/// Kubernetes metadata for a pod.
#[derive(Debug)]
pub struct PodMetadata {
    pub name: String,
    pub namespace: String,
    pub deployment: Option<String>,
    pub service: Option<String>,
    pub labels: HashMap<String, String>,
}

/// The text of an optional string.
pub open spec fn opt_text(s: Option<String>) -> Option<Seq<char>> {
    match s {
        Some(t) => Some(t@),
        None => None,
    }
}

/// The value of pod metadata, with its texts.
pub struct PodMetadataView {
    pub name: Seq<char>,
    pub namespace: Seq<char>,
    pub deployment: Option<Seq<char>>,
    pub service: Option<Seq<char>>,
    pub labels: Map<String, String>,
}

fn clone_opt_string(s: &Option<String>) -> (r: Option<String>)
    ensures
        opt_text(r) == opt_text(*s),
{
    match s {
        Some(t) => Some(t.clone()),
        None => None,
    }
}

impl Clone for PodMetadata {
    fn clone(&self) -> (p: Self)
        ensures
            p@ == self@,
    {
        PodMetadata {
            name: self.name.clone(),
            namespace: self.namespace.clone(),
            deployment: clone_opt_string(&self.deployment),
            service: clone_opt_string(&self.service),
            labels: self.labels.clone(),
        }
    }
}

impl View for PodMetadata {
    type V = PodMetadataView;

    open spec fn view(&self) -> PodMetadataView {
        PodMetadataView {
            name: self.name@,
            namespace: self.namespace@,
            deployment: opt_text(self.deployment),
            service: opt_text(self.service),
            labels: self.labels@,
        }
    }
}

/// The pods that a concurrent map of pod metadata holds, by address text.
pub uninterp spec fn pod_map(m: DashMap<String, PodMetadata>) -> Map<Seq<char>, PodMetadataView>;

/// Calls `dashmap::DashMap::new`. Claimed: the new map holds no pod.
#[verifier::external_body]
fn pod_map_new() -> (m: DashMap<String, PodMetadata>)
    ensures
        pod_map(m).dom() == Set::<Seq<char>>::empty(),
{
    DashMap::new()
}

/// Calls `DashMap::get` with a `&str` key and clones the value found. Claimed: the
/// result is the metadata stored under the same text, if any (string keys compare
/// by their text).
#[verifier::external_body]
fn pod_map_get(m: &DashMap<String, PodMetadata>, ip: &str) -> (r: Option<PodMetadata>)
    ensures
        r is Some <==> pod_map(*m).contains_key(ip@),
        r matches Some(p) ==> p@ == pod_map(*m)[ip@],
{
    m.get(ip).map(|r| r.value().clone())
}

/// Calls `DashMap::insert`. Claimed: afterwards the text maps to the metadata and all
/// other texts are unchanged; the result is the metadata the text had before, if any.
#[verifier::external_body]
fn pod_map_insert(m: &mut DashMap<String, PodMetadata>, ip: String, md: PodMetadata) -> (r: Option<PodMetadata>)
    ensures
        pod_map(*final(m)) == pod_map(*old(m)).insert(ip@, md@),
        r is Some <==> pod_map(*old(m)).contains_key(ip@),
{
    m.insert(ip, md)
}

/// Calls `DashMap::len`. Claimed: the result is the number of pods held.
#[verifier::external_body]
fn pod_map_len(m: &DashMap<String, PodMetadata>) -> (n: usize)
    ensures
        n == pod_map(*m).len(),
{
    m.len()
}

/// Kubernetes metadata enricher: a cache of pod metadata by IP address text.
pub struct KubernetesEnricher {
    cache: DashMap<String, PodMetadata>,
}

impl View for KubernetesEnricher {
    type V = Map<Seq<char>, PodMetadataView>;

    closed spec fn view(&self) -> Map<Seq<char>, PodMetadataView> {
        pod_map(self.cache)
    }
}

impl KubernetesEnricher {
    /// The cache holds finitely many pods.
    pub open spec fn wf(&self) -> bool {
        self@.dom().finite()
    }

    /// Creates an enricher with an empty cache.
    pub fn new() -> (k: Self)
        ensures
            k.wf(),
            k@ == Map::<Seq<char>, PodMetadataView>::empty(),
    {
        let cache = pod_map_new();
        let k = KubernetesEnricher { cache };
        assert(k@ =~= Map::<Seq<char>, PodMetadataView>::empty());
        k
    }

    /// The metadata cached for an IP address, if any.
    pub fn enrich(&self, ip: &str) -> (r: Option<PodMetadata>)
        ensures
            r is Some <==> self@.contains_key(ip@),
            r matches Some(p) ==> p@ == self@[ip@],
    {
        pod_map_get(&self.cache, ip)
    }

    /// Caches the metadata of a pod under its IP address.
    pub fn update(&mut self, ip: String, metadata: PodMetadata)
        ensures
            final(self)@ == old(self)@.insert(ip@, metadata@),
            old(self).wf() ==> final(self).wf(),
    {
        pod_map_insert(&mut self.cache, ip, metadata);
    }

    /// Number of cached pods.
    pub fn cache_size(&self) -> (n: usize)
        ensures
            n == self@.len(),
    {
        pod_map_len(&self.cache)
    }
}

impl Default for KubernetesEnricher {
    fn default() -> (k: Self)
        ensures
            k.wf(),
            k@ == Map::<Seq<char>, PodMetadataView>::empty(),
    {
        Self::new()
    }
}

/// After metadata is cached under an address, looking the address up gives that
/// metadata, and the cache holds one more entry only if the address was new.
pub proof fn enrich_reads_back_update(
    before: Map<Seq<char>, PodMetadataView>,
    after: Map<Seq<char>, PodMetadataView>,
    ip: Seq<char>,
    md: PodMetadataView,
)
    requires
        before.dom().finite(),
        after == before.insert(ip, md),
    ensures
        after.contains_key(ip),
        after[ip] == md,
        after.len() == before.len() + (if before.contains_key(ip) { 0int } else { 1int }),
        forall|k: Seq<char>| k != ip ==> (after.contains_key(k) <==> before.contains_key(k)),
{
    if before.contains_key(ip) {
        assert(after.dom() =~= before.dom());
    }
}

} // verus!
