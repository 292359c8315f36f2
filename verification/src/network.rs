//! Network attachment: inserting the adapter's configured network id into
//! a create request's endpoints mapping without clobbering what a caller
//! already put there.
use vstd::prelude::*;
use vstd::string::StringExecFns;
use crate::env::{distinct_keys, lemma_map_of_pairs_dom, lemma_map_of_pairs_push, map_of_pairs};
use crate::text::str_eq;

verus! {

/// Per-endpoint settings recorded when a container joins a network; the
/// defaults carry no overrides.
#[derive(Clone, Copy, PartialEq, Eq, Structural, Debug)]
pub struct EndpointSettings {}

impl EndpointSettings {
    /// The default endpoint settings.
    pub fn new() -> (r: EndpointSettings)
        ensures
            r == (EndpointSettings {  }),
    {
        EndpointSettings {  }
    }
}

impl View for EndpointSettings {
    type V = EndpointSettings;

    open spec fn view(&self) -> EndpointSettings {
        *self
    }
}

impl DeepView for EndpointSettings {
    type V = EndpointSettings;

    open spec fn deep_view(&self) -> EndpointSettings {
        *self
    }
}

/// The endpoints of a networking configuration: network name to endpoint
/// settings, each network present at most once.
pub struct EndpointsConfig {
    pub entries: Vec<(String, EndpointSettings)>,
}

impl EndpointsConfig {
    /// The pairs as mathematical sequences.
    pub open spec fn pairs(self) -> Seq<(Seq<char>, EndpointSettings)> {
        self.entries.deep_view()
    }

    /// Every network name occurs at most once.
    pub open spec fn wf(self) -> bool {
        distinct_keys(self.pairs())
    }

    /// An empty endpoints mapping.
    pub fn new() -> (r: EndpointsConfig)
        ensures
            r.wf(),
            r@ == Map::<Seq<char>, EndpointSettings>::empty(),
    {
        let r = EndpointsConfig { entries: Vec::new() };
        assert(r.pairs() =~= Seq::<(Seq<char>, EndpointSettings)>::empty());
        r
    }

    /// Whether the mapping has an entry for network `k`.
    pub fn contains_key(&self, k: &str) -> (r: bool)
        ensures
            r == self@.contains_key(k@),
    {
        proof {
            lemma_map_of_pairs_dom(self.pairs(), k@);
        }
        let n = self.entries.len();
        let mut i: usize = 0;
        while i < n
            invariant
                n == self.entries.len(),
                0 <= i <= n,
                forall|j: int| 0 <= j < i ==> self.pairs()[j].0 != k@,
            decreases n - i,
        {
            if str_eq(self.entries[i].0.as_str(), k) {
                proof {
                    lemma_map_of_pairs_dom(self.pairs(), k@);
                    assert(self.pairs()[i as int].0 == k@);
                }
                return true;
            }
            i = i + 1;
        }
        proof {
            lemma_map_of_pairs_dom(self.pairs(), k@);
        }
        false
    }

    /// Adds an entry for a network that is not yet present.
    pub fn insert_new(&mut self, k: String, v: EndpointSettings)
        requires
            old(self).wf(),
            !old(self)@.contains_key(k@),
        ensures
            final(self).wf(),
            final(self)@ == old(self)@.insert(k@, v),
    {
        let ghost before = self.pairs();
        proof {
            lemma_map_of_pairs_push(before, k@, v);
            lemma_map_of_pairs_dom(before, k@);
        }
        self.entries.push((k, v));
        proof {
            assert(self.pairs() =~= before.push((k@, v)));
            assert forall|i: int, j: int|
                0 <= i < j < self.pairs().len() implies self.pairs()[i].0 != self.pairs()[j].0 by {
                if j < before.len() {
                    assert(before[i].0 != before[j].0);
                }
            }
        }
    }

    /// An independent copy with the same contents.
    pub fn duplicate(&self) -> (r: EndpointsConfig)
        ensures
            r.pairs() == self.pairs(),
            r@ == self@,
    {
        let n = self.entries.len();
        let mut entries: Vec<(String, EndpointSettings)> = Vec::new();
        let mut i: usize = 0;
        while i < n
            invariant
                n == self.entries.len(),
                0 <= i <= n,
                entries.deep_view().len() == i,
                forall|j: int| 0 <= j < i ==> entries.deep_view()[j] == self.pairs()[j],
            decreases n - i,
        {
            let k = self.entries[i].0.clone();
            let v = self.entries[i].1;
            entries.push((k, v));
            i = i + 1;
        }
        let r = EndpointsConfig { entries };
        assert(r.pairs() =~= self.pairs());
        r
    }
}

impl View for EndpointsConfig {
    type V = Map<Seq<char>, EndpointSettings>;

    open spec fn view(&self) -> Map<Seq<char>, EndpointSettings> {
        map_of_pairs(self.pairs())
    }
}

/// The networking section of a container create request.
pub struct ContainerCreateBodyNetworkingConfig {
    pub endpoints_config: Option<EndpointsConfig>,
}

impl ContainerCreateBodyNetworkingConfig {
    /// Networking configuration with no endpoints yet.
    pub fn new() -> (r: ContainerCreateBodyNetworkingConfig)
        ensures
            r.endpoints_config is None,
    {
        ContainerCreateBodyNetworkingConfig { endpoints_config: None }
    }

    /// Replaces the endpoints mapping.
    pub fn with_endpoints_config(self, endpoints_config: EndpointsConfig) -> (r:
        ContainerCreateBodyNetworkingConfig)
        ensures
            r.endpoints_config matches Some(e) && e == endpoints_config,
    {
        ContainerCreateBodyNetworkingConfig { endpoints_config: Some(endpoints_config) }
    }

    /// Whether the endpoints mapping, if present, is well formed.
    pub open spec fn wf(self) -> bool {
        match self.endpoints_config {
            Option::Some(e) => e.wf(),
            Option::None => true,
        }
    }
}

/// The endpoints mapping held by an optional networking configuration: an
/// absent configuration or an absent mapping stands for no endpoints.
pub open spec fn endpoints_of(cfg: Option<ContainerCreateBodyNetworkingConfig>) -> Map<
    Seq<char>,
    EndpointSettings,
> {
    match cfg {
        Option::Some(c) => match c.endpoints_config {
            Option::Some(e) => e@,
            Option::None => Map::empty(),
        },
        Option::None => Map::empty(),
    }
}

/// The endpoints mapping after attaching the configured network: the id
/// is added with default settings only when absent; an existing entry
/// under that id is never replaced.
pub open spec fn attach_spec(m: Map<Seq<char>, EndpointSettings>, id: Seq<char>) -> Map<
    Seq<char>,
    EndpointSettings,
> {
    if m.contains_key(id) {
        m
    } else {
        m.insert(id, EndpointSettings {  })
    }
}

/// Attaching the configured network id twice yields the same endpoints
/// mapping as attaching it once; no entry already present is removed or
/// changed, and an entry already under the id leaves the mapping as it
/// was.
pub proof fn lemma_attach_idempotent(m: Map<Seq<char>, EndpointSettings>, id: Seq<char>)
    ensures
        attach_spec(attach_spec(m, id), id) == attach_spec(m, id),
        forall|k: Seq<char>| #[trigger]
            m.contains_key(k) ==> attach_spec(m, id).contains_key(k) && attach_spec(m, id)[k]
                == m[k],
        m.contains_key(id) ==> attach_spec(m, id) == m,
{
}

/// Builds the networking configuration for a create request: the existing
/// configuration (or an empty default), with the configured network id
/// present in the endpoints exactly once and any pre-existing entries
/// untouched.
pub fn attach_network(cfg: Option<&ContainerCreateBodyNetworkingConfig>, network_id: &str) -> (r:
    ContainerCreateBodyNetworkingConfig)
    requires
        (cfg matches Some(c) ==> c.wf()),
    ensures
        r.endpoints_config matches Some(e) && e.wf() && e@ == attach_spec(
            endpoints_of(
                match cfg {
                    Option::Some(c) => Option::Some(*c),
                    Option::None => Option::None,
                },
            ),
            network_id@,
        ),
{
    let mut endpoints: EndpointsConfig = match cfg {
        Some(c) => match &c.endpoints_config {
            Some(e) => e.duplicate(),
            None => EndpointsConfig::new(),
        },
        None => EndpointsConfig::new(),
    };
    if !endpoints.contains_key(network_id) {
        endpoints.insert_new(String::from_str(network_id), EndpointSettings::new());
    }
    ContainerCreateBodyNetworkingConfig { endpoints_config: Some(endpoints) }
}

} // verus!
