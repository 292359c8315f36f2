//! The engine-specific create-options payload and the module Config that
//! carries it: an image reference plus the parts of the create body that
//! the adapter reads or writes, with an independent deep copy so a
//! working copy never aliases caller state.
use vstd::prelude::*;
use crate::auth::opt_view;
use crate::env::EnvMap;
use crate::error::Error;
use crate::network::{ContainerCreateBodyNetworkingConfig, EndpointSettings};
use crate::text::{is_blank, str_is_blank};
use vstd::string::StringExecFns;

verus! {

/// The create-options payload of a container create request, holding the
/// parts the adapter works with.
pub struct ContainerCreateBody {
    pub env: Option<Vec<String>>,
    pub image: Option<String>,
    pub labels: Option<EnvMap>,
    pub networking_config: Option<ContainerCreateBodyNetworkingConfig>,
}

/// The view of an optional `KEY=VALUE` entry list.
pub open spec fn opt_env_view(o: Option<Vec<String>>) -> Option<Seq<Seq<char>>> {
    match o {
        Option::Some(v) => Option::Some(v.deep_view()),
        Option::None => Option::None,
    }
}

/// The view of optional labels.
pub open spec fn opt_labels_view(o: Option<EnvMap>) -> Option<Map<Seq<char>, Seq<char>>> {
    match o {
        Option::Some(m) => Option::Some(m@),
        Option::None => Option::None,
    }
}

/// The view of an optional networking configuration: the outer level
/// says whether the section is present, the inner whether it holds an
/// endpoints mapping.
pub open spec fn opt_net_view(o: Option<ContainerCreateBodyNetworkingConfig>) -> Option<
    Option<Map<Seq<char>, EndpointSettings>>,
> {
    match o {
        Option::Some(c) => Option::Some(
            match c.endpoints_config {
                Option::Some(e) => Option::Some(e@),
                Option::None => Option::None,
            },
        ),
        Option::None => Option::None,
    }
}

impl ContainerCreateBody {
    /// The whole body as one mathematical value.
    pub open spec fn body_view(self) -> (
        Option<Seq<Seq<char>>>,
        Option<Seq<char>>,
        Option<Map<Seq<char>, Seq<char>>>,
        Option<Option<Map<Seq<char>, EndpointSettings>>>,
    ) {
        (opt_env_view(self.env), opt_view(self.image), opt_labels_view(self.labels), opt_net_view(
            self.networking_config,
        ))
    }

    /// The label and endpoint mappings, where present, are well formed.
    pub open spec fn wf(self) -> bool {
        &&& (self.labels matches Some(l) ==> l.wf())
        &&& (self.networking_config matches Some(n) ==> n.wf())
    }

    /// A body with nothing set.
    pub fn new() -> (r: ContainerCreateBody)
        ensures
            r.env is None,
            r.image is None,
            r.labels is None,
            r.networking_config is None,
            r.wf(),
    {
        ContainerCreateBody { env: None, image: None, labels: None, networking_config: None }
    }

    /// Sets the environment entry list.
    pub fn with_env(self, env: Vec<String>) -> (r: ContainerCreateBody)
        ensures
            r.env matches Some(e) && e == env,
            r.image == self.image,
            r.labels == self.labels,
            r.networking_config == self.networking_config,
    {
        ContainerCreateBody { env: Some(env), ..self }
    }

    /// Sets the image reference.
    pub fn with_image(self, image: String) -> (r: ContainerCreateBody)
        ensures
            r.image matches Some(s) && s == image,
            r.env == self.env,
            r.labels == self.labels,
            r.networking_config == self.networking_config,
    {
        ContainerCreateBody { image: Some(image), ..self }
    }

    /// Sets the labels.
    pub fn with_labels(self, labels: EnvMap) -> (r: ContainerCreateBody)
        ensures
            r.labels matches Some(l) && l == labels,
            r.env == self.env,
            r.image == self.image,
            r.networking_config == self.networking_config,
    {
        ContainerCreateBody { labels: Some(labels), ..self }
    }

    /// Sets the networking configuration.
    pub fn with_networking_config(self, networking_config: ContainerCreateBodyNetworkingConfig) -> (
        r: ContainerCreateBody)
        ensures
            r.networking_config matches Some(n) && n == networking_config,
            r.env == self.env,
            r.image == self.image,
            r.labels == self.labels,
    {
        ContainerCreateBody { networking_config: Some(networking_config), ..self }
    }

    /// The environment entry list, if set.
    pub fn env(&self) -> (r: Option<&Vec<String>>)
        ensures
            match r {
                Some(e) => self.env matches Some(v) && e == v,
                None => self.env is None,
            },
    {
        self.env.as_ref()
    }

    /// The networking configuration, if set.
    pub fn networking_config(&self) -> (r: Option<&ContainerCreateBodyNetworkingConfig>)
        ensures
            match r {
                Some(n) => self.networking_config matches Some(v) && n == v,
                None => self.networking_config is None,
            },
    {
        self.networking_config.as_ref()
    }

    /// The labels, if set.
    pub fn labels(&self) -> (r: Option<&EnvMap>)
        ensures
            match r {
                Some(l) => self.labels matches Some(v) && l == v,
                None => self.labels is None,
            },
    {
        self.labels.as_ref()
    }
}

/// An independent copy of a `KEY=VALUE` entry list.
fn clone_string_vec(v: &Vec<String>) -> (r: Vec<String>)
    ensures
        r.deep_view() == v.deep_view(),
{
    let n = v.len();
    let mut r: Vec<String> = Vec::new();
    let mut i: usize = 0;
    while i < n
        invariant
            n == v.len(),
            0 <= i <= n,
            r.deep_view().len() == i,
            forall|j: int| 0 <= j < i ==> r.deep_view()[j] == v.deep_view()[j],
        decreases n - i,
    {
        let s = v[i].clone();
        r.push(s);
        i = i + 1;
    }
    assert(r.deep_view() =~= v.deep_view());
    r
}

/// A module's Config: the image reference together with the
/// engine-specific create-options payload.
pub struct DockerConfig {
    pub image: String,
    pub create_options: ContainerCreateBody,
}

impl DockerConfig {
    /// Builds a Config; the image reference must not be empty or
    /// whitespace only.
    pub fn new(image: &str, create_options: ContainerCreateBody) -> (r: Result<DockerConfig, Error>)
        ensures
            r is Ok <==> !is_blank(image@),
            r matches Err(e) ==> e is Validation,
            r matches Ok(c) ==> c.image@ == image@ && c.create_options == create_options,
    {
        if str_is_blank(image) {
            Err(Error::Validation(String::from_str("image reference is empty")))
        } else {
            Ok(DockerConfig { image: image.to_owned(), create_options })
        }
    }

    /// The image reference.
    pub fn image(&self) -> (r: &String)
        ensures
            r == self.image,
    {
        &self.image
    }

    /// The create-options payload.
    pub fn create_options(&self) -> (r: &ContainerCreateBody)
        ensures
            r == self.create_options,
    {
        &self.create_options
    }

    /// An independent deep copy of the create-options payload, so the
    /// adapter can set fields on a working copy without touching the
    /// caller's value.
    pub fn clone_create_options(&self) -> (r: Result<ContainerCreateBody, Error>)
        ensures
            r matches Ok(b) && b.body_view() == self.create_options.body_view() && (
            self.create_options.wf() ==> b.wf()),
    {
        let env: Option<Vec<String>> = match self.create_options.env.as_ref() {
            Some(v) => Some(clone_string_vec(v)),
            None => None,
        };
        let image: Option<String> = match self.create_options.image.as_ref() {
            Some(s) => Some(s.clone()),
            None => None,
        };
        let labels: Option<EnvMap> = match self.create_options.labels.as_ref() {
            Some(l) => Some(l.duplicate()),
            None => None,
        };
        let networking_config: Option<ContainerCreateBodyNetworkingConfig> = match self
            .create_options
            .networking_config
            .as_ref() {
            Some(n) => Some(
                match n.endpoints_config.as_ref() {
                    Some(e) => ContainerCreateBodyNetworkingConfig {
                        endpoints_config: Some(e.duplicate()),
                    },
                    None => ContainerCreateBodyNetworkingConfig { endpoints_config: None },
                },
            ),
            None => None,
        };
        Ok(ContainerCreateBody { env, image, labels, networking_config })
    }
}

} // verus!
