//! The runtime adapter façade: validates arguments, merges environment
//! and network configuration, encodes credentials, and builds the
//! engine requests for the registry and module lifecycle operations.
//! The surrounding application owns the transport that carries each
//! request to the engine and surfaces the engine's answer unchanged.
use vstd::prelude::*;
use vstd::string::StringExecFns;
use crate::auth::{registry_creds_json, serialize_registry_creds, DockerRegistryAuthConfig};
use crate::config::{
    opt_env_view,
    opt_labels_view,
    opt_net_view,
    ContainerCreateBody,
    DockerConfig,
};
use crate::env::{entry_strings, merged_env, EnvMap};
use crate::error::Error;
use crate::network::{attach_network, attach_spec, endpoints_of};
use crate::text::{is_blank, str_eq, str_is_blank};
use crate::urlparse::{parse_url, url_parse_ok, url_path_of, url_scheme_of, url_text_of};

verus! {

/// Grace period in seconds handed to the engine on stop and restart,
/// after which the engine force-kills the target.
pub const WAIT_BEFORE_KILL_SECONDS: i32 = 10;

/// The module type tag this adapter supports.
pub fn module_type() -> (r: &'static str)
    ensures
        r@ == "docker"@,
{
    "docker"
}

/// The fixed ownership label scoping listing queries to resources of
/// this orchestration domain.
pub open spec fn owner_label_spec() -> Seq<char> {
    "net.azure-devices.edge.owner=Microsoft.Azure.Devices.Edge.Agent"@
}

/// The fixed ownership label as a string.
pub fn owner_label() -> (r: &'static str)
    ensures
        r@ == owner_label_spec(),
{
    "net.azure-devices.edge.owner=Microsoft.Azure.Devices.Edge.Agent"
}

/// The JSON label filter sent with a listing request: one `label` key
/// holding exactly the ownership label.
pub open spec fn label_filter_json() -> Seq<char> {
    "{\"label\":[\""@ + owner_label_spec() + "\"]}"@
}

/// A vendor-neutral module specification: name, type tag, Config, and
/// the module's declared environment.
pub struct ModuleSpec {
    pub name: String,
    pub type_: String,
    pub config: DockerConfig,
    pub env: EnvMap,
}

impl ModuleSpec {
    /// The declared environment and the Config's mappings are well
    /// formed.
    pub open spec fn wf(self) -> bool {
        &&& self.env.wf()
        &&& self.config.create_options.wf()
    }

    /// Builds a specification; name and type tag must not be empty or
    /// whitespace only.
    pub fn new(name: &str, type_: &str, config: DockerConfig, env: EnvMap) -> (r: Result<
        ModuleSpec,
        Error,
    >)
        ensures
            r is Ok <==> (!is_blank(name@) && !is_blank(type_@)),
            r matches Err(e) ==> e is Validation,
            r matches Ok(m) ==> m.name@ == name@ && m.type_@ == type_@ && m.config == config
                && m.env == env,
    {
        if str_is_blank(name) {
            Err(Error::Validation(String::from_str("module name is empty")))
        } else if str_is_blank(type_) {
            Err(Error::Validation(String::from_str("module type is empty")))
        } else {
            Ok(ModuleSpec { name: name.to_owned(), type_: type_.to_owned(), config, env })
        }
    }

    /// The module name.
    pub fn name(&self) -> (r: &String)
        ensures
            r == self.name,
    {
        &self.name
    }

    /// The module type tag.
    pub fn type_(&self) -> (r: &String)
        ensures
            r == self.type_,
    {
        &self.type_
    }

    /// The module's Config.
    pub fn config(&self) -> (r: &DockerConfig)
        ensures
            r == self.config,
    {
        &self.config
    }

    /// The module's declared environment.
    pub fn env(&self) -> (r: &EnvMap)
        ensures
            r == self.env,
    {
        &self.env
    }
}

/// An engine image-pull request: the image name and the encoded
/// credential header.
pub struct ImagePullRequest {
    pub name: String,
    pub registry_creds: String,
}

/// An engine image-delete request.
pub struct ImageDeleteRequest {
    pub name: String,
    pub force: bool,
    pub no_prune: bool,
}

/// An engine container-create request: the create-options body and the
/// container name.
pub struct ContainerCreateRequest {
    pub name: String,
    pub body: ContainerCreateBody,
}

/// An engine container-start request.
pub struct ContainerStartRequest {
    pub id: String,
    pub detach_keys: String,
}

/// An engine container-stop request with its grace period in seconds.
pub struct ContainerStopRequest {
    pub id: String,
    pub wait_seconds: i32,
}

/// An engine container-restart request with its grace period in seconds.
pub struct ContainerRestartRequest {
    pub id: String,
    pub wait_seconds: i32,
}

/// An engine container-delete request with its cleanup flags.
pub struct ContainerDeleteRequest {
    pub id: String,
    pub force: bool,
    pub remove_volumes: bool,
    pub remove_links: bool,
}

/// An engine container-list request: include-all flag, limit, size flag,
/// and the JSON label filter.
pub struct ContainerListRequest {
    pub all: bool,
    pub limit: i32,
    pub size: bool,
    pub filters: String,
}

/// The engine API base path derived from a locator: the socket's
/// filesystem path for local-socket locators, the full locator text
/// otherwise.
pub open spec fn base_path_of(u: Seq<char>) -> Seq<char> {
    if url_scheme_of(u) == "unix"@ {
        url_path_of(u)
    } else {
        url_text_of(u)
    }
}

/// The locator schemes the adapter's transport supports.
pub open spec fn scheme_supported(scheme: Seq<char>) -> bool {
    scheme == "unix"@ || scheme == "http"@
}

/// The adapter: the engine binding derived at construction plus the
/// optional configured network id.
#[derive(Clone)]
pub struct DockerModuleRuntime {
    pub base_path: String,
    pub scheme: String,
    pub network_id: Option<String>,
}

/// Validation applied to every name and id before a request is built.
pub fn ensure_not_empty(value: &str) -> (r: Result<(), Error>)
    ensures
        r is Ok <==> !is_blank(value@),
        r matches Err(e) ==> e is Validation,
{
    if str_is_blank(value) {
        Err(Error::Validation(String::from_str("argument is empty or whitespace")))
    } else {
        Ok(())
    }
}

impl DockerModuleRuntime {
    /// Binds the adapter to an engine locator: the locator must parse
    /// and carry a supported scheme; the base path is the socket path
    /// for local-socket locators and the locator text otherwise.
    /// Whether a referenced local socket actually resolves is checked by
    /// the surrounding application, which owns the transport.
    pub fn new(docker_url: &str) -> (r: Result<DockerModuleRuntime, Error>)
        ensures
            r is Ok <==> url_parse_ok(docker_url@) && scheme_supported(url_scheme_of(docker_url@)),
            r matches Err(e) ==> e is Configuration,
            r matches Ok(rt) ==> rt.base_path@ == base_path_of(docker_url@) && rt.scheme@
                == url_scheme_of(docker_url@) && rt.network_id is None,
    {
        match parse_url(docker_url) {
            None => Err(Error::Configuration(String::from_str("invalid docker URI"))),
            Some(parts) => {
                let (scheme, path, full) = parts;
                if str_eq(scheme.as_str(), "unix") {
                    Ok(DockerModuleRuntime { base_path: path, scheme, network_id: None })
                } else if str_eq(scheme.as_str(), "http") {
                    Ok(DockerModuleRuntime { base_path: full, scheme, network_id: None })
                } else {
                    Err(Error::Configuration(String::from_str("unsupported docker URI scheme")))
                }
            },
        }
    }

    /// Configures the network that created containers are attached to.
    pub fn with_network_id(self, network_id: String) -> (r: DockerModuleRuntime)
        ensures
            r.network_id matches Some(id) && id == network_id,
            r.base_path == self.base_path,
            r.scheme == self.scheme,
    {
        DockerModuleRuntime { network_id: Some(network_id), ..self }
    }

    /// The engine API base path.
    pub fn base_path(&self) -> (r: &String)
        ensures
            r == self.base_path,
    {
        &self.base_path
    }

    /// The locator scheme.
    pub fn scheme(&self) -> (r: &String)
        ensures
            r == self.scheme,
    {
        &self.scheme
    }

    /// Merges an inherited environment list with a declared environment
    /// mapping; on a shared key the declared value wins, and every key
    /// of either side is kept. The order of the entries is unspecified.
    pub fn merge_env(cur_env: Option<&Vec<String>>, new_env: &EnvMap) -> (r: Vec<String>)
        requires
            new_env.wf(),
        ensures
            ({
                let m = merged_env(
                    match cur_env {
                        Option::Some(env) => Option::Some(env.deep_view()),
                        Option::None => Option::None,
                    },
                    new_env@,
                );
                &&& r.deep_view().to_set() == entry_strings(m)
                &&& r.deep_view().len() == m.dom().len()
            }),
    {
        crate::env::merge_env(cur_env, new_env)
    }

    /// Builds the image-pull request: the image name must not be blank;
    /// the credential header is the encoding of the given credentials.
    pub fn pull(&self, name: &str, credentials: Option<&DockerRegistryAuthConfig>) -> (r: Result<
        ImagePullRequest,
        Error,
    >)
        ensures
            r is Ok <==> !is_blank(name@),
            r matches Err(e) ==> e is Validation,
            r matches Ok(q) ==> q.name@ == name@ && q.registry_creds@ == registry_creds_json(
                match credentials {
                    Option::Some(c) => Option::Some(*c),
                    Option::None => Option::None,
                },
            ),
    {
        let registry_creds = match serialize_registry_creds(credentials) {
            Ok(s) => s,
            Err(e) => {
                return Err(e);
            },
        };
        match ensure_not_empty(name) {
            Err(e) => Err(e),
            Ok(_) => Ok(ImagePullRequest { name: name.to_owned(), registry_creds }),
        }
    }

    /// Builds the image-delete request: no force, no prune skipping.
    pub fn remove_image(&self, name: &str) -> (r: Result<ImageDeleteRequest, Error>)
        ensures
            r is Ok <==> !is_blank(name@),
            r matches Err(e) ==> e is Validation,
            r matches Ok(q) ==> q.name@ == name@ && q.force == false && q.no_prune == false,
    {
        match ensure_not_empty(name) {
            Err(e) => Err(e),
            Ok(_) => Ok(ImageDeleteRequest { name: name.to_owned(), force: false, no_prune: false }),
        }
    }

    /// Builds the container-create request. A module whose type tag is
    /// not the supported one is rejected before any request exists. The
    /// body is a deep copy of the spec's create-options with the image
    /// set, the environment replaced by the merge of the options'
    /// entries with the spec's declared environment, and, when a network
    /// id is configured, that network attached without clobbering any
    /// existing endpoint entry.
    pub fn create(&self, module: &ModuleSpec) -> (r: Result<ContainerCreateRequest, Error>)
        requires
            module.wf(),
        ensures
            r is Ok <==> module.type_@ == "docker"@,
            r matches Err(e) ==> e is Validation,
            r matches Ok(q) ==> ({
                let opts = module.config.create_options;
                let m = merged_env(opt_env_view(opts.env), module.env@);
                &&& q.name@ == module.name@
                &&& q.body.image matches Some(img) && img@ == module.config.image@
                &&& q.body.env matches Some(en) && en.deep_view().to_set() == entry_strings(m)
                    && en.deep_view().len() == m.dom().len()
                &&& opt_labels_view(q.body.labels) == opt_labels_view(opts.labels)
                &&& match self.network_id {
                    Option::Some(id) => q.body.networking_config matches Some(nc)
                        && nc.endpoints_config matches Some(ep) && ep@ == attach_spec(
                        endpoints_of(opts.networking_config),
                        id@,
                    ),
                    Option::None => opt_net_view(q.body.networking_config) == opt_net_view(
                        opts.networking_config,
                    ),
                }
            }),
    {
        if !str_eq(module.type_.as_str(), module_type()) {
            return Err(Error::Validation(String::from_str("unsupported module type")));
        }
        let working = match module.config.clone_create_options() {
            Ok(b) => b,
            Err(e) => {
                return Err(e);
            },
        };
        let merged = Self::merge_env(working.env(), &module.env);
        let mut working = working.with_image(module.config.image().clone()).with_env(merged);
        if let Some(network_id) = &self.network_id {
            proof {
                assert(endpoints_of(working.networking_config)
                    == endpoints_of(module.config.create_options.networking_config));
            }
            let net = attach_network(working.networking_config(), network_id.as_str());
            working = working.with_networking_config(net);
        }
        Ok(ContainerCreateRequest { name: module.name.clone(), body: working })
    }

    /// Builds the container-start request.
    pub fn start(&self, id: &str) -> (r: Result<ContainerStartRequest, Error>)
        ensures
            r is Ok <==> !is_blank(id@),
            r matches Err(e) ==> e is Validation,
            r matches Ok(q) ==> q.id@ == id@ && q.detach_keys@ == Seq::<char>::empty(),
    {
        match ensure_not_empty(id) {
            Err(e) => Err(e),
            Ok(_) => Ok(ContainerStartRequest { id: id.to_owned(), detach_keys: String::new() }),
        }
    }

    /// Builds the container-stop request with the fixed grace period.
    pub fn stop(&self, id: &str) -> (r: Result<ContainerStopRequest, Error>)
        ensures
            r is Ok <==> !is_blank(id@),
            r matches Err(e) ==> e is Validation,
            r matches Ok(q) ==> q.id@ == id@ && q.wait_seconds == WAIT_BEFORE_KILL_SECONDS,
    {
        match ensure_not_empty(id) {
            Err(e) => Err(e),
            Ok(_) => Ok(ContainerStopRequest { id: id.to_owned(), wait_seconds: WAIT_BEFORE_KILL_SECONDS }),
        }
    }

    /// Builds the container-restart request with the fixed grace period.
    pub fn restart(&self, id: &str) -> (r: Result<ContainerRestartRequest, Error>)
        ensures
            r is Ok <==> !is_blank(id@),
            r matches Err(e) ==> e is Validation,
            r matches Ok(q) ==> q.id@ == id@ && q.wait_seconds == WAIT_BEFORE_KILL_SECONDS,
    {
        match ensure_not_empty(id) {
            Err(e) => Err(e),
            Ok(_) => Ok(ContainerRestartRequest { id: id.to_owned(), wait_seconds: WAIT_BEFORE_KILL_SECONDS }),
        }
    }

    /// Builds the container-delete request: force stop, with volume and
    /// link cleanup.
    pub fn remove(&self, id: &str) -> (r: Result<ContainerDeleteRequest, Error>)
        ensures
            r is Ok <==> !is_blank(id@),
            r matches Err(e) ==> e is Validation,
            r matches Ok(q) ==> q.id@ == id@ && q.force == true && q.remove_volumes == true
                && q.remove_links == true,
    {
        match ensure_not_empty(id) {
            Err(e) => Err(e),
            Ok(_) => Ok(
                ContainerDeleteRequest {
                    id: id.to_owned(),
                    force: true,
                    remove_volumes: true,
                    remove_links: true,
                },
            ),
        }
    }

    /// Builds the container-list request: all resources, no limit, with
    /// size information, filtered by the ownership label alone.
    pub fn list_request(&self) -> (r: ContainerListRequest)
        ensures
            r.all == true,
            r.limit == 0,
            r.size == true,
            r.filters@ == label_filter_json(),
    {
        let mut filters = String::from_str("{\"label\":[\"");
        filters.append(owner_label());
        filters.append("\"]}");
        ContainerListRequest { all: true, limit: 0, size: true, filters }
    }

    /// The same adapter viewed as the registry capability.
    pub fn registry(&self) -> (r: &DockerModuleRuntime)
        ensures
            r == self,
    {
        self
    }
}

} // verus!
