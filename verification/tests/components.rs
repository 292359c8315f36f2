//! Tests of the adapter's components: credential encoding, network
//! attachment, environment mapping, and descriptor assembly.
use docker_mri::auth::{serialize_registry_creds, DockerRegistryAuthConfig};
use docker_mri::config::{ContainerCreateBody, DockerConfig};
use docker_mri::env::EnvMap;
use docker_mri::error::Error;
use docker_mri::listing::{list_modules, ContainerRecord};
use docker_mri::network::{
    attach_network, ContainerCreateBodyNetworkingConfig, EndpointSettings, EndpointsConfig,
};
use docker_mri::runtime::{DockerModuleRuntime, ModuleSpec};

#[test]
fn auth_encoder_none_is_empty_string() {
    let s = serialize_registry_creds(None).unwrap();
    assert_eq!("", s);
}

#[test]
fn auth_encoder_all_unset_gives_empty_object() {
    let creds = DockerRegistryAuthConfig::default();
    let s = serialize_registry_creds(Some(&creds)).unwrap();
    assert_eq!("{}", s);
}

#[test]
fn auth_encoder_omits_unset_fields() {
    let creds = DockerRegistryAuthConfig::default()
        .with_user_name("me")
        .with_server("registry.example.com");
    let s = serialize_registry_creds(Some(&creds)).unwrap();
    assert_eq!("{\"username\":\"me\",\"serveraddress\":\"registry.example.com\"}", s);
    let v: serde_json::Value = serde_json::from_str(&s).unwrap();
    assert_eq!("me", v["username"].as_str().unwrap());
    assert!(v.get("password").is_none());
    assert!(v.get("email").is_none());
}

#[test]
fn auth_encoder_escapes_values() {
    let creds = DockerRegistryAuthConfig::default()
        .with_user_name("me")
        .with_password("p\"w\\d\n\t\u{1}end");
    let s = serialize_registry_creds(Some(&creds)).unwrap();
    let v: serde_json::Value = serde_json::from_str(&s).unwrap();
    assert_eq!("p\"w\\d\n\t\u{1}end", v["password"].as_str().unwrap());
    assert_eq!("me", v["username"].as_str().unwrap());
}

#[test]
fn auth_encoder_serializes_all_fields_in_order() {
    let creds = DockerRegistryAuthConfig::default()
        .with_user_name("u")
        .with_password("p")
        .with_email("e@example.com")
        .with_server("s");
    assert_eq!(Some(&"u".to_string()), creds.user_name());
    assert_eq!(Some(&"p".to_string()), creds.password());
    assert_eq!(Some(&"e@example.com".to_string()), creds.email());
    assert_eq!(Some(&"s".to_string()), creds.server());
    let s = serialize_registry_creds(Some(&creds)).unwrap();
    assert_eq!(
        "{\"username\":\"u\",\"password\":\"p\",\"email\":\"e@example.com\",\"serveraddress\":\"s\"}",
        s
    );
}

#[test]
fn network_attacher_is_idempotent() {
    let once = attach_network(None, "edge-net");
    let twice = attach_network(Some(&once), "edge-net");
    let first = once.endpoints_config.unwrap();
    let second = twice.endpoints_config.unwrap();
    assert_eq!(1, first.entries.len());
    assert_eq!(1, second.entries.len());
    assert_eq!("edge-net", first.entries[0].0.as_str());
    assert_eq!("edge-net", second.entries[0].0.as_str());
}

#[test]
fn network_attacher_keeps_existing_entry() {
    let existing = EndpointsConfig {
        entries: vec![
            ("edge-net".to_string(), EndpointSettings::new()),
            ("other-net".to_string(), EndpointSettings::new()),
        ],
    };
    let cfg = ContainerCreateBodyNetworkingConfig::new().with_endpoints_config(existing);
    let attached = attach_network(Some(&cfg), "edge-net");
    let endpoints = attached.endpoints_config.unwrap();
    assert_eq!(2, endpoints.entries.len());
    assert_eq!("edge-net", endpoints.entries[0].0.as_str());
    assert_eq!("other-net", endpoints.entries[1].0.as_str());
}

#[test]
fn env_map_insert_overrides() {
    let mut m = EnvMap::new();
    m.insert("k".to_string(), "v1".to_string());
    m.insert("k".to_string(), "v2".to_string());
    assert_eq!(1, m.len());
    assert_eq!(Some(&"v2".to_string()), m.get("k"));
    assert!(m.contains_key("k"));
    assert!(!m.contains_key("missing"));
}

#[test]
fn docker_config_rejects_blank_image() {
    let r = DockerConfig::new("   ", ContainerCreateBody::new());
    assert!(matches!(r, Err(Error::Validation(_))));
}

#[test]
fn clone_create_options_is_independent() {
    let body = ContainerCreateBody::new().with_env(vec!["a=1".to_string()]);
    let config = DockerConfig::new("img", body).unwrap();
    let mut copy = config.clone_create_options().unwrap();
    copy = copy.with_env(vec!["b=2".to_string()]);
    assert_eq!(vec!["b=2"], copy.env.unwrap());
    assert_eq!(&vec!["a=1".to_string()], config.create_options().env().unwrap());
}

#[test]
fn list_skips_record_with_malformed_labels() {
    let records = vec![
        ContainerRecord {
            names: vec!["/mod-a".to_string()],
            image: "img-a".to_string(),
            labels: vec!["owner=edge".to_string()],
        },
        ContainerRecord {
            names: vec!["/mod-b".to_string()],
            image: "img-b".to_string(),
            labels: vec!["malformed".to_string()],
        },
        ContainerRecord {
            names: vec!["/mod-c".to_string()],
            image: "img-c".to_string(),
            labels: vec![],
        },
    ];
    let modules = list_modules(&records);
    assert_eq!(2, modules.len());
    assert_eq!("mod-a", modules[0].name().as_str());
    assert_eq!("img-a", modules[0].config().image().as_str());
    assert_eq!("mod-c", modules[1].name().as_str());
    assert_eq!("img-c", modules[1].config().image().as_str());
}

#[test]
fn list_defaults_display_name_to_unknown() {
    let records = vec![ContainerRecord {
        names: vec![],
        image: "img".to_string(),
        labels: vec!["a=b".to_string()],
    }];
    let modules = list_modules(&records);
    assert_eq!(1, modules.len());
    assert_eq!("Unknown", modules[0].name().as_str());
    let labels = modules[0].config().create_options().labels().unwrap();
    assert_eq!(Some(&"b".to_string()), labels.get("a"));
}

#[test]
fn list_skips_record_with_blank_image() {
    let records = vec![
        ContainerRecord {
            names: vec!["/mod-a".to_string()],
            image: " ".to_string(),
            labels: vec![],
        },
        ContainerRecord {
            names: vec!["/mod-b".to_string()],
            image: "img-b".to_string(),
            labels: vec![],
        },
    ];
    let modules = list_modules(&records);
    assert_eq!(1, modules.len());
    assert_eq!("mod-b", modules[0].name().as_str());
}

#[test]
fn pull_request_carries_encoded_credentials() {
    let mri = DockerModuleRuntime::new("http://localhost/").unwrap();
    let creds = DockerRegistryAuthConfig::default().with_user_name("me");
    let req = mri.pull("nginx:latest", Some(&creds)).unwrap();
    assert_eq!("nginx:latest", req.name);
    assert_eq!("{\"username\":\"me\"}", req.registry_creds);
    let none = mri.pull("nginx:latest", None).unwrap();
    assert_eq!("", none.registry_creds);
}

#[test]
fn create_does_not_replace_existing_endpoint() {
    let mri = DockerModuleRuntime::new("http://localhost/")
        .unwrap()
        .with_network_id("edge-net".to_string());
    let endpoints = EndpointsConfig {
        entries: vec![("edge-net".to_string(), EndpointSettings::new())],
    };
    let net = ContainerCreateBodyNetworkingConfig::new().with_endpoints_config(endpoints);
    let body = ContainerCreateBody::new().with_networking_config(net);
    let config = DockerConfig::new("img", body).unwrap();
    let spec = ModuleSpec::new("m1", "docker", config, EnvMap::new()).unwrap();
    let req = mri.create(&spec).unwrap();
    let eps = req.body.networking_config.unwrap().endpoints_config.unwrap();
    assert_eq!(1, eps.entries.len());
    assert_eq!("edge-net", eps.entries[0].0.as_str());
}

#[test]
fn error_message_carries_text() {
    let engine = Error::Engine("engine failure".to_string());
    assert_eq!("engine failure", engine.message().as_str());
    let ser = Error::Serialization("bad payload".to_string());
    assert_eq!("bad payload", ser.message().as_str());
}
