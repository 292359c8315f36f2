//! Tests of the runtime adapter façade: construction, argument
//! validation, and the requests each operation builds.
use docker_mri::config::{ContainerCreateBody, DockerConfig};
use docker_mri::env::EnvMap;
use docker_mri::error::Error;
use docker_mri::runtime::{DockerModuleRuntime, ModuleSpec};

fn mri() -> DockerModuleRuntime {
    DockerModuleRuntime::new("http://localhost/").unwrap()
}

#[test]
fn invalid_uri_prefix_fails() {
    let r = DockerModuleRuntime::new("foo:///this/is/not/valid");
    assert!(matches!(r, Err(Error::Configuration(_))));
}

#[test]
fn create_with_uds_succeeds() {
    let file_path = "/tmp/docker.sock";
    let mri = DockerModuleRuntime::new(&format!("unix://{}", file_path)).unwrap();
    assert_eq!(file_path, mri.base_path().as_str());
}

#[test]
fn image_pull_with_empty_name_fails() {
    assert!(matches!(mri().pull("", None), Err(Error::Validation(_))));
}

#[test]
fn image_pull_with_white_space_name_fails() {
    assert!(matches!(mri().pull("     ", None), Err(Error::Validation(_))));
}

#[test]
fn image_remove_with_empty_name_fails() {
    assert!(matches!(mri().remove_image(""), Err(Error::Validation(_))));
}

#[test]
fn image_remove_with_white_space_name_fails() {
    assert!(matches!(mri().remove_image("     "), Err(Error::Validation(_))));
}

#[test]
fn merge_env_empty() {
    let cur_env: Option<Vec<String>> = Some(vec![]);
    let new_env = EnvMap::new();
    assert_eq!(0, DockerModuleRuntime::merge_env(cur_env.as_ref(), &new_env).len());
}

#[test]
fn merge_env_new_empty() {
    let cur_env = Some(vec!["k1=v1".to_string(), "k2=v2".to_string()]);
    let new_env = EnvMap::new();
    let mut merged_env = DockerModuleRuntime::merge_env(cur_env.as_ref(), &new_env);
    merged_env.sort();
    assert_eq!(vec!["k1=v1", "k2=v2"], merged_env);
}

#[test]
fn merge_env_extend_new() {
    let cur_env = Some(vec!["k1=v1".to_string(), "k2=v2".to_string()]);
    let mut new_env = EnvMap::new();
    new_env.insert("k3".to_string(), "v3".to_string());
    let mut merged_env = DockerModuleRuntime::merge_env(cur_env.as_ref(), &new_env);
    merged_env.sort();
    assert_eq!(vec!["k1=v1", "k2=v2", "k3=v3"], merged_env);
}

#[test]
fn merge_env_extend_replace_new() {
    let cur_env = Some(vec!["k1=v1".to_string(), "k2=v2".to_string()]);
    let mut new_env = EnvMap::new();
    new_env.insert("k2".to_string(), "v02".to_string());
    new_env.insert("k3".to_string(), "v3".to_string());
    let mut merged_env = DockerModuleRuntime::merge_env(cur_env.as_ref(), &new_env);
    merged_env.sort();
    assert_eq!(vec!["k1=v1", "k2=v02", "k3=v3"], merged_env);
}

#[test]
fn merge_env_entry_without_separator_keeps_key() {
    let cur_env = Some(vec!["plain".to_string()]);
    let new_env = EnvMap::new();
    let merged_env = DockerModuleRuntime::merge_env(cur_env.as_ref(), &new_env);
    assert_eq!(vec!["plain="], merged_env);
}

#[test]
fn create_fails_for_non_docker_type() {
    let mri = mri();
    let module_config = ModuleSpec::new(
        "m1",
        "not_docker",
        DockerConfig::new("nginx:latest", ContainerCreateBody::new()).unwrap(),
        EnvMap::new(),
    )
    .unwrap();
    match mri.create(&module_config) {
        Ok(_) => panic!("Expected test to fail but it didn't!"),
        Err(err) => match err {
            Error::Validation(_) => (),
            _ => panic!("Expected utils error. Got some other error."),
        },
    }
}

#[test]
fn create_builds_body_with_merged_env_and_network() {
    let mri = mri().with_network_id("edge-net".to_string());
    let body = ContainerCreateBody::new().with_env(vec!["k1=v1".to_string(), "k2=v2".to_string()]);
    let config = DockerConfig::new("nginx:latest", body).unwrap();
    let mut env = EnvMap::new();
    env.insert("k2".to_string(), "v02".to_string());
    env.insert("k3".to_string(), "v3".to_string());
    let spec = ModuleSpec::new("m1", "docker", config, env).unwrap();
    let req = mri.create(&spec).unwrap();
    assert_eq!("m1", req.name);
    assert_eq!(Some("nginx:latest"), req.body.image.as_deref());
    let mut entries = req.body.env.clone().unwrap();
    entries.sort();
    assert_eq!(vec!["k1=v1", "k2=v02", "k3=v3"], entries);
    let net = req.body.networking_config.unwrap();
    let endpoints = net.endpoints_config.unwrap();
    assert_eq!(1, endpoints.entries.len());
    assert_eq!("edge-net", endpoints.entries[0].0.as_str());
}

#[test]
fn create_without_network_id_leaves_networking_unset() {
    let mri = mri();
    let config = DockerConfig::new("nginx:latest", ContainerCreateBody::new()).unwrap();
    let spec = ModuleSpec::new("m1", "docker", config, EnvMap::new()).unwrap();
    let req = mri.create(&spec).unwrap();
    assert!(req.body.networking_config.is_none());
}

#[test]
fn start_fails_for_empty_id() {
    match mri().start("") {
        Ok(_) => panic!("Expected test to fail but it didn't!"),
        Err(err) => match err {
            Error::Validation(_) => (),
            _ => panic!("Expected utils error. Got some other error."),
        },
    }
}

#[test]
fn start_fails_for_white_space_id() {
    match mri().start("      ") {
        Ok(_) => panic!("Expected test to fail but it didn't!"),
        Err(err) => match err {
            Error::Validation(_) => (),
            _ => panic!("Expected utils error. Got some other error."),
        },
    }
}

#[test]
fn stop_fails_for_empty_id() {
    match mri().stop("") {
        Ok(_) => panic!("Expected test to fail but it didn't!"),
        Err(err) => match err {
            Error::Validation(_) => (),
            _ => panic!("Expected utils error. Got some other error."),
        },
    }
}

#[test]
fn stop_fails_for_white_space_id() {
    match mri().stop("     ") {
        Ok(_) => panic!("Expected test to fail but it didn't!"),
        Err(err) => match err {
            Error::Validation(_) => (),
            _ => panic!("Expected utils error. Got some other error."),
        },
    }
}

#[test]
fn restart_fails_for_empty_id() {
    match mri().restart("") {
        Ok(_) => panic!("Expected test to fail but it didn't!"),
        Err(err) => match err {
            Error::Validation(_) => (),
            _ => panic!("Expected utils error. Got some other error."),
        },
    }
}

#[test]
fn restart_fails_for_white_space_id() {
    match mri().restart("     ") {
        Ok(_) => panic!("Expected test to fail but it didn't!"),
        Err(err) => match err {
            Error::Validation(_) => (),
            _ => panic!("Expected utils error. Got some other error."),
        },
    }
}

#[test]
fn remove_fails_for_empty_id() {
    match mri().remove("") {
        Ok(_) => panic!("Expected test to fail but it didn't!"),
        Err(err) => match err {
            Error::Validation(_) => (),
            _ => panic!("Expected utils error. Got some other error."),
        },
    }
}

#[test]
fn remove_fails_for_white_space_id() {
    match mri().remove("    ") {
        Ok(_) => panic!("Expected test to fail but it didn't!"),
        Err(err) => match err {
            Error::Validation(_) => (),
            _ => panic!("Expected utils error. Got some other error."),
        },
    }
}

#[test]
fn stop_and_restart_carry_grace_period() {
    let stop = mri().stop("abc").unwrap();
    assert_eq!("abc", stop.id);
    assert_eq!(10, stop.wait_seconds);
    let restart = mri().restart("abc").unwrap();
    assert_eq!(10, restart.wait_seconds);
}

#[test]
fn remove_carries_cleanup_flags() {
    let req = mri().remove("abc").unwrap();
    assert!(req.force);
    assert!(req.remove_volumes);
    assert!(req.remove_links);
}

#[test]
fn remove_image_carries_no_force_flags() {
    let req = mri().remove_image("nginx:latest").unwrap();
    assert_eq!("nginx:latest", req.name);
    assert!(!req.force);
    assert!(!req.no_prune);
}

#[test]
fn list_request_filters_by_ownership_label() {
    let req = mri().list_request();
    assert!(req.all);
    assert_eq!(0, req.limit);
    assert!(req.size);
    assert_eq!(
        "{\"label\":[\"net.azure-devices.edge.owner=Microsoft.Azure.Devices.Edge.Agent\"]}",
        req.filters
    );
    let mut filters = std::collections::HashMap::new();
    filters.insert("label", vec!["net.azure-devices.edge.owner=Microsoft.Azure.Devices.Edge.Agent"]);
    assert_eq!(serde_json::to_string(&filters).unwrap(), req.filters);
}

#[test]
fn registry_returns_same_adapter() {
    let mri = mri();
    let registry = mri.registry();
    assert_eq!(mri.base_path().as_str(), registry.base_path().as_str());
}

#[test]
fn module_spec_rejects_blank_name() {
    let config = DockerConfig::new("nginx:latest", ContainerCreateBody::new()).unwrap();
    let r = ModuleSpec::new("   ", "docker", config, EnvMap::new());
    assert!(matches!(r, Err(Error::Validation(_))));
}

#[test]
fn http_base_path_is_whole_locator() {
    let mri = mri();
    assert_eq!("http://localhost/", mri.base_path().as_str());
    assert_eq!("http", mri.scheme().as_str());
}
