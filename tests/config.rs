use doom_patrol::config::{Config, ConfigError, DEFAULT_IMAGE};
use doom_patrol::config::lookup_var;

const REQUIRED: [&str; 10] = [
    "OPEN_HEAD_IMAGE",
    "SIDECAR_IMAGE",
    "CONFIGMAP",
    "SECRET",
    "BLOCKFROST_KEY",
    "EXTERNAL_DOMAIN",
    "EXTERNAL_PORT",
    "ADMIN_ADDR",
    "HYDRA_SCRIPTS_TX_ID",
    "DMTR_NODE_PORT_AUTHENTICATED_URL",
];

fn vars(names: &[&str]) -> Vec<(String, String)> {
    names.iter().map(|n| (n.to_string(), format!("{}-value", n.to_lowercase()))).collect()
}

#[test]
fn complete_environment_builds_config() {
    let mut v = vars(&REQUIRED);
    v.push(("IMAGE".to_string(), "my/image".to_string()));
    let c = Config::from_vars(&v).ok().expect("config");
    assert_eq!(c.image, "my/image");
    assert_eq!(c.open_head_image, "open_head_image-value");
    assert_eq!(c.sidecar_image, "sidecar_image-value");
    assert_eq!(c.configmap, "configmap-value");
    assert_eq!(c.secret, "secret-value");
    assert_eq!(c.blockfrost_key, "blockfrost_key-value");
    assert_eq!(c.external_domain, "external_domain-value");
    assert_eq!(c.external_port, "external_port-value");
    assert_eq!(c.admin_addr, "admin_addr-value");
    assert_eq!(c.hydra_scripts_tx_id, "hydra_scripts_tx_id-value");
    assert_eq!(c.dmtr_node_port_authenticated_url, "dmtr_node_port_authenticated_url-value");
}

#[test]
fn image_falls_back_to_default() {
    let c = Config::from_vars(&vars(&REQUIRED)).ok().expect("config");
    assert_eq!(c.image, DEFAULT_IMAGE);
    assert_eq!(c.image, "ghcr.io/cardano-scaling/hydra-node");
}

#[test]
fn first_missing_variable_is_reported() {
    assert_eq!(
        Config::from_vars(&vec![]).err(),
        Some(ConfigError::MissingVar("OPEN_HEAD_IMAGE".to_string()))
    );
    for skip in 0..REQUIRED.len() {
        let names: Vec<&str> = REQUIRED.iter().enumerate().filter(|(i, _)| *i != skip).map(|(_, n)| *n).collect();
        assert_eq!(
            Config::from_vars(&vars(&names)).err(),
            Some(ConfigError::MissingVar(REQUIRED[skip].to_string()))
        );
    }
    let later: Vec<&str> = REQUIRED[..3].to_vec();
    assert_eq!(
        Config::from_vars(&vars(&later)).err(),
        Some(ConfigError::MissingVar("SECRET".to_string()))
    );
}

#[test]
fn lookup_takes_first_binding() {
    let v = vec![
        ("A".to_string(), "1".to_string()),
        ("B".to_string(), "2".to_string()),
        ("A".to_string(), "3".to_string()),
    ];
    assert_eq!(lookup_var(&v, "A"), Some("1".to_string()));
    assert_eq!(lookup_var(&v, "B"), Some("2".to_string()));
    assert_eq!(lookup_var(&v, "C"), None);
    assert_eq!(lookup_var(&vec![], "A"), None);
    let empty_value = vec![("A".to_string(), String::new())];
    assert_eq!(lookup_var(&empty_value, "A"), Some(String::new()));
}
