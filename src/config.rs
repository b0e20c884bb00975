//! Configuration consumed by the engine, built once at start-up and then only
//! read.

use vstd::prelude::*;
use crate::manifest::{opt_resources, opt_text, opt_tolerations, text_pairs, ResourceRequirements,
    ResourceRequirementsView, Toleration, TolerationView};

verus! {

/// Image used for the node when neither the resource nor the environment names one.
pub const DEFAULT_IMAGE: &'static str = "ghcr.io/cardano-scaling/hydra-node";

/// Process-wide settings of the declarative controller.
#[derive(Clone, Debug, PartialEq, Eq)]
pub struct Config {
    pub image: String,
    pub open_head_image: String,
    pub sidecar_image: String,
    pub configmap: String,
    pub secret: String,
    pub blockfrost_key: String,
    pub external_domain: String,
    pub external_port: String,
    pub admin_addr: String,
    pub hydra_scripts_tx_id: String,
    pub dmtr_node_port_authenticated_url: String,
}

pub struct ConfigView {
    pub image: Seq<char>,
    pub open_head_image: Seq<char>,
    pub sidecar_image: Seq<char>,
    pub configmap: Seq<char>,
    pub secret: Seq<char>,
    pub blockfrost_key: Seq<char>,
    pub external_domain: Seq<char>,
    pub external_port: Seq<char>,
    pub admin_addr: Seq<char>,
    pub hydra_scripts_tx_id: Seq<char>,
    pub dmtr_node_port_authenticated_url: Seq<char>,
}

impl View for Config {
    type V = ConfigView;

    open spec fn view(&self) -> ConfigView {
        ConfigView {
            image: self.image@,
            open_head_image: self.open_head_image@,
            sidecar_image: self.sidecar_image@,
            configmap: self.configmap@,
            secret: self.secret@,
            blockfrost_key: self.blockfrost_key@,
            external_domain: self.external_domain@,
            external_port: self.external_port@,
            admin_addr: self.admin_addr@,
            hydra_scripts_tx_id: self.hydra_scripts_tx_id@,
            dmtr_node_port_authenticated_url: self.dmtr_node_port_authenticated_url@,
        }
    }
}

/// Why the configuration could not be built.
#[derive(Clone, Debug, PartialEq, Eq)]
pub enum ConfigError {
    /// The named required variable is absent.
    MissingVar(String),
}

/// The value bound to `key` by the first pair that names it.
pub open spec fn lookup(vars: Seq<(Seq<char>, Seq<char>)>, key: Seq<char>) -> Option<Seq<char>>
    decreases vars.len(),
{
    if vars.len() == 0 {
        None
    } else if vars[0].0 == key {
        Some(vars[0].1)
    } else {
        lookup(vars.drop_first(), key)
    }
}

/// The variables that must be present, in the order in which they are looked up.
pub open spec fn required_vars() -> Seq<Seq<char>> {
    seq![
        "OPEN_HEAD_IMAGE"@,
        "SIDECAR_IMAGE"@,
        "CONFIGMAP"@,
        "SECRET"@,
        "BLOCKFROST_KEY"@,
        "EXTERNAL_DOMAIN"@,
        "EXTERNAL_PORT"@,
        "ADMIN_ADDR"@,
        "HYDRA_SCRIPTS_TX_ID"@,
        "DMTR_NODE_PORT_AUTHENTICATED_URL"@,
    ]
}

/// The first required variable, from index `i` on, that `vars` lacks.
pub open spec fn first_missing_from(vars: Seq<(Seq<char>, Seq<char>)>, i: nat) -> Option<Seq<char>>
    decreases required_vars().len() - i,
{
    if i >= required_vars().len() {
        None
    } else if lookup(vars, required_vars()[i as int]) is None {
        Some(required_vars()[i as int])
    } else {
        first_missing_from(vars, i + 1)
    }
}

pub open spec fn first_missing(vars: Seq<(Seq<char>, Seq<char>)>) -> Option<Seq<char>> {
    first_missing_from(vars, 0)
}

/// The value of a variable that is known to be present.
pub open spec fn var_value(vars: Seq<(Seq<char>, Seq<char>)>, key: Seq<char>) -> Seq<char> {
    lookup(vars, key)->Some_0
}

/// The configuration that a complete set of variables describes; `IMAGE`
/// falls back to the default image.
pub open spec fn config_of(vars: Seq<(Seq<char>, Seq<char>)>) -> ConfigView {
    ConfigView {
        image: match lookup(vars, "IMAGE"@) {
            Some(v) => v,
            None => DEFAULT_IMAGE@,
        },
        open_head_image: var_value(vars, "OPEN_HEAD_IMAGE"@),
        sidecar_image: var_value(vars, "SIDECAR_IMAGE"@),
        configmap: var_value(vars, "CONFIGMAP"@),
        secret: var_value(vars, "SECRET"@),
        blockfrost_key: var_value(vars, "BLOCKFROST_KEY"@),
        external_domain: var_value(vars, "EXTERNAL_DOMAIN"@),
        external_port: var_value(vars, "EXTERNAL_PORT"@),
        admin_addr: var_value(vars, "ADMIN_ADDR"@),
        hydra_scripts_tx_id: var_value(vars, "HYDRA_SCRIPTS_TX_ID"@),
        dmtr_node_port_authenticated_url: var_value(vars, "DMTR_NODE_PORT_AUTHENTICATED_URL"@),
    }
}

/// Finds the value that the first pair naming `key` binds.
pub fn lookup_var(vars: &Vec<(String, String)>, key: &str) -> (r: Option<String>)
    ensures
        opt_text(r) == lookup(text_pairs(vars@), key@),
{
    let ghost all = text_pairs(vars@);
    let wanted = String::from_str(key);
    let mut i: usize = 0;
    proof {
        assert(all.subrange(0, all.len() as int) =~= all);
    }
    while i < vars.len()
        invariant
            i <= vars@.len(),
            all == text_pairs(vars@),
            wanted@ == key@,
            lookup(all, key@) == lookup(all.subrange(i as int, all.len() as int), key@),
        decreases vars@.len() - i,
    {
        let ghost rest = all.subrange(i as int, all.len() as int);
        assert(rest[0] == (vars@[i as int].0@, vars@[i as int].1@));
        if vars[i].0 == wanted {
            return Some(vars[i].1.clone());
        }
        proof {
            assert(rest.drop_first() =~= all.subrange(i + 1, all.len() as int));
        }
        i = i + 1;
    }
    None
}

/// The value of a required variable, or the error that names it.
fn require_var(vars: &Vec<(String, String)>, key: &str) -> (r: Result<String, ConfigError>)
    ensures
        match r {
            Ok(v) => lookup(text_pairs(vars@), key@) == Some(v@),
            Err(ConfigError::MissingVar(n)) => n@ == key@
                && lookup(text_pairs(vars@), key@) is None,
        },
{
    match lookup_var(vars, key) {
        Some(v) => Ok(v),
        None => Err(ConfigError::MissingVar(String::from_str(key))),
    }
}

impl Config {
    /// Builds the configuration from name/value pairs (the process
    /// environment). `IMAGE` is optional; every other variable is required,
    /// and the first one missing, in the order of `required_vars`, is reported.
    pub fn from_vars(vars: &Vec<(String, String)>) -> (r: Result<Config, ConfigError>)
        ensures
            match r {
                Ok(c) => first_missing(text_pairs(vars@)) is None
                    && c@ == config_of(text_pairs(vars@)),
                Err(ConfigError::MissingVar(n)) =>
                    first_missing(text_pairs(vars@)) == Some(n@),
            },
    {
        proof {
            reveal_with_fuel(first_missing_from, 11);
        }
        let image = match lookup_var(vars, "IMAGE") {
            Some(v) => v,
            None => String::from_str(DEFAULT_IMAGE),
        };
        let open_head_image = require_var(vars, "OPEN_HEAD_IMAGE")?;
        let sidecar_image = require_var(vars, "SIDECAR_IMAGE")?;
        let configmap = require_var(vars, "CONFIGMAP")?;
        let secret = require_var(vars, "SECRET")?;
        let blockfrost_key = require_var(vars, "BLOCKFROST_KEY")?;
        let external_domain = require_var(vars, "EXTERNAL_DOMAIN")?;
        let external_port = require_var(vars, "EXTERNAL_PORT")?;
        let admin_addr = require_var(vars, "ADMIN_ADDR")?;
        let hydra_scripts_tx_id = require_var(vars, "HYDRA_SCRIPTS_TX_ID")?;
        let dmtr_node_port_authenticated_url = require_var(vars, "DMTR_NODE_PORT_AUTHENTICATED_URL")?;
        Ok(Config {
            image,
            open_head_image,
            sidecar_image,
            configmap,
            secret,
            blockfrost_key,
            external_domain,
            external_port,
            admin_addr,
            hydra_scripts_tx_id,
            dmtr_node_port_authenticated_url,
        })
    }
}


/// Settings of the session provisioner.
#[derive(Clone, Debug, PartialEq, Eq)]
pub struct HydraPodConfig {
    pub namespace: String,
    pub image: String,
    pub configmap_name: String,
    pub external_domain: String,
    pub resources: Option<ResourceRequirements>,
    pub tolerations: Option<Vec<Toleration>>,
}

pub struct HydraPodConfigView {
    pub namespace: Seq<char>,
    pub image: Seq<char>,
    pub configmap_name: Seq<char>,
    pub external_domain: Seq<char>,
    pub resources: Option<ResourceRequirementsView>,
    pub tolerations: Option<Seq<TolerationView>>,
}

impl View for HydraPodConfig {
    type V = HydraPodConfigView;

    open spec fn view(&self) -> HydraPodConfigView {
        HydraPodConfigView {
            namespace: self.namespace@,
            image: self.image@,
            configmap_name: self.configmap_name@,
            external_domain: self.external_domain@,
            resources: opt_resources(self.resources),
            tolerations: opt_tolerations(self.tolerations),
        }
    }
}

} // verus!
