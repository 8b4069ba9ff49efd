//! The service's settings, each with a default.

use vstd::prelude::*;
use vstd::string::StringExecFns;

verus! {

/// The service's settings.
#[derive(Debug, Clone)]
pub struct Config {
    /// The Docker network the service, its proxy and its instances join.
    pub network_name: String,
    /// The user name of each instance's database.
    pub db_username: String,
    /// The password of each instance's database.
    pub db_password: String,
    /// The label that marks the proxy container.
    pub proxy_label: String,
    /// The domain under which managed instances are served.
    pub domain: String,
    /// The host directory that holds the instances' certificates.
    pub certs: String,
}

/// The settings as mathematical text.
pub struct ConfigView {
    pub network_name: Seq<char>,
    pub db_username: Seq<char>,
    pub db_password: Seq<char>,
    pub proxy_label: Seq<char>,
    pub domain: Seq<char>,
    pub certs: Seq<char>,
}

impl View for Config {
    type V = ConfigView;

    open spec fn view(&self) -> ConfigView {
        ConfigView {
            network_name: self.network_name@,
            db_username: self.db_username@,
            db_password: self.db_password@,
            proxy_label: self.proxy_label@,
            domain: self.domain@,
            certs: self.certs@,
        }
    }
}

/// The default settings.
pub open spec fn default_config() -> ConfigView {
    ConfigView {
        network_name: "prometheus.makepress.network"@,
        db_username: "makepress"@,
        db_password: "makepress"@,
        proxy_label: "prometheus.makepress.proxy"@,
        domain: "prometheus.makepress"@,
        certs: "/etc/nginx/certs"@,
    }
}

/// The given setting, or `fallback` when none is given.
pub open spec fn given_or(value: Option<String>, fallback: Seq<char>) -> Seq<char> {
    match value {
        Some(v) => v@,
        None => fallback,
    }
}

impl Default for Config {
    fn default() -> (config: Self)
        ensures
            config@ == default_config(),
    {
        Config {
            network_name: String::from_str("prometheus.makepress.network"),
            db_username: String::from_str("makepress"),
            db_password: String::from_str("makepress"),
            proxy_label: String::from_str("prometheus.makepress.proxy"),
            domain: String::from_str("prometheus.makepress"),
            certs: String::from_str("/etc/nginx/certs"),
        }
    }
}

impl Config {
    /// Settings from the given values; each one not given takes its default.
    pub fn new(
        network_name: Option<String>,
        db_username: Option<String>,
        db_password: Option<String>,
        proxy_label: Option<String>,
        domain: Option<String>,
        certs: Option<String>,
    ) -> (config: Self)
        ensures
            config@ == (ConfigView {
                network_name: given_or(network_name, default_config().network_name),
                db_username: given_or(db_username, default_config().db_username),
                db_password: given_or(db_password, default_config().db_password),
                proxy_label: given_or(proxy_label, default_config().proxy_label),
                domain: given_or(domain, default_config().domain),
                certs: given_or(certs, default_config().certs),
            }),
    {
        Config {
            network_name: match network_name {
                Some(v) => v,
                None => Self::default().network_name,
            },
            db_username: match db_username {
                Some(v) => v,
                None => Self::default().db_username,
            },
            db_password: match db_password {
                Some(v) => v,
                None => Self::default().db_password,
            },
            proxy_label: match proxy_label {
                Some(v) => v,
                None => Self::default().proxy_label,
            },
            domain: match domain {
                Some(v) => v,
                None => Self::default().domain,
            },
            certs: match certs {
                Some(v) => v,
                None => Self::default().certs,
            },
        }
    }
}

/// Settings built from no values at all are the default settings.
pub proof fn lemma_no_values_give_defaults()
    ensures
        (ConfigView {
            network_name: given_or(None, default_config().network_name),
            db_username: given_or(None, default_config().db_username),
            db_password: given_or(None, default_config().db_password),
            proxy_label: given_or(None, default_config().proxy_label),
            domain: given_or(None, default_config().domain),
            certs: given_or(None, default_config().certs),
        }) == default_config(),
{
}

} // verus!
