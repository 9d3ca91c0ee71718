use vstd::prelude::*;

verus! {

/// KBS base URL used when none is configured.
pub const DEFAULT_KBS_URL: &'static str = "http://127.0.0.1:8080";

/// Namespace used when none is configured or given.
pub const DEFAULT_NAMESPACE: &'static str = "default";

/// Operator configuration.
///
/// Every field has a default, so that the operator runs out of the box in
/// development.
#[derive(Debug, Clone, PartialEq, Eq)]
pub struct Config {
    /// Base URL of the KBS server (scheme, host and port), for example
    /// `http://trustee-plugin.trustee.svc.cluster.local:8080`.
    pub kbs_url: String,
    /// Kubernetes namespace that the operator watches for VMIs.
    pub namespace: String,
}

/// URL of the provisioner plugin of the KBS at `kbs_url`.
pub open spec fn provisioner_url(kbs_url: Seq<char>) -> Seq<char> {
    kbs_url + "/kbs/v0/provisioner"@
}

/// URL of the health check of the KBS at `kbs_url`.
pub open spec fn health_url(kbs_url: Seq<char>) -> Seq<char> {
    kbs_url + "/healthz"@
}

impl Config {
    /// The configuration that the environment gives: the values of `KBS_URL`
    /// and `WATCH_NAMESPACE`, each replaced by its default where the variable
    /// is not set or is not valid Unicode (`None`).
    pub fn from_env(kbs_url: Option<String>, watch_namespace: Option<String>) -> (config: Self)
        ensures
            config.kbs_url@ == (match kbs_url {
                Some(url) => url@,
                None => DEFAULT_KBS_URL@,
            }),
            config.namespace@ == (match watch_namespace {
                Some(namespace) => namespace@,
                None => DEFAULT_NAMESPACE@,
            }),
            kbs_url is None ==> config.kbs_url@ == "http://127.0.0.1:8080"@,
            watch_namespace is None ==> config.namespace@ == "default"@,
    {
        Config {
            kbs_url: match kbs_url {
                Some(url) => url,
                None => DEFAULT_KBS_URL.to_owned(),
            },
            namespace: match watch_namespace {
                Some(namespace) => namespace,
                None => DEFAULT_NAMESPACE.to_owned(),
            },
        }
    }

    /// Full URL of the provisioner plugin.
    pub fn provisioner_url(&self) -> (url: String)
        ensures
            url@ == provisioner_url(self.kbs_url@),
    {
        self.kbs_url.clone().concat("/kbs/v0/provisioner")
    }

    /// Full URL of the KBS health check.
    pub fn health_url(&self) -> (url: String)
        ensures
            url@ == health_url(self.kbs_url@),
    {
        self.kbs_url.clone().concat("/healthz")
    }
}

} // verus!
