use vstd::prelude::*;

verus! {

/// The configuration a host workflow hands to one supervised run: the fields
/// the plugins read from their context (`address`, `tls_key`, `tls_crt`,
/// `shutdown_timeout_ms`, `work_dir`, `index_html`, and the block name).
pub struct HostContext {
    pub address: Option<String>,
    pub tls_key: Option<Vec<u8>>,
    pub tls_crt: Option<Vec<u8>>,
    pub shutdown_timeout_ms: Option<u64>,
    pub work_dir: Option<String>,
    pub index_html: Option<String>,
    pub block_name: String,
}

/// The values one supervised run itself needs: where to bind, the optional
/// TLS material, and the graceful-shutdown timeout. An absent address means
/// the run performs no binding and completes immediately.
pub struct ServerConfig {
    pub address: Option<String>,
    pub tls_key: Option<Vec<u8>>,
    pub tls_crt: Option<Vec<u8>>,
    pub shutdown_timeout_ms: Option<u64>,
}

/// Mathematical view of a `ServerConfig`.
#[verifier::ext_equal]
pub struct ConfigModel {
    pub address: Option<Seq<char>>,
    pub tls_key: Option<Seq<u8>>,
    pub tls_crt: Option<Seq<u8>>,
    pub shutdown_timeout_ms: Option<u64>,
}

impl View for ServerConfig {
    type V = ConfigModel;

    open spec fn view(&self) -> ConfigModel {
        ConfigModel {
            address: self.address.deep_view(),
            tls_key: self.tls_key.deep_view(),
            tls_crt: self.tls_crt.deep_view(),
            shutdown_timeout_ms: self.shutdown_timeout_ms,
        }
    }
}

/// TLS is enabled only when both the key and the certificate are present;
/// partial material is treated as "TLS disabled", never as an error.
pub open spec fn tls_enabled(c: ConfigModel) -> bool {
    c.tls_key is Some && c.tls_crt is Some
}

impl ServerConfig {
    /// Extracts the server-level values from a run's context, consuming it.
    pub fn from_context(context: HostContext) -> (config: ServerConfig)
        ensures
            config@.address == context.address.deep_view(),
            config@.tls_key == context.tls_key.deep_view(),
            config@.tls_crt == context.tls_crt.deep_view(),
            config@.shutdown_timeout_ms == context.shutdown_timeout_ms,
    {
        ServerConfig {
            address: context.address,
            tls_key: context.tls_key,
            tls_crt: context.tls_crt,
            shutdown_timeout_ms: context.shutdown_timeout_ms,
        }
    }
}

} // verus!
