use vstd::prelude::*;

verus! {

/// poem's lazily binding TCP listener; the socket itself is bound when
/// serving begins.
#[verifier::external_type_specification]
#[verifier::external_body]
#[verifier::reject_recursive_types(T)]
pub struct ExTcpListener<T>(poem::listener::TcpListener<T>);

/// poem's TLS wrapper around an inner listener.
#[verifier::external_type_specification]
#[verifier::external_body]
#[verifier::reject_recursive_types(T)]
#[verifier::reject_recursive_types(S)]
pub struct ExRustlsListener<T, S>(poem::listener::RustlsListener<T, S>);

/// poem's TLS configuration for a listener.
#[verifier::external_type_specification]
#[verifier::external_body]
pub struct ExRustlsConfig(poem::listener::RustlsConfig);

/// poem's key/certificate pair for a TLS listener.
#[verifier::external_type_specification]
#[verifier::external_body]
pub struct ExRustlsCertificate(poem::listener::RustlsCertificate);

/// Relies on poem's `RustlsCertificate` builder (`new`, `key`, `cert`):
/// each call only stores the given bytes in the certificate value.
#[verifier::external_body]
fn tls_certificate(key: &Vec<u8>, cert: &Vec<u8>) -> poem::listener::RustlsCertificate {
    poem::listener::RustlsCertificate::new().key(key.clone()).cert(cert.clone())
}

/// Relies on poem's `RustlsConfig` builder (`new`, `fallback`): it stores
/// the certificate as the sole fallback credential, with no named
/// certificates, so the listener serves a single fixed identity.
#[verifier::external_body]
fn tls_config(certificate: poem::listener::RustlsCertificate) -> poem::listener::RustlsConfig {
    poem::listener::RustlsConfig::new().fallback(certificate)
}

/// Relies on poem's `TcpListener::bind`: it only records the address; the
/// socket is bound later, when an acceptor is made from the listener.
#[verifier::external_body]
fn plain_listener(address: &String) -> poem::listener::TcpListener<String> {
    poem::listener::TcpListener::bind(address.clone())
}

/// Relies on poem's `Listener::rustls`: it wraps the inner listener so that
/// accepted connections are TLS-terminated with the given configuration.
#[verifier::external_body]
fn wrap_tls(
    inner: poem::listener::TcpListener<String>,
    config: poem::listener::RustlsConfig,
) -> poem::listener::RustlsListener<poem::listener::TcpListener<String>, poem::listener::RustlsConfig> {
    poem::listener::Listener::rustls(inner, config)
}

/// One listener for a run, plain or TLS-wrapped, not yet accepting. The
/// graceful server runner has a single code path over it, whatever the kind.
pub enum BoundListener {
    Plain(poem::listener::TcpListener<String>),
    Tls(
        poem::listener::RustlsListener<
            poem::listener::TcpListener<String>,
            poem::listener::RustlsConfig,
        >,
    ),
}

impl BoundListener {
    /// Whether this listener terminates TLS.
    pub fn is_tls(&self) -> (tls: bool)
        ensures
            tls <==> self is Tls,
    {
        match self {
            BoundListener::Plain(_) => false,
            BoundListener::Tls(_) => true,
        }
    }
}

/// Builds the listener for an address: TLS-terminating exactly when both the
/// key and the certificate are present, plain otherwise — an address paired
/// with only one of the two falls back to plain and never errors on that
/// account.
pub fn build_listener(
    address: &String,
    tls_key: &Option<Vec<u8>>,
    tls_crt: &Option<Vec<u8>>,
) -> (listener: BoundListener)
    ensures
        listener is Tls <==> (tls_key is Some && tls_crt is Some),
{
    let tcp = plain_listener(address);
    match (tls_key, tls_crt) {
        (Some(key), Some(cert)) => {
            let certificate = tls_certificate(key, cert);
            BoundListener::Tls(wrap_tls(tcp, tls_config(certificate)))
        }
        _ => BoundListener::Plain(tcp),
    }
}

} // verus!
