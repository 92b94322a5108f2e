use std::time::Duration;

use app_host::config::{HostContext, ServerConfig};
use app_host::listener::{build_listener, BoundListener};
use app_host::runner::{AppHost, RunState};
use app_host::status::{render_status, LifecycleResult};
use app_host::static_files::StaticFiles;
use app_host::web_app::WebApp;

use poem::listener::Listener;
use poem::Server;

#[test]
fn immediate_cancellation_resolves_completed_with_ordered_statuses() {
    let context = HostContext {
        address: Some("127.0.0.1:0".to_string()),
        tls_key: None,
        tls_crt: None,
        shutdown_timeout_ms: Some(1000),
        work_dir: Some(".".to_string()),
        index_html: None,
        block_name: "site".to_string(),
    };
    let runtime = tokio::runtime::Builder::new_current_thread()
        .enable_all()
        .build()
        .expect("runtime");
    let host = runtime.block_on(async move {
        let mut app = StaticFiles::create(&context);
        let routes = app.routes().expect("routing table");
        let mut host = AppHost::new(ServerConfig::from_context(context));
        assert!(host.begin());
        let address = host.config.address.clone().unwrap();
        let listener = build_listener(&address, &host.config.tls_key, &host.config.tls_crt);
        let timeout = host.config.shutdown_timeout_ms.map(Duration::from_millis);
        let (cancel_sender, cancel_receiver) = tokio::sync::oneshot::channel::<()>();
        match listener {
            BoundListener::Plain(tcp) => {
                let acceptor = tcp.into_acceptor().await.expect("bind ephemeral port");
                host.bind_succeeded();
                assert_eq!(host.state, RunState::Serving);
                // cancel immediately, before any connection is accepted
                cancel_sender.send(()).expect("cancel");
                let host_ref = &mut host;
                let signal = async move {
                    let _ = cancel_receiver.await;
                    host_ref.cancellation_observed();
                };
                let outcome = Server::new_with_acceptor(acceptor)
                    .run_with_graceful_shutdown(routes, signal, timeout)
                    .await;
                host.serve_ended(outcome.err().map(|e| e.to_string()));
            }
            BoundListener::Tls(_) => panic!("no TLS material was given"),
        }
        host
    });
    assert_eq!(host.state, RunState::Done);
    assert_eq!(host.result, Some(LifecycleResult::Completed));
    let rendered: Vec<String> = host.log.iter().map(render_status).collect();
    assert_eq!(
        rendered,
        vec![
            "Starting 127.0.0.1:0".to_string(),
            "Cancelling server".to_string(),
            "Server is exiting".to_string(),
        ]
    );
}
