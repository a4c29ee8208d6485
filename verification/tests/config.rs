use dynproxy::config::{
    plan, Config, GrpcProxyConfig, HttpProxyConfig, ProxyTask, TcpProxyConfig, UdpProxyConfig,
};
use dynproxy::service::Routing;

fn grpc() -> GrpcProxyConfig {
    GrpcProxyConfig {
        listen_addr: "0.0.0.0:50051".to_string(),
        default_backend: "10.0.0.9:50051".to_string(),
    }
}

#[test]
fn every_entry_has_its_proxy_in_order() {
    let config = Config {
        tcp_proxies: vec![
            TcpProxyConfig { listen_addr: "t1".to_string(), backend_addr: "T1".to_string() },
            TcpProxyConfig { listen_addr: "t2".to_string(), backend_addr: "T2".to_string() },
        ],
        udp_proxies: vec![UdpProxyConfig {
            listen_addr: "u1".to_string(),
            backend_addr: "U1".to_string(),
        }],
        http_proxies: vec![
            HttpProxyConfig { listen_addr: "h1".to_string(), backend_addr: "H1".to_string() },
            HttpProxyConfig { listen_addr: "h2".to_string(), backend_addr: "H2".to_string() },
        ],
        grpc_proxy: grpc(),
    };
    let lines: Vec<String> = plan(&config)
        .into_iter()
        .map(|task| match task {
            ProxyTask::Tcp { listen_addr, backend_addr } => {
                format!("tcp {} {}", listen_addr, backend_addr)
            }
            ProxyTask::Udp { listen_addr, backend_addr } => {
                format!("udp {} {}", listen_addr, backend_addr)
            }
            ProxyTask::Http { listen_addr, service } => {
                assert_eq!(service.routing, Routing::Fixed);
                format!("http {} {}", listen_addr, service.default_backend)
            }
            ProxyTask::Grpc { listen_addr, service } => {
                assert_eq!(service.routing, Routing::Dynamic);
                format!("grpc {} {}", listen_addr, service.default_backend)
            }
        })
        .collect();
    assert_eq!(
        lines,
        vec![
            "tcp t1 T1",
            "tcp t2 T2",
            "udp u1 U1",
            "http h1 H1",
            "http h2 H2",
            "grpc 0.0.0.0:50051 10.0.0.9:50051",
        ]
    );
}

#[test]
fn grpc_proxy_runs_alone_when_nothing_else_is_configured() {
    let config = Config {
        tcp_proxies: vec![],
        udp_proxies: vec![],
        http_proxies: vec![],
        grpc_proxy: grpc(),
    };
    let tasks = plan(&config);
    assert_eq!(tasks.len(), 1);
    assert!(matches!(tasks[0], ProxyTask::Grpc { .. }));
}
