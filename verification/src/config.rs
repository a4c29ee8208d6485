//! The configuration, and the proxies that it calls for.

use crate::headers::Fields;
use crate::service::{named_backend, ProxyService, Routing};
use vstd::prelude::*;

verus! {

/// A TCP proxy: what arrives at `listen_addr` goes to `backend_addr`.
#[derive(Debug, Clone)]
pub struct TcpProxyConfig {
    pub listen_addr: String,
    pub backend_addr: String,
}

/// A UDP proxy: what arrives at `listen_addr` goes to `backend_addr`.
#[derive(Debug, Clone)]
pub struct UdpProxyConfig {
    pub listen_addr: String,
    pub backend_addr: String,
}

/// An HTTP proxy: every request at `listen_addr` goes to `backend_addr`.
#[derive(Debug, Clone)]
pub struct HttpProxyConfig {
    pub listen_addr: String,
    pub backend_addr: String,
}

/// A gRPC proxy: a request at `listen_addr` goes to the backend that it names, or to
/// `default_backend`.
#[derive(Debug, Clone)]
pub struct GrpcProxyConfig {
    pub listen_addr: String,
    pub default_backend: String,
}

/// The whole configuration.
#[derive(Debug, Clone)]
pub struct Config {
    pub tcp_proxies: Vec<TcpProxyConfig>,
    pub udp_proxies: Vec<UdpProxyConfig>,
    pub http_proxies: Vec<HttpProxyConfig>,
    pub grpc_proxy: GrpcProxyConfig,
}

/// One proxy to run.
#[derive(Debug, Clone)]
pub enum ProxyTask {
    Tcp { listen_addr: String, backend_addr: String },
    Udp { listen_addr: String, backend_addr: String },
    Http { listen_addr: String, service: ProxyService },
    Grpc { listen_addr: String, service: ProxyService },
}

/// The proxies for `configs`, in their order.
pub open spec fn tcp_tasks(configs: Seq<TcpProxyConfig>) -> Seq<ProxyTask> {
    configs.map_values(
        |c: TcpProxyConfig|
            ProxyTask::Tcp { listen_addr: c.listen_addr, backend_addr: c.backend_addr },
    )
}

/// The proxies for `configs`, in their order.
pub open spec fn udp_tasks(configs: Seq<UdpProxyConfig>) -> Seq<ProxyTask> {
    configs.map_values(
        |c: UdpProxyConfig|
            ProxyTask::Udp { listen_addr: c.listen_addr, backend_addr: c.backend_addr },
    )
}

/// The proxies for `configs`, in their order. Their backends are fixed.
pub open spec fn http_tasks(configs: Seq<HttpProxyConfig>) -> Seq<ProxyTask> {
    configs.map_values(
        |c: HttpProxyConfig|
            ProxyTask::Http {
                listen_addr: c.listen_addr,
                service: ProxyService { default_backend: c.backend_addr, routing: Routing::Fixed },
            },
    )
}

/// The proxy for `config`. Its requests may name their backends.
pub open spec fn grpc_task(config: GrpcProxyConfig) -> ProxyTask {
    ProxyTask::Grpc {
        listen_addr: config.listen_addr,
        service: ProxyService {
            default_backend: config.default_backend,
            routing: Routing::Dynamic,
        },
    }
}

/// All proxies that a configuration calls for, in the order in which they are started.
pub open spec fn tasks_of(config: Config) -> Seq<ProxyTask> {
    tcp_tasks(config.tcp_proxies@) + udp_tasks(config.udp_proxies@) + http_tasks(
        config.http_proxies@,
    ) + seq![grpc_task(config.grpc_proxy)]
}

/// The proxies to run, in the order in which they are started.
pub fn plan(config: &Config) -> (tasks: Vec<ProxyTask>)
    ensures
        tasks@ == tasks_of(*config),
{
    let mut tasks: Vec<ProxyTask> = Vec::new();
    let ghost tcp = tcp_tasks(config.tcp_proxies@);
    let ghost udp = udp_tasks(config.udp_proxies@);
    let ghost http = http_tasks(config.http_proxies@);
    let mut i: usize = 0;
    while i < config.tcp_proxies.len()
        invariant
            i <= config.tcp_proxies@.len(),
            tcp == tcp_tasks(config.tcp_proxies@),
            tasks@ == tcp.take(i as int),
        decreases config.tcp_proxies@.len() - i,
    {
        let c = &config.tcp_proxies[i];
        tasks.push(
            ProxyTask::Tcp {
                listen_addr: c.listen_addr.clone(),
                backend_addr: c.backend_addr.clone(),
            },
        );
        i = i + 1;
        assert(tasks@ =~= tcp.take(i as int));
    }
    let mut j: usize = 0;
    assert(tasks@ =~= tcp + udp.take(0));
    while j < config.udp_proxies.len()
        invariant
            j <= config.udp_proxies@.len(),
            udp == udp_tasks(config.udp_proxies@),
            tasks@ == tcp + udp.take(j as int),
        decreases config.udp_proxies@.len() - j,
    {
        let c = &config.udp_proxies[j];
        tasks.push(
            ProxyTask::Udp {
                listen_addr: c.listen_addr.clone(),
                backend_addr: c.backend_addr.clone(),
            },
        );
        j = j + 1;
        assert(tasks@ =~= tcp + udp.take(j as int));
    }
    let mut k: usize = 0;
    assert(tasks@ =~= tcp + udp + http.take(0));
    while k < config.http_proxies.len()
        invariant
            k <= config.http_proxies@.len(),
            http == http_tasks(config.http_proxies@),
            tasks@ == tcp + udp + http.take(k as int),
        decreases config.http_proxies@.len() - k,
    {
        let c = &config.http_proxies[k];
        tasks.push(
            ProxyTask::Http {
                listen_addr: c.listen_addr.clone(),
                service: ProxyService::fixed(c.backend_addr.clone()),
            },
        );
        k = k + 1;
        assert(tasks@ =~= tcp + udp + http.take(k as int));
    }
    tasks.push(
        ProxyTask::Grpc {
            listen_addr: config.grpc_proxy.listen_addr.clone(),
            service: ProxyService::new(config.grpc_proxy.default_backend.clone()),
        },
    );
    assert(tasks@ =~= tasks_of(*config));
    tasks
}

/// Each entry of a configuration has its proxy, each proxy has its entry, and the gRPC proxy
/// comes last.
pub proof fn law_one_proxy_for_each_entry(config: Config)
    ensures
        ({
            let tasks = tasks_of(config);
            let tcp = config.tcp_proxies@.len();
            let udp = config.udp_proxies@.len();
            let http = config.http_proxies@.len();
            &&& tasks.len() == tcp + udp + http + 1
            &&& forall|i: int|
                0 <= i < tasks.len() ==> {
                    &&& (#[trigger] tasks[i] is Tcp <==> i < tcp)
                    &&& (tasks[i] is Udp <==> tcp <= i < tcp + udp)
                    &&& (tasks[i] is Http <==> tcp + udp <= i < tcp + udp + http)
                    &&& (tasks[i] is Grpc <==> i == tcp + udp + http)
                }
        }),
{
}

/// No request that an HTTP proxy gets can change its backend: it is the configured one, whatever
/// the request holds.
pub proof fn law_http_backends_are_fixed(config: Config, i: int, fields: Fields)
    requires
        0 <= i < config.http_proxies@.len(),
    ensures
        ({
            let task = tasks_of(config)[config.tcp_proxies@.len() + config.udp_proxies@.len() + i];
            &&& task is Http
            &&& task->Http_service.backend_of(fields) == config.http_proxies@[i].backend_addr@
        }),
{
}

/// A request that the gRPC proxy gets goes to the backend that it names, and to the default one
/// if it names none.
pub proof fn law_grpc_requests_name_their_backends(config: Config, fields: Fields)
    ensures
        tasks_of(config).last() is Grpc,
        tasks_of(config).last()->Grpc_service.backend_of(fields) == match named_backend(fields) {
            Some(backend) => backend,
            None => config.grpc_proxy.default_backend@,
        },
{
}

/// The proxy for each TCP entry listens at the address of that entry and sends to the backend of
/// that entry.
pub proof fn law_tcp_proxy_joins_the_addresses_of_its_entry(config: Config, i: int)
    requires
        0 <= i < config.tcp_proxies@.len(),
    ensures
        ({
            let entry = config.tcp_proxies@[i];
            tasks_of(config)[i] == (ProxyTask::Tcp {
                listen_addr: entry.listen_addr,
                backend_addr: entry.backend_addr,
            })
        }),
{
}

/// The proxy for each UDP entry listens at the address of that entry and sends to the backend of
/// that entry.
pub proof fn law_udp_proxy_joins_the_addresses_of_its_entry(config: Config, i: int)
    requires
        0 <= i < config.udp_proxies@.len(),
    ensures
        ({
            let entry = config.udp_proxies@[i];
            tasks_of(config)[config.tcp_proxies@.len() + i] == (ProxyTask::Udp {
                listen_addr: entry.listen_addr,
                backend_addr: entry.backend_addr,
            })
        }),
{
}

/// The proxy for each HTTP entry listens at the address of that entry and has its backend, which
/// no request can change.
pub proof fn law_http_proxy_joins_the_addresses_of_its_entry(config: Config, i: int)
    requires
        0 <= i < config.http_proxies@.len(),
    ensures
        ({
            let entry = config.http_proxies@[i];
            let task = tasks_of(config)[config.tcp_proxies@.len() + config.udp_proxies@.len() + i];
            task matches ProxyTask::Http { listen_addr, service } && {
                &&& listen_addr == entry.listen_addr
                &&& service.default_backend == entry.backend_addr
                &&& service.routing is Fixed
            }
        }),
{
}

/// The gRPC proxy listens at its configured address and has its configured backend for the
/// requests that name none.
pub proof fn law_grpc_proxy_has_its_addresses(config: Config)
    ensures
        ({
            let others = config.tcp_proxies@.len() + config.udp_proxies@.len()
                + config.http_proxies@.len();
            tasks_of(config)[others as int] matches ProxyTask::Grpc { listen_addr, service } && {
                &&& listen_addr == config.grpc_proxy.listen_addr
                &&& service.default_backend == config.grpc_proxy.default_backend
                &&& service.routing is Dynamic
            }
        }),
{
}

} // verus!
