//! Configuration of a client: its domain, default timeout and service.

use vstd::prelude::*;
use crate::call::DEFAULT_TIMEOUT_MS;
use crate::topic::{
    LOCO_API_TOPIC, QosProfile, TYPE_RPC_REQ, TYPE_RPC_RESP, TopicSpec, normalize_service_topic, normalize_spec, request_topic_name,
    response_topic_name, rpc_request_topic, rpc_response_topic,
};

verus! {

/// Options of a client of one service.
#[derive(Debug, Clone, PartialEq, Eq)]
pub struct RpcClientOptions {
    /// Numeric domain of the transport.
    pub domain_id: u16,
    /// Timeout of calls that name none of their own, in milliseconds.
    pub default_timeout_ms: u64,
    /// The service topic, with or without its `Req` or `Resp` suffix.
    pub service_topic: String,
}

impl Default for RpcClientOptions {
    /// Domain 0, a 5 s default timeout, the locomotion service.
    fn default() -> (r: RpcClientOptions)
        ensures
            r.domain_id == 0,
            r.default_timeout_ms == DEFAULT_TIMEOUT_MS,
            r.service_topic@ == LOCO_API_TOPIC@,
    {
        RpcClientOptions {
            domain_id: 0,
            default_timeout_ms: DEFAULT_TIMEOUT_MS,
            service_topic: LOCO_API_TOPIC.to_owned(),
        }
    }
}

impl RpcClientOptions {
    /// The default options, for another service.
    pub fn for_service(service_topic: String) -> (r: RpcClientOptions)
        ensures
            r.domain_id == 0,
            r.default_timeout_ms == DEFAULT_TIMEOUT_MS,
            r.service_topic == service_topic,
    {
        let mut options = RpcClientOptions::default();
        options.service_topic = service_topic;
        options
    }

    /// These options, for another service.
    pub fn with_service_topic(self, service_topic: String) -> (r: RpcClientOptions)
        ensures
            r.domain_id == self.domain_id,
            r.default_timeout_ms == self.default_timeout_ms,
            r.service_topic == service_topic,
    {
        RpcClientOptions { service_topic, ..self }
    }

    /// The request and response topics of the configured service, named
    /// after its normalized base name.
    pub fn service_topics(&self) -> (r: (TopicSpec, TopicSpec))
        ensures
            r.0.name@ == request_topic_name(normalize_spec(self.service_topic@)),
            r.1.name@ == response_topic_name(normalize_spec(self.service_topic@)),
            r.0.message_type@ == TYPE_RPC_REQ@,
            r.1.message_type@ == TYPE_RPC_RESP@,
            r.0.qos == QosProfile::ReliableKeepLast(10),
            r.1.qos == QosProfile::ReliableKeepLast(10),
            !r.0.keyed,
            !r.1.keyed,
    {
        let base = normalize_service_topic(self.service_topic.as_str());
        (rpc_request_topic(base.as_str()), rpc_response_topic(base.as_str()))
    }
}

} // verus!
