// An order-pricing HTTP service: the routing table, the responses it sends,
// and the decisions of the compute pipeline, driven by the host that performs
// the network calls.
pub mod config;
pub mod handler;
pub mod http;
pub mod laws;
