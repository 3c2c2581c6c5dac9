//! Verified core of the relay backend: settings policies, payment channel
//! merging, KYC normalisation, high-availability failover decisions, relay
//! caches and the text helpers they are built on.

pub mod text;
pub mod settings;
pub mod kyc;
pub mod json;
pub mod forward_rules;
pub mod catalog;
pub mod errors;
pub mod ha;
pub mod meltdown;
pub mod proxy;
pub mod relay_cache;
pub mod cascade;
pub mod usage;
pub mod task;
pub mod ratelimit;
pub mod portal;
pub mod callback;
pub mod media;
pub mod calendar;
pub mod digest;
pub mod redeem;
pub mod response_scan;
pub mod upstream_headers;
pub mod features;
pub mod json_tree;
pub mod portal_config;
pub mod marketplace;
pub mod preset_models;
pub mod homepage;
pub mod cascade_docs;
