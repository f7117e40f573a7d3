//! Connector integration and access-token orchestration for a payment
//! switch: the generic pipeline that maps canonical requests onto
//! connector wire formats, manages connector access tokens with caching
//! and expiry-skew correction, and folds heterogeneous connector
//! responses back into canonical statuses.

pub mod masked;
pub mod token;
pub mod auth;
pub mod action;
pub mod store;
pub mod observability;
pub mod ids;
pub mod enums;
pub mod datetime;
pub mod error;
pub mod jsonvalue;
pub mod envelope;
pub mod integration;
pub mod engine;
pub mod access_token;
pub mod opennode;
pub mod configs;
pub mod business_profile;
pub mod refund_analytics;
pub mod metric_behaviour;
pub mod payment_method_list;
pub mod email;
