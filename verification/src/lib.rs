//! The entitlement and control-plane core of RadishFlow Studio: when the
//! desktop session syncs its entitlement or refreshes its offline lease,
//! how it talks to the control plane and checks the answers, how it keeps
//! the local auth cache, and the decisions of the headless runner.
use vstd::prelude::*;

pub mod app_facade;
pub mod app_state;
pub mod auth_cache;
pub mod bootstrap;
pub mod control_plane_client;
pub mod control_plane_protocol;
pub mod control_plane_sync;
pub mod document_lifecycle;
pub mod entitlement_control;
pub mod entitlement_preflight;
pub mod entitlement_session_driver;
pub mod entitlement_session_host;
pub mod entitlement_session_host_presentation;
pub mod entitlement_session_host_runtime;
pub mod error;
pub mod headless;
pub mod modeling_actions;
pub mod property_package;
pub mod text;
pub mod text_order;
pub mod time;
pub mod timestamp;

verus! {

} // verus!
