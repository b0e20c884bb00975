//! Provisioning engine for networked game-session backends: manifest
//! building, the reconcile decisions of the declarative controller, and the
//! decisions of the imperative session provisioner.

pub mod config;
pub mod controller;
pub mod custom_resource;
pub mod error;
pub mod k8s;
pub mod manifest;
pub mod model;
pub mod routes;
pub mod text;
