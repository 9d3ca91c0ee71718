//! The decisions of an operator that provisions attestation data for
//! confidential virtual machines on KubeVirt.
//!
//! The operator watches `VirtualMachineInstance`s (VMIs). For each one that
//! names an `InitData` resource it asks Trustee for provisioning data, derives
//! the measurement values from it and creates the resource. When the VMI is
//! deleted it tells Trustee to forget it. This crate decides what to ask for
//! next and what to make of each answer; the program around it talks to the
//! cluster and to Trustee.

pub mod config;
pub mod controller;
pub mod encoding;
pub mod error;
pub mod json;
pub mod kubevirt;
pub mod laws;
pub mod resource;
pub mod status;
pub mod trustee;
