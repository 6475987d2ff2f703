//! Verified core of the ThetaDataDx C and Python bindings.
//!
//! The binding layers (C ABI entry points, Python classes) keep their
//! pointer handling, thread-local storage and calls into the SDK outside
//! this crate; every decision they make — which error code an SDK failure
//! surfaces as, how the thread's error slot evolves, how a C subscription
//! request is validated, which lifecycle transitions a streaming handle
//! accepts — is stated and proved here.

pub mod codes;
pub mod text;
pub mod sdk_error;
pub mod py_errors;
pub mod error_slot;
pub mod cstr;
pub mod std_text;
pub mod subscription;
pub mod active;
pub mod lifecycle;
pub mod dispatcher;
pub mod drain;
pub mod fpss_event;
pub mod ffi_event;
pub mod py_event;
pub mod reconnect;
pub mod registration;
pub mod py_session;
pub mod legacy;
pub mod py_config;
pub mod status;
pub mod batches;
pub mod py_async;
pub mod py_repr;
