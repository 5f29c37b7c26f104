//! Core logic of an interactive 3D model viewer.
//!
//! The viewer lets a user browse a library of model files, spawn models into a
//! shared scene, and manipulate the spawned instances with pointer drags. The
//! rendering engine, window and input capture, and the file loader are outside
//! collaborators; this crate holds the state and arithmetic they drive:
//!
//! - [`reconcile`]: buffers and deduplicates asynchronous load notifications
//!   against the folder listing and grows the registry of loaded models;
//! - [`presenter`]: the sidebar list of loaded models, its visibility toggle
//!   and its clamped scroll offset;
//! - [`proxy`]: the identity-keyed cache of bounding-box hit-test meshes;
//! - [`picking`]: binds hit-testing and highlight colors to fresh geometry;
//! - [`spawn`]: computes the camera-grounded placement of a new instance;
//! - [`manipulate`]: applies per-button drag semantics in the camera yaw frame;
//! - [`session`]: ties the reconciler and the presenter into one session.
//!
//! All geometry runs on fixed-point integers ([`fixed`]); the thin shell that
//! talks to the engine converts to and from its floating-point values.

pub mod fixed;
pub mod reconcile;
pub mod presenter;
pub mod proxy;
pub mod picking;
pub mod spawn;
pub mod manipulate;
pub mod session;
