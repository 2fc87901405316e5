//! The verified core of a Spotify client.
//!
//! Everything here computes: which request to send, what an answer means,
//! which state follows which event. Sockets, files, windows, and the clock
//! belong to the program around the library.

pub mod album_types;
pub mod answer_laws;
pub mod api;
pub mod caches;
pub mod call_laws;
pub mod client;
pub mod credentials;
pub mod disk_laws;
pub mod disk_model;
pub mod error;
pub mod events;
pub mod exchange;
pub mod file_path;
pub mod gateway;
pub mod models;
pub mod network_promises;
pub mod paths;
pub mod release_library;
pub mod release_order;
pub mod release_scan;
pub mod release_view;
pub mod releases;
pub mod request;
pub mod request_laws;
pub mod route_laws;
pub mod scan_laws;
pub mod sending;
pub mod sets;
pub mod sign_in_promises;
pub mod task_laws;
pub mod tasks;
pub mod text;
pub mod text_laws;
pub mod transport;
pub mod transport_laws;
pub mod view_laws;
pub mod worker;
pub mod worker_laws;
pub mod worker_model;
pub mod worker_promises;
