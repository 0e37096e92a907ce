pub mod cache;
pub mod command;
pub mod gst;
pub mod octoprint;
pub mod resolver;
pub mod service;
pub mod settings;
pub mod store;
pub mod task;
