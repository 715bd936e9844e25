//! Service error types, the messages that asynchronous service operations
//! send back to the UI models, and the application error categories the
//! service errors are reported as.

pub mod app_error;
pub mod app_services;
pub mod auth;
pub mod calendar;
pub mod gmail;
pub mod google;
pub mod kanban;
pub mod note;
pub mod organization;
pub mod project;
pub mod repo;
pub mod weather;
pub mod workflow;
