//! Task-tracking backend core: the data model of users, projects and tasks,
//! and the worker that reconciles tasks with the issues of an external
//! issue tracker.

pub mod text;
pub mod model;
pub mod binding;
pub mod reconcile;
pub mod convergence;
pub mod pass;
pub mod scheduler;
pub mod response;
pub mod auth;
pub mod mailer;
pub mod config;
pub mod access;
