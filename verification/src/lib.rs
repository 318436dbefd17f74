//! The logic of a footage download server: which site a user's URL belongs
//! to, the browser runs that download from Artgrid and Artlist, the names
//! that downloaded files get, and the request limits, queues and checks
//! around them.

pub mod admin;
pub mod artgrid;
pub mod artlist;
pub mod bg_thread;
pub mod browser;
pub mod config;
pub mod cpu;
pub mod domain;
pub mod download;
pub mod footage_url;
pub mod job;
pub mod limiter;
pub mod queue;
pub mod selenium;
pub mod site_dispatch;
pub mod text;
pub mod user;
