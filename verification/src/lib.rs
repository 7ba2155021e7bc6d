//! Home maintenance tracker: the verified core.
pub mod api;
pub mod calendar;
pub mod config;
pub mod db;
pub mod domain;
pub mod error;
pub mod repo;
pub mod text;
pub mod web;
