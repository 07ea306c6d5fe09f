//! Verified core of the Lucent game launcher.

pub mod address;
pub mod atomic;
pub mod auth;
pub mod checksum;
pub mod classpath;
pub mod color;
pub mod command;
pub mod content;
pub mod discovery;
pub mod download;
pub mod editor;
pub mod error;
pub mod forge;
pub mod json;
pub mod launch;
pub mod maven;
pub mod messages;
pub mod modrinth;
pub mod path;
pub mod profile;
pub mod progress;
pub mod repair;
pub mod runtime;
pub mod selection;
pub mod session;
pub mod signin;
pub mod sorting;
pub mod storage;
pub mod text;
pub mod ui;
