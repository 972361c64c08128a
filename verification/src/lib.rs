//! Balance display logic for the DeepSeek tray application.
use vstd::prelude::*;

pub mod balance;
pub mod controller;
pub mod interval;
pub mod settings;
pub mod storage;
pub mod text;
pub mod tray;
