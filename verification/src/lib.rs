pub mod action;
pub mod boot;
pub mod console;
pub mod controller;
pub mod features;
