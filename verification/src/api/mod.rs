pub mod local;
pub mod rest;
