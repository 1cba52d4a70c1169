pub mod configuration;
pub mod constants;
pub mod domain;
pub mod helper;
pub mod secret;
pub mod text;
pub mod routes;
pub mod startup;
