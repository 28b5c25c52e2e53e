pub mod psa_token;
pub mod service;
