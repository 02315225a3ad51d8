//! Bearer-token authentication for a small web service: issuing tokens from
//! credentials, validating them on protected routes, and handing the verified
//! identity to the handlers behind the guard.

pub mod app_state;
pub mod auth_claim;
pub mod auth_claim_mid;
pub mod backend_server;
pub mod bearer;
pub mod decimal;
pub mod input_schemas;
pub mod my_extractors;
pub mod protected_router;
pub mod token_shape;
