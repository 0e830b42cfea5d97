//! Judgment of gameplay sessions: canonical records, the rule engine, the
//! content digest, the relayer submission protocol and response assembly.

pub mod session;
pub mod hexcode;
pub mod request;
pub mod relayer;
pub mod response;
