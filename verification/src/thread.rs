//! The Thread network controller, the networks that it finds, and the registration of the Matter
//! services with the SRP server of the Thread network.

pub mod ctl;
pub mod ctl_laws;
pub mod scan;
pub mod srp;
pub mod srp_laws;
