//! Verified core of an authentication gateway: it decides, per request, whether a
//! protected resource is served, from a session cookie checked by a remote
//! authentication backend, and it validates human-verification challenges.

pub mod address;
pub mod channel;
pub mod protected;
pub mod captcha;
pub mod pages;
