//! Core logic of a small virtual-machine provisioning service: a submitted
//! request is checked against a third-party CAPTCHA verdict, a notification
//! e-mail is composed for a human operator, and a separate admin component
//! parses free-address listings from an external IP-address-management
//! system. The network calls themselves (CAPTCHA POST, SMTP delivery, IPAM
//! GET) are made by the surrounding program; everything decided or computed
//! between them lives here, verified.

pub mod admin;
pub mod mail;
pub mod captcha;
pub mod error;
pub mod ipam;
pub mod handler;
pub mod num;
pub mod request;
