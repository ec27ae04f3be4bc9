//! Building blocks of a cloud API client: the retry loop that governs how a
//! call is attempted, throttled and backed off, and the request builders of
//! the service clients.

pub mod binaryauthorization;
pub mod container;
pub mod iam_model;
pub mod iam_v3;
pub mod observability;
pub mod options;
pub mod policytroubleshooter;
pub mod procurement;
pub mod request;
pub mod retry_loop;
pub mod retry_proofs;
pub mod storage;
pub mod time;
