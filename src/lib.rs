//! Online test service: answer and question values, grading, and the
//! supervision state machines that drive login and test sessions.

pub mod id;
pub mod answer;
pub mod question;
pub mod user;
pub mod score;
pub mod session;
pub mod repository;
mod clock;
pub mod test_session;
pub mod login;
pub mod application;
pub mod inbound;
pub mod storage;
