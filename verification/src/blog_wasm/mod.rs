//! The browser front end, without its rendering: what it shows of a post,
//! what it keeps of a session, which requests it sends and what their
//! responses mean.
//!
//! The pages themselves are not part of this crate. They are markup written
//! with the macros of a GUI framework and run only in a browser; what they
//! decide is here, in `forms` and `infrastructure`.

pub mod dto;
pub mod forms;
pub mod infrastructure;
