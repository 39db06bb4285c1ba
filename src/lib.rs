//! A terminal client's verified core: catalog ids, the session state
//! machine behind the two-panel view, the view model drawn from it, and the
//! one-shot completion of the local OAuth callback.

pub mod ids;
pub mod session;
pub mod auth;
pub mod view;
