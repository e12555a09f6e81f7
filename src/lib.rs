// Remote approval of mutating `gh` commands: an approval request is pushed
// to a chat bot, and a polling session waits for the matching Approve or
// Reject tap, or for its deadline.

mod text;
pub mod api;
pub mod approval;
pub mod cli;
pub mod laws;
pub mod notify;
pub mod pr;
pub mod setup;
