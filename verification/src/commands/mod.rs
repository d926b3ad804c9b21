//! The rules behind each chat command.
pub mod timely;
pub mod bankroll;
pub mod betroll;
pub mod steal;
pub mod top;
pub mod balance;
pub mod give;
