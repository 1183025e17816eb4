pub mod attaching;
pub mod edits;
pub mod error;
pub mod ids;
pub mod media;
pub mod notifications;
pub mod notify;
pub mod receipts;
pub mod sending;
pub mod text;
