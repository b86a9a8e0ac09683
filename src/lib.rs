//! A chat bot that prints PDF documents: the decisions it makes for each
//! incoming message, from classifying the message to the reports it sends.
pub mod digits;
pub mod event;
pub mod media;
pub mod outcome;
pub mod pages;
pub mod pipeline;
pub mod stamp;
pub mod laws;
