//! The interactive core of a terminal HTTP console: key routing, the request
//! list, the response viewer with its save workflow, the message queue and the
//! request dispatcher, stated over plain values and verified.

pub mod app;
pub mod cursor;
pub mod dispatcher;
pub mod input;
pub mod key;
pub mod menu;
pub mod message;
pub mod parser;
pub mod payload;
pub mod popup;
pub mod request_list;
pub mod response;
pub mod response_panel;
pub mod stateful_list;
pub mod text;
