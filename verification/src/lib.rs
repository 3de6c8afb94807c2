//! Localized error translation for HTTP services.
//!
//! A failed request carries a tree of error codes. This library turns such a
//! tree into a client-facing document whose every node has a message in the
//! caller's preferred language, and leaves successful responses alone.
//!
//! The pieces, leaves first: [`args`] and [`error_node`] hold the error
//! tree; [`validation`] flattens what a request body breaks into leaves of
//! such a tree; [`error`] lists the kinds of failure with their statuses
//! and codes; [`catalog`], [`locale`], [`template`] and [`translate`]
//! render a tree in a language; [`json`] and [`wire`] read and write trees
//! as JSON; [`response`] and [`middleware`] decide what becomes of a
//! response; [`composition`] says where the layer stands among others.
//! [`dto`], [`extractors`] and [`handlers`] are a small demo service built
//! on them.

pub mod args;
pub mod catalog;
pub mod composition;
pub mod dto;
pub mod error;
pub mod error_node;
pub mod extractors;
pub mod handlers;
pub mod json;
pub mod locale;
pub mod middleware;
pub mod response;
pub mod template;
pub mod translate;
pub mod validation;
pub mod wire;
