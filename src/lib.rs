//! Card search over the Scryfall catalog: request building, response
//! policies, a paced image-fetch task, image decoding and the presentation
//! state that consumes the fetch's results.
pub mod artwork;
pub mod catalog;
pub mod models;
pub mod pipeline;
pub mod search_view;
