//! The operations of the site on its content: assembling entities, compiling
//! searches and paging results.

pub mod post;
pub mod search_query;
pub mod search;
pub mod image;
