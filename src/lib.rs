//! Look up words in an online bilingual dictionary page: extract a structured
//! entry from the page markup and render it for a terminal, plain text or
//! desktop notifications.

pub mod text;
pub mod lang;
pub mod formatters;
pub mod ydresponse;
pub mod markup;
pub mod parser;
pub mod escaping;
