//! A chat bot's command language and reply logic: parsing of `/` commands,
//! the help listing, the price and market-analysis request builders, and
//! the mapping of every outcome to the text sent back to the chat.
pub mod command;
pub mod price;
pub mod analysis;
pub mod dispatch;
pub mod laws;
