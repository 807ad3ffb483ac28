//! Cross-chain transaction logger: folds the event logs of two bridge minters
//! into one canonical vocabulary and keeps a verified index of the transfers
//! between an EVM chain and the Internet Computer.

pub mod appic_events;
pub mod apply;
pub mod dfinity_events;
pub mod event_conversion;
pub mod guard;
pub mod ids;
pub mod keyed;
pub mod numeric;
pub mod order;
pub mod scrape_events;
pub mod state;
pub mod store_queries;
