//! Typed records and call routing for a guest actor that exchanges
//! structured values with its host under three named operations.

pub mod codec;
pub mod dispatch;
pub mod handlers;
pub mod host;
pub mod records;
pub mod text;
