//! The four endpoints: their parameter objects and the query map that each
//! parameter object stands for.

pub mod crypto_news;
pub mod fields;
pub mod flag;
pub mod latest_news;
pub mod news_archive;
pub mod news_sources;

pub use crypto_news::GetCryptoNewsParams;
pub use flag::Flag;
pub use latest_news::GetLatestNewsParams;
pub use news_archive::GetNewsArchiveParams;
pub use news_sources::GetNewsSourcesParams;
