//! Source-specific extraction logic that turns plainly scraped page data
//! into canonical records.

pub mod soundvoltex_vi;
