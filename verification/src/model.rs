//! Records of the extractor's report.

pub mod url_info;
