pub mod capture;
pub mod comparison;
pub mod imgmeta;
pub mod orchestrate;
pub mod reconcile;
pub mod sanitize;
pub mod urllist;
