//! Catalog accounting: the rules a catalog site follows when stores and
//! services are created, edited, deleted and browsed.
//!
//! The crate holds no connection to a database or to a web server. Every
//! function works on rows and tables handed to it as plain values, so that
//! each rule can be stated as a contract and proved.
//!
//! - `models` holds the rows and the lookups among them.
//! - `forms` and `links` turn what an editor submits into the rows to write.
//! - `accounting` keeps the usage counters of categories and tags in step
//!   with the links; `stores` and `services` apply it to a whole item.
//! - `pricing` adds up the price of a store and derives its accumulated
//!   price from a schedule.
//! - `navigation` finds the neighbours of an item in a listing.
//! - `history` records the page views of visitors.
//! - `pages` decides who may see or do what, and which variant of a page is
//!   rendered.
pub mod accounting;
pub mod clock;
pub mod forms;
pub mod history;
pub mod ids;
pub mod links;
pub mod models;
pub mod navigation;
pub mod pages;
pub mod pricing;
pub mod services;
pub mod stores;
