//! Verified core of a small form-collection web service: the ordering of
//! submitted form fields, the bookkeeping of stored submissions and table
//! configuration, the access rule, and the HTML pages the service serves.

pub mod access;
pub mod excel;
pub mod html;
pub mod json;
pub mod order;
pub mod pages;
pub mod submission;
pub mod table_page;
pub mod text;
