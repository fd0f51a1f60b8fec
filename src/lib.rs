//! Data-access logic for browsing columnar data files through an embedded
//! analytical engine: query text assembly, pagination, cell normalization and
//! the step-by-step flow of each request.
pub mod decimal;
pub mod flows;
pub mod models;
pub mod pages;
pub mod sql;
pub mod values;
