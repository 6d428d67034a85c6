pub mod document;
pub mod gateway;
pub mod pages;
pub mod project;
pub mod routes;
pub mod tls;
