pub mod hbs;
pub mod pages;
pub mod renderer;
pub mod response;
pub mod routes;
pub mod text;
