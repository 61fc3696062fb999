pub mod aggregate;
pub mod conn;
pub mod datatype;
pub mod describe;
pub mod display;
pub mod frame;
pub mod method;
pub mod opts;
pub mod plan;
pub mod project;
pub mod schema;
pub mod text;
pub mod theorems;
