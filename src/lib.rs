mod bytes;
pub mod handler;
pub mod method;
pub mod model;
pub mod outcome;
pub mod path;
pub mod response;
