pub mod errors;
pub mod observer;
pub mod relay;
pub mod types;
pub mod upstream;
pub mod worker;
