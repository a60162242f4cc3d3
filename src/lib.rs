pub mod automation;
pub mod bus;
pub mod controller;
pub mod factory;
pub mod latency;
pub mod loss;
pub mod params;
pub mod pipeline;
