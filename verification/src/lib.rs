//! Command framing for I2C slave devices over interchangeable transports.

pub mod command;
pub mod connection;
pub mod i2c_stream;
pub mod stream;

pub use command::Command;
pub use connection::Connection;
pub use i2c_stream::I2CStream;
pub use stream::Stream;
