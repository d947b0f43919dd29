//! A coordinate pair over any value type, and sensors that report a reading.

pub mod point;
pub mod sensor;
