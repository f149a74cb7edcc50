//! Frame capture pipeline logic: frame geometry and pixel normalisation, the
//! per-recording frame queue, the encode worker's state machine and the
//! supervisor that routes start, stop and feed requests to live workers.

pub mod buffer;
pub mod channel;
pub mod frame;
pub mod output;
pub mod readback;
pub mod supervisor;
pub mod worker;
