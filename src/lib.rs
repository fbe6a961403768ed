//! Resource lifetimes, completion notification, asynchronous operations and
//! queue pair connection for RDMA hardware, with the hardware's own calls
//! left to the caller: every decision is made here on the values those
//! calls return.

pub mod ah;
pub mod cc;
pub mod connect;
pub mod cq;
pub mod device;
pub mod driver;
pub mod error;
mod hex;
pub mod mr;
pub mod qp;
pub mod resource;
pub mod wc;
pub mod utils;
pub mod work;
pub mod wr;

pub use hex::{hex_digit, hex_of};
