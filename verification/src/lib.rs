//! Library for driving an encoder–decoder captioning network through a
//! manual autoregressive loop: the token protocol, the session state
//! machine, greedy decoding, and the input-buffer layouts, each with a
//! verified contract. Engine execution, image decoding and all
//! floating-point buffer work stay with the caller.

pub mod buffers;
pub mod caption;
pub mod decode;
pub mod session;
pub mod token;
pub mod words;
