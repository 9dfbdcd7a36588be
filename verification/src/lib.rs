use vstd::prelude::*;

pub mod bytes;
pub mod crypto;
pub mod crypto_raw;
pub mod event_loop;
pub mod http;
pub mod node_fs;
pub mod salsa;
pub mod sock_error;
pub mod text;
pub mod text_codec;
pub mod wasi_fs;
