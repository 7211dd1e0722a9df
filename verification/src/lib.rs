//! A DirectX window helper: the logic of window configuration and of decoding
//! window messages into events, with contracts checked by Verus.

pub mod window;
