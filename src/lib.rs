//! Encrypted local record store of a budget book: password-derived keys, a
//! repeating-key XOR transform, the framing of the stored file, the password
//! gate and the income/expense chart partition.

pub mod cipher;
pub mod key;
pub mod store;
pub mod password;
pub mod paths;
pub mod chart;
