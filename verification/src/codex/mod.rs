pub mod abi;
pub mod commands;
pub mod keccak;
pub mod encode;
pub mod format_laws;
pub mod decode;
pub mod laws;
pub mod json;
pub mod parser;
pub mod hexfile;
pub mod inspect;
pub mod jsontext;
