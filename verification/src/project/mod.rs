pub mod exit;
pub mod forge;
pub mod install;
pub mod files;
pub mod init;
pub mod scaffold;
