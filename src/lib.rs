pub mod playlist;
pub mod protocol;
pub mod session;
pub mod shuffle;
pub mod backend;
