pub mod conversations;
pub mod io;
