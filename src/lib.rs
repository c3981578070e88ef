pub mod color;
pub mod instruction;
pub mod nvc;
pub mod psw;
