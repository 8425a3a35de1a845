//! Verified core of a Team Fortress 2 trainer: the netvar offset table built
//! from the game's receive tables, the input rules of the movement and
//! backstab helpers, and the choice of which players the ESP draws.
pub mod netvars;
pub mod sdk;
pub mod hooks;
pub mod esp;
pub mod scanner;
