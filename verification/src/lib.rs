pub mod cpu;
pub mod laws;
pub mod machine;
pub mod op;
