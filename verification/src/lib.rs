//! Verified core of a Wenquxing electronic dictionary emulator.

pub mod alu_laws;
pub mod bits;
pub mod cpu;
pub mod cpu_laws;
pub mod input;
pub mod key_ids;
pub mod timer;
pub mod audio;
pub mod flash;
pub mod lcd;
pub mod bytes;
pub mod memory;
pub mod io;
pub mod machine;
pub mod nc1020;
pub mod spdc;
pub mod pc1000;
pub mod cc800;
pub mod nc2000;
pub mod save;
pub mod emulator;
pub mod host_keys;
pub mod skin;
