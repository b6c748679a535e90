//! Verified core of the UWSCR builtin function library: the text search and
//! slicing routines, the argument coercions of builtin calls, the constant
//! tables, and the small decision procedures that the builtins make before
//! handing work to the operating system.

pub mod bytes;
pub mod std_calls;
pub mod search;
pub mod between;
pub mod strings;
pub mod args;
pub mod error;
pub mod num;
pub mod builtin_args;
pub mod codec;
pub mod regexp;
pub mod replace;
pub mod strconv;
pub mod shell;
pub mod consts;
pub mod window;
pub mod acc;
pub mod clk;
pub mod for_loop;
pub mod eval;
pub mod member;
pub mod call;
pub mod text;
pub mod file;
pub mod array;
pub mod names;
pub mod system;
pub mod registry;
pub mod const_table;
