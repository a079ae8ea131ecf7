//! A runtime core that lets a remote controller load native plugin modules,
//! spawn operators from them and drive those operators with events.
//!
//! A loaded module stays mapped while a registered plugin or a live operator
//! comes from it; each command reports the module that it let go of, so that
//! the host unloads a module only once nothing can run its code.

use vstd::prelude::*;

pub mod commands;
pub mod context;
pub mod events;
pub mod laws;
pub mod operator;
pub mod plugin;
pub mod protocol;
pub mod response;
pub mod skin;
pub mod table;
pub mod text;
