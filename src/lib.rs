//! Decisions of a desktop and mobile application shell: how it answers a
//! second launch and a request to open links, which plugins it registers, and
//! whether it registers its link schemes at setup.

mod shell;

pub use shell::{
    decide, plugins, registers_schemes_at_setup, Plugin, ShellAction, ShellEvent, DEEP_LINK_EVENT,
    MAIN_WINDOW_LABEL,
};
