//! Periodic content polling and de-duplicated relay of one item per cycle
//! into a chat channel.

mod command;
mod content;
mod registry;
mod selector;
mod task;

pub use content::{
    is_placeholder, opt_view, placeholder, render, renders, resolve_thumbnail, resolved_image,
    str_equal, ContentItem, Relay,
};
pub use selector::{select_at, select_item, selected_index, selection_check, SelectError};
pub use registry::{
    has_id, has_pair, lemma_cancel_twice, lemma_register_twice, Registry, RegistryError,
    RegistryView, Subscription, SubscriptionView,
};
pub use task::{
    fits, is_transient, lemma_failures_are_transient, next_phase, run_phase, step_action, Action,
    SourceError, SubscriptionTask, TaskError, TaskEvent, TaskPhase, TaskView,
};
pub use command::{
    command_of, has_prefix, parse_command, starts_with, strip_prefix_repeated, strip_repeated,
    trimmed, Command, CommandView,
};
