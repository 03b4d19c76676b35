//! Verified core of the Altere workbench.

pub mod active_item;
pub mod button;
pub mod commands;
pub mod departure;
pub mod display;
pub mod dock;
pub mod extension;
pub mod forest;
pub mod guided_attention;
pub mod hierarchy;
pub mod invocation;
pub mod keys;
pub mod knowledge_tree;
pub mod lifecycle;
pub mod markdown_preview;
pub mod mode;
pub mod next_button;
pub mod next_repetition;
pub mod operation;
pub mod paths;
pub mod priority_queue;
pub mod proposal_review;
pub mod queue_row;
pub mod reparent;
pub mod runtime;
pub mod selection;
pub mod text;
pub mod workbench;
