//! Verification and repair of an application's on-disk directory layout
//! against a declarative, nested schema.
//!
//! A [`StructureItem`] declares the files a directory must hold and its
//! subdirectories, each with a nested item. [`Walker`] checks a directory
//! against an item depth first: the files of a level before its
//! subdirectories, each subdirectory before the next one. It stops on the
//! first failure and, where an item asks for repair, creates its missing
//! subdirectories. The walker makes no filesystem call itself: it hands out
//! one [`Request`] at a time and takes the [`Reply`], so the caller owns all
//! input and output.
//!
//! The `strict` flag of an item is kept on the model and checks nothing:
//! extra entries in a directory never fail a verification.

mod config;
mod model;
mod models;
mod plan;
mod walk;

pub use config::{kind_name, DirKind, StructureConfig, StructureError};
pub use model::{
    answer_in, apply, lemma_bare_item_always_passes, lemma_full_repair_passes, lemma_verify_twice,
    prefix_closed, prefixes, remaining, repaired_dirs_from, repairs_all, run, verify_in, RelPath,
    RunEnd,
};
pub use models::{item_wf, PingRequest, PingResponse, StructureItem, StructureItemOptions};
pub use plan::{
    checks_view, child_path, copy_path, dirs_plan, file_steps, path_view, plan, plan_of, Check,
    Step,
};
pub use walk::{
    advance, ask_of, failure_path, initial, state_wf, Answer, Ask, Failure, Phase, PhaseView,
    Reply, Request, VerificationError, WalkState, Walker,
};
