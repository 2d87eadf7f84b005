//! A project-scaffolding pipeline: project specifications are turned into
//! external generator commands, run in dependency-respecting stages
//! (generate, then git-init and install-deps, then a report), with per-project
//! failure isolation.

pub mod args;
pub mod bootstrap;
pub mod options;
pub mod orchestrator;
pub mod outcome;
pub mod package_managers;
pub mod planner;
pub mod project_kind;
pub mod projects;
pub mod prompts;
pub mod repository;
pub mod strutil;
pub mod techs;
