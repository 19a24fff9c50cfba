//! The decision logic of the DeepSeek Harness desktop shell: where the dsh engine
//! is, how it is started and reached, and which versions are current.

use vstd::prelude::*;

pub mod boot;
pub mod engine;
pub mod launch;
pub mod messages;
pub mod node;
pub mod paths;
pub mod text;
pub mod updates;
pub mod version;

pub use boot::{boot_step, BootAction, BootEvent, BootFlow, DshStartup};
pub use engine::{pick_engine, read_pkg_version, Engine, EngineProbe, EngineSource, ManifestRead};
pub use launch::wait_dsh_terminated;
pub use paths::{dsh_bin_path, path_with_node, resolve_global_dsh, resolve_npm, resolve_npx};
pub use version::semver_gt;

verus! {

} // verus!
