//! The verified core of a command-line build tool's entry point: the version
//! gate that rejects a runtime older than the required minimum, the crash
//! reporter that turns a fault into a labelled report with a pre-filled issue
//! link, and the orchestrator that decides, step by step, what the process
//! does next.
//!
//! Nothing here touches the machine directly. The program around this library
//! runs the commands and reads the files, and hands the outcomes in as plain
//! values.

pub mod error;
pub mod gate;
pub mod orchestrator;
pub mod report;
pub mod run;
pub mod text;
pub mod version;
pub mod version_order;
