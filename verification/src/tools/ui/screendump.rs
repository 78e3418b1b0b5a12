//! Screendump tool commands without the full-screen dump.
use vstd::prelude::*;
use crate::tools::screendump::{screendump_command_from, screendump_command_of, ScreendumpModel};

verus! {

/// Commands supported by the screendump tool
#[derive(Debug, Clone)]
pub enum ScreendumpCommand {
    /// List all windows with identifiers
    ListWindows,
    /// Capture details for a specific window
    WindowDetails(String),
}

impl View for ScreendumpCommand {
    type V = ScreendumpModel;

    open spec fn view(&self) -> ScreendumpModel {
        match self {
            ScreendumpCommand::ListWindows => ScreendumpModel::ListWindows,
            ScreendumpCommand::WindowDetails(id) => ScreendumpModel::WindowDetails(id@),
        }
    }
}

/// Parse the command arguments
pub fn parse_command(args: &str) -> (r: ScreendumpCommand)
    ensures
        r@ == screendump_command_of(args@, false),
{
    match screendump_command_from(args, false) {
        crate::tools::screendump::ScreendumpCommand::WindowDetails(id) => ScreendumpCommand::WindowDetails(
            id,
        ),
        _ => ScreendumpCommand::ListWindows,
    }
}

} // verus!
