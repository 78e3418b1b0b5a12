//! Limits and markers shared by the tools.
use vstd::prelude::*;

verus! {

/// Longest tool output, in bytes, that is handed on unshortened.
pub const MAX_TOOL_OUTPUT_LENGTH: usize = 50000;

/// Bytes kept from the start of a shortened output.
pub const PRESERVED_START_LENGTH: usize = 20000;

/// Bytes kept from the end of a shortened output.
pub const PRESERVED_END_LENGTH: usize = 20000;

/// Whether a shortened output keeps its end as well as its start.
pub const PRESERVE_OUTPUT_END: bool = true;

/// Marker put where a shortened output lost its middle.
pub const TRUNCATION_PLACEHOLDER: &'static str = "\n\n[... output truncated ...]\n\n";

/// Line that opens the text to replace, in a patch body.
pub const PATCH_DELIMITER_BEFORE: &'static str = "<<<<BEFORE";

/// Line that opens the replacement text, in a patch body.
pub const PATCH_DELIMITER_AFTER: &'static str = "<<<<AFTER";

/// Line that closes a patch body.
pub const PATCH_DELIMITER_END: &'static str = "<<<<END";

/// Terminal colour for added diff lines.
pub const FORMAT_DIFF_ADDED: &'static str = "\x1b[32m";

/// Terminal colour for deleted diff lines.
pub const FORMAT_DIFF_DELETED: &'static str = "\x1b[31m";

/// Terminal code for bold text.
pub const FORMAT_BOLD: &'static str = "\x1b[1m";

/// Terminal colour for secondary text.
pub const FORMAT_GRAY: &'static str = "\x1b[90m";

/// Terminal colour for highlighted text.
pub const FORMAT_YELLOW: &'static str = "\x1b[33m";

/// Terminal code that ends a colour.
pub const FORMAT_RESET: &'static str = "\x1b[0m";

} // verus!
