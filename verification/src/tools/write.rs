//! The write tool: the file it writes and its report.
use vstd::prelude::*;
use crate::text::{self, decimal, lines, trim};

verus! {

/// The file that the write tool's arguments name, or the refusal of none.
pub fn write_filename(args: &str) -> (r: Result<String, String>)
    ensures
        trim(args@).len() > 0 ==> (r matches Ok(f) && f@ == trim(args@)),
        trim(args@).len() == 0 ==> (r matches Err(m) && m@
            == "Write tool requires a filename as an argument"@),
{
    let f = text::trim_chars(&text::str_chars(args));
    if f.len() == 0 {
        Err(text::chars_to_string(&text::str_chars("Write tool requires a filename as an argument")))
    } else {
        Ok(text::chars_to_string(&f))
    }
}

/// The write tool's report on writing `content` to the file named `path`:
/// how many lines it has (as `str::lines` counts them).
pub fn write_report(path: &str, content: &str) -> (r: String)
    ensures
        r@ == "Successfully wrote to file '"@ + path@ + "' ("@ + decimal(lines(content@).len())
            + " lines, line range: 1-"@ + decimal(lines(content@).len()) + ")"@,
{
    let n = text::count_lines(&text::str_chars(content));
    let mut m = text::str_chars("Successfully wrote to file '");
    text::append_str(&mut m, path);
    text::append_str(&mut m, "' (");
    text::append_chars(&mut m, &text::decimal_chars(n as u64));
    text::append_str(&mut m, " lines, line range: 1-");
    text::append_chars(&mut m, &text::decimal_chars(n as u64));
    text::append_str(&mut m, ")");
    text::chars_to_string(&m)
}

} // verus!
