//! Temporary output window component
use vstd::prelude::*;
use crate::text::{self, lines};

verus! {

/// Temporary output window that overlays the input area and can grow upward
pub struct TemporaryOutput {
    /// Title of the output window
    pub title: String,
    /// Content lines of the output
    pub content: Vec<String>,
    /// Whether the output is visible
    pub visible: bool,
}

/// Display lines that a line of `n` characters takes when wrapped at
/// `width`: at least one.
pub open spec fn wrapped_lines(n: nat, width: nat) -> nat {
    if n == 0 {
        1
    } else {
        n / width + if n % width > 0 {
            1nat
        } else {
            0nat
        }
    }
}

/// Display lines that the content lines take when wrapped at `width`.
pub open spec fn display_lines(content: Seq<Seq<char>>, width: nat) -> nat
    decreases content.len(),
{
    if content.len() == 0 {
        0
    } else {
        display_lines(content.drop_last(), width) + wrapped_lines(content.last().len(), width)
    }
}

/// Display lines that `content` takes when wrapped at `width`.
pub fn count_display_lines(content: &Vec<String>, width: u16) -> (r: usize)
    requires
        width > 0,
        display_lines(text::string_views(content@), width as nat) <= usize::MAX,
    ensures
        r == display_lines(text::string_views(content@), width as nat),
{
    let ghost v = text::string_views(content@);
    let mut total: usize = 0;
    let mut i: usize = 0;
    while i < content.len()
        invariant
            i <= content.len(),
            width > 0,
            v == text::string_views(content@),
            display_lines(v, width as nat) <= usize::MAX,
            total == display_lines(v.take(i as int), width as nat),
        decreases content.len() - i,
    {
        assert(v.take(i + 1).drop_last() =~= v.take(i as int));
        proof {
            lemma_display_lines_prefix(v, width as nat, i + 1);
        }
        let chars = text::str_chars(content[i].as_str()).len();
        let w = width as usize;
        let n = if chars == 0 {
            1
        } else {
            chars / w + if chars % w > 0 {
                1usize
            } else {
                0usize
            }
        };
        total = total + n;
        i = i + 1;
    }
    assert(v.take(content.len() as int) =~= v);
    total
}

proof fn lemma_display_lines_prefix(v: Seq<Seq<char>>, width: nat, k: int)
    requires
        0 <= k <= v.len(),
    ensures
        display_lines(v.take(k), width) <= display_lines(v, width),
    decreases v.len() - k,
{
    if k < v.len() {
        lemma_display_lines_prefix(v.drop_last(), width, k);
        assert(v.drop_last().take(k) =~= v.take(k));
    } else {
        assert(v.take(k) =~= v);
    }
}


impl TemporaryOutput {
    /// Create a new temporary output, hidden and empty
    pub fn new() -> (r: Self)
        ensures
            r.title@.len() == 0,
            r.content@.len() == 0,
            !r.visible,
    {
        Self { title: text::chars_to_string(&Vec::new()), content: Vec::new(), visible: false }
    }

    /// Count the number of lines needed to display content wrapped at `width`
    pub fn count_lines(&self, width: u16) -> (r: usize)
        requires
            width > 0,
            display_lines(text::string_views(self.content@), width as nat) <= usize::MAX,
        ensures
            r == display_lines(text::string_views(self.content@), width as nat),
    {
        count_display_lines(&self.content, width)
    }

    /// Hide the output (`hide` is a word of Verus)
    pub fn dismiss(&mut self)
        ensures
            !final(self).visible,
            final(self).title == old(self).title,
            final(self).content == old(self).content,
    {
        self.visible = false;
    }

    /// Show output with new content, split into lines
    pub fn show(&mut self, title: String, content: String)
        ensures
            final(self).visible,
            final(self).title == title,
            text::string_views(final(self).content@) == lines(content@),
    {
        self.title = title;
        self.content = text::line_strings(content.as_str());
        self.visible = true;
    }
}

} // verus!
