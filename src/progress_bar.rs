//! Progress bar appearance: the template, bar characters and first message
//! handed to the progress display.
use vstd::prelude::*;
use crate::options::CopyOptions;
use crate::text::{decimal, decimal_text, same_text};

verus! {

#[derive(Clone, Copy, Debug, PartialEq, Eq, Structural)]
pub enum ProgressBarStyle {
    Default,
    Detailed,
}

/// Appearance of the progress bar.
#[derive(Clone, Debug)]
pub struct ProgressOptions {
    pub style: ProgressBarStyle,
    pub filled: String,
    pub empty: String,
    pub head: String,
    pub bar_color: String,
    pub message_color: String,
}

/// The colours a template placeholder may carry.
pub open spec fn is_known_color(c: Seq<char>) -> bool {
    c == "black"@ || c == "red"@ || c == "green"@ || c == "yellow"@ || c == "blue"@ || c
        == "magenta"@ || c == "cyan"@ || c == "white"@
}

pub open spec fn spec_colorize(token: Seq<char>, color: Seq<char>) -> Seq<char> {
    if is_known_color(color) {
        "{"@ + token + ":."@ + color + "}"@
    } else {
        "{"@ + token + "}"@
    }
}

/// The template placeholder `{token:.color}`, or `{token}` when the colour is
/// not one of the known ones.
pub fn colorize(token: &str, color: &str) -> (r: String)
    ensures
        r@ == spec_colorize(token@, color@),
{
    let known = same_text(color, "black") || same_text(color, "red") || same_text(color, "green")
        || same_text(color, "yellow") || same_text(color, "blue") || same_text(color, "magenta")
        || same_text(color, "cyan") || same_text(color, "white");
    let mut r = String::from_str("{");
    r.append(token);
    if known {
        r.append(":.");
        r.append(color);
    }
    r.append("}");
    r
}

pub open spec fn spec_template(o: ProgressOptions) -> Seq<char> {
    let msg = spec_colorize("msg"@, o.message_color@);
    let bar = spec_colorize("wide_bar"@, o.bar_color@);
    match o.style {
        ProgressBarStyle::Default => msg + " {percent}% "@ + bar + " ETA:{eta_precise}"@,
        ProgressBarStyle::Detailed => msg + " "@ + bar
            + " {percent:>3}% • {binary_bytes}/{binary_total_bytes} • {binary_bytes_per_sec} • Elapsed: {elapsed_precise} • ETA:{eta_precise}"@,
    }
}

pub open spec fn spec_initial_message(o: ProgressOptions, total_files: usize) -> Seq<char> {
    match o.style {
        ProgressBarStyle::Detailed => "Copying: 0/"@ + decimal(total_files as nat) + " files"@,
        _ => "Copying"@,
    }
}

impl ProgressOptions {
    /// The display template for the bar.
    pub fn template(&self) -> (r: String)
        ensures
            r@ == spec_template(*self),
    {
        let mut r = colorize("msg", self.message_color.as_str());
        let bar = colorize("wide_bar", self.bar_color.as_str());
        match self.style {
            ProgressBarStyle::Default => {
                r.append(" {percent}% ");
                r.append(bar.as_str());
                r.append(" ETA:{eta_precise}");
            },
            ProgressBarStyle::Detailed => {
                r.append(" ");
                r.append(bar.as_str());
                r.append(
                    " {percent:>3}% • {binary_bytes}/{binary_total_bytes} • {binary_bytes_per_sec} • Elapsed: {elapsed_precise} • ETA:{eta_precise}",
                );
            },
        }
        r
    }

    /// The bar characters: filled, head, then empty.
    pub fn progress_chars(&self) -> (r: String)
        ensures
            r@ == self.filled@ + self.head@ + self.empty@,
    {
        let mut r = self.filled.clone();
        r.append(self.head.as_str());
        r.append(self.empty.as_str());
        r
    }

    /// The message shown before any file is done.
    pub fn initial_message(&self, total_files: usize) -> (r: String)
        ensures
            r@ == spec_initial_message(*self, total_files),
    {
        match self.style {
            ProgressBarStyle::Detailed => {
                let mut r = String::from_str("Copying: 0/");
                let n = decimal_text(total_files);
                r.append(n.as_str());
                r.append(" files");
                r
            },
            _ => String::from_str("Copying"),
        }
    }
}

/// A run shows a progress bar when it has files to transfer, is not
/// interactive (prompts would interleave with it) and moves content.
pub fn shows_progress_bar(total_files: usize, o: &CopyOptions) -> (r: bool)
    ensures
        r == (total_files >= 1 && !o.interactive && !o.attributes_only),
{
    total_files >= 1 && !o.interactive && !o.attributes_only
}

pub open spec fn spec_finish_message(style: ProgressBarStyle, attributes_only: bool, total_files: usize) -> Seq<char> {
    if style == ProgressBarStyle::Detailed && !attributes_only {
        "Copied "@ + decimal(total_files as nat) + " files successfully"@
    } else {
        "Done"@
    }
}

/// The message the progress bar ends with after a successful run.
pub fn finish_message(style: ProgressBarStyle, attributes_only: bool, total_files: usize) -> (r: String)
    ensures
        r@ == spec_finish_message(style, attributes_only, total_files),
{
    if matches!(style, ProgressBarStyle::Detailed) && !attributes_only {
        let mut r = String::from_str("Copied ");
        let n = decimal_text(total_files);
        r.append(n.as_str());
        r.append(" files successfully");
        r
    } else {
        String::from_str("Done")
    }
}

impl Default for ProgressOptions {
    fn default() -> (r: ProgressOptions)
        ensures
            r.style == ProgressBarStyle::Default,
            r.filled@ == "█"@,
            r.empty@ == "░"@,
            r.head@ == "░"@,
            r.bar_color@ == "white"@,
            r.message_color@ == "white"@,
    {
        ProgressOptions {
            style: ProgressBarStyle::Default,
            filled: String::from_str("█"),
            empty: String::from_str("░"),
            head: String::from_str("░"),
            bar_color: String::from_str("white"),
            message_color: String::from_str("white"),
        }
    }
}

} // verus!
