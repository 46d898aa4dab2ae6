//! Styling of terminal output labels, done by the `colored` crate.
use vstd::prelude::*;

use colored::Colorize;

use crate::text;

verus! {

/// The escape sequence that ends styling.
pub open spec fn ansi_reset() -> Seq<char> {
    seq!['\x1b', '[', '0', 'm']
}

/// The escape sequence that starts the style with SGR parameters `code`.
pub open spec fn ansi_style(code: Seq<char>) -> Seq<char> {
    seq!['\x1b', '['] + code + seq!['m']
}

/// `r` is `label` as `colored` renders it in the style `code`: the label
/// itself when colouring is off (it is, under `NO_COLOR`, `CLICOLOR=0` or
/// without a terminal), otherwise wrapped in the style and reset sequences
/// (exactly so when the label holds no reset sequence of its own).
pub open spec fn styled(r: Seq<char>, label: Seq<char>, code: Seq<char>) -> bool {
    ||| r == label
    ||| {
        &&& text::starts_with(r, ansi_style(code))
        &&& text::ends_with(r, ansi_reset())
        &&& (!text::contains(label, ansi_reset()) ==> r == ansi_style(code) + label + ansi_reset())
    }
}

/// `label.bright_yellow().bold().to_string()` of `colored`: the label in SGR
/// style `1;93`, or unchanged when colouring is off (which depends on the
/// environment and the terminal, so the contract allows both).
#[verifier::external_body]
fn paint_bright_yellow_bold(label: &str) -> (r: String)
    ensures
        styled(r@, label@, seq!['1', ';', '9', '3']),
{
    label.bright_yellow().bold().to_string()
}

/// `label.bright_green().bold().to_string()`: SGR style `1;92`, or unchanged.
#[verifier::external_body]
fn paint_bright_green_bold(label: &str) -> (r: String)
    ensures
        styled(r@, label@, seq!['1', ';', '9', '2']),
{
    label.bright_green().bold().to_string()
}

/// `label.yellow().bold().to_string()`: SGR style `1;33`, or unchanged.
#[verifier::external_body]
fn paint_yellow_bold(label: &str) -> (r: String)
    ensures
        styled(r@, label@, seq!['1', ';', '3', '3']),
{
    label.yellow().bold().to_string()
}

/// `label.bright_green().to_string()`: SGR style `92`, or unchanged.
#[verifier::external_body]
fn paint_bright_green(label: &str) -> (r: String)
    ensures
        styled(r@, label@, seq!['9', '2']),
{
    label.bright_green().to_string()
}

/// `label.bright_yellow().to_string()`: SGR style `93`, or unchanged.
#[verifier::external_body]
fn paint_bright_yellow(label: &str) -> (r: String)
    ensures
        styled(r@, label@, seq!['9', '3']),
{
    label.bright_yellow().to_string()
}

/// `label.bright_red().bold().to_string()`: SGR style `1;91`, or unchanged.
#[verifier::external_body]
fn paint_bright_red_bold(label: &str) -> (r: String)
    ensures
        styled(r@, label@, seq!['1', ';', '9', '1']),
{
    label.bright_red().bold().to_string()
}

/// An action label (bright yellow, bold).
pub fn action(label: &str) -> (r: String)
    ensures
        styled(r@, label@, seq!['1', ';', '9', '3']),
{
    paint_bright_yellow_bold(label)
}

/// A success label (bright green, bold).
pub fn success(label: &str) -> (r: String)
    ensures
        styled(r@, label@, seq!['1', ';', '9', '2']),
{
    paint_bright_green_bold(label)
}

/// A warning label (yellow, bold).
pub fn warning(label: &str) -> (r: String)
    ensures
        styled(r@, label@, seq!['1', ';', '3', '3']),
{
    paint_yellow_bold(label)
}

/// A path or name (bright green).
pub fn path(label: &str) -> (r: String)
    ensures
        styled(r@, label@, seq!['9', '2']),
{
    paint_bright_green(label)
}

/// A command to type (bright yellow).
pub fn command(label: &str) -> (r: String)
    ensures
        styled(r@, label@, seq!['9', '3']),
{
    paint_bright_yellow(label)
}

/// An error label (bright red, bold).
pub fn failure(label: &str) -> (r: String)
    ensures
        styled(r@, label@, seq!['1', ';', '9', '1']),
{
    paint_bright_red_bold(label)
}

} // verus!
