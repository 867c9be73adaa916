//! Terminal styling for diagnostic output.
//!
//! Enriched error messages and escalated failure reports colorize the
//! fields a human reads first.  The rendering itself is done by the
//! `owo-colors` crate; each styling used by the diagnostics is exposed
//! here as one trusted wrapper whose contract states the exact ANSI
//! escape framing that crate writes around the text: a style wrapper
//! emits its style code, the text, then the style reset `ESC[0m`; a
//! foreground-color wrapper emits its color code, the text, then the
//! default-foreground code `ESC[39m`.

use owo_colors::OwoColorize;
use vstd::prelude::*;

verus! {

/// The ANSI bold style code.
pub open spec fn bold_code() -> Seq<char> {
    "\u{1b}[1m"@
}

/// The ANSI dim style code.
pub open spec fn dim_code() -> Seq<char> {
    "\u{1b}[2m"@
}

/// The ANSI style reset code.
pub open spec fn style_reset_code() -> Seq<char> {
    "\u{1b}[0m"@
}

/// The ANSI red foreground code.
pub open spec fn fg_red_code() -> Seq<char> {
    "\u{1b}[31m"@
}

/// The ANSI yellow foreground code.
pub open spec fn fg_yellow_code() -> Seq<char> {
    "\u{1b}[33m"@
}

/// The ANSI cyan foreground code.
pub open spec fn fg_cyan_code() -> Seq<char> {
    "\u{1b}[36m"@
}

/// The ANSI white foreground code.
pub open spec fn fg_white_code() -> Seq<char> {
    "\u{1b}[37m"@
}

/// The ANSI default foreground code.
pub open spec fn fg_default_code() -> Seq<char> {
    "\u{1b}[39m"@
}

/// Text framed by a style code inside a foreground color: the color code,
/// the style code, the text, the style reset, the default-foreground code.
pub open spec fn color_styled(color: Seq<char>, style: Seq<char>, text: Seq<char>) -> Seq<char> {
    color + style + text + style_reset_code() + fg_default_code()
}

/// Text framed by a foreground color alone: the color code, the text, the
/// default-foreground code.
pub open spec fn color_plain(color: Seq<char>, text: Seq<char>) -> Seq<char> {
    color + text + fg_default_code()
}

/// Relies on owo_colors: `s.bold().red()` displays as the red foreground
/// code, the bold code, `s`, the style reset, the default-foreground code.
#[verifier::external_body]
pub fn style_bold_red(s: &str) -> (r: String)
    ensures
        r@ == color_styled(fg_red_code(), bold_code(), s@),
{
    format!("{}", s.bold().red())
}

/// Relies on owo_colors: `s.bold().white()` displays as the white
/// foreground code, the bold code, `s`, the style reset, the
/// default-foreground code.
#[verifier::external_body]
pub fn style_bold_white(s: &str) -> (r: String)
    ensures
        r@ == color_styled(fg_white_code(), bold_code(), s@),
{
    format!("{}", s.bold().white())
}

/// Relies on owo_colors: `s.dimmed().white()` displays as the white
/// foreground code, the dim code, `s`, the style reset, the
/// default-foreground code.
#[verifier::external_body]
pub fn style_dimmed_white(s: &str) -> (r: String)
    ensures
        r@ == color_styled(fg_white_code(), dim_code(), s@),
{
    format!("{}", s.dimmed().white())
}

/// Relies on owo_colors: `s.cyan()` displays as the cyan foreground code,
/// `s`, the default-foreground code.
#[verifier::external_body]
pub fn style_cyan(s: &str) -> (r: String)
    ensures
        r@ == color_plain(fg_cyan_code(), s@),
{
    format!("{}", s.cyan())
}

/// Relies on owo_colors: `s.yellow()` displays as the yellow foreground
/// code, `s`, the default-foreground code.
#[verifier::external_body]
pub fn style_yellow(s: &str) -> (r: String)
    ensures
        r@ == color_plain(fg_yellow_code(), s@),
{
    format!("{}", s.yellow())
}

} // verus!
