//! Structured database errors and the enrichment wrapper's message.
//!
//! A failed call that carries a structured server error is decorated with
//! a multi-line diagnostic combining severity, error code, message, the
//! literal query text and parameter list, and — only when the caller asks
//! for verbose diagnostics — the extended fields.  The composition is
//! exact: every byte of the enriched message is pinned down, including the
//! styling escape codes around the fields a human reads first.

use vstd::prelude::*;
use vstd::string::*;

use crate::ansi::{
    bold_code, color_styled, fg_default_code, fg_red_code, fg_white_code, style_bold_red,
    style_bold_white, style_reset_code,
};
use crate::strutil::{is_substring_of, lemma_contains_at_offset};

verus! {

/// The machine-readable fields of a structured server error, as a plain
/// value the verified diagnostics can read.
pub struct StructuredDbError {
    /// Severity tag, e.g. `ERROR`.
    pub severity: String,
    /// Five-character SQLSTATE code, e.g. `42601`.
    pub code: String,
    /// Primary human-readable message.
    pub message: String,
    /// Optional secondary detail.
    pub detail: Option<String>,
    /// Optional hint.
    pub hint: Option<String>,
    /// Optional schema name.
    pub schema: Option<String>,
    /// Optional table name.
    pub table: Option<String>,
    /// Optional server-side source position of the error.
    pub server_location: Option<String>,
    /// Optional context of where the error arose.
    pub where_context: Option<String>,
}

/// The characters of an optional field, with `None` spelled out.
pub open spec fn opt_chars(o: Option<Seq<char>>) -> Seq<char> {
    match o {
        Some(t) => t,
        None => "None"@,
    }
}

/// The view of an optional owned string.
pub open spec fn opt_view(o: Option<String>) -> Option<Seq<char>> {
    match o {
        Some(s) => Some(s@),
        None => None,
    }
}

/// The verbose tail of an enriched message: detail, hint, schema and
/// table, each on its own line, absent fields spelled `None`.
pub open spec fn extended_fields_chars(
    detail: Option<Seq<char>>,
    hint: Option<Seq<char>>,
    schema: Option<Seq<char>>,
    table: Option<Seq<char>>,
) -> Seq<char> {
    "\ndetail: "@ + opt_chars(detail) + "\nhint: "@ + opt_chars(hint) + "\nschema: "@ + opt_chars(
        schema,
    ) + "\ntable: "@ + opt_chars(table)
}

/// The whole enriched diagnostic for a structured error: a bold red
/// heading with severity and SQLSTATE code, the bold white message, the
/// literal query and parameter list, and the extended fields when verbose
/// diagnostics were requested.
pub open spec fn enriched_message_chars(
    severity: Seq<char>,
    code: Seq<char>,
    message: Seq<char>,
    query: Seq<char>,
    params_text: Option<Seq<char>>,
    verbose: bool,
    detail: Option<Seq<char>>,
    hint: Option<Seq<char>>,
    schema: Option<Seq<char>>,
    table: Option<Seq<char>>,
) -> Seq<char> {
    color_styled(fg_red_code(), bold_code(), severity + " SQLSTATE["@ + code + "]"@) + ": "@
        + color_styled(fg_white_code(), bold_code(), message) + "\nquery: "@ + color_styled(
        fg_white_code(),
        bold_code(),
        query,
    ) + "\nparams: "@ + opt_chars(params_text) + if verbose {
        extended_fields_chars(detail, hint, schema, table)
    } else {
        Seq::empty()
    }
}

/// Append an optional field to `out`, spelling absence as `None`.
fn append_opt(out: &mut String, o: &Option<String>)
    ensures
        final(out)@ == old(out)@ + opt_chars(opt_view(*o)),
{
    match o {
        Some(s) => out.append(s.as_str()),
        None => {
            out.append("None");
            proof {
                reveal_strlit("None");
            }
        },
    }
}

/// Compose the enriched diagnostic for a failed call whose cause is the
/// structured error `e`, given the literal query text, the rendered
/// parameter list (absent when the call had none), and whether verbose
/// diagnostics were requested.
pub fn compose_enriched_message(
    e: &StructuredDbError,
    query: &str,
    params_text: Option<&String>,
    verbose: bool,
) -> (r: String)
    ensures
        r@ == enriched_message_chars(
            e.severity@,
            e.code@,
            e.message@,
            query@,
            match params_text {
                Some(p) => Some(p@),
                None => None,
            },
            verbose,
            opt_view(e.detail),
            opt_view(e.hint),
            opt_view(e.schema),
            opt_view(e.table),
        ),
{
    let mut heading = String::new();
    heading.append(e.severity.as_str());
    heading.append(" SQLSTATE[");
    heading.append(e.code.as_str());
    heading.append("]");
    let mut out = style_bold_red(heading.as_str());
    out.append(": ");
    let styled_message = style_bold_white(e.message.as_str());
    out.append(styled_message.as_str());
    out.append("\nquery: ");
    let styled_query = style_bold_white(query);
    out.append(styled_query.as_str());
    out.append("\nparams: ");
    match params_text {
        Some(p) => out.append(p.as_str()),
        None => {
            out.append("None");
            proof {
                reveal_strlit("None");
            }
        },
    }
    if verbose {
        out.append("\ndetail: ");
        append_opt(&mut out, &e.detail);
        out.append("\nhint: ");
        append_opt(&mut out, &e.hint);
        out.append("\nschema: ");
        append_opt(&mut out, &e.schema);
        out.append("\ntable: ");
        append_opt(&mut out, &e.table);
    }
    proof {
        assert(out@ =~= enriched_message_chars(
            e.severity@,
            e.code@,
            e.message@,
            query@,
            match params_text {
                Some(p) => Some(p@),
                None => None,
            },
            verbose,
            opt_view(e.detail),
            opt_view(e.hint),
            opt_view(e.schema),
            opt_view(e.table),
        ));
    }
    out
}

/// Round-trip of the structured fields: the enriched message holds the
/// severity, the SQLSTATE code, the primary message and the query text
/// verbatim, whatever the other inputs are.
pub proof fn lemma_enriched_message_contains_fields(
    severity: Seq<char>,
    code: Seq<char>,
    message: Seq<char>,
    query: Seq<char>,
    params_text: Option<Seq<char>>,
    verbose: bool,
    detail: Option<Seq<char>>,
    hint: Option<Seq<char>>,
    schema: Option<Seq<char>>,
    table: Option<Seq<char>>,
)
    ensures
        is_substring_of(
            severity,
            enriched_message_chars(
                severity,
                code,
                message,
                query,
                params_text,
                verbose,
                detail,
                hint,
                schema,
                table,
            ),
        ),
        is_substring_of(
            code,
            enriched_message_chars(
                severity,
                code,
                message,
                query,
                params_text,
                verbose,
                detail,
                hint,
                schema,
                table,
            ),
        ),
        is_substring_of(
            message,
            enriched_message_chars(
                severity,
                code,
                message,
                query,
                params_text,
                verbose,
                detail,
                hint,
                schema,
                table,
            ),
        ),
        is_substring_of(
            query,
            enriched_message_chars(
                severity,
                code,
                message,
                query,
                params_text,
                verbose,
                detail,
                hint,
                schema,
                table,
            ),
        ),
{
    let m = enriched_message_chars(
        severity,
        code,
        message,
        query,
        params_text,
        verbose,
        detail,
        hint,
        schema,
        table,
    );
    let rb = fg_red_code().len() + bold_code().len();
    let off_severity = rb;
    let off_code = rb + severity.len() + " SQLSTATE["@.len();
    let heading_styled_len = fg_red_code().len() + bold_code().len() + severity.len()
        + " SQLSTATE["@.len() + code.len() + "]"@.len() + style_reset_code().len()
        + fg_default_code().len();
    let off_message = heading_styled_len + ": "@.len() + fg_white_code().len() + bold_code().len();
    let off_query = heading_styled_len + ": "@.len() + color_styled(
        fg_white_code(),
        bold_code(),
        message,
    ).len() + "\nquery: "@.len() + fg_white_code().len() + bold_code().len();
    lemma_contains_at_offset(m, severity, off_severity as int);
    lemma_contains_at_offset(m, code, off_code as int);
    lemma_contains_at_offset(m, message, off_message as int);
    lemma_contains_at_offset(m, query, off_query as int);
}

} // verus!
