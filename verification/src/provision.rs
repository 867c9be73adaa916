//! Provisioning the test database, its roles and the extension under test.
//!
//! The statements the bootstrap and the driver issue are composed here, as
//! is the one inspection the database-drop step makes of its tool's error
//! output: a drop may fail because the database never existed, and only
//! that failure is tolerated.

use vstd::prelude::*;
use vstd::string::*;

use crate::strutil::{is_substring_of, str_contains};

verus! {

/// The name of the shared test database.
pub fn test_dbname() -> (r: &'static str)
    ensures
        r@ == "pgrx_tests"@,
{
    "pgrx_tests"
}

/// The statement that installs the extension under test.
pub fn create_extension_statement(extension_name: &str) -> (r: String)
    ensures
        r@ == "CREATE EXTENSION "@ + extension_name@ + " CASCADE;"@,
{
    let mut out = "CREATE EXTENSION ".to_owned();
    out.append(extension_name);
    out.append(" CASCADE;");
    out
}

/// The statement that looks the shared low-privilege role up.
pub fn role_lookup_statement() -> (r: &'static str)
    ensures
        r@ == "SELECT rolname FROM pg_roles WHERE rolname = 'pgrx'"@,
{
    "SELECT rolname FROM pg_roles WHERE rolname = 'pgrx'"
}

/// The statement that creates the shared low-privilege role, issued when
/// the lookup found none.
pub fn role_create_statement() -> (r: &'static str)
    ensures
        r@ == "CREATE ROLE pgrx WITH NOSUPERUSER LOGIN"@,
{
    "CREATE ROLE pgrx WITH NOSUPERUSER LOGIN"
}

/// The statement that relaxes the shared role's privileges, issued when
/// the lookup found it already present.
pub fn role_relax_statement() -> (r: &'static str)
    ensures
        r@ == "ALTER ROLE pgrx WITH NOSUPERUSER LOGIN"@,
{
    "ALTER ROLE pgrx WITH NOSUPERUSER LOGIN"
}

/// The statement that grants the shared role its schema usage.
pub fn role_grant_statement() -> (r: &'static str)
    ensures
        r@ == "GRANT USAGE ON SCHEMA auth TO pgrx"@,
{
    "GRANT USAGE ON SCHEMA auth TO pgrx"
}

/// The drop tool's complaint when the database to drop never existed.
pub open spec fn missing_db_complaint_chars(dbname: Seq<char>) -> Seq<char> {
    "ERROR:  database \""@ + dbname + "\" does not exist"@
}

/// Whether a failed drop is tolerable: its error output says the database
/// did not exist, which is fine — there was nothing to drop.
pub fn dropdb_failure_is_expected(stderr: &str, dbname: &str) -> (r: bool)
    ensures
        r == is_substring_of(missing_db_complaint_chars(dbname@), stderr@),
{
    let mut needle = "ERROR:  database \"".to_owned();
    needle.append(dbname);
    needle.append("\" does not exist");
    str_contains(stderr, needle.as_str())
}

/// The extension's library name with every dash replaced by an
/// underscore, as the extension is named inside the database.
pub fn normalize_extension_name(lib_name: &str) -> (r: String)
    ensures
        r@ == lib_name@.map_values(
            |c: char|
                if c == '-' {
                    '_'
                } else {
                    c
                },
        ),
{
    let ghost target = lib_name@.map_values(
        |c: char|
            if c == '-' {
                '_'
            } else {
                c
            },
    );
    let len = lib_name.unicode_len();
    let mut out = String::new();
    let mut i: usize = 0;
    proof {
        assert(out@ =~= target.take(0));
    }
    while i < len
        invariant
            i <= len,
            len == lib_name@.len(),
            target == lib_name@.map_values(
                |c: char|
                    if c == '-' {
                        '_'
                    } else {
                        c
                    },
            ),
            out@ == target.take(i as int),
        decreases len - i,
    {
        let ghost prev = out@;
        let c = lib_name.get_char(i);
        if c == '-' {
            out.append("_");
            proof {
                reveal_strlit("_");
                assert(out@ =~= prev.push('_'));
            }
        } else {
            let piece = lib_name.substring_char(i, i + 1);
            out.append(piece);
            proof {
                assert(lib_name@.subrange(i as int, i + 1) =~= seq![lib_name@[i as int]]);
                assert(out@ =~= prev.push(lib_name@[i as int]));
            }
        }
        proof {
            assert(target.take(i + 1) =~= target.take(i as int).push(target[i as int]));
        }
        i += 1;
    }
    proof {
        assert(target.take(len as int) =~= target);
    }
    out
}

} // verus!
