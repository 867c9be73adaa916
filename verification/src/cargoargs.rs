//! Feature discovery for the build step.
//!
//! The build/install command's feature flags are assembled from three
//! sources: the feature-override environment values, the mandatory test
//! feature, and whatever `--features`, `--no-default-features` and
//! `--all-features` the user originally passed to the build tool (found by
//! walking the process tree — an outside concern that hands a flat
//! argument list in here).  Everything that decides what those arguments
//! mean, and the exact argument list handed to the install command, is
//! composed and verified here.

use vstd::prelude::*;
use vstd::string::*;

use crate::errors::FrameworkError;
use crate::strutil::{str_eq, strs_view};

verus! {

/// ASCII whitespace, as the feature-list splitter sees it.
pub open spec fn is_ascii_ws(c: char) -> bool {
    c == ' ' || c == '\t' || c == '\n' || c == '\u{c}' || c == '\r'
}

/// A separator inside a `--features` value: ASCII whitespace or a comma.
pub open spec fn is_feature_sep(c: char) -> bool {
    is_ascii_ws(c) || c == ','
}

/// One splitting step: a separator closes the current field (possibly
/// empty), any other character extends it.
pub open spec fn feature_split_scan(
    s: Seq<char>,
    i: int,
    fields: Seq<Seq<char>>,
    cur: Seq<char>,
) -> Seq<Seq<char>>
    decreases s.len() - i,
{
    if i < 0 || i >= s.len() {
        fields.push(cur)
    } else if is_feature_sep(s[i]) {
        feature_split_scan(s, i + 1, fields.push(cur), Seq::empty())
    } else {
        feature_split_scan(s, i + 1, fields, cur.push(s[i]))
    }
}

/// The fields of a `--features` value, split on whitespace and commas,
/// empty fields kept.
pub open spec fn feature_fields(s: Seq<char>) -> Seq<Seq<char>> {
    feature_split_scan(s, 0, Seq::empty(), Seq::empty())
}

/// One whitespace-splitting step: whitespace closes the current field
/// only when it is non-empty, so no empty fields arise.
pub open spec fn ws_split_scan(
    s: Seq<char>,
    i: int,
    fields: Seq<Seq<char>>,
    cur: Seq<char>,
) -> Seq<Seq<char>>
    decreases s.len() - i,
{
    if i < 0 || i >= s.len() {
        if cur.len() == 0 {
            fields
        } else {
            fields.push(cur)
        }
    } else if is_ascii_ws(s[i]) {
        ws_split_scan(
            s,
            i + 1,
            if cur.len() == 0 {
                fields
            } else {
                fields.push(cur)
            },
            Seq::empty(),
        )
    } else {
        ws_split_scan(s, i + 1, fields, cur.push(s[i]))
    }
}

/// The words of an environment override value, split on ASCII whitespace,
/// empty fields dropped.
pub open spec fn ws_fields(s: Seq<char>) -> Seq<Seq<char>> {
    ws_split_scan(s, 0, Seq::empty(), Seq::empty())
}

/// Whether `c` is ASCII whitespace.
fn char_is_ascii_ws(c: char) -> (r: bool)
    ensures
        r == is_ascii_ws(c),
{
    c == ' ' || c == '\t' || c == '\n' || c == '\u{c}' || c == '\r'
}

/// Append one character of `s` to `out`.
fn append_char_of(out: &mut String, s: &str, i: usize)
    requires
        i < s@.len(),
    ensures
        final(out)@ == old(out)@.push(s@[i as int]),
{
    let len = s.unicode_len();
    let piece = s.substring_char(i, i + 1);
    out.append(piece);
    proof {
        assert(s@.subrange(i as int, i + 1) =~= seq![s@[i as int]]);
        assert(final(out)@ =~= old(out)@.push(s@[i as int]));
    }
}

/// Split a `--features` value on whitespace and commas, keeping empty
/// fields, as the build tool's own argument splitting does.
pub fn split_feature_value(s: &str) -> (r: Vec<String>)
    ensures
        strs_view(r@) == feature_fields(s@),
{
    let len = s.unicode_len();
    let mut fields: Vec<String> = Vec::new();
    let mut cur = String::new();
    let mut i: usize = 0;
    proof {
        assert(strs_view(fields@) =~= Seq::<Seq<char>>::empty());
        assert(cur@ =~= Seq::<char>::empty());
    }
    while i < len
        invariant
            i <= len,
            len == s@.len(),
            feature_split_scan(s@, i as int, strs_view(fields@), cur@) == feature_fields(s@),
        decreases len - i,
    {
        let ghost prev_fields = strs_view(fields@);
        let ghost prev_cur = cur@;
        let c = s.get_char(i);
        if char_is_ascii_ws(c) || c == ',' {
            fields.push(cur);
            cur = String::new();
            proof {
                assert(strs_view(fields@) =~= prev_fields.push(prev_cur));
                assert(cur@ =~= Seq::<char>::empty());
            }
        } else {
            append_char_of(&mut cur, s, i);
        }
        i += 1;
    }
    let ghost prev_fields = strs_view(fields@);
    fields.push(cur);
    proof {
        assert(strs_view(fields@) =~= prev_fields.push(cur@));
    }
    fields
}

/// Split an environment override value on ASCII whitespace, dropping
/// empty fields.
pub fn split_ws_value(s: &str) -> (r: Vec<String>)
    ensures
        strs_view(r@) == ws_fields(s@),
{
    let len = s.unicode_len();
    let mut fields: Vec<String> = Vec::new();
    let mut cur = String::new();
    let mut i: usize = 0;
    proof {
        assert(strs_view(fields@) =~= Seq::<Seq<char>>::empty());
        assert(cur@ =~= Seq::<char>::empty());
    }
    while i < len
        invariant
            i <= len,
            len == s@.len(),
            ws_split_scan(s@, i as int, strs_view(fields@), cur@) == ws_fields(s@),
        decreases len - i,
    {
        let ghost prev_fields = strs_view(fields@);
        let ghost prev_cur = cur@;
        let c = s.get_char(i);
        if char_is_ascii_ws(c) {
            if cur.unicode_len() != 0 {
                fields.push(cur);
                cur = String::new();
                proof {
                    assert(strs_view(fields@) =~= prev_fields.push(prev_cur));
                    assert(cur@ =~= Seq::<char>::empty());
                }
            } else {
                proof {
                    assert(cur@ =~= Seq::<char>::empty());
                }
            }
        } else {
            append_char_of(&mut cur, s, i);
        }
        i += 1;
    }
    if cur.unicode_len() != 0 {
        let ghost prev_fields = strs_view(fields@);
        fields.push(cur);
        proof {
            assert(strs_view(fields@) =~= prev_fields.push(cur@));
        }
    }
    fields
}

/// The feature flags found in a build-tool argument list.
#[derive(Debug)]
pub struct CargoFeatures {
    /// The features of the last `--features` value, split into words.
    pub features: Vec<String>,
    /// `--no-default-features` was passed.
    pub no_default_features: bool,
    /// `--all-features` was passed.
    pub all_features: bool,
}

/// One pass over the argument list from position `i`: flags update the
/// accumulator `(features, no_default_features, all_features)`, a
/// `--features` flag consumes the following value (and fails when none
/// follows), anything else is skipped.
pub open spec fn scan_cargo_args(
    args: Seq<Seq<char>>,
    i: int,
    acc: (Seq<Seq<char>>, bool, bool),
) -> Option<(Seq<Seq<char>>, bool, bool)>
    decreases args.len() - i,
{
    if i < 0 || i >= args.len() {
        Some(acc)
    } else if args[i] == "--no-default-features"@ {
        scan_cargo_args(args, i + 1, (acc.0, true, acc.2))
    } else if args[i] == "--features"@ {
        if i + 1 >= args.len() {
            None
        } else {
            scan_cargo_args(args, i + 2, (feature_fields(args[i + 1]), acc.1, acc.2))
        }
    } else if args[i] == "--all-features"@ {
        scan_cargo_args(args, i + 1, (acc.0, acc.1, true))
    } else {
        scan_cargo_args(args, i + 1, acc)
    }
}

/// The feature flags of a whole argument list.
pub open spec fn cargo_features_model(args: Seq<Seq<char>>) -> Option<
    (Seq<Seq<char>>, bool, bool),
> {
    scan_cargo_args(args, 0, (Seq::empty(), false, false))
}

/// Read the feature flags out of the build tool's argument list.
pub fn parse_cargo_test_features(args: &Vec<String>) -> (r: Result<
    CargoFeatures,
    FrameworkError,
>)
    ensures
        match r {
            Ok(f) => cargo_features_model(strs_view(args@)) == Some(
                (strs_view(f.features@), f.no_default_features, f.all_features),
            ),
            Err(e) => cargo_features_model(strs_view(args@)) is None && e
                == FrameworkError::MissingFeatureList,
        },
{
    let ghost margs = strs_view(args@);
    let mut features: Vec<String> = Vec::new();
    let mut no_default_features = false;
    let mut all_features = false;
    let n = args.len();
    let mut i: usize = 0;
    proof {
        assert(strs_view(features@) =~= Seq::<Seq<char>>::empty());
    }
    while i < n
        invariant
            i <= n,
            n == args.len(),
            margs == strs_view(args@),
            scan_cargo_args(margs, i as int, (strs_view(features@), no_default_features, all_features))
                == cargo_features_model(margs),
        decreases n - i,
    {
        proof {
            assert(margs[i as int] == args@[i as int]@);
        }
        if str_eq(args[i].as_str(), "--no-default-features") {
            no_default_features = true;
            i += 1;
        } else if str_eq(args[i].as_str(), "--features") {
            if i + 1 >= n {
                return Err(FrameworkError::MissingFeatureList);
            }
            proof {
                assert(margs[i + 1] == args@[i + 1]@);
            }
            features = split_feature_value(args[i + 1].as_str());
            i += 2;
        } else if str_eq(args[i].as_str(), "--all-features") {
            all_features = true;
            i += 1;
        } else {
            i += 1;
        }
    }
    Ok(CargoFeatures { features, no_default_features, all_features })
}

/// The fields with later duplicates dropped: each field keeps its first
/// occurrence only.
pub open spec fn dedup_fields(fields: Seq<Seq<char>>) -> Seq<Seq<char>>
    decreases fields.len(),
{
    if fields.len() == 0 {
        fields
    } else {
        let d = dedup_fields(fields.drop_last());
        if d.contains(fields.last()) {
            d
        } else {
            d.push(fields.last())
        }
    }
}

/// Whether some string of `v` holds the characters of `s`.
pub fn vec_contains_str(v: &Vec<String>, s: &str) -> (r: bool)
    ensures
        r == strs_view(v@).contains(s@),
{
    let n = v.len();
    let mut i: usize = 0;
    while i < n
        invariant
            i <= n,
            n == v.len(),
            forall|j: int| 0 <= j < i ==> v@[j]@ != s@,
        decreases n - i,
    {
        if str_eq(v[i].as_str(), s) {
            proof {
                assert(strs_view(v@)[i as int] == s@);
            }
            return true;
        }
        i += 1;
    }
    proof {
        assert(!strs_view(v@).contains(s@)) by {
            if strs_view(v@).contains(s@) {
                let k = choose|k: int| 0 <= k < strs_view(v@).len() && strs_view(v@)[k] == s@;
                assert(v@[k]@ != s@);
            }
        }
    }
    false
}

/// The fields with later duplicates dropped.
fn dedup_strings(v: &Vec<String>) -> (r: Vec<String>)
    ensures
        strs_view(r@) == dedup_fields(strs_view(v@)),
{
    let n = v.len();
    let mut out: Vec<String> = Vec::new();
    let mut i: usize = 0;
    proof {
        assert(strs_view(v@).take(0) =~= Seq::<Seq<char>>::empty());
        assert(strs_view(out@) =~= Seq::<Seq<char>>::empty());
    }
    while i < n
        invariant
            i <= n,
            n == v.len(),
            strs_view(out@) == dedup_fields(strs_view(v@).take(i as int)),
        decreases n - i,
    {
        let ghost prev = strs_view(out@);
        proof {
            assert(strs_view(v@).take(i + 1).drop_last() =~= strs_view(v@).take(i as int));
            assert(strs_view(v@).take(i + 1).last() == v@[i as int]@);
        }
        if !vec_contains_str(&out, v[i].as_str()) {
            out.push(v[i].clone());
            proof {
                assert(strs_view(out@) =~= prev.push(v@[i as int]@));
            }
        }
        i += 1;
    }
    proof {
        assert(strs_view(v@).take(n as int) =~= strs_view(v@));
    }
    out
}

/// The feature set handed to the install command: the environment's
/// features, then the mandatory test feature, then the build-tool
/// invocation's features, first occurrences kept.
pub open spec fn merged_features_model(
    env_fields: Seq<Seq<char>>,
    cargo_fields: Seq<Seq<char>>,
) -> Seq<Seq<char>> {
    dedup_fields(env_fields + seq!["pg_test"@] + cargo_fields)
}

/// Merge the environment's features, the mandatory test feature and the
/// build-tool invocation's features, dropping duplicates.
pub fn merge_features(env_features: &Vec<String>, cargo_features: &Vec<String>) -> (r: Vec<
    String,
>)
    ensures
        strs_view(r@) == merged_features_model(
            strs_view(env_features@),
            strs_view(cargo_features@),
        ),
{
    let mut combined: Vec<String> = Vec::new();
    let n = env_features.len();
    let mut i: usize = 0;
    while i < n
        invariant
            i <= n,
            n == env_features.len(),
            strs_view(combined@) == strs_view(env_features@).take(i as int),
        decreases n - i,
    {
        let ghost prev = strs_view(combined@);
        combined.push(env_features[i].clone());
        proof {
            assert(strs_view(combined@) =~= prev.push(env_features@[i as int]@));
            assert(strs_view(env_features@).take(i + 1) =~= strs_view(env_features@).take(
                i as int,
            ).push(env_features@[i as int]@));
        }
        i += 1;
    }
    let ghost before_tag = strs_view(combined@);
    combined.push("pg_test".to_owned());
    proof {
        assert(strs_view(combined@) =~= before_tag.push("pg_test"@));
    }
    let m = cargo_features.len();
    let mut j: usize = 0;
    let ghost base = strs_view(combined@);
    while j < m
        invariant
            j <= m,
            m == cargo_features.len(),
            strs_view(combined@) == base + strs_view(cargo_features@).take(j as int),
        decreases m - j,
    {
        let ghost prev = strs_view(combined@);
        combined.push(cargo_features[j].clone());
        proof {
            assert(strs_view(combined@) =~= prev.push(cargo_features@[j as int]@));
            assert(base + strs_view(cargo_features@).take(j + 1) =~= (base + strs_view(
                cargo_features@,
            ).take(j as int)).push(cargo_features@[j as int]@));
        }
        j += 1;
    }
    proof {
        assert(strs_view(combined@) =~= strs_view(env_features@) + seq!["pg_test"@] + strs_view(
            cargo_features@,
        ));
    }
    dedup_strings(&combined)
}

/// Fields joined with single spaces, no trailing separator.
pub open spec fn space_joined(fields: Seq<Seq<char>>) -> Seq<char>
    decreases fields.len(),
{
    if fields.len() == 0 {
        Seq::empty()
    } else if fields.len() == 1 {
        fields[0]
    } else {
        space_joined(fields.drop_last()) + seq![' '] + fields.last()
    }
}

/// Join fields with single spaces.
pub fn join_with_spaces(fields: &Vec<String>) -> (r: String)
    ensures
        r@ == space_joined(strs_view(fields@)),
{
    let mut out = String::new();
    let n = fields.len();
    let mut i: usize = 0;
    proof {
        reveal_strlit(" ");
        assert(strs_view(fields@).take(0) =~= Seq::<Seq<char>>::empty());
        assert(out@ =~= space_joined(strs_view(fields@).take(0)));
    }
    while i < n
        invariant
            i <= n,
            n == fields.len(),
            out@ == space_joined(strs_view(fields@).take(i as int)),
        decreases n - i,
    {
        proof {
            reveal_strlit(" ");
        }
        if i > 0 {
            out.append(" ");
        }
        out.append(fields[i].as_str());
        proof {
            assert(" "@ =~= seq![' ']);
            assert(strs_view(fields@).take(i + 1).drop_last() =~= strs_view(fields@).take(
                i as int,
            ));
            assert(strs_view(fields@).take(i + 1).last() == fields@[i as int]@);
            assert(out@ =~= space_joined(strs_view(fields@).take(i + 1)));
        }
        i += 1;
    }
    proof {
        assert(strs_view(fields@).take(n as int) =~= strs_view(fields@));
    }
    out
}

/// What the build profile adds to the argument list: nothing for the
/// debug profile under either of its names (or when unset), the release
/// flag for the release profile, and an explicit profile selection
/// otherwise.
pub open spec fn profile_args_model(profile: Seq<char>) -> Seq<Seq<char>> {
    if profile == "debug"@ || profile == "dev"@ || profile == ""@ {
        Seq::empty()
    } else if profile == "release"@ {
        seq!["--release"@]
    } else {
        seq!["--profile"@, profile]
    }
}

/// The exact argument list handed to the install command.
pub open spec fn install_args_model(
    pg_config_path: Seq<char>,
    manifest_path: Option<Seq<char>>,
    features: Seq<Seq<char>>,
    no_default_features: bool,
    all_features: bool,
    profile: Seq<char>,
    no_schema: bool,
) -> Seq<Seq<char>> {
    seq!["install"@, "--test"@, "--pg-config"@, pg_config_path] + (match manifest_path {
        Some(m) => seq!["--manifest-path"@, m],
        None => Seq::empty(),
    }) + (if features.len() > 0 {
        seq!["--features"@, space_joined(features)]
    } else {
        Seq::empty()
    }) + (if no_default_features {
        seq!["--no-default-features"@]
    } else {
        Seq::empty()
    }) + (if all_features {
        seq!["--all-features"@]
    } else {
        Seq::empty()
    }) + profile_args_model(profile) + (if no_schema {
        seq!["--no-schema"@]
    } else {
        Seq::empty()
    })
}

/// Compose the install command's argument list.
#[verifier::rlimit(60)]
pub fn install_command_args(
    pg_config_path: &str,
    manifest_path: Option<&String>,
    features: &Vec<String>,
    no_default_features: bool,
    all_features: bool,
    profile: &str,
    no_schema: bool,
) -> (r: Vec<String>)
    ensures
        strs_view(r@) == install_args_model(
            pg_config_path@,
            match manifest_path {
                Some(m) => Some(m@),
                None => None,
            },
            strs_view(features@),
            no_default_features,
            all_features,
            profile@,
            no_schema,
        ),
{
    let mut args: Vec<String> = Vec::new();
    args.push("install".to_owned());
    args.push("--test".to_owned());
    args.push("--pg-config".to_owned());
    args.push(pg_config_path.to_owned());
    match manifest_path {
        Some(m) => {
            args.push("--manifest-path".to_owned());
            args.push(m.clone());
        },
        None => {},
    }
    if features.len() > 0 {
        args.push("--features".to_owned());
        args.push(join_with_spaces(features));
    }
    if no_default_features {
        args.push("--no-default-features".to_owned());
    }
    if all_features {
        args.push("--all-features".to_owned());
    }
    let is_default_profile = str_eq(profile, "debug") || str_eq(profile, "dev") || str_eq(
        profile,
        "",
    );
    if is_default_profile {
    } else if str_eq(profile, "release") {
        args.push("--release".to_owned());
    } else {
        args.push("--profile".to_owned());
        args.push(profile.to_owned());
    }
    if no_schema {
        args.push("--no-schema".to_owned());
    }
    proof {
        assert(strs_view(args@) =~= install_args_model(
            pg_config_path@,
            match manifest_path {
                Some(m) => Some(m@),
                None => None,
            },
            strs_view(features@),
            no_default_features,
            all_features,
            profile@,
            no_schema,
        ));
    }
    args
}

/// Plan the whole install invocation: read the feature flags out of the
/// build tool's argument list, merge them with the environment's features
/// and the mandatory test feature, and compose the exact argument list —
/// or fail when a `--features` flag stands last with no value.
pub fn plan_install_args(
    pg_config_path: &str,
    manifest_path: Option<&String>,
    env_features_value: &str,
    env_no_default_features: bool,
    env_all_features: bool,
    profile: &str,
    no_schema: bool,
    cargo_args: &Vec<String>,
) -> (r: Result<Vec<String>, FrameworkError>)
    ensures
        match r {
            Ok(v) => cargo_features_model(strs_view(cargo_args@)) matches Some(cf) && strs_view(
                v@,
            ) == install_args_model(
                pg_config_path@,
                match manifest_path {
                    Some(m) => Some(m@),
                    None => None,
                },
                merged_features_model(ws_fields(env_features_value@), cf.0),
                env_no_default_features || cf.1,
                env_all_features || cf.2,
                profile@,
                no_schema,
            ),
            Err(e) => cargo_features_model(strs_view(cargo_args@)) is None && e
                == FrameworkError::MissingFeatureList,
        },
{
    let cargo_features = match parse_cargo_test_features(cargo_args) {
        Ok(f) => f,
        Err(e) => {
            return Err(e);
        },
    };
    let env_features = split_ws_value(env_features_value);
    let features = merge_features(&env_features, &cargo_features.features);
    let args = install_command_args(
        pg_config_path,
        manifest_path,
        &features,
        env_no_default_features || cargo_features.no_default_features,
        env_all_features || cargo_features.all_features,
        profile,
        no_schema,
    );
    Ok(args)
}

} // verus!
