//! The build driver's command line: the options this library reads from
//! it, the arguments it runs the driver with, and what follows the driver's
//! exit.

use crate::listing::{copy_range, tokens, tokens_of, views};
use crate::text::{chars_of, has_prefix, same_chars, starts_with, string_of};
use vstd::prelude::*;

verus! {

/// The feature selection of a build.
#[derive(Debug)]
pub struct Features {
    pub all_features: bool,
    pub no_default_features: bool,
    pub features: Vec<String>,
}

/// The options of a `build` command line that this library reads; others
/// are passed through untouched.
#[derive(Debug)]
pub struct CargoBuild {
    pub target: Option<String>,
    pub message_format: Option<String>,
    pub features: Features,
}

/// Why a `build` command line was refused.
#[derive(Debug, Clone, PartialEq, Eq)]
pub enum ArgsError {
    /// The option, which takes a value, ends the command line.
    MissingValue(String),
}

/// The options read so far from a command line.
pub struct ScanState {
    pub target: Option<Seq<char>>,
    pub message_format: Option<Seq<char>>,
    pub features: Seq<Seq<char>>,
    pub all_features: bool,
    pub no_default_features: bool,
}

/// No option read yet.
pub open spec fn scan_start() -> ScanState {
    ScanState {
        target: None,
        message_format: None,
        features: Seq::empty(),
        all_features: false,
        no_default_features: false,
    }
}

/// `a` without its first `n` characters.
pub open spec fn after(a: Seq<char>, n: nat) -> Seq<char> {
    a.subrange(n as int, a.len() as int)
}

/// The options of `args[i..]`, added to `st`: `--target`, `--message-format`
/// and `--features` take a value (the next argument, or after `=`; the last
/// given counts, and the features add up, split on whitespace);
/// `--all-features` and `--no-default-features` are flags; `--` ends the
/// options; anything else is skipped. An option that needs a value and ends
/// the line is the error.
pub open spec fn scan(args: Seq<Seq<char>>, i: int, st: ScanState) -> Result<ScanState, Seq<char>>
    decreases args.len() - i,
{
    if i < 0 || i >= args.len() {
        Ok(st)
    } else {
        let a = args[i];
        if a == "--"@ {
            Ok(st)
        } else if a == "--target"@ {
            if i + 1 < args.len() {
                scan(args, i + 2, ScanState { target: Some(args[i + 1]), ..st })
            } else {
                Err(a)
            }
        } else if has_prefix(a, "--target="@) {
            scan(args, i + 1, ScanState { target: Some(after(a, "--target="@.len())), ..st })
        } else if a == "--message-format"@ {
            if i + 1 < args.len() {
                scan(args, i + 2, ScanState { message_format: Some(args[i + 1]), ..st })
            } else {
                Err(a)
            }
        } else if has_prefix(a, "--message-format="@) {
            scan(
                args,
                i + 1,
                ScanState { message_format: Some(after(a, "--message-format="@.len())), ..st },
            )
        } else if a == "--features"@ {
            if i + 1 < args.len() {
                scan(args, i + 2, ScanState { features: st.features + tokens_of(args[i + 1]), ..st })
            } else {
                Err(a)
            }
        } else if has_prefix(a, "--features="@) {
            scan(
                args,
                i + 1,
                ScanState {
                    features: st.features + tokens_of(after(a, "--features="@.len())),
                    ..st
                },
            )
        } else if a == "--all-features"@ {
            scan(args, i + 1, ScanState { all_features: true, ..st })
        } else if a == "--no-default-features"@ {
            scan(args, i + 1, ScanState { no_default_features: true, ..st })
        } else {
            scan(args, i + 1, st)
        }
    }
}

/// The view of optional strings.
pub open spec fn opt_seq(s: Option<String>) -> Option<Seq<char>> {
    match s {
        Some(t) => Some(t@),
        None => None,
    }
}

impl CargoBuild {
    /// What this command line's options say.
    pub open spec fn scanned(&self) -> ScanState {
        ScanState {
            target: opt_seq(self.target),
            message_format: opt_seq(self.message_format),
            features: views(self.features.features@),
            all_features: self.features.all_features,
            no_default_features: self.features.no_default_features,
        }
    }

    /// Reads the options of the `build` command line `args`, whose first
    /// element is the command's own name.
    pub fn try_parse_from(args: &Vec<String>) -> (r: Result<CargoBuild, ArgsError>)
        ensures
            match scan(views(args@), 1, scan_start()) {
                Ok(st) => r is Ok && r->Ok_0.scanned() == st,
                Err(opt) => r is Err && r->Err_0->MissingValue_0@ == opt,
            },
    {
        let ghost all = views(args@);
        let dashes = chars_of("--");
        let target = chars_of("--target");
        let target_eq = chars_of("--target=");
        let format = chars_of("--message-format");
        let format_eq = chars_of("--message-format=");
        let features = chars_of("--features");
        let features_eq = chars_of("--features=");
        let all_features = chars_of("--all-features");
        let no_default = chars_of("--no-default-features");
        let mut cur = CargoBuild {
            target: None,
            message_format: None,
            features: Features { all_features: false, no_default_features: false, features: Vec::new() },
        };
        assert(cur.scanned() =~= scan_start()) by {
            assert(views(cur.features.features@) =~= Seq::<Seq<char>>::empty());
        }
        let mut i: usize = 1;
        while i < args.len()
            invariant
                all == views(args@),
                1 <= i,
                scan(all, 1, scan_start()) == scan(all, i as int, cur.scanned()),
                dashes@ == "--"@,
                target@ == "--target"@,
                target_eq@ == "--target="@,
                format@ == "--message-format"@,
                format_eq@ == "--message-format="@,
                features@ == "--features"@,
                features_eq@ == "--features="@,
                all_features@ == "--all-features"@,
                no_default@ == "--no-default-features"@,
            decreases args.len() - i,
        {
            let a = chars_of(args[i].as_str());
            let ghost st = cur.scanned();
            assert(all[i as int] == a@);
            if same_chars(&a, &dashes) {
                return Ok(cur);
            } else if same_chars(&a, &target) {
                if i + 1 < args.len() {
                    cur.target = Some(args[i + 1].clone());
                    assert(cur.scanned() == ScanState { target: Some(all[i + 1]), ..st });
                    i = i + 2;
                } else {
                    return Err(ArgsError::MissingValue(args[i].clone()));
                }
            } else if starts_with(&a, &target_eq) {
                let mut v: Vec<char> = Vec::new();
                copy_range(&a, target_eq.len(), a.len(), &mut v);
                assert(v@ =~= after(a@, "--target="@.len()));
                cur.target = Some(string_of(&v));
                assert(cur.scanned() == ScanState { target: Some(after(a@, "--target="@.len())), ..st });
                i = i + 1;
            } else if same_chars(&a, &format) {
                if i + 1 < args.len() {
                    cur.message_format = Some(args[i + 1].clone());
                    assert(cur.scanned() == ScanState { message_format: Some(all[i + 1]), ..st });
                    i = i + 2;
                } else {
                    return Err(ArgsError::MissingValue(args[i].clone()));
                }
            } else if starts_with(&a, &format_eq) {
                let mut v: Vec<char> = Vec::new();
                copy_range(&a, format_eq.len(), a.len(), &mut v);
                assert(v@ =~= after(a@, "--message-format="@.len()));
                cur.message_format = Some(string_of(&v));
                assert(cur.scanned() == ScanState {
                    message_format: Some(after(a@, "--message-format="@.len())),
                    ..st
                });
                i = i + 1;
            } else if same_chars(&a, &features) {
                if i + 1 < args.len() {
                    let value = chars_of(args[i + 1].as_str());
                    let mut toks = tokens(&value);
                    let ghost before = cur.features.features@;
                    cur.features.features.append(&mut toks);
                    assert(views(cur.features.features@) =~= views(before) + tokens_of(all[i + 1]));
                    assert(cur.scanned() =~= ScanState {
                        features: st.features + tokens_of(all[i + 1]),
                        ..st
                    });
                    i = i + 2;
                } else {
                    return Err(ArgsError::MissingValue(args[i].clone()));
                }
            } else if starts_with(&a, &features_eq) {
                let mut v: Vec<char> = Vec::new();
                copy_range(&a, features_eq.len(), a.len(), &mut v);
                assert(v@ =~= after(a@, "--features="@.len()));
                let mut toks = tokens(&v);
                let ghost before = cur.features.features@;
                cur.features.features.append(&mut toks);
                assert(views(cur.features.features@) =~= views(before) + tokens_of(
                    after(a@, "--features="@.len()),
                ));
                assert(cur.scanned() =~= ScanState {
                    features: st.features + tokens_of(after(a@, "--features="@.len())),
                    ..st
                });
                i = i + 1;
            } else if same_chars(&a, &all_features) {
                cur.features.all_features = true;
                assert(cur.scanned() == ScanState { all_features: true, ..st });
                i = i + 1;
            } else if same_chars(&a, &no_default) {
                cur.features.no_default_features = true;
                assert(cur.scanned() == ScanState { no_default_features: true, ..st });
                i = i + 1;
            } else {
                i = i + 1;
            }
        }
        Ok(cur)
    }
}

/// Why a build could not be started.
#[derive(Debug, Clone, PartialEq, Eq)]
pub enum PlanError {
    Args(ArgsError),
    /// A message format was asked for that is not one of the JSON ones; it
    /// holds the format.
    MessageFormat(String),
}

/// How to run the build driver.
#[derive(Debug)]
pub struct BuildPlan {
    /// The options read from the caller's arguments.
    pub options: CargoBuild,
    /// The driver's arguments: `build`, the caller's, and the JSON message
    /// format unless the caller chose one.
    pub args: Vec<String>,
    /// Whether the caller chose a message format, and so wants the driver's
    /// messages echoed.
    pub echo_messages: bool,
}

/// The driver's arguments: `build`, then `user`, then the JSON message format
/// where `forced`.
pub open spec fn driver_args(user: Seq<Seq<char>>, forced: bool) -> Seq<Seq<char>> {
    let base = seq!["build"@] + user;
    if forced {
        base.push("--message-format=json"@)
    } else {
        base
    }
}

/// Plans a build run with the caller's arguments `build_args`: reads the
/// options, refuses a message format that is not a JSON one, and asks for
/// JSON messages where the caller chose no format.
pub fn plan_build(build_args: &Vec<String>) -> (r: Result<BuildPlan, PlanError>)
    ensures
        match scan(driver_args(views(build_args@), false), 1, scan_start()) {
            Err(opt) => r is Err && r->Err_0 is Args && r->Err_0->Args_0->MissingValue_0@ == opt,
            Ok(st) => match st.message_format {
                Some(m) => if has_prefix(m, "json"@) {
                    &&& r is Ok
                    &&& r->Ok_0.options.scanned() == st
                    &&& views(r->Ok_0.args@) == driver_args(views(build_args@), false)
                    &&& r->Ok_0.echo_messages
                } else {
                    r is Err && r->Err_0 is MessageFormat && r->Err_0->MessageFormat_0@ == m
                },
                None => {
                    &&& r is Ok
                    &&& r->Ok_0.options.scanned() == st
                    &&& views(r->Ok_0.args@) == driver_args(views(build_args@), true)
                    &&& !r->Ok_0.echo_messages
                },
            },
        },
{
    let mut args: Vec<String> = Vec::new();
    args.push(String::from_str("build"));
    let mut i: usize = 0;
    while i < build_args.len()
        invariant
            i <= build_args.len(),
            views(args@) == seq!["build"@] + views(build_args@).subrange(0, i as int),
        decreases build_args.len() - i,
    {
        let ghost before = views(args@);
        args.push(build_args[i].clone());
        assert(views(args@) =~= before.push(build_args@[i as int]@));
        assert(views(build_args@).subrange(0, i as int + 1) =~= views(build_args@).subrange(0, i as int).push(build_args@[i as int]@));
        assert(views(args@) =~= seq!["build"@] + views(build_args@).subrange(0, i as int + 1));
        i = i + 1;
    }
    assert(views(args@) =~= driver_args(views(build_args@), false));
    let options = match CargoBuild::try_parse_from(&args) {
        Ok(o) => o,
        Err(e) => return Err(PlanError::Args(e)),
    };
    match &options.message_format {
        Some(m) => {
            let mc = chars_of(m.as_str());
            let json = chars_of("json");
            if !starts_with(&mc, &json) {
                return Err(PlanError::MessageFormat(m.clone()));
            }
            Ok(BuildPlan { options, args, echo_messages: true })
        },
        None => {
            let ghost before = views(args@);
            args.push(String::from_str("--message-format=json"));
            assert(views(args@) =~= before.push("--message-format=json"@));
            Ok(BuildPlan { options, args, echo_messages: false })
        },
    }
}

/// What follows the build driver's exit.
#[derive(Clone, Copy, Debug, PartialEq, Eq, Structural)]
pub enum BuildOutcome {
    /// The build succeeded: write a document for each binary.
    WriteDocuments,
    /// The build failed: write nothing and exit with this code.
    Exit(i32),
}

/// What follows a build driver exit that `success` tells, with exit code
/// `code` where the driver reported one: on failure, the driver's own code
/// (1 where it gave none), and no document.
pub fn after_build(success: bool, code: Option<i32>) -> (r: BuildOutcome)
    ensures
        success ==> r == BuildOutcome::WriteDocuments,
        !success ==> r == BuildOutcome::Exit(
            match code {
                Some(c) => c,
                None => 1,
            },
        ),
{
    if success {
        BuildOutcome::WriteDocuments
    } else {
        match code {
            Some(c) => BuildOutcome::Exit(c),
            None => BuildOutcome::Exit(1),
        }
    }
}

} // verus!
