//! The task plans: for each task, the exact sequence of external command
//! invocations that it issues.
//!
//! A task function here returns the plan as data; the front end spawns the
//! commands in order and stops at the first failure.

use crate::decimal::dec_int;
use crate::decimal::i32_to_decimal;
use crate::plan::Invocation;
use crate::plan::arg_views;
use crate::plan::env_views;
use crate::plan::invocation;
use crate::plan::invokes;
use vstd::prelude::*;

verus! {

/// The configured value of an optional field, or its default.
pub open spec fn field_or<T>(field: Option<T>, default: T) -> T {
    match field {
        Option::Some(v) => v,
        Option::None => default,
    }
}

/// Options for a continuous-integration run.
pub struct CI {
    /// Run the formatting check with the nightly toolchain.
    pub nightly: bool,
    /// Turn all clippy lints on: pedantic, nursery, 2018-idioms.
    pub clippy_max: bool,
}

impl Default for CI {
    /// The default options: stable toolchain, maximum lint strictness.
    fn default() -> (c: Self)
        ensures
            c.nightly == false,
            c.clippy_max == true,
    {
        CI { nightly: false, clippy_max: true }
    }
}

/// Collects the options of a [`CI`] run one at a time; unset fields take
/// their defaults when the run is built.
pub struct CIBuilder {
    /// The configured [`CI::nightly`], if any.
    pub nightly: Option<bool>,
    /// The configured [`CI::clippy_max`], if any.
    pub clippy_max: Option<bool>,
}

impl Default for CIBuilder {
    /// A builder with every field unset.
    fn default() -> (b: Self)
        ensures
            b.nightly is None,
            b.clippy_max is None,
    {
        CIBuilder { nightly: None, clippy_max: None }
    }
}

impl CIBuilder {
    /// Sets [`CI::nightly`].
    pub fn nightly(self, value: bool) -> (b: Self)
        ensures
            b.nightly == Some(value),
            b.clippy_max == self.clippy_max,
    {
        CIBuilder { nightly: Some(value), ..self }
    }

    /// Sets [`CI::clippy_max`].
    pub fn clippy_max(self, value: bool) -> (b: Self)
        ensures
            b.nightly == self.nightly,
            b.clippy_max == Some(value),
    {
        CIBuilder { clippy_max: Some(value), ..self }
    }

    /// Builds the options, filling unset fields with their defaults.
    pub fn build(&self) -> (c: CI)
        ensures
            c.nightly == field_or(self.nightly, false),
            c.clippy_max == field_or(self.clippy_max, true),
    {
        CI {
            nightly: match self.nightly {
                Some(v) => v,
                None => false,
            },
            clippy_max: match self.clippy_max {
                Some(v) => v,
                None => true,
            },
        }
    }
}

/// The arguments of the formatting check: a nightly toolchain selector is
/// prepended exactly when `nightly` is set.
pub open spec fn fmt_check_args(nightly: bool) -> Seq<Seq<char>> {
    if nightly {
        seq!["+nightly"@, "fmt"@, "--all"@, "--"@, "--check"@]
    } else {
        seq!["fmt"@, "--all"@, "--"@, "--check"@]
    }
}

/// The arguments of the lint check: the three extra lint groups are appended
/// exactly when `clippy_max` is set.
pub open spec fn lint_args(clippy_max: bool) -> Seq<Seq<char>> {
    if clippy_max {
        seq![
            "clippy"@,
            "--"@,
            "-D"@,
            "warnings"@,
            "-W"@,
            "clippy::pedantic"@,
            "-W"@,
            "clippy::nursery"@,
            "-W"@,
            "rust-2018-idioms"@,
        ]
    } else {
        seq!["clippy"@, "--"@, "-D"@, "warnings"@]
    }
}

/// Requesting nightly mode prepends the toolchain selector to the
/// formatting-check argument list and changes nothing else.
pub proof fn lemma_nightly_prepends_toolchain()
    ensures
        fmt_check_args(true) == seq!["+nightly"@] + fmt_check_args(false),
{
    assert(fmt_check_args(true) =~= seq!["+nightly"@] + fmt_check_args(false));
}

/// Requesting maximum lint strictness appends the three extra lint groups to
/// the lint argument list and changes nothing else.
pub proof fn lemma_clippy_max_appends_lint_groups()
    ensures
        lint_args(true) == lint_args(false) + seq![
            "-W"@,
            "clippy::pedantic"@,
            "-W"@,
            "clippy::nursery"@,
            "-W"@,
            "rust-2018-idioms"@,
        ],
{
    assert(lint_args(true) =~= lint_args(false) + seq![
        "-W"@,
        "clippy::pedantic"@,
        "-W"@,
        "clippy::nursery"@,
        "-W"@,
        "rust-2018-idioms"@,
    ]);
}

impl CI {
    /// The CI plan: the formatting check, the lint check, the unit tests, and
    /// the documented-example tests, in that order.
    pub fn plan(&self) -> (p: Vec<Invocation>)
        ensures
            p@.len() == 4,
            invokes(p@[0], "cargo"@, fmt_check_args(self.nightly)),
            invokes(p@[1], "cargo"@, lint_args(self.clippy_max)),
            invokes(p@[2], "cargo"@, seq!["test"@]),
            invokes(p@[3], "cargo"@, seq!["test"@, "--doc"@]),
    {
        let mut fmt_check = invocation("cargo");
        if self.nightly {
            fmt_check.arg("+nightly");
        }
        fmt_check.arg("fmt");
        fmt_check.arg("--all");
        fmt_check.arg("--");
        fmt_check.arg("--check");
        proof {
            assert(arg_views(fmt_check.args@) =~= fmt_check_args(self.nightly));
        }

        let mut lint = invocation("cargo");
        lint.arg("clippy");
        lint.arg("--");
        lint.arg("-D");
        lint.arg("warnings");
        if self.clippy_max {
            lint.arg("-W");
            lint.arg("clippy::pedantic");
            lint.arg("-W");
            lint.arg("clippy::nursery");
            lint.arg("-W");
            lint.arg("rust-2018-idioms");
        }
        proof {
            assert(arg_views(lint.args@) =~= lint_args(self.clippy_max));
        }

        let mut tests = invocation("cargo");
        tests.arg("test");
        proof {
            assert(arg_views(tests.args@) =~= seq!["test"@]);
        }

        let mut doc_tests = invocation("cargo");
        doc_tests.arg("test");
        doc_tests.arg("--doc");
        proof {
            assert(arg_views(doc_tests.args@) =~= seq!["test"@, "--doc"@]);
        }

        let mut p: Vec<Invocation> = Vec::new();
        p.push(fmt_check);
        p.push(lint);
        p.push(tests);
        p.push(doc_tests);
        p
    }
}

/// The plan of a typical CI run with the default options: `fmt`, `clippy`,
/// and tests.
pub fn ci() -> (p: Vec<Invocation>)
    ensures
        p@.len() == 4,
        invokes(p@[0], "cargo"@, fmt_check_args(false)),
        invokes(p@[1], "cargo"@, lint_args(true)),
        invokes(p@[2], "cargo"@, seq!["test"@]),
        invokes(p@[3], "cargo"@, seq!["test"@, "--doc"@]),
{
    CIBuilder::default().build().plan()
}

/// Options for a feature-powerset test run.
pub struct Powerset {
    /// How many features are combined at most in one tested combination.
    pub depth: i32,
    /// Skip the combination with no feature at all.
    pub exclude_no_default_features: bool,
}

impl Default for Powerset {
    /// The default options: depth two, every combination included.
    fn default() -> (p: Self)
        ensures
            p.depth == 2,
            p.exclude_no_default_features == false,
    {
        Powerset { depth: 2, exclude_no_default_features: false }
    }
}

/// Collects the options of a [`Powerset`] run one at a time; unset fields
/// take their defaults when the run is built.
pub struct PowersetBuilder {
    /// The configured [`Powerset::depth`], if any.
    pub depth: Option<i32>,
    /// The configured [`Powerset::exclude_no_default_features`], if any.
    pub exclude_no_default_features: Option<bool>,
}

impl Default for PowersetBuilder {
    /// A builder with every field unset.
    fn default() -> (b: Self)
        ensures
            b.depth is None,
            b.exclude_no_default_features is None,
    {
        PowersetBuilder { depth: None, exclude_no_default_features: None }
    }
}

impl PowersetBuilder {
    /// Sets [`Powerset::depth`].
    pub fn depth(self, value: i32) -> (b: Self)
        ensures
            b.depth == Some(value),
            b.exclude_no_default_features == self.exclude_no_default_features,
    {
        PowersetBuilder { depth: Some(value), ..self }
    }

    /// Sets [`Powerset::exclude_no_default_features`].
    pub fn exclude_no_default_features(self, value: bool) -> (b: Self)
        ensures
            b.depth == self.depth,
            b.exclude_no_default_features == Some(value),
    {
        PowersetBuilder { exclude_no_default_features: Some(value), ..self }
    }

    /// Builds the options, filling unset fields with their defaults.
    pub fn build(&self) -> (p: Powerset)
        ensures
            p.depth == field_or(self.depth, 2),
            p.exclude_no_default_features == field_or(self.exclude_no_default_features, false),
    {
        Powerset {
            depth: match self.depth {
                Some(v) => v,
                None => 2,
            },
            exclude_no_default_features: match self.exclude_no_default_features {
                Some(v) => v,
                None => false,
            },
        }
    }
}

/// The arguments shared by the three powerset invocations: workspace scope,
/// the xtask exclusion, and the depth; the no-default-features exclusion is
/// appended exactly when `exclude_no_default_features` is set.
pub open spec fn powerset_common_args(depth: int, exclude_no_default_features: bool) -> Seq<
    Seq<char>,
> {
    let base = seq![
        "--workspace"@,
        "--exclude"@,
        "xtask"@,
        "--feature-powerset"@,
        "--depth"@,
        dec_int(depth),
    ];
    if exclude_no_default_features {
        base.push("--exclude-no-default-features"@)
    } else {
        base
    }
}

/// Requesting the no-default-features exclusion appends the expected flag to
/// the shared powerset argument list and changes nothing else.
pub proof fn lemma_exclusion_appends_flag(depth: int)
    ensures
        powerset_common_args(depth, true) == powerset_common_args(depth, false).push(
            "--exclude-no-default-features"@,
        ),
{
}

impl Powerset {
    /// Appends the shared powerset arguments to `inv`.
    fn push_common_args(&self, inv: &mut Invocation)
        ensures
            final(inv).program@ == old(inv).program@,
            arg_views(final(inv).args@) == arg_views(old(inv).args@) + powerset_common_args(
                self.depth as int,
                self.exclude_no_default_features,
            ),
            final(inv).env@ == old(inv).env@,
    {
        inv.arg("--workspace");
        inv.arg("--exclude");
        inv.arg("xtask");
        inv.arg("--feature-powerset");
        inv.arg("--depth");
        inv.arg_string(i32_to_decimal(self.depth));
        if self.exclude_no_default_features {
            inv.arg("--exclude-no-default-features");
        }
        proof {
            assert(arg_views(inv.args@) =~= arg_views(old(inv).args@) + powerset_common_args(
                self.depth as int,
                self.exclude_no_default_features,
            ));
        }
    }

    /// The powerset plan: the lint check, the unit tests, and the
    /// documented-example tests, each over every feature combination up to
    /// the configured depth, in that order.
    pub fn plan(&self) -> (p: Vec<Invocation>)
        ensures
            p@.len() == 3,
            invokes(
                p@[0],
                "cargo"@,
                seq!["hack"@, "clippy"@] + powerset_common_args(
                    self.depth as int,
                    self.exclude_no_default_features,
                ) + seq!["--"@, "-D"@, "warnings"@],
            ),
            invokes(
                p@[1],
                "cargo"@,
                seq!["hack"@] + powerset_common_args(
                    self.depth as int,
                    self.exclude_no_default_features,
                ) + seq!["test"@],
            ),
            invokes(
                p@[2],
                "cargo"@,
                seq!["hack"@, "test"@] + powerset_common_args(
                    self.depth as int,
                    self.exclude_no_default_features,
                ) + seq!["--doc"@],
            ),
    {
        let ghost common = powerset_common_args(
            self.depth as int,
            self.exclude_no_default_features,
        );

        let mut lint = invocation("cargo");
        lint.arg("hack");
        lint.arg("clippy");
        self.push_common_args(&mut lint);
        lint.arg("--");
        lint.arg("-D");
        lint.arg("warnings");
        proof {
            assert(arg_views(lint.args@) =~= seq!["hack"@, "clippy"@] + common + seq![
                "--"@,
                "-D"@,
                "warnings"@,
            ]);
        }

        let mut tests = invocation("cargo");
        tests.arg("hack");
        self.push_common_args(&mut tests);
        tests.arg("test");
        proof {
            assert(arg_views(tests.args@) =~= seq!["hack"@] + common + seq!["test"@]);
        }

        let mut doc_tests = invocation("cargo");
        doc_tests.arg("hack");
        doc_tests.arg("test");
        self.push_common_args(&mut doc_tests);
        doc_tests.arg("--doc");
        proof {
            assert(arg_views(doc_tests.args@) =~= seq!["hack"@, "test"@] + common + seq!["--doc"@]);
        }

        let mut p: Vec<Invocation> = Vec::new();
        p.push(lint);
        p.push(tests);
        p.push(doc_tests);
        p
    }
}

/// The plan of a feature-powerset CI run with the default options.
pub fn powerset() -> (p: Vec<Invocation>)
    ensures
        p@.len() == 3,
        invokes(
            p@[0],
            "cargo"@,
            seq!["hack"@, "clippy"@] + powerset_common_args(2, false) + seq![
                "--"@,
                "-D"@,
                "warnings"@,
            ],
        ),
        invokes(p@[1], "cargo"@, seq!["hack"@] + powerset_common_args(2, false) + seq!["test"@]),
        invokes(
            p@[2],
            "cargo"@,
            seq!["hack"@, "test"@] + powerset_common_args(2, false) + seq!["--doc"@],
        ),
{
    PowersetBuilder::default().build().plan()
}

/// The report format that the coverage run asks the report generator for:
/// a browsable report in dev mode, a machine-readable one otherwise.
pub open spec fn coverage_report_format(devmode: bool) -> Seq<char> {
    if devmode {
        "html"@
    } else {
        "lcov"@
    }
}

/// Where the coverage run puts the generated report.
pub open spec fn coverage_report_file(devmode: bool) -> Seq<char> {
    if devmode {
        "coverage/html"@
    } else {
        "coverage/tests.lcov"@
    }
}

/// The arguments of the coverage report generator.
pub open spec fn coverage_report_args(devmode: bool) -> Seq<Seq<char>> {
    seq![
        "."@,
        "--binary-path"@,
        "./target/debug/deps"@,
        "-s"@,
        "."@,
        "-t"@,
        coverage_report_format(devmode),
        "--branch"@,
        "--ignore-not-existing"@,
        "--ignore"@,
        "../*"@,
        "--ignore"@,
        "/*"@,
        "--ignore"@,
        "xtask/*"@,
        "--ignore"@,
        "*/src/tests/*"@,
        "-o"@,
        coverage_report_file(devmode),
    ]
}

/// The plan of a coverage run: what the front end removes and recreates,
/// spawns, cleans up, and offers to open, in that order.
pub struct CoveragePlan {
    /// The directory removed and recreated before the run.
    pub output_dir: String,
    /// The instrumented test run, with its environment variables.
    pub test_run: Invocation,
    /// The report-generator invocation.
    pub report_run: Invocation,
    /// The glob pattern of the temporary profile files removed afterwards.
    pub cleanup_glob: String,
    /// Where the generated report lands.
    pub report_file: String,
    /// Whether the operator is offered to open the report afterwards.
    pub offer_open: bool,
    /// The command that opens the report when the operator confirms.
    pub open_run: Invocation,
}

/// The coverage plan: instrumented tests, report generation into a fresh
/// output directory, profile-file cleanup, and in dev mode an offer to open
/// the report.
pub fn coverage(devmode: bool) -> (p: CoveragePlan)
    ensures
        p.output_dir@ == "coverage"@,
        p.test_run.program@ == "cargo"@,
        arg_views(p.test_run.args@) == seq!["test"@],
        env_views(p.test_run.env@) == seq![
            ("CARGO_INCREMENTAL"@, "0"@),
            ("RUSTFLAGS"@, "-Cinstrument-coverage"@),
            ("LLVM_PROFILE_FILE"@, "cargo-test-%p-%m.profraw"@),
        ],
        invokes(p.report_run, "grcov"@, coverage_report_args(devmode)),
        p.cleanup_glob@ == "**/*.profraw"@,
        p.report_file@ == coverage_report_file(devmode),
        p.offer_open == devmode,
        invokes(p.open_run, "open"@, seq![coverage_report_file(devmode)]),
{
    let mut test_run = invocation("cargo");
    test_run.arg("test");
    test_run.env_var("CARGO_INCREMENTAL", "0");
    test_run.env_var("RUSTFLAGS", "-Cinstrument-coverage");
    test_run.env_var("LLVM_PROFILE_FILE", "cargo-test-%p-%m.profraw");
    proof {
        assert(arg_views(test_run.args@) =~= seq!["test"@]);
        assert(env_views(test_run.env@) =~= seq![
            ("CARGO_INCREMENTAL"@, "0"@),
            ("RUSTFLAGS"@, "-Cinstrument-coverage"@),
            ("LLVM_PROFILE_FILE"@, "cargo-test-%p-%m.profraw"@),
        ]);
    }

    let report_format: &str = if devmode {
        "html"
    } else {
        "lcov"
    };
    let report_file: &str = if devmode {
        "coverage/html"
    } else {
        "coverage/tests.lcov"
    };
    let mut report_run = invocation("grcov");
    report_run.arg(".");
    report_run.arg("--binary-path");
    report_run.arg("./target/debug/deps");
    report_run.arg("-s");
    report_run.arg(".");
    report_run.arg("-t");
    report_run.arg(report_format);
    report_run.arg("--branch");
    report_run.arg("--ignore-not-existing");
    report_run.arg("--ignore");
    report_run.arg("../*");
    report_run.arg("--ignore");
    report_run.arg("/*");
    report_run.arg("--ignore");
    report_run.arg("xtask/*");
    report_run.arg("--ignore");
    report_run.arg("*/src/tests/*");
    report_run.arg("-o");
    report_run.arg(report_file);
    proof {
        assert(arg_views(report_run.args@) =~= coverage_report_args(devmode));
    }

    let mut open_run = invocation("open");
    open_run.arg(report_file);
    proof {
        assert(arg_views(open_run.args@) =~= seq![coverage_report_file(devmode)]);
    }

    CoveragePlan {
        output_dir: "coverage".to_owned(),
        test_run,
        report_run,
        cleanup_glob: "**/*.profraw".to_owned(),
        report_file: report_file.to_owned(),
        offer_open: devmode,
        open_run,
    }
}

/// The plan of the documentation task: a file-watching documentation build.
pub fn docs() -> (inv: Invocation)
    ensures
        invokes(inv, "cargo"@, seq!["watch"@, "-s"@, "cargo doc --no-deps"@]),
{
    let mut inv = invocation("cargo");
    inv.arg("watch");
    inv.arg("-s");
    inv.arg("cargo doc --no-deps");
    proof {
        assert(arg_views(inv.args@) =~= seq!["watch"@, "-s"@, "cargo doc --no-deps"@]);
    }
    inv
}

/// The plan of the dev loop: after every change, `cargo check`, then
/// `cargo test`; tests do not run when the check fails.
pub fn dev() -> (inv: Invocation)
    ensures
        invokes(inv, "cargo"@, seq!["watch"@, "-x"@, "check"@, "-x"@, "test"@]),
{
    let mut inv = invocation("cargo");
    inv.arg("watch");
    inv.arg("-x");
    inv.arg("check");
    inv.arg("-x");
    inv.arg("test");
    proof {
        assert(arg_views(inv.args@) =~= seq!["watch"@, "-x"@, "check"@, "-x"@, "test"@]);
    }
    inv
}

/// The plan of the dependency-size analysis: the biggest crates in a release
/// build.
pub fn bloat_deps() -> (inv: Invocation)
    ensures
        invokes(inv, "cargo"@, seq!["bloat"@, "--release"@, "--crates"@]),
{
    let mut inv = invocation("cargo");
    inv.arg("bloat");
    inv.arg("--release");
    inv.arg("--crates");
    proof {
        assert(arg_views(inv.args@) =~= seq!["bloat"@, "--release"@, "--crates"@]);
    }
    inv
}

/// The plan of the build-time analysis: per-crate build times, single-job.
pub fn bloat_time() -> (inv: Invocation)
    ensures
        invokes(inv, "cargo"@, seq!["bloat"@, "--time"@, "-j"@, "1"@]),
{
    let mut inv = invocation("cargo");
    inv.arg("bloat");
    inv.arg("--time");
    inv.arg("-j");
    inv.arg("1");
    proof {
        assert(arg_views(inv.args@) =~= seq!["bloat"@, "--time"@, "-j"@, "1"@]);
    }
    inv
}

/// The plan of the tool installation: the three cargo tools that the other
/// tasks spawn.
pub fn install() -> (p: Vec<Invocation>)
    ensures
        p@.len() == 3,
        invokes(p@[0], "cargo"@, seq!["install"@, "cargo-watch"@]),
        invokes(p@[1], "cargo"@, seq!["install"@, "cargo-hack"@]),
        invokes(p@[2], "cargo"@, seq!["install"@, "cargo-bloat"@]),
{
    let mut watch = invocation("cargo");
    watch.arg("install");
    watch.arg("cargo-watch");
    proof {
        assert(arg_views(watch.args@) =~= seq!["install"@, "cargo-watch"@]);
    }
    let mut hack = invocation("cargo");
    hack.arg("install");
    hack.arg("cargo-hack");
    proof {
        assert(arg_views(hack.args@) =~= seq!["install"@, "cargo-hack"@]);
    }
    let mut bloat = invocation("cargo");
    bloat.arg("install");
    bloat.arg("cargo-bloat");
    proof {
        assert(arg_views(bloat.args@) =~= seq!["install"@, "cargo-bloat"@]);
    }
    let mut p: Vec<Invocation> = Vec::new();
    p.push(watch);
    p.push(hack);
    p.push(bloat);
    p
}

} // verus!
