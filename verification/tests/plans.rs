use xtaskops::decimal::i32_to_decimal;
use xtaskops::plan::Invocation;
use xtaskops::tasks::ci;
use xtaskops::tasks::coverage;
use xtaskops::tasks::powerset;
use xtaskops::tasks::CIBuilder;
use xtaskops::tasks::PowersetBuilder;
use xtaskops::tasks::CI;
use xtaskops::tasks::Powerset;

fn strs(v: &[&str]) -> Vec<String> {
    v.iter().map(|s| (*s).to_string()).collect()
}

fn assert_plain_cargo(inv: &Invocation, args: &[&str]) {
    assert_eq!(inv.program, "cargo");
    assert_eq!(inv.args, strs(args));
    assert!(inv.env.is_empty());
}

#[test]
fn ci_defaults() {
    let c = CI::default();
    assert!(!c.nightly);
    assert!(c.clippy_max);
}

#[test]
fn ci_builder_defaults() {
    let c = CIBuilder::default().build();
    assert!(!c.nightly);
    assert!(c.clippy_max);
}

#[test]
fn ci_builder_setters() {
    let c = CIBuilder::default().nightly(true).clippy_max(false).build();
    assert!(c.nightly);
    assert!(!c.clippy_max);
}

#[test]
fn ci_default_plan() {
    let p = ci();
    assert_eq!(p.len(), 4);
    assert_plain_cargo(&p[0], &["fmt", "--all", "--", "--check"]);
    assert_plain_cargo(
        &p[1],
        &[
            "clippy",
            "--",
            "-D",
            "warnings",
            "-W",
            "clippy::pedantic",
            "-W",
            "clippy::nursery",
            "-W",
            "rust-2018-idioms",
        ],
    );
    assert_plain_cargo(&p[2], &["test"]);
    assert_plain_cargo(&p[3], &["test", "--doc"]);
}

#[test]
fn nightly_prepends_toolchain_selector() {
    let stable = CI { nightly: false, clippy_max: true }.plan();
    let nightly = CI { nightly: true, clippy_max: true }.plan();
    assert_plain_cargo(&nightly[0], &["+nightly", "fmt", "--all", "--", "--check"]);
    let mut expected = vec!["+nightly".to_string()];
    expected.extend(stable[0].args.iter().cloned());
    assert_eq!(nightly[0].args, expected);
}

#[test]
fn minimal_clippy_plan() {
    let p = CI { nightly: false, clippy_max: false }.plan();
    assert_plain_cargo(&p[1], &["clippy", "--", "-D", "warnings"]);
}

#[test]
fn powerset_defaults() {
    let p = Powerset::default();
    assert_eq!(p.depth, 2);
    assert!(!p.exclude_no_default_features);
}

#[test]
fn powerset_builder_defaults() {
    let p = PowersetBuilder::default().build();
    assert_eq!(p.depth, 2);
    assert!(!p.exclude_no_default_features);
}

#[test]
fn powerset_builder_setters() {
    let p = PowersetBuilder::default()
        .depth(3)
        .exclude_no_default_features(true)
        .build();
    assert_eq!(p.depth, 3);
    assert!(p.exclude_no_default_features);
}

#[test]
fn powerset_default_plan() {
    let p = powerset();
    assert_eq!(p.len(), 3);
    let common = [
        "--workspace",
        "--exclude",
        "xtask",
        "--feature-powerset",
        "--depth",
        "2",
    ];
    let mut lint = vec!["hack", "clippy"];
    lint.extend(common);
    lint.extend(["--", "-D", "warnings"]);
    assert_plain_cargo(&p[0], &lint);
    let mut tests = vec!["hack"];
    tests.extend(common);
    tests.push("test");
    assert_plain_cargo(&p[1], &tests);
    let mut doc_tests = vec!["hack", "test"];
    doc_tests.extend(common);
    doc_tests.push("--doc");
    assert_plain_cargo(&p[2], &doc_tests);
}

#[test]
fn exclusion_appends_flag() {
    let with_flag = Powerset { depth: 2, exclude_no_default_features: true }.plan();
    let without = Powerset { depth: 2, exclude_no_default_features: false }.plan();
    let mut expected = without[1].args.clone();
    // the shared list ends right before the trailing "test"
    expected.insert(expected.len() - 1, "--exclude-no-default-features".to_string());
    assert_eq!(with_flag[1].args, expected);
}

#[test]
fn powerset_depth_is_rendered_in_decimal() {
    let p = Powerset { depth: 4, exclude_no_default_features: false }.plan();
    let pos = p[0].args.iter().position(|a| a == "--depth").unwrap();
    assert_eq!(p[0].args[pos + 1], "4");
    let p = Powerset { depth: -17, exclude_no_default_features: false }.plan();
    let pos = p[0].args.iter().position(|a| a == "--depth").unwrap();
    assert_eq!(p[0].args[pos + 1], "-17");
}

#[test]
fn decimal_rendering() {
    assert_eq!(i32_to_decimal(0), "0");
    assert_eq!(i32_to_decimal(7), "7");
    assert_eq!(i32_to_decimal(10), "10");
    assert_eq!(i32_to_decimal(42), "42");
    assert_eq!(i32_to_decimal(1203), "1203");
    assert_eq!(i32_to_decimal(-1), "-1");
    assert_eq!(i32_to_decimal(-90), "-90");
    assert_eq!(i32_to_decimal(i32::MAX), "2147483647");
    assert_eq!(i32_to_decimal(i32::MIN), "-2147483648");
}

#[test]
fn coverage_plan_shared_parts() {
    let p = coverage(false);
    assert_eq!(p.output_dir, "coverage");
    assert_eq!(p.test_run.program, "cargo");
    assert_eq!(p.test_run.args, strs(&["test"]));
    assert_eq!(p.test_run.env.len(), 3);
    assert_eq!(p.test_run.env[0].name, "CARGO_INCREMENTAL");
    assert_eq!(p.test_run.env[0].value, "0");
    assert_eq!(p.test_run.env[1].name, "RUSTFLAGS");
    assert_eq!(p.test_run.env[1].value, "-Cinstrument-coverage");
    assert_eq!(p.test_run.env[2].name, "LLVM_PROFILE_FILE");
    assert_eq!(p.test_run.env[2].value, "cargo-test-%p-%m.profraw");
    assert_eq!(p.cleanup_glob, "**/*.profraw");
}

#[test]
fn coverage_plan_lcov_mode() {
    let p = coverage(false);
    assert!(!p.offer_open);
    assert_eq!(p.report_file, "coverage/tests.lcov");
    assert_eq!(p.report_run.program, "grcov");
    assert_eq!(
        p.report_run.args,
        strs(&[
            ".",
            "--binary-path",
            "./target/debug/deps",
            "-s",
            ".",
            "-t",
            "lcov",
            "--branch",
            "--ignore-not-existing",
            "--ignore",
            "../*",
            "--ignore",
            "/*",
            "--ignore",
            "xtask/*",
            "--ignore",
            "*/src/tests/*",
            "-o",
            "coverage/tests.lcov",
        ])
    );
    assert!(p.report_run.env.is_empty());
}

#[test]
fn coverage_plan_dev_mode() {
    let p = coverage(true);
    assert!(p.offer_open);
    assert_eq!(p.report_file, "coverage/html");
    let fmt_pos = p.report_run.args.iter().position(|a| a == "-t").unwrap();
    assert_eq!(p.report_run.args[fmt_pos + 1], "html");
    let out_pos = p.report_run.args.iter().position(|a| a == "-o").unwrap();
    assert_eq!(p.report_run.args[out_pos + 1], "coverage/html");
    assert_eq!(p.open_run.program, "open");
    assert_eq!(p.open_run.args, strs(&["coverage/html"]));
    assert!(p.open_run.env.is_empty());
}

#[test]
fn docs_plan() {
    let inv = xtaskops::tasks::docs();
    assert_plain_cargo(&inv, &["watch", "-s", "cargo doc --no-deps"]);
}

#[test]
fn dev_plan() {
    let inv = xtaskops::tasks::dev();
    assert_plain_cargo(&inv, &["watch", "-x", "check", "-x", "test"]);
}

#[test]
fn bloat_deps_plan() {
    let inv = xtaskops::tasks::bloat_deps();
    assert_plain_cargo(&inv, &["bloat", "--release", "--crates"]);
}

#[test]
fn bloat_time_plan() {
    let inv = xtaskops::tasks::bloat_time();
    assert_plain_cargo(&inv, &["bloat", "--time", "-j", "1"]);
}

#[test]
fn install_plan() {
    let p = xtaskops::tasks::install();
    assert_eq!(p.len(), 3);
    assert_plain_cargo(&p[0], &["install", "cargo-watch"]);
    assert_plain_cargo(&p[1], &["install", "cargo-hack"]);
    assert_plain_cargo(&p[2], &["install", "cargo-bloat"]);
}

#[test]
fn invocation_builds_up_arguments() {
    let mut inv = xtaskops::plan::invocation("cargo");
    assert_eq!(inv.program, "cargo");
    assert!(inv.args.is_empty());
    assert!(inv.env.is_empty());
    inv.arg("fmt");
    inv.arg_string("--all".to_string());
    inv.env_var("K", "V");
    assert_eq!(inv.args, strs(&["fmt", "--all"]));
    assert_eq!(inv.env.len(), 1);
    assert_eq!(inv.env[0].name, "K");
    assert_eq!(inv.env[0].value, "V");
}
