use delta_hyperlinks::config::{CallingProcess, Config};
use delta_hyperlinks::hyperlinks::{format_osc8_file_hyperlink, format_osc8_hyperlink};
use delta_hyperlinks::path::{absolute_path, cwd_of_user_shell_process, relativize_path_maybe};

const FAKE_DELTA_CWD: &str = "/fake/delta/cwd";

struct FilePathsTestCase<'a> {
    file_path_relative_to_repo_root: &'a str,
    cwd_relative_to_repo_root: &'a str,
    delta_relative_paths: bool,
    calling_cmd: &'a str,
    expected_displayed_path: &'a str,
}

fn make_config(test_case: &FilePathsTestCase) -> Config {
    let calling_process = if test_case.calling_cmd.starts_with("git diff --relative") {
        CallingProcess::GitDiff(true)
    } else if test_case.calling_cmd.starts_with("git diff") {
        CallingProcess::GitDiff(false)
    } else {
        panic!("unexpected calling command: {}", test_case.calling_cmd)
    };
    let cwd_of_delta_process = Some(FAKE_DELTA_CWD.to_string());
    let cwd_relative_to_repo_root = Some(test_case.cwd_relative_to_repo_root.to_string());
    let cwd_of_user_shell_process = cwd_of_user_shell_process(
        cwd_of_delta_process.as_ref(),
        cwd_relative_to_repo_root.as_deref(),
    );
    Config {
        cwd_of_delta_process,
        cwd_of_user_shell_process,
        cwd_relative_to_repo_root,
        relative_paths: test_case.delta_relative_paths,
        hyperlinks_file_link_format: "{path}".to_string(),
        hyperlinks_commit_link_format: None,
        git_config: None,
        calling_process,
    }
}

/// The path as git prints it: relative to the user's directory under `--relative`.
fn path_in_git_output(test_case: &FilePathsTestCase, config: &Config) -> String {
    if config.calling_process.is_git_diff_relative() {
        assert!(std::path::Path::new(test_case.file_path_relative_to_repo_root)
            .starts_with(test_case.cwd_relative_to_repo_root));
        pathdiff::diff_paths(
            test_case.file_path_relative_to_repo_root,
            test_case.cwd_relative_to_repo_root,
        )
        .unwrap()
        .to_string_lossy()
        .to_string()
    } else {
        test_case.file_path_relative_to_repo_root.to_string()
    }
}

fn run_test(test_case: FilePathsTestCase) {
    let config = make_config(&test_case);
    let path = path_in_git_output(&test_case, &config);
    // The displayed path is the one that is resolved: once relativized, it is
    // relative to the user's shell directory.
    let displayed = relativize_path_maybe(&path, &config).unwrap_or_else(|| path.clone());
    let target = absolute_path(&displayed, &config).unwrap();
    let link = format_osc8_file_hyperlink(&target, None, &displayed, &config);
    let expected_target = format!("{}/{}", FAKE_DELTA_CWD, test_case.file_path_relative_to_repo_root);
    assert_eq!(
        link,
        format_osc8_hyperlink(&expected_target, test_case.expected_displayed_path)
    );
}

#[test]
fn test_paths_and_hyperlinks_user_in_repo_root_dir() {
    for (delta_relative_paths, calling_cmd) in vec![
        (false, "git diff"),
        (false, "git diff --relative"),
        (true, "git diff"),
        (true, "git diff --relative"),
    ] {
        run_test(FilePathsTestCase {
            file_path_relative_to_repo_root: "a",
            cwd_relative_to_repo_root: "",
            delta_relative_paths,
            calling_cmd,
            expected_displayed_path: "a",
        })
    }
}

#[test]
fn test_paths_and_hyperlinks_user_in_subdir_file_in_same_subdir() {
    run_test(FilePathsTestCase {
        file_path_relative_to_repo_root: "b/a",
        cwd_relative_to_repo_root: "b",
        delta_relative_paths: false,
        calling_cmd: "git diff",
        expected_displayed_path: "b/a",
    });
    run_test(FilePathsTestCase {
        file_path_relative_to_repo_root: "b/a",
        cwd_relative_to_repo_root: "b",
        delta_relative_paths: false,
        calling_cmd: "git diff --relative",
        // the pager saw a and was not asked to change it
        expected_displayed_path: "a",
    });
    run_test(FilePathsTestCase {
        file_path_relative_to_repo_root: "b/a",
        cwd_relative_to_repo_root: "b",
        delta_relative_paths: true,
        calling_cmd: "git diff",
        // the pager saw b/a and changed it to a
        expected_displayed_path: "a",
    });
    run_test(FilePathsTestCase {
        file_path_relative_to_repo_root: "b/a",
        cwd_relative_to_repo_root: "b",
        delta_relative_paths: true,
        calling_cmd: "git diff --relative",
        // the pager saw a and did not change it
        expected_displayed_path: "a",
    });
}

#[test]
fn test_paths_and_hyperlinks_user_in_subdir_file_in_different_subdir() {
    run_test(FilePathsTestCase {
        file_path_relative_to_repo_root: "b/a",
        cwd_relative_to_repo_root: "c",
        delta_relative_paths: false,
        calling_cmd: "git diff",
        expected_displayed_path: "b/a",
    });
}
