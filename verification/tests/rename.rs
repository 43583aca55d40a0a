use filename_refactor::batch::{batch_result, convert, transform_filenames, FileTask};
use filename_refactor::fold::string_full2half;
use filename_refactor::rename::{
    convert_file, plan_rename, rename_outcome, transform_file, RenameError, RenameOutcome,
    RenameStep,
};

fn mock_transform(s: &str) -> String {
    s.to_uppercase()
}

fn task(dir: &str, name: &str) -> FileTask {
    FileTask { path: format!("{}/{}", dir, name), file_name: Some(name.to_string()) }
}

#[test]
fn test_convert_file() {
    let files = vec![
        task("/tmp/batch", "ｔｅｓｔ１２３あいうえおhalfwidth漢字.txt"),
        task("/tmp/batch", "ｔｅｓｔ１２３あいうえおhalfwidth漢字2.txt"),
        task("/tmp/batch", "abc.txt"),
    ];

    let steps = transform_filenames(&files, &string_full2half);

    assert_eq!(
        steps,
        vec![
            RenameStep::Rename {
                old_name: "ｔｅｓｔ１２３あいうえおhalfwidth漢字.txt".to_string(),
                new_name: "test123あいうえおhalfwidth漢字.txt".to_string(),
            },
            RenameStep::Rename {
                old_name: "ｔｅｓｔ１２３あいうえおhalfwidth漢字2.txt".to_string(),
                new_name: "test123あいうえおhalfwidth漢字2.txt".to_string(),
            },
            RenameStep::Keep,
        ]
    );
    let mut outcomes = Vec::new();
    for (file, step) in files.iter().zip(steps) {
        outcomes.push(rename_outcome(&file.path, step, Ok(())));
    }
    assert!(batch_result(outcomes).is_ok());
}

#[test]
fn test_transform_file_error_invalid_filename() {
    let non_existent_path = "/this/path/definitely/does/not/exist/file.txt";

    let step = transform_file(non_existent_path, Some("file.txt"), &mock_transform);
    assert_eq!(
        step,
        RenameStep::Rename { old_name: "file.txt".to_string(), new_name: "FILE.TXT".to_string() }
    );

    let outcome =
        rename_outcome(non_existent_path, step, Err("No such file or directory".to_string()));
    assert_eq!(
        outcome,
        RenameOutcome::Failed {
            error: RenameError::RenameFailed {
                path: non_existent_path.to_string(),
                reason: "No such file or directory".to_string(),
            },
        }
    );

    let result = batch_result(vec![outcome]);
    assert!(result.is_err());
}

#[test]
fn test_transform_file_rename_error() {
    let files = vec![task("/tmp/same", "file1.txt"), task("/tmp/same", "file2.txt")];
    let always_same = |s: &str| s.to_string();

    let steps = transform_filenames(&files, &always_same);
    assert_eq!(steps, vec![RenameStep::Keep, RenameStep::Keep]);

    let mut outcomes = Vec::new();
    for (file, step) in files.iter().zip(steps) {
        outcomes.push(rename_outcome(&file.path, step, Ok(())));
    }
    assert_eq!(outcomes, vec![RenameOutcome::Unchanged, RenameOutcome::Unchanged]);

    let result = batch_result(outcomes);
    assert!(result.is_ok());
}

#[test]
fn a_path_without_a_base_name_is_rejected() {
    let expected =
        RenameStep::Reject { error: RenameError::InvalidPath { path: "/".to_string() } };
    assert_eq!(transform_file("/", None, &mock_transform), expected);
    assert_eq!(convert_file("/", None), expected);

    let empty = RenameStep::Reject { error: RenameError::InvalidPath { path: String::new() } };
    assert_eq!(convert_file("", None), empty);

    let outcome = rename_outcome("/", expected, Ok(()));
    assert_eq!(
        outcome,
        RenameOutcome::Failed { error: RenameError::InvalidPath { path: "/".to_string() } }
    );
}

#[test]
fn the_transform_is_not_called_without_a_base_name() {
    let never = |_: &str| -> String { panic!("called without a base name") };
    assert_eq!(
        transform_file("..", None, &never),
        RenameStep::Reject { error: RenameError::InvalidPath { path: "..".to_string() } }
    );
}

#[test]
fn plan_rename_keeps_an_equal_name() {
    assert_eq!(plan_rename("abc.txt", "abc.txt".to_string()), RenameStep::Keep);
    assert_eq!(
        plan_rename("abc.txt", "abd.txt".to_string()),
        RenameStep::Rename { old_name: "abc.txt".to_string(), new_name: "abd.txt".to_string() }
    );
    assert_eq!(
        plan_rename("abc.txt", String::new()),
        RenameStep::Rename { old_name: "abc.txt".to_string(), new_name: String::new() }
    );
}

#[test]
fn convert_file_folds_the_base_name() {
    assert_eq!(
        convert_file("/data/ＡＢＣ.txt", Some("ＡＢＣ.txt")),
        RenameStep::Rename { old_name: "ＡＢＣ.txt".to_string(), new_name: "ABC.txt".to_string() }
    );
    assert_eq!(convert_file("/data/ABC.txt", Some("ABC.txt")), RenameStep::Keep);
    assert_eq!(convert_file("/data/／", Some("／")), RenameStep::Keep);
}

#[test]
fn rename_outcome_reads_the_result_only_for_a_rename() {
    assert_eq!(
        rename_outcome("/a/b", RenameStep::Keep, Err("ignored".to_string())),
        RenameOutcome::Unchanged
    );
    let step = RenameStep::Rename { old_name: "b".to_string(), new_name: "c".to_string() };
    assert_eq!(
        rename_outcome("/a/b", step.clone(), Ok(())),
        RenameOutcome::Renamed { old_name: "b".to_string(), new_name: "c".to_string() }
    );
    assert_eq!(
        rename_outcome("/a/b", step, Err("Permission denied".to_string())),
        RenameOutcome::Failed {
            error: RenameError::RenameFailed {
                path: "/a/b".to_string(),
                reason: "Permission denied".to_string(),
            },
        }
    );
}

#[test]
fn errors_describe_themselves() {
    let invalid = RenameError::InvalidPath { path: "/".to_string() };
    assert_eq!(invalid.describe(), "Failed to get filename: /");
    assert_eq!(invalid.path(), "/");

    let failed = RenameError::RenameFailed {
        path: "/a/b".to_string(),
        reason: "Permission denied".to_string(),
    };
    assert_eq!(failed.describe(), "Permission denied");
    assert_eq!(failed.path(), "/a/b");
}

#[test]
fn fullwidth_to_halfwidth_test_convert_file() {
    let files = vec![
        task("/tmp/batch", "ｔｅｓｔ１２３あいうえおhalfwidth漢字.txt"),
        task("/tmp/batch", "ｔｅｓｔ１２３あいうえおhalfwidth漢字2.txt"),
        task("/tmp/batch", "abc.txt"),
    ];

    let steps = convert(&files);

    assert_eq!(
        steps,
        vec![
            RenameStep::Rename {
                old_name: "ｔｅｓｔ１２３あいうえおhalfwidth漢字.txt".to_string(),
                new_name: "test123あいうえおhalfwidth漢字.txt".to_string(),
            },
            RenameStep::Rename {
                old_name: "ｔｅｓｔ１２３あいうえおhalfwidth漢字2.txt".to_string(),
                new_name: "test123あいうえおhalfwidth漢字2.txt".to_string(),
            },
            RenameStep::Keep,
        ]
    );
    assert_eq!(steps, transform_filenames(&files, &string_full2half));

    let mut outcomes = Vec::new();
    for (file, step) in files.iter().zip(steps) {
        outcomes.push(rename_outcome(&file.path, step, Ok(())));
    }
    assert!(batch_result(outcomes).is_ok());
}

#[test]
fn folding_a_folded_batch_renames_nothing() {
    let files = vec![task("/d", "ＡＢＣ　１.txt"), task("/d", "／ｘ"), task("/d", "plain")];
    let folded: Vec<FileTask> = convert(&files)
        .into_iter()
        .zip(&files)
        .map(|(step, file)| match step {
            RenameStep::Rename { new_name, .. } => task("/d", &new_name),
            _ => file.clone(),
        })
        .collect();
    assert_eq!(folded[0].file_name.as_deref(), Some("ABC 1.txt"));
    assert_eq!(folded[1].file_name.as_deref(), Some("／x"));
    assert_eq!(convert(&folded), vec![RenameStep::Keep, RenameStep::Keep, RenameStep::Keep]);
}
