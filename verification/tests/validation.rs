use quiz_report::paths::{validate, PathKind, ValidationError};

const KINDS: [PathKind; 3] = [PathKind::Missing, PathKind::RegularFile, PathKind::Other];

#[test]
fn all_demands_met_passes() {
    assert_eq!(
        validate(PathKind::RegularFile, PathKind::RegularFile, PathKind::Missing),
        Ok(())
    );
    assert_eq!(validate(PathKind::Other, PathKind::RegularFile, PathKind::Missing), Ok(()));
}

#[test]
fn missing_question_source_is_never_masked() {
    for records in KINDS {
        for output in KINDS {
            assert_eq!(
                validate(PathKind::Missing, records, output),
                Err(ValidationError::QuestionSourceMissing)
            );
        }
    }
}

#[test]
fn records_must_be_a_regular_file() {
    for question in [PathKind::RegularFile, PathKind::Other] {
        for output in KINDS {
            assert_eq!(
                validate(question, PathKind::Missing, output),
                Err(ValidationError::RecordsFileMissing)
            );
            assert_eq!(
                validate(question, PathKind::Other, output),
                Err(ValidationError::RecordsFileMissing)
            );
        }
    }
}

#[test]
fn occupied_output_is_reported_only_after_the_other_checks() {
    for question in KINDS {
        for records in KINDS {
            for output in KINDS {
                let collides = validate(question, records, output)
                    == Err(ValidationError::OutputExists);
                let expected = question != PathKind::Missing
                    && records == PathKind::RegularFile
                    && output != PathKind::Missing;
                assert_eq!(collides, expected);
            }
        }
    }
    assert_eq!(
        validate(PathKind::RegularFile, PathKind::RegularFile, PathKind::Other),
        Err(ValidationError::OutputExists)
    );
}

#[test]
fn validating_twice_gives_the_same_result() {
    for question in KINDS {
        for records in KINDS {
            for output in KINDS {
                let first = validate(question, records, output);
                let second = validate(question, records, output);
                assert_eq!(first, second);
            }
        }
    }
}

#[test]
fn messages_are_exact() {
    assert_eq!(
        ValidationError::QuestionSourceMissing.message(),
        "Question set location does not exist."
    );
    assert_eq!(
        ValidationError::RecordsFileMissing.message(),
        "QuizMachine records file does not exist."
    );
    assert_eq!(
        ValidationError::OutputExists.message(),
        "Output file already exists. Choose a different file name."
    );
}

#[test]
fn path_kinds_answer_both_questions() {
    assert!(!PathKind::Missing.found());
    assert!(!PathKind::Missing.is_file());
    assert!(PathKind::RegularFile.found());
    assert!(PathKind::RegularFile.is_file());
    assert!(PathKind::Other.found());
    assert!(!PathKind::Other.is_file());
}
