use clang::diagnostic::{Diagnostic, DiagnosticIterator, DiagnosticSet, Severity};
use clang::error::ErrorCode;
use clang::handle::Owned;
use clang::loc::{SourceLoc, SourceLocation};
use clang::tu::{File, Flags, ParseOption, TranslationUnit};

#[test]
fn severity_known_codes() {
    assert_eq!(Severity::from_code(0), Some(Severity::Ignored));
    assert_eq!(Severity::from_code(1), Some(Severity::Note));
    assert_eq!(Severity::from_code(2), Some(Severity::Warning));
    assert_eq!(Severity::from_code(3), Some(Severity::Error));
    assert_eq!(Severity::from_code(4), Some(Severity::Fatal));
}

#[test]
fn severity_unknown_codes() {
    assert_eq!(Severity::from_code(5), None);
    assert_eq!(Severity::from_code(-1), None);
    assert_eq!(Severity::from_code(i32::MAX), None);
}

#[test]
fn error_code_known_and_unknown() {
    assert_eq!(ErrorCode::from_code(0), Some(ErrorCode::Success));
    assert_eq!(ErrorCode::from_code(1), Some(ErrorCode::Failure));
    assert_eq!(ErrorCode::from_code(2), Some(ErrorCode::Crashed));
    assert_eq!(ErrorCode::from_code(3), Some(ErrorCode::InvalidArguments));
    assert_eq!(ErrorCode::from_code(4), Some(ErrorCode::ASTReadError));
    assert_eq!(ErrorCode::from_code(5), None);
    assert_eq!(ErrorCode::from_code(-7), None);
}

#[test]
fn parse_success_owns_handle() {
    match TranslationUnit::from_parse_result(0, 0x1000) {
        Some(Ok(tu)) => {
            assert_eq!(tu.as_ptr(), 0x1000);
            assert!(tu.is_live());
        }
        _ => panic!("expected a unit"),
    }
}

#[test]
fn parse_failure_yields_no_unit() {
    // what the engine answers for a source path that does not exist
    assert!(matches!(
        TranslationUnit::from_parse_result(1, 0),
        Some(Err(ErrorCode::Failure))
    ));
    assert!(matches!(
        TranslationUnit::from_parse_result(2, 0x20),
        Some(Err(ErrorCode::Crashed))
    ));
    assert!(matches!(
        TranslationUnit::from_parse_result(3, 0),
        Some(Err(ErrorCode::InvalidArguments))
    ));
    assert!(matches!(
        TranslationUnit::from_parse_result(4, 0),
        Some(Err(ErrorCode::ASTReadError))
    ));
}

#[test]
fn parse_broken_engine_answers() {
    assert!(TranslationUnit::from_parse_result(9, 0x1000).is_none());
    assert!(TranslationUnit::from_parse_result(0, 0).is_none());
}

#[test]
fn flags_none_is_zero() {
    let f = Flags::none();
    assert_eq!(f.bits(), 0);
    assert!(!f.contains(ParseOption::KeepGoing));
}

#[test]
fn flags_each_option_bit() {
    let cases = [
        (ParseOption::DetailedPreprocessingRecord, 0x01),
        (ParseOption::Incomplete, 0x02),
        (ParseOption::PrecompiledPreamble, 0x04),
        (ParseOption::CacheCompletionResults, 0x08),
        (ParseOption::ForSerialization, 0x10),
        (ParseOption::CxxChainedPch, 0x20),
        (ParseOption::SkipFunctionBodies, 0x40),
        (ParseOption::IncludeBriefCommentsInCodeCompletions, 0x80),
        (ParseOption::CreatePreambleOnFirstParse, 0x100),
        (ParseOption::KeepGoing, 0x200),
    ];
    for (o, bit) in cases {
        let f = Flags::none().with(o);
        assert_eq!(f.bits(), bit);
        assert!(f.contains(o));
    }
}

#[test]
fn flags_combine_independently() {
    let a = Flags::none()
        .with(ParseOption::SkipFunctionBodies)
        .with(ParseOption::DetailedPreprocessingRecord);
    assert_eq!(a.bits(), 0x41);
    let again = a.with(ParseOption::SkipFunctionBodies);
    assert_eq!(again.bits(), 0x41);
    let b = Flags::none().with(ParseOption::KeepGoing);
    let u = a.union(b);
    assert_eq!(u.bits(), 0x241);
    assert!(u.contains(ParseOption::KeepGoing));
    assert!(u.contains(ParseOption::SkipFunctionBodies));
    assert!(!u.contains(ParseOption::Incomplete));
    assert_eq!(a.union(a), a);
}

#[test]
fn diagnostic_walk_yields_each_index_in_order() {
    let tu = TranslationUnit::from_ptr(0x1000);
    let mut it = DiagnosticIterator::new(&tu, 3);
    assert_eq!(it.size_hint(), (3, Some(3)));
    assert_eq!(it.next_index(), Some(0));
    assert_eq!(it.size_hint(), (2, Some(2)));
    assert_eq!(it.next_index(), Some(1));
    assert_eq!(it.remaining(), 1);
    assert_eq!(it.next_index(), Some(2));
    assert_eq!(it.size_hint(), (0, Some(0)));
    assert_eq!(it.next_index(), None);
    assert_eq!(it.next_index(), None);
    assert_eq!(it.remaining(), 0);
    assert_eq!(it.translation_unit().as_ptr(), 0x1000);
}

#[test]
fn diagnostic_walk_empty() {
    let tu = TranslationUnit::from_ptr(0x1000);
    let mut it = DiagnosticIterator::new(&tu, 0);
    assert_eq!(it.size_hint(), (0, Some(0)));
    assert_eq!(it.next_index(), None);
}

#[test]
fn diagnostic_walk_largest_count() {
    let tu = TranslationUnit::from_ptr(0x1000);
    let mut it = DiagnosticIterator::new(&tu, u32::MAX);
    assert_eq!(it.remaining(), u32::MAX);
    assert_eq!(it.next_index(), Some(0));
    assert_eq!(it.remaining(), u32::MAX - 1);
}

#[test]
fn release_happens_once() {
    let mut o = Owned::new(0x10);
    assert_eq!(o.release(), Some(0x10));
    assert_eq!(o.release(), None);
    assert_eq!(o.handle(), 0x10);
    assert!(!o.is_live());

    let mut tu = TranslationUnit::from_ptr(0x20);
    assert_eq!(tu.release(), Some(0x20));
    assert_eq!(tu.release(), None);

    let mut d = Diagnostic::from_ptr(0x30);
    assert_eq!(d.as_ptr(), 0x30);
    assert_eq!(d.release(), Some(0x30));
    assert_eq!(d.release(), None);

    let mut s = DiagnosticSet::from_ptr(0x40);
    assert_eq!(s.as_ptr(), 0x40);
    assert!(s.is_live());
    assert_eq!(s.release(), Some(0x40));
    assert_eq!(s.release(), None);
}

#[test]
fn release_n_distinct_handles() {
    let mut ds: Vec<Diagnostic> = (1..=5usize).map(|i| Diagnostic::from_ptr(i * 8)).collect();
    let mut released = Vec::new();
    for d in ds.iter_mut() {
        if let Some(h) = d.release() {
            released.push(h);
        }
    }
    for d in ds.iter_mut() {
        if let Some(h) = d.release() {
            released.push(h);
        }
    }
    assert_eq!(released, vec![8, 16, 24, 32, 40]);
}

#[test]
fn source_loc_fields() {
    let f = File::from_ptr(0x99);
    let l = SourceLoc::new(f, 3, 7, 42);
    assert_eq!(l.file, f);
    assert_eq!(l.line, 3);
    assert_eq!(l.column, 7);
    assert_eq!(l.offset, 42);
    assert_eq!(l.known_file(), Some(f));
    assert!(!f.is_null());
    assert_eq!(f.as_ptr(), 0x99);
}

#[test]
fn source_loc_null_file() {
    let l = SourceLoc::new(File::from_ptr(0), 0, 0, 0);
    assert!(l.file.is_null());
    assert_eq!(l.known_file(), None);
}

#[test]
fn source_location_parts() {
    let l = SourceLocation::from_obj([0x10, 0x20], 77);
    assert_eq!(l.ptr_data(), [0x10, 0x20]);
    assert_eq!(l.int_data(), 77);
}

#[test]
fn modification_time_offsets() {
    assert_eq!(File::time_from_epoch(0), (false, 0));
    assert_eq!(File::time_from_epoch(1_700_000_000), (false, 1_700_000_000));
    assert_eq!(File::time_from_epoch(i32::MAX as i64), (false, 2_147_483_647));
    assert_eq!(File::time_from_epoch(-5), (true, 5));
    assert_eq!(File::time_from_epoch(i32::MIN as i64), (true, 2_147_483_648));
    assert_eq!(File::time_from_epoch(i64::MIN), (true, 9_223_372_036_854_775_808));
}
