use core::mem::{align_of, size_of};

use libgit2::merge::{
    check_merge_base_inputs, check_merge_heads, oid_output, validate_analysis, GitMergeAnalysis,
    MergeAnalysisError, MergeFileFavor, MergePreference,
};
use libgit2::oid::{git_oid_fromstrn, Oid};
use libgit2::status::{GIT_EINVALID, GIT_ERROR};
use libgit2_sys as ffi;
use libgit2::merge::merge_base_inputs;

#[test]
fn analysis_flags_form_valid_combinations() {
    let mut analysis = GitMergeAnalysis::normal();
    analysis |= GitMergeAnalysis::fastforward();

    assert!(analysis.contains(GitMergeAnalysis::normal()));
    assert!(analysis.intersects(GitMergeAnalysis::fastforward()));
    assert!(!analysis.intersects(GitMergeAnalysis::unborn()));
    assert_eq!(GitMergeAnalysis::from_bits(analysis.bits()), Some(analysis));
    assert!(GitMergeAnalysis::none().is_empty());
}

#[test]
fn unknown_analysis_bits_are_rejected() {
    let unknown = GitMergeAnalysis::all().bits() << 1;
    assert_eq!(GitMergeAnalysis::from_bits(unknown), None);
    assert_eq!(GitMergeAnalysis::try_from(unknown), Err(unknown));
}

#[test]
fn analysis_flags_match_the_c_abi_scalar() {
    assert_eq!(
        size_of::<GitMergeAnalysis>(),
        size_of::<ffi::git_merge_analysis_t>()
    );
    assert_eq!(
        align_of::<GitMergeAnalysis>(),
        align_of::<ffi::git_merge_analysis_t>()
    );
}

#[test]
fn published_analysis_bits_match_the_c_constants() {
    for (analysis, raw) in [
        (GitMergeAnalysis::none(), ffi::GIT_MERGE_ANALYSIS_NONE),
        (GitMergeAnalysis::normal(), ffi::GIT_MERGE_ANALYSIS_NORMAL),
        (GitMergeAnalysis::up_to_date(), ffi::GIT_MERGE_ANALYSIS_UP_TO_DATE),
        (GitMergeAnalysis::fastforward(), ffi::GIT_MERGE_ANALYSIS_FASTFORWARD),
        (GitMergeAnalysis::unborn(), ffi::GIT_MERGE_ANALYSIS_UNBORN),
    ] {
        assert_eq!(analysis.bits(), raw);
        assert_eq!(GitMergeAnalysis::from_bits(raw), Some(analysis));
    }
    assert_eq!(GitMergeAnalysis::default(), GitMergeAnalysis::none());
    assert_eq!(!GitMergeAnalysis::none(), GitMergeAnalysis::all());
    assert!(GitMergeAnalysis::all().contains(GitMergeAnalysis::none()));
}

#[test]
fn every_combination_git_merge_analysis_reports_is_accepted() {
    for reported in [
        GitMergeAnalysis::up_to_date(),
        GitMergeAnalysis::normal(),
        GitMergeAnalysis::fastforward() | GitMergeAnalysis::normal(),
        GitMergeAnalysis::fastforward() | GitMergeAnalysis::unborn(),
    ] {
        assert_eq!(GitMergeAnalysis::try_from(reported.bits()), Ok(reported));
        assert!(!reported.is_empty());
    }
}

#[test]
fn every_favor_value_round_trips_through_the_c_scalar() {
    for (favor, raw) in [
        (MergeFileFavor::Normal, ffi::GIT_MERGE_FILE_FAVOR_NORMAL),
        (MergeFileFavor::Ours, ffi::GIT_MERGE_FILE_FAVOR_OURS),
        (MergeFileFavor::Theirs, ffi::GIT_MERGE_FILE_FAVOR_THEIRS),
        (MergeFileFavor::Union, ffi::GIT_MERGE_FILE_FAVOR_UNION),
    ] {
        assert_eq!(ffi::git_merge_file_favor_t::from(favor), raw);
        assert_eq!(MergeFileFavor::try_from(raw), Ok(favor));
    }
    assert_eq!(MergeFileFavor::default(), MergeFileFavor::Normal);
    assert_eq!(
        MergeFileFavor::try_from(ffi::GIT_MERGE_FILE_FAVOR_UNION + 1),
        Err(ffi::GIT_MERGE_FILE_FAVOR_UNION + 1)
    );
}

#[test]
fn merge_file_favor_values_are_validated() {
    assert_eq!(u32::from(MergeFileFavor::Union), 3);
    assert_eq!(MergeFileFavor::try_from(2), Ok(MergeFileFavor::Theirs));
    assert_eq!(MergeFileFavor::try_from(4), Err(4));
}

#[test]
fn merge_preference_raw_values_are_validated() {
    for preference in [
        MergePreference::NoPreference,
        MergePreference::NoFastForward,
        MergePreference::FastForwardOnly,
    ] {
        let raw = ffi::git_merge_preference_t::from(preference);
        assert_eq!(MergePreference::try_from(raw), Ok(preference));
    }
    assert_eq!(MergePreference::try_from(3), Err(3));
    assert_eq!(
        u32::from(MergePreference::FastForwardOnly),
        ffi::GIT_MERGE_PREFERENCE_FASTFORWARD_ONLY
    );
    assert_eq!(MergePreference::default(), MergePreference::NoPreference);
}

#[test]
fn union_intersection_and_complement_of_analyses() {
    let fast = GitMergeAnalysis::fastforward() | GitMergeAnalysis::normal();
    assert_eq!(fast.bits(), 5);
    assert_eq!((fast & GitMergeAnalysis::normal()).bits(), 1);
    assert_eq!((!fast).bits(), 10);
    let mut narrowed = fast;
    narrowed &= GitMergeAnalysis::fastforward();
    assert_eq!(narrowed, GitMergeAnalysis::fastforward());
    assert_eq!(u32::from(GitMergeAnalysis::all()), 15);
    assert!(GitMergeAnalysis::all().contains(fast));
    assert!(!fast.contains(GitMergeAnalysis::all()));
}

#[test]
fn analysis_validation_reports_status_then_bits_then_preference() {
    assert_eq!(
        validate_analysis(-3, 99, 99),
        Err(MergeAnalysisError::Libgit2(-3))
    );
    assert_eq!(
        validate_analysis(0, 16, 99),
        Err(MergeAnalysisError::InvalidAnalysis(16))
    );
    assert_eq!(
        validate_analysis(0, 5, 3),
        Err(MergeAnalysisError::InvalidPreference(3))
    );
    assert_eq!(
        validate_analysis(0, 5, 2),
        Ok((
            GitMergeAnalysis::fastforward() | GitMergeAnalysis::normal(),
            MergePreference::FastForwardOnly
        ))
    );
}

#[test]
fn merge_base_outputs_and_input_checks() {
    let id = git_oid_fromstrn(b"ab").unwrap();
    assert_eq!(oid_output(0, id), Ok(id));
    assert_eq!(oid_output(-3, id), Err(-3));
    assert_eq!(oid_output(-3, Oid::zeroed()), Err(-3));
    assert_eq!(check_merge_base_inputs(0), Err(GIT_ERROR));
    assert_eq!(check_merge_base_inputs(1), Err(-1));
    assert_eq!(check_merge_base_inputs(2), Ok(()));
    assert_eq!(check_merge_heads(0), Err(GIT_EINVALID));
    assert_eq!(check_merge_heads(1), Ok(()));
}

#[test]
fn many_commit_queries_copy_their_inputs_in_order() {
    let first = git_oid_fromstrn(b"01").unwrap();
    let second = git_oid_fromstrn(b"02").unwrap();
    let third = git_oid_fromstrn(b"03").unwrap();
    assert_eq!(merge_base_inputs(&[]), Err(GIT_ERROR));
    assert_eq!(merge_base_inputs(&[&first]), Err(GIT_ERROR));
    assert_eq!(
        merge_base_inputs(&[&first, &second, &third]),
        Ok(vec![first, second, third])
    );
    assert_eq!(merge_base_inputs(&[&third, &third]), Ok(vec![third, third]));
}

#[test]
fn unions_contain_their_operands_and_complements_are_disjoint() {
    let analyses = [
        GitMergeAnalysis::none(),
        GitMergeAnalysis::normal(),
        GitMergeAnalysis::up_to_date(),
        GitMergeAnalysis::fastforward() | GitMergeAnalysis::normal(),
        GitMergeAnalysis::unborn() | GitMergeAnalysis::fastforward(),
        GitMergeAnalysis::all(),
    ];
    for a in analyses {
        for b in analyses {
            assert!((a | b).contains(a));
            assert!((a | b).contains(b));
            assert!(a.contains(a & b));
            assert!(b.contains(a & b));
        }
        assert!(!(!a).intersects(a));
        assert_eq!(a | !a, GitMergeAnalysis::all());
        assert_eq!(!!a, a);
    }
}
