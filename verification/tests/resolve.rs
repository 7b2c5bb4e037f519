use loggerv::{resolve, Level, DEFAULT_OFFSET};

#[test]
fn verbosity_moves_the_baseline_step_by_step() {
    assert_eq!(resolve(Some(Level::Warn), Some(0), None), Level::Warn);
    assert_eq!(resolve(Some(Level::Warn), Some(1), None), Level::Info);
    assert_eq!(resolve(Some(Level::Warn), Some(2), None), Level::Debug);
    assert_eq!(resolve(Some(Level::Warn), Some(3), None), Level::Trace);
    assert_eq!(resolve(Some(Level::Warn), Some(99), None), Level::Trace);
}

#[test]
fn verbosity_saturates_at_trace() {
    assert_eq!(resolve(Some(Level::Trace), Some(u64::MAX), None), Level::Trace);
    assert_eq!(resolve(Some(Level::Error), Some(u64::MAX), None), Level::Trace);
    assert_eq!(resolve(None, Some(u64::MAX), None), Level::Trace);
    assert_eq!(resolve(Some(Level::Error), Some(4), None), Level::Trace);
    assert_eq!(resolve(Some(Level::Error), Some(3), None), Level::Debug);
    assert_eq!(resolve(Some(Level::Debug), Some(1), None), Level::Trace);
    assert_eq!(resolve(Some(Level::Trace), Some(0), None), Level::Trace);
}

#[test]
fn an_unset_baseline_counts_from_the_default_offset() {
    assert_eq!(DEFAULT_OFFSET, 1);
    assert_eq!(resolve(None, Some(0), None), Level::Warn);
    assert_eq!(resolve(None, Some(1), None), Level::Info);
    assert_eq!(resolve(None, Some(2), None), Level::Debug);
    assert_eq!(resolve(None, Some(3), None), Level::Trace);
    assert_eq!(resolve(None, None, None), Level::Warn);
}

#[test]
fn explicit_level_wins() {
    let levels = [Level::Error, Level::Warn, Level::Info, Level::Debug, Level::Trace];
    for baseline in levels {
        for verbosity in [None, Some(0), Some(1), Some(7), Some(u64::MAX)] {
            assert_eq!(resolve(Some(baseline), verbosity, Some(Level::Error)), Level::Error);
            assert_eq!(resolve(None, verbosity, Some(Level::Error)), Level::Error);
            for explicit in levels {
                assert_eq!(resolve(Some(baseline), verbosity, Some(explicit)), explicit);
            }
        }
    }
}

#[test]
fn without_verbosity_the_baseline_stands() {
    for baseline in [Level::Error, Level::Warn, Level::Info, Level::Debug, Level::Trace] {
        assert_eq!(resolve(Some(baseline), None, None), baseline);
        assert_eq!(resolve(Some(baseline), Some(0), None), baseline);
    }
}

#[test]
fn threshold_never_passes_a_more_verbose_record() {
    let levels = [Level::Error, Level::Warn, Level::Info, Level::Debug, Level::Trace];
    for threshold in levels {
        for severity in levels {
            assert_eq!(severity.passes(threshold), severity.rank() <= threshold.rank());
            if threshold.rank() < severity.rank() {
                assert!(!severity.passes(threshold));
            }
        }
    }
    assert!(Level::Error.passes(Level::Error));
    assert!(Level::Info.passes(Level::Debug));
    assert!(!Level::Debug.passes(Level::Info));
}

#[test]
fn ranks_follow_verbosity() {
    assert_eq!(Level::Error.rank(), 0);
    assert_eq!(Level::Warn.rank(), 1);
    assert_eq!(Level::Info.rank(), 2);
    assert_eq!(Level::Debug.rank(), 3);
    assert_eq!(Level::Trace.rank(), 4);
    assert_eq!(Level::from_rank(0), Level::Error);
    assert_eq!(Level::from_rank(1), Level::Warn);
    assert_eq!(Level::from_rank(2), Level::Info);
    assert_eq!(Level::from_rank(3), Level::Debug);
    assert_eq!(Level::from_rank(4), Level::Trace);
    assert_eq!(Level::from_rank(5), Level::Trace);
    assert_eq!(Level::from_rank(u64::MAX), Level::Trace);
    assert_eq!(Level::unset(), Level::Warn);
    assert_eq!(Level::Info.most_verbose(Level::Debug), Level::Debug);
    assert_eq!(Level::Trace.most_verbose(Level::Error), Level::Trace);
}

#[test]
fn level_names_are_read_in_any_case() {
    assert_eq!(Level::from_name("error"), Some(Level::Error));
    assert_eq!(Level::from_name("WARN"), Some(Level::Warn));
    assert_eq!(Level::from_name("Info"), Some(Level::Info));
    assert_eq!(Level::from_name("dEbUg"), Some(Level::Debug));
    assert_eq!(Level::from_name("trace"), Some(Level::Trace));
    assert_eq!(Level::from_name(""), None);
    assert_eq!(Level::from_name("off"), None);
    assert_eq!(Level::from_name("warning"), None);
    assert_eq!(Level::from_name("war"), None);
    assert_eq!(Level::from_name(" info"), None);
    assert_eq!(Level::from_name("inf\u{4f}"), Some(Level::Info));
    assert_eq!(Level::from_name("inf\u{f6}"), None);
    assert_eq!(Level::from_name("3"), None);
}

#[test]
fn level_texts_are_upper_case() {
    assert_eq!(Level::Error.as_str(), "ERROR");
    assert_eq!(Level::Warn.as_str(), "WARN");
    assert_eq!(Level::Info.as_str(), "INFO");
    assert_eq!(Level::Debug.as_str(), "DEBUG");
    assert_eq!(Level::Trace.as_str(), "TRACE");
}

#[test]
fn levels_are_ordered_by_rank() {
    assert!(Level::Error < Level::Warn);
    assert!(Level::Warn < Level::Info);
    assert!(Level::Info < Level::Debug);
    assert!(Level::Debug < Level::Trace);
    assert_eq!(Level::Info.max(Level::Warn), Level::Info);
}
