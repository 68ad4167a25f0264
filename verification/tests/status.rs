use startrails::fileinfo::CandidateInfo;
use startrails::rational::Rational;
use startrails::status::{
    after_emit, before_emit, expected_merges, EmitterAction, ImageInfo, InfoLoadingStatus, ProcessingSnapshot,
    ProcessingStatus, ProcessingStepStatus, Status, EMIT_INTERVAL_MS,
};

fn info(path: &str) -> CandidateInfo {
    CandidateInfo {
        path: String::from(path),
        filename: String::from("file.raw"),
        creation_time: String::from("2023-01-02T03:04:05"),
        exposure_time: Rational::new(1, 30),
        fnumber: Rational::new(28, 10),
        iso: 800,
    }
}

#[test]
fn a_new_status_has_counted_nothing() {
    let status = ProcessingStatus::new(3, 2);
    assert_eq!(status.count_lights, 3);
    assert_eq!(status.count_darks, 2);
    assert_eq!(status.count_lights(), 3);
    assert_eq!(status.count_darks(), 2);
    assert_eq!(
        status.snapshot(),
        ProcessingSnapshot {
            count_lights: 3,
            count_darks: 2,
            count_loaded_lights: 0,
            count_loading_lights: 0,
            count_merged: 0,
            count_merging: 0,
            loading_done: false,
            merging_done: false,
        }
    );
    assert!(!status.aborted());
    assert!(!status.finished());
    assert!(status.steps_ref().is_empty());
}

#[test]
fn loading_counts_frames_in_and_out() {
    let mut status = ProcessingStatus::new(2, 0);
    status.start_loading();
    status.start_loading();
    assert_eq!(status.snapshot().count_loading_lights, 2);
    assert_eq!(status.snapshot().count_loaded_lights, 0);
    status.finish_loading();
    assert_eq!(status.snapshot().count_loading_lights, 1);
    assert_eq!(status.snapshot().count_loaded_lights, 1);
    assert!(!status.loading_done());
    status.finish_loading();
    assert_eq!(status.snapshot().count_loading_lights, 0);
    assert_eq!(status.snapshot().count_loaded_lights, 2);
    assert!(status.loading_done());
}

#[test]
fn merging_counts_merges_in_and_out() {
    let mut status = ProcessingStatus::new(3, 0);
    assert!(!status.merging_done());
    status.start_merging();
    assert_eq!(status.snapshot().count_merging, 1);
    status.finish_merging();
    assert_eq!(status.snapshot().count_merging, 0);
    assert_eq!(status.snapshot().count_merged, 1);
    assert!(!status.merging_done());
    status.start_merging();
    status.finish_merging();
    assert!(status.merging_done());
}

#[test]
fn merges_expected_for_lights_and_darks() {
    // Lights and darks, then how many merges finish the reduction.
    for (lights, darks, merges) in [(1, 0, 0), (2, 0, 1), (5, 0, 4), (1, 1, 0), (1, 2, 1), (3, 3, 4), (0, 0, 0), (0, 3, 2)] {
        assert_eq!(expected_merges(lights, darks), merges as u128);
        let mut status = ProcessingStatus::new(lights, darks);
        for done in 0..merges {
            assert!(!status.merging_done(), "{} of {} merges", done, merges);
            status.start_merging();
            status.finish_merging();
        }
        assert!(status.merging_done(), "{} lights, {} darks", lights, darks);
    }
}

#[test]
fn a_merge_is_finished_when_all_is_loaded_and_merged() {
    let mut status = ProcessingStatus::new(2, 1);
    for _ in 0..3 {
        status.start_loading();
        status.finish_loading();
    }
    assert!(status.loading_done());
    assert!(!status.finished());
    status.start_merging();
    status.finish_merging();
    assert!(status.merging_done());
    assert!(status.finished());
    assert!(!status.aborted());
}

#[test]
fn an_abort_finishes_the_merge_and_stays() {
    let mut status = ProcessingStatus::new(2, 1);
    assert!(!status.finished());
    status.abort();
    assert!(status.aborted());
    assert!(status.finished());
    status.start_loading();
    status.finish_loading();
    status.start_merging();
    status.finish_merging();
    let index = status.start_step(String::from("write"), 'w');
    status.finish_step(index);
    status.abort();
    assert!(status.aborted());
    assert!(status.finished());
}

#[test]
fn counters_wrap_like_atomic_counters() {
    let mut status = ProcessingStatus::new(1, 0);
    status.finish_loading();
    assert_eq!(status.snapshot().count_loaded_lights, 1);
    assert_eq!(status.snapshot().count_loading_lights, usize::MAX);
    status.start_loading();
    assert_eq!(status.snapshot().count_loading_lights, 0);
    status.finish_merging();
    assert_eq!(status.snapshot().count_merging, usize::MAX);
}

#[test]
fn counts_that_do_not_fit_together_are_never_done() {
    assert_eq!(expected_merges(usize::MAX, usize::MAX), 2 * (usize::MAX as u128 - 1));
    let status = ProcessingStatus::new(usize::MAX, usize::MAX);
    assert!(!status.loading_done());
    assert!(!status.merging_done());
}

#[test]
fn steps_are_numbered_in_the_order_they_begin() {
    let mut status = ProcessingStatus::new(1, 0);
    assert_eq!(status.start_step(String::from("render"), 'r'), 0);
    assert_eq!(status.start_step(String::from("write"), 'w'), 1);
    assert_eq!(status.steps_ref().len(), 2);
    assert_eq!(status.steps_ref()[0].str, "render");
    assert_eq!(status.steps_ref()[1].emoji, 'w');
    assert!(!status.steps_ref()[0].is_finished());
    status.finish_step(1);
    assert!(!status.steps_ref()[0].is_finished());
    assert!(status.steps_ref()[1].is_finished());
    assert_eq!(status.steps_ref()[1].str, "write");
}

#[test]
fn a_step_runs_until_it_is_finished() {
    let mut step = ProcessingStepStatus::new(String::from("render"), 'r');
    assert_eq!(step.str, "render");
    assert_eq!(step.emoji, 'r');
    assert!(!step.is_finished());
    let first = step.runtime();
    let second = step.runtime();
    assert!(first <= second);
    step.finish();
    assert!(step.is_finished());
    let done = step.runtime();
    assert!(second <= done);
    assert_eq!(step.runtime(), done);
}

#[test]
fn a_step_is_timed_between_two_instants() {
    let start = std::time::Instant::now();
    let end = start + std::time::Duration::from_millis(1500);
    let mut step = ProcessingStepStatus::started_at(String::from("x"), 'x', start);
    assert_eq!(step.runtime_at(end), std::time::Duration::from_millis(1500));
    step.finish_at(end);
    assert!(step.is_finished());
    assert_eq!(step.runtime_at(end + std::time::Duration::from_secs(9)), std::time::Duration::from_millis(1500));
    assert_eq!(step.runtime(), std::time::Duration::from_millis(1500));
    assert_eq!(step.interval_at(start), (start, end));
    // An end before the start counts as no time at all.
    let backwards = ProcessingStepStatus::started_at(String::from("y"), 'y', end);
    assert_eq!(backwards.interval_at(start), (end, start));
    assert_eq!(backwards.runtime_at(start), std::time::Duration::ZERO);
}

#[test]
fn the_emitter_stops_on_abort_before_it_sends() {
    let mut status = ProcessingStatus::new(1, 0);
    assert_eq!(before_emit(&status), EmitterAction::Emit);
    assert_eq!(after_emit(&status), EmitterAction::Sleep(500));
    assert_eq!(EMIT_INTERVAL_MS, 500);
    status.abort();
    assert_eq!(before_emit(&status), EmitterAction::Stop);
    assert_eq!(after_emit(&status), EmitterAction::Stop);
}

#[test]
fn the_emitter_sends_a_last_snapshot_when_the_work_is_finished() {
    let mut status = ProcessingStatus::new(1, 0);
    status.start_loading();
    status.finish_loading();
    assert!(status.finished());
    assert_eq!(before_emit(&status), EmitterAction::Emit);
    assert_eq!(after_emit(&status), EmitterAction::Stop);
}

#[test]
fn a_preload_is_finished_when_every_file_is_read() {
    let paths = vec![String::from("/a/one.raw"), String::from("/a/two.raw")];
    let mut status = InfoLoadingStatus::new(&paths);
    assert!(!status.aborted());
    assert!(!status.finished());
    status.add_image_info(String::from("/a/one.raw"), info("/a/one.raw"));
    assert!(!status.finished());
    assert_eq!(after_emit(&status), EmitterAction::Sleep(500));
    status.add_loading_error(String::from("/a/two.raw"), String::from("no such file"));
    assert!(status.finished());
    assert!(!status.aborted());
    assert_eq!(before_emit(&status), EmitterAction::Emit);
    assert_eq!(after_emit(&status), EmitterAction::Stop);
}

#[test]
fn a_preload_of_nothing_is_finished() {
    let status = InfoLoadingStatus::new(&Vec::new());
    assert!(status.finished());
}

#[test]
fn a_snapshot_hands_out_the_results_once() {
    let paths = vec![String::from("/a/one.raw"), String::from("/a/two.raw")];
    let mut status = InfoLoadingStatus::new(&paths);
    status.add_image_info(String::from("/a/one.raw"), info("/a/one.raw"));
    let snapshot = status.json();
    assert_eq!(snapshot.count_total, 2);
    assert_eq!(snapshot.count_loaded, 1);
    assert_eq!(snapshot.image_infos, vec![(String::from("/a/one.raw"), ImageInfo::Loaded(info("/a/one.raw")))]);
    let snapshot = status.json();
    assert_eq!(snapshot.count_total, 2);
    assert_eq!(snapshot.count_loaded, 1);
    assert!(snapshot.image_infos.is_empty());
    status.add_failure(String::from("/a/two.raw"), Some(String::from("two.raw")), String::from("bad"));
    let snapshot = status.json();
    assert_eq!(snapshot.count_loaded, 2);
    assert_eq!(
        snapshot.image_infos,
        vec![(
            String::from("/a/two.raw"),
            ImageInfo::Failed {
                path: String::from("/a/two.raw"),
                filename: String::from("two.raw"),
                error: String::from("bad"),
            },
        )]
    );
}

#[test]
fn a_failure_without_a_file_name_is_filed_under_its_path() {
    let mut status = InfoLoadingStatus::new(&vec![String::from("..")]);
    status.add_failure(String::from(".."), None, String::from("not a file"));
    assert_eq!(
        status.json().image_infos,
        vec![(
            String::from(".."),
            ImageInfo::Failed { path: String::from(".."), filename: String::from(".."), error: String::from("not a file") },
        )]
    );
}

#[test]
fn a_loading_error_is_filed_under_the_file_name() {
    let mut status = InfoLoadingStatus::new(&vec![String::from("dir/photo.raw")]);
    status.add_loading_error(String::from("dir/photo.raw"), String::from("truncated"));
    assert_eq!(
        status.json().image_infos,
        vec![(
            String::from("dir/photo.raw"),
            ImageInfo::Failed {
                path: String::from("dir/photo.raw"),
                filename: String::from("photo.raw"),
                error: String::from("truncated"),
            },
        )]
    );
}
