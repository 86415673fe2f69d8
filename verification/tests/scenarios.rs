// Whole-file and whole-batch scenarios: the worker driven through its
// event protocol with a simulated codec, and outcomes aggregated into a
// final report.

use rsimg::errors::FileOutcome;
use rsimg::naming::output_path;
use rsimg::errors::TaskError;
use rsimg::report::BatchReport;
use rsimg::tasks::TaskMatrix;
use rsimg::worker::EncodeOp;
use rsimg::worker::FileWorker;

fn matrix(scales: &[u32], formats: &[&str]) -> TaskMatrix {
    let scales: Vec<u32> = scales.to_vec();
    let formats: Vec<String> = formats.iter().map(|f| f.to_string()).collect();
    TaskMatrix::new(&scales, &formats)
}

// Runs one file whose decode yields the given dimensions and whose every
// save succeeds; returns the operations handed out and the worker.
fn run_happy(input: &str, m: TaskMatrix, quality: u8, out_dir: Option<&str>, dims: (u32, u32)) -> (Vec<EncodeOp>, FileWorker) {
    let mut w = FileWorker::new(input, m, quality, out_dir);
    w.on_decode_ok(dims.0, dims.1);
    let mut ops = Vec::new();
    while let Some(op) = w.next_op() {
        ops.push(op);
        w.on_save_ok();
    }
    (ops, w)
}

#[test]
fn one_photo_two_scales_two_formats() {
    // One 1000x1000 photo.jpg, scales [100, 50], formats [png, jpg],
    // quality 80, no output directory: exactly four outputs, the 100pct
    // pair at 1000x1000 and the 50pct pair at 500x500, and a success.
    let m = matrix(&[100, 50], &["png", "jpg"]);
    let (ops, w) = run_happy("photo.jpg", m, 80, None, (1000, 1000));
    assert_eq!(ops.len(), 4);
    let expect = [
        ("photo_100pct.png", 1000, 1000),
        ("photo_100pct.jpg", 1000, 1000),
        ("photo_50pct.png", 500, 500),
        ("photo_50pct.jpg", 500, 500),
    ];
    for (k, (path, width, height)) in expect.iter().enumerate() {
        assert_eq!(ops[k].out_path, *path);
        assert_eq!(ops[k].width, *width);
        assert_eq!(ops[k].height, *height);
        assert_eq!(ops[k].task_index, k);
        assert_eq!(ops[k].quality, 80);
    }
    assert!(w.succeeded());
    assert!(matches!(w.outcome(), FileOutcome::Success { .. }));
}

#[test]
fn output_directory_redirects_all_outputs() {
    let m = matrix(&[50], &["webp"]);
    let (ops, w) = run_happy("pics/photo.jpg", m, 90, Some("out"), (100, 60));
    assert_eq!(ops.len(), 1);
    assert_eq!(ops[0].out_path, "out/photo_50pct.webp");
    assert_eq!(ops[0].width, 50);
    assert_eq!(ops[0].height, 30);
    assert!(w.succeeded());
}

#[test]
fn degenerate_scale_fails_whole_file() {
    // 4x10 at scale 10 rounds the width to zero: that task fails the file
    // and no further task of the file is attempted.
    let m = matrix(&[50, 10, 25], &["png"]);
    let mut w = FileWorker::new("tiny.png", m, 80, None);
    w.on_decode_ok(4, 10);
    let first = w.next_op().expect("the 50pct task is fine");
    assert_eq!(first.out_path, "tiny_50pct.png");
    w.on_save_ok();
    assert!(w.next_op().is_none());
    assert!(w.finished());
    assert!(!w.succeeded());
    match w.outcome() {
        FileOutcome::Failure { input, failed_task, error } => {
            assert_eq!(input, "tiny.png");
            assert_eq!(failed_task, Some(1));
            assert!(matches!(
                error,
                TaskError::DegenerateSize { width: 0, height: 1, scale: 10 }
            ));
        }
        _ => panic!("expected a failure"),
    }
}

#[test]
fn unsupported_format_fails_the_file_at_its_task() {
    let m = matrix(&[50], &["png", "bmp"]);
    let mut w = FileWorker::new("photo.png", m, 80, None);
    w.on_decode_ok(100, 100);
    let first = w.next_op().expect("png encodes fine");
    assert_eq!(first.out_path, "photo_50pct.png");
    w.on_save_ok();
    assert!(w.next_op().is_none());
    match w.outcome() {
        FileOutcome::Failure { failed_task, error, .. } => {
            assert_eq!(failed_task, Some(1));
            assert!(matches!(error, TaskError::UnsupportedFormat { format } if format == "bmp"));
        }
        _ => panic!("expected a failure"),
    }
}

#[test]
fn save_error_aborts_remaining_tasks() {
    let m = matrix(&[100, 50], &["jpg"]);
    let mut w = FileWorker::new("photo.jpg", m, 80, None);
    w.on_decode_ok(800, 600);
    let _first = w.next_op().expect("first task");
    w.on_save_ok();
    let _second = w.next_op().expect("second task");
    w.on_save_err(TaskError::Write { message: "disk full".to_string() });
    assert!(w.finished());
    match w.outcome() {
        FileOutcome::Failure { failed_task, error, .. } => {
            assert_eq!(failed_task, Some(1));
            assert!(matches!(error, TaskError::Write { message } if message == "disk full"));
        }
        _ => panic!("expected a failure"),
    }
}

#[test]
fn path_without_file_name_is_an_invalid_filename() {
    let m = matrix(&[50], &["jpg"]);
    let mut w = FileWorker::new("dir/", m, 80, None);
    w.on_decode_ok(10, 10);
    assert!(w.finished());
    match w.outcome() {
        FileOutcome::Failure { failed_task, error, .. } => {
            assert_eq!(failed_task, None);
            assert!(matches!(error, TaskError::InvalidFilename));
        }
        _ => panic!("expected a failure"),
    }
}

#[test]
fn three_files_middle_decode_failure_isolated() {
    // A batch of three files in which the second always fails decoding
    // still produces every output of files one and three, and the report
    // lists exactly one failure.
    let mut report = BatchReport::new();
    let mut total_ops = 0;
    for (k, input) in ["a.jpg", "b.jpg", "c.jpg"].iter().enumerate() {
        let m = matrix(&[75, 50, 25], &["jpg", "webp"]);
        let mut w = FileWorker::new(input, m, 80, None);
        if k == 1 {
            w.on_decode_err("corrupt header".to_string());
        } else {
            w.on_decode_ok(400, 400);
            while let Some(_op) = w.next_op() {
                total_ops += 1;
                w.on_save_ok();
            }
        }
        report.record(w.outcome());
    }
    assert_eq!(total_ops, 12); // both healthy files delivered all 6 outputs
    assert_eq!(report.len(), 3);
    assert_eq!(report.failure_count(), 1);
    let err = report.summarize().expect_err("one failure fails the run");
    assert_eq!(err.count, 1);
    assert_eq!(err.failures.len(), 1);
    match &err.failures[0] {
        FileOutcome::Failure { input, error, .. } => {
            assert_eq!(input, "b.jpg");
            assert!(matches!(error, TaskError::Decode { message } if message == "corrupt header"));
        }
        _ => panic!("the failure entry must be a failure"),
    }
}

#[test]
fn two_files_one_corrupt_reports_exactly_it() {
    // Two inputs, one corrupt: the report holds exactly one failure entry
    // naming the corrupt file, the run's summary is a failure (a failing
    // exit), and the healthy file's outputs were all handed out.
    let mut report = BatchReport::new();

    let m = matrix(&[50], &["png"]);
    let mut healthy = FileWorker::new("good.jpg", m, 80, None);
    healthy.on_decode_ok(200, 200);
    let op = healthy.next_op().expect("one output for the healthy file");
    assert_eq!(op.out_path, "good_50pct.png");
    healthy.on_save_ok();
    assert!(healthy.next_op().is_none());
    report.record(healthy.outcome());

    let m = matrix(&[50], &["png"]);
    let mut corrupt = FileWorker::new("bad.jpg", m, 80, None);
    corrupt.on_decode_err("not an image".to_string());
    report.record(corrupt.outcome());

    assert!(!report.is_success());
    assert_eq!(report.failure_count(), 1);
    let err = report.summarize().expect_err("the run fails");
    assert_eq!(err.count, 1);
    match &err.failures[0] {
        FileOutcome::Failure { input, .. } => assert_eq!(input, "bad.jpg"),
        _ => panic!("the failure entry must be a failure"),
    }
}

#[test]
fn report_keeps_failures_in_completion_order() {
    let mut report = BatchReport::new();
    for input in ["x.jpg", "y.jpg", "z.jpg"] {
        let m = matrix(&[50], &["png"]);
        let mut w = FileWorker::new(input, m, 80, None);
        w.on_decode_err("bad".to_string());
        report.record(w.outcome());
    }
    let err = report.summarize().expect_err("all failed");
    assert_eq!(err.count, 3);
    let names: Vec<&str> = err
        .failures
        .iter()
        .map(|o| match o {
            FileOutcome::Failure { input, .. } => input.as_str(),
            FileOutcome::Success { input } => input.as_str(),
        })
        .collect();
    assert_eq!(names, ["x.jpg", "y.jpg", "z.jpg"]);
}

#[test]
fn all_successes_summarize_ok() {
    let mut report = BatchReport::new();
    for input in ["x.jpg", "y.jpg"] {
        let m = matrix(&[100], &["jpg"]);
        let (ops, w) = run_happy(input, m, 80, None, (32, 32));
        assert_eq!(ops.len(), 1);
        report.record(w.outcome());
    }
    assert!(report.is_success());
    assert!(report.summarize().is_ok());
}

#[test]
fn aggregation_is_order_independent() {
    // The same outcomes recorded in two different completion orders give
    // the same verdict and the same failure count.
    let outcomes = |order: [usize; 3]| {
        let mut report = BatchReport::new();
        let inputs = ["a.jpg", "b.jpg", "c.jpg"];
        for k in order {
            let m = matrix(&[50], &["png"]);
            let mut w = FileWorker::new(inputs[k], m, 80, None);
            if k == 1 {
                w.on_decode_err("corrupt".to_string());
            } else {
                w.on_decode_ok(100, 100);
                while w.next_op().is_some() {
                    w.on_save_ok();
                }
            }
            report.record(w.outcome());
        }
        report
    };
    let forward = outcomes([0, 1, 2]);
    let backward = outcomes([2, 1, 0]);
    assert_eq!(forward.failure_count(), backward.failure_count());
    assert_eq!(forward.is_success(), backward.is_success());
    assert_eq!(forward.failure_count(), 1);
}

#[test]
fn distinct_tasks_never_share_an_output_path() {
    let m = matrix(&[100, 50, 10], &["jpg", "jpeg", "png", "webp"]);
    let mut paths: Vec<String> = Vec::new();
    for t in &m.tasks {
        paths.push(output_path("shots/photo.jpg", Some("out"), t.scale, &t.format));
    }
    for i in 0..paths.len() {
        for j in 0..paths.len() {
            if i != j {
                assert_ne!(paths[i], paths[j]);
            }
        }
    }
}

#[test]
fn empty_matrix_succeeds_without_operations() {
    let m = matrix(&[], &["jpg"]);
    let (ops, w) = run_happy("photo.jpg", m, 80, None, (10, 10));
    assert!(ops.is_empty());
    assert!(w.succeeded());
}
