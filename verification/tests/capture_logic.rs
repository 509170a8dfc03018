use starnet::capture::{
    acquire_failure, desktop_extent, output_search_step, pack_rows, CaptureError, DxgiCapturer,
    OutputProbe, OutputSearch, DXGI_ACCESS_LOST, DXGI_WAIT_TIMEOUT, MAX_OUTPUTS,
};

#[test]
fn dxgi_hresults_match_the_windows_constants() {
    assert_eq!(DXGI_WAIT_TIMEOUT, 0x887A0027u32 as i32);
    assert_eq!(DXGI_ACCESS_LOST, 0x887A0026u32 as i32);
}

#[test]
fn capturer_lifecycle() {
    let mut c: DxgiCapturer<&'static str> = DxgiCapturer::new();
    assert!(c.check_start().is_ok());
    assert!(matches!(c.frame_source(), Err(CaptureError::NotStarted)));
    assert_eq!((c.width(), c.height()), (0, 0));
    assert!(c.start(|| Ok(("handles", 2560, 1440))).is_ok());
    assert!(matches!(c.check_start(), Err(CaptureError::AlreadyStarted)));
    let mut called = false;
    assert!(matches!(
        c.start(|| {
            called = true;
            Ok(("other", 1, 1))
        }),
        Err(CaptureError::AlreadyStarted)
    ));
    assert!(!called);
    assert_eq!(*c.frame_source().unwrap(), "handles");
    assert_eq!((c.width(), c.height()), (2560, 1440));
    assert!(c.stop().is_ok());
    assert!(matches!(c.frame_source(), Err(CaptureError::NotStarted)));
    assert_eq!((c.width(), c.height()), (0, 0));
    assert!(c.check_start().is_ok());
    let d: DxgiCapturer<u8> = DxgiCapturer::default();
    assert!(d.check_start().is_ok());
}

#[test]
fn acquire_failures_are_classified() {
    assert!(matches!(acquire_failure(DXGI_WAIT_TIMEOUT, "x".into()), CaptureError::Timeout));
    assert!(matches!(acquire_failure(DXGI_ACCESS_LOST, "x".into()), CaptureError::DeviceLost));
    match acquire_failure(-1, "AcquireNextFrame: boom".into()) {
        CaptureError::PlatformError(m) => assert_eq!(m, "AcquireNextFrame: boom"),
        other => panic!("unexpected {:?}", other),
    }
}

#[test]
fn desktop_extents() {
    assert_eq!(desktop_extent(0, 1920), 1920);
    assert_eq!(desktop_extent(-1920, 0), 1920);
    assert_eq!(desktop_extent(100, 100), 0);
    assert_eq!(desktop_extent(10, 0), (-10i32) as u32);
}

#[test]
fn pack_rows_drops_row_padding() {
    // 2 rows of 1 pixel (4 bytes), rows 6 bytes apart.
    let src: Vec<u8> = vec![1, 2, 3, 4, 0xEE, 0xEE, 5, 6, 7, 8];
    assert_eq!(pack_rows(&src, 6, 1, 2), vec![1, 2, 3, 4, 5, 6, 7, 8]);
    // Without padding the bytes are unchanged.
    let tight: Vec<u8> = (0..24).collect();
    assert_eq!(pack_rows(&tight, 8, 2, 3), tight);
    // No rows, no bytes.
    assert!(pack_rows(&[], 16, 4, 0).is_empty());
}

#[test]
fn output_search_takes_first_attached() {
    assert_eq!(MAX_OUTPUTS, 16);
    assert!(matches!(output_search_step(0, OutputProbe::Attached), OutputSearch::Select(0)));
    assert!(matches!(output_search_step(3, OutputProbe::Detached), OutputSearch::Probe(4)));
    match output_search_step(2, OutputProbe::Missing) {
        OutputSearch::Fail(CaptureError::PlatformError(m)) => assert_eq!(m, "No attached display found"),
        other => panic!("unexpected {:?}", other),
    }
    match output_search_step(15, OutputProbe::Detached) {
        OutputSearch::Fail(CaptureError::PlatformError(m)) => assert_eq!(m, "No attached display found"),
        other => panic!("unexpected {:?}", other),
    }
    match output_search_step(1, OutputProbe::Failed(CaptureError::PlatformError("GetDesc: e".into()))) {
        OutputSearch::Fail(CaptureError::PlatformError(m)) => assert_eq!(m, "GetDesc: e"),
        other => panic!("unexpected {:?}", other),
    }
}

#[test]
fn output_search_over_a_run_of_outputs() {
    // Outputs 0 and 1 are detached, 2 is attached.
    let probes = [OutputProbe::Detached, OutputProbe::Detached, OutputProbe::Attached];
    let mut index = 0u32;
    let mut chosen = None;
    for p in probes {
        match output_search_step(index, p) {
            OutputSearch::Select(i) => {
                chosen = Some(i);
                break;
            }
            OutputSearch::Probe(next) => index = next,
            OutputSearch::Fail(e) => panic!("unexpected {:?}", e),
        }
    }
    assert_eq!(chosen, Some(2));
}

#[test]
fn failed_setup_leaves_capturer_stopped_and_retryable() {
    let mut c: DxgiCapturer<u8> = DxgiCapturer::new();
    match c.start(|| Err(CaptureError::PlatformError("DuplicateOutput: denied".into()))) {
        Err(CaptureError::PlatformError(m)) => assert_eq!(m, "DuplicateOutput: denied"),
        other => panic!("unexpected {:?}", other),
    }
    assert!(matches!(c.frame_source(), Err(CaptureError::NotStarted)));
    assert!(c.check_start().is_ok());
    assert!(c.start(|| Ok((7, 800, 600))).is_ok());
    assert_eq!(*c.frame_source().unwrap(), 7);
    assert_eq!((c.width(), c.height()), (800, 600));
}
