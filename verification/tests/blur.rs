use macos_term::blur::{titlebar_report, BlurStep, Stream, WindowBlurManager, INITIAL_BLUR_RADIUS};

#[test]
fn initialised_only_on_zero() {
    assert!(WindowBlurManager::new(0).is_initialized());
    assert!(!WindowBlurManager::new(1).is_initialized());
    assert!(!WindowBlurManager::new(-1).is_initialized());
}

#[test]
fn init_reports() {
    let ok = WindowBlurManager::new(0).init_report();
    assert_eq!(ok.stream, Stream::Stdout);
    assert_eq!(ok.text, "✅ WindowBlurManager initialized successfully");
    let bad = WindowBlurManager::new(3).init_report();
    assert_eq!(bad.stream, Stream::Stderr);
    assert_eq!(bad.text, "❌ WindowBlurManager failed to initialize");
}

#[test]
fn initialised_manager_passes_the_radius_on() {
    let m = WindowBlurManager::new(0);
    for r in [0u32, INITIAL_BLUR_RADIUS, 100, u32::MAX] {
        match m.set_blur(r) {
            BlurStep::Apply(x) => assert_eq!(x, r),
            BlurStep::Refuse(_) => panic!("refused"),
        }
    }
}

#[test]
fn uninitialised_manager_refuses() {
    let m = WindowBlurManager::new(-5);
    match m.set_blur(50) {
        BlurStep::Apply(_) => panic!("applied"),
        BlurStep::Refuse(line) => {
            assert_eq!(line.stream, Stream::Stderr);
            assert_eq!(line.text, "❌ Cannot apply blur - manager not initialized");
        }
    }
}

#[test]
fn blur_reports() {
    let ok = WindowBlurManager::blur_report(50, 0);
    assert_eq!(ok.stream, Stream::Stdout);
    assert_eq!(ok.text, "✅ Blur applied successfully: radius=50");
    let bad = WindowBlurManager::blur_report(50, -3);
    assert_eq!(bad.stream, Stream::Stderr);
    assert_eq!(bad.text, "❌ Failed to apply blur: result=-3");
    let bad2 = WindowBlurManager::blur_report(7, 12);
    assert_eq!(bad2.text, "❌ Failed to apply blur: result=12");
}

#[test]
fn titlebar_reports() {
    let ok = titlebar_report(0);
    assert_eq!(ok.stream, Stream::Stdout);
    assert_eq!(ok.text, "✅ Titlebar set to opaque");
    let bad = titlebar_report(-1);
    assert_eq!(bad.stream, Stream::Stderr);
    assert_eq!(bad.text, "❌ Failed to set titlebar opaque: result=-1");
}
