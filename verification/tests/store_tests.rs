use resume_state::app_config::{load, store, AppConfig, AppTheme, AppThemeState, Stored, SystemTheme};
use resume_state::geometry::{Point, Scalar, Size};
use resume_state::store::{Phase, Store, WindowEvent};

fn point(x: f64, y: f64) -> Point {
    Point::new(Scalar::from_bits(x.to_bits()), Scalar::from_bits(y.to_bits()))
}

fn size(width: f64, height: f64) -> Size {
    Size::new(Scalar::from_bits(width.to_bits()), Scalar::from_bits(height.to_bits()))
}

fn value(s: Scalar) -> f64 {
    f64::from_bits(s.to_bits())
}

#[test]
fn scalar_keeps_its_bits() {
    for v in [0.0f64, -0.0, 1.5, 500.0, -123.456e7, f64::MAX, f64::MIN_POSITIVE, f64::INFINITY] {
        let s = Scalar::from_bits(v.to_bits());
        assert_eq!(s.to_bits(), v.to_bits());
        assert_eq!(value(s).to_bits(), v.to_bits());
    }
    let nan = Scalar::from_bits(f64::NAN.to_bits());
    assert!(value(nan).is_nan());
}

#[test]
fn default_is_the_first_run_state() {
    let config = AppConfig::default();
    assert_eq!(value(config.position.x), 500.0);
    assert_eq!(value(config.position.y), 500.0);
    assert_eq!(value(config.size.width), 350.0);
    assert_eq!(value(config.size.height), 650.0);
    assert_eq!(
        config.app_theme,
        AppThemeState { system: SystemTheme::Dark, theme: AppTheme::FollowSystem }
    );
    assert!(config.sliders_on);
}

#[test]
fn load_without_a_file_gives_the_default() {
    assert_eq!(load(Stored::Missing), AppConfig::default());
}

#[test]
fn load_of_a_corrupt_file_gives_the_default() {
    assert_eq!(load(Stored::Corrupt), AppConfig::default());
}

#[test]
fn load_of_a_valid_file_gives_its_state() {
    let kept = AppConfig {
        position: point(12.25, -40.0),
        size: size(800.0, 600.5),
        app_theme: AppThemeState { system: SystemTheme::Light, theme: AppTheme::DarkMode },
        sliders_on: false,
    };
    assert_eq!(load(Stored::Valid(kept)), kept);
}

#[test]
fn store_then_load_gives_the_state_back() {
    let themes = [AppTheme::FollowSystem, AppTheme::DarkMode, AppTheme::LightMode];
    let systems = [SystemTheme::Dark, SystemTheme::Light];
    let numbers = [0.0f64, -0.0, 0.1, 1e-9, 120.0, 80.0, 1e300, -7.000000001];
    for (i, theme) in themes.iter().enumerate() {
        for (j, system) in systems.iter().enumerate() {
            for (k, n) in numbers.iter().enumerate() {
                let snapshot = AppConfig {
                    position: point(*n, numbers[(k + 1) % numbers.len()]),
                    size: size(numbers[(k + 2) % numbers.len()], *n),
                    app_theme: AppThemeState { system: *system, theme: *theme },
                    sliders_on: (i + j + k) % 2 == 0,
                };
                let back = load(store(snapshot));
                assert_eq!(back, snapshot);
                assert!((value(back.position.x) - value(snapshot.position.x)).abs() <= 1e-9);
                assert!((value(back.size.width) - value(snapshot.size.width)).abs() <= 1e-9);
            }
        }
    }
}

#[test]
fn new_store_holds_the_state_and_is_idle() {
    let s = Store::new(AppConfig::default());
    assert_eq!(s.snapshot(), AppConfig::default());
    assert_eq!(s.phase(), Phase::Idle);
}

#[test]
fn first_run_then_move_writes_the_new_position() {
    let mut s = Store::new(load(Stored::Missing));
    let before = s.snapshot();
    assert_eq!(value(before.position.x), 500.0);
    assert_eq!(value(before.position.y), 500.0);
    assert_eq!(value(before.size.width), 350.0);
    assert_eq!(value(before.size.height), 650.0);
    assert_eq!(before.app_theme.theme, AppTheme::FollowSystem);

    let write = s.handle_window_moved(point(120.0, 80.0));
    let written = write.expect("a move outside a batch is written at once");
    assert_eq!(value(written.position.x), 120.0);
    assert_eq!(value(written.position.y), 80.0);
    assert_eq!(written.size, before.size);
    assert_eq!(written.app_theme, before.app_theme);
    assert_eq!(written.sliders_on, before.sliders_on);
    assert_eq!(s.snapshot(), written);
    assert_eq!(load(store(written)), written);
}

#[test]
fn resize_outside_a_batch_writes_the_new_size() {
    let mut s = Store::new(AppConfig::default());
    let write = s.handle_window_resized(size(1024.0, 768.0));
    let expected = AppConfig { size: size(1024.0, 768.0), ..AppConfig::default() };
    assert_eq!(write, Some(expected));
    assert_eq!(s.snapshot(), expected);
    assert_eq!(s.phase(), Phase::Idle);
}

#[test]
fn each_call_outside_a_batch_writes_once() {
    let mut s = Store::new(AppConfig::default());
    let mut writes = Vec::new();
    for n in 1..=4 {
        if let Some(w) = s.handle_window_resized(size(100.0 * n as f64, 50.0)) {
            writes.push(w);
        }
    }
    assert_eq!(writes.len(), 4);
    for (i, w) in writes.iter().enumerate() {
        assert_eq!(value(w.size.width), 100.0 * (i + 1) as f64);
    }
}

#[test]
fn a_move_to_the_same_place_is_still_written() {
    let mut s = Store::new(AppConfig::default());
    let write = s.handle_window_moved(point(500.0, 500.0));
    assert_eq!(write, Some(AppConfig::default()));
}

#[test]
fn other_events_change_nothing_and_write_nothing() {
    let mut s = Store::new(AppConfig::default());
    assert_eq!(s.handle_event(WindowEvent::Other), None);
    assert_eq!(s.snapshot(), AppConfig::default());
    s.begin_batch();
    assert_eq!(s.handle_event(WindowEvent::Other), None);
    assert_eq!(s.phase(), Phase::Batching { dirty: false });
    assert_eq!(s.end_batch(), None);
}

#[test]
fn handle_event_dispatches_moves_and_resizes() {
    let mut s = Store::new(AppConfig::default());
    let w = s.handle_event(WindowEvent::Moved(point(1.0, 2.0)));
    assert_eq!(w, Some(AppConfig { position: point(1.0, 2.0), ..AppConfig::default() }));
    let w = s.handle_event(WindowEvent::Resized(size(3.0, 4.0)));
    assert_eq!(
        w,
        Some(AppConfig { position: point(1.0, 2.0), size: size(3.0, 4.0), ..AppConfig::default() })
    );
}

#[test]
fn resizes_in_one_batch_are_written_once_with_the_last_size() {
    let mut s = Store::new(AppConfig::default());
    let mut writes = Vec::new();
    s.begin_batch();
    for n in 1..=25 {
        if let Some(w) = s.handle_window_resized(size(10.0 * n as f64, 20.0 * n as f64)) {
            writes.push(w);
        }
    }
    assert!(writes.is_empty());
    assert_eq!(s.phase(), Phase::Batching { dirty: true });
    if let Some(w) = s.end_batch() {
        writes.push(w);
    }
    assert_eq!(writes, vec![AppConfig { size: size(250.0, 500.0), ..AppConfig::default() }]);
    assert_eq!(s.phase(), Phase::Idle);
    assert_eq!(s.end_batch(), None);
}

#[test]
fn an_empty_batch_writes_nothing() {
    let mut s = Store::new(AppConfig::default());
    s.begin_batch();
    assert_eq!(s.phase(), Phase::Batching { dirty: false });
    assert_eq!(s.end_batch(), None);
    assert_eq!(s.phase(), Phase::Idle);
}

#[test]
fn beginning_inside_a_batch_keeps_what_is_waiting() {
    let mut s = Store::new(AppConfig::default());
    s.begin_batch();
    assert_eq!(s.handle_window_moved(point(7.0, 8.0)), None);
    s.begin_batch();
    assert_eq!(s.phase(), Phase::Batching { dirty: true });
    assert_eq!(
        s.end_batch(),
        Some(AppConfig { position: point(7.0, 8.0), ..AppConfig::default() })
    );
}

#[test]
fn end_without_begin_writes_nothing() {
    let mut s = Store::new(AppConfig::default());
    assert_eq!(s.end_batch(), None);
    assert_eq!(s.phase(), Phase::Idle);
}

#[test]
fn apply_batch_writes_the_last_state_once() {
    let mut s = Store::new(AppConfig::default());
    let events = vec![
        WindowEvent::Resized(size(1.0, 1.0)),
        WindowEvent::Moved(point(9.0, 9.0)),
        WindowEvent::Other,
        WindowEvent::Resized(size(640.0, 480.0)),
        WindowEvent::Moved(point(120.0, 80.0)),
    ];
    let write = s.apply_batch(&events);
    let expected = AppConfig {
        position: point(120.0, 80.0),
        size: size(640.0, 480.0),
        ..AppConfig::default()
    };
    assert_eq!(write, Some(expected));
    assert_eq!(s.snapshot(), expected);
    assert_eq!(s.phase(), Phase::Idle);
}

#[test]
fn apply_batch_of_nothing_writes_nothing() {
    let mut s = Store::new(AppConfig::default());
    assert_eq!(s.apply_batch(&Vec::new()), None);
    assert_eq!(s.apply_batch(&vec![WindowEvent::Other, WindowEvent::Other]), None);
    assert_eq!(s.snapshot(), AppConfig::default());
    assert_eq!(s.phase(), Phase::Idle);
}

#[test]
fn apply_batch_inside_an_open_batch_flushes_what_was_waiting() {
    let mut s = Store::new(AppConfig::default());
    s.begin_batch();
    assert_eq!(s.handle_window_resized(size(2.0, 3.0)), None);
    let write = s.apply_batch(&vec![WindowEvent::Other]);
    assert_eq!(write, Some(AppConfig { size: size(2.0, 3.0), ..AppConfig::default() }));
    assert_eq!(s.phase(), Phase::Idle);
}
