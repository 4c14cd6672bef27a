use walrus::config::react_to_file_event;
use walrus::config::Config;
use walrus::config::General;
use walrus::config::LogLevel;
use walrus::config::Resolution;
use walrus::config::Transition;
use walrus::transition::TransitionFlavour;

fn bare_general() -> General {
    General {
        debug: None,
        interval: None,
        resolution: None,
        shuffle: None,
        swww_path: None,
        wallpaper_path: None,
    }
}

#[test]
fn getters_fall_back_to_defaults() {
    let g = bare_general();
    assert_eq!(g.interval(), 300);
    assert!(g.shuffle());
    assert_eq!(g.swww_path(), "/usr/bin/swww");
    assert_eq!(g.wallpaper_path(), "");
    assert_eq!(g.resolution(), Resolution { width: 1920, height: 1080 });
    assert_eq!(g.debug(), LogLevel::Info);
    let t = Transition::defaults();
    assert_eq!(t.fps(), 60);
    assert_eq!(t.step(), 60);
    assert_eq!(t.duration(), 1000);
    assert_eq!(t.fill(), "000000");
    assert_eq!(t.wave_size(), (70, 80, 35, 40));
    assert_eq!(
        t.flavour(),
        vec![
            TransitionFlavour::Wipe,
            TransitionFlavour::Wave,
            TransitionFlavour::Grow,
            TransitionFlavour::Outer
        ]
    );
}

#[test]
fn defaults_put_wallpapers_under_pictures() {
    let c = Config::defaults("/home/u/Pictures");
    assert_eq!(c.wallpaper_path(), "/home/u/Pictures/Wallpapers");
    assert_eq!(c.interval(), 300);
    assert!(c.shuffle());
    let c = Config::defaults("/home/u/Pictures/");
    assert_eq!(c.wallpaper_path(), "/home/u/Pictures/Wallpapers");
}

#[test]
fn configured_values_win() {
    let mut g = bare_general();
    g.interval = Some(60);
    g.shuffle = Some(false);
    g.debug = Some("TRACE".to_string());
    assert_eq!(g.interval(), 60);
    assert!(!g.shuffle());
    assert_eq!(g.debug(), LogLevel::Trace);
    g.debug = Some("loud".to_string());
    assert_eq!(g.debug(), LogLevel::Info);
    g.debug = Some("Warn".to_string());
    assert_eq!(g.debug(), LogLevel::Warn);
}

#[test]
fn completion_keeps_user_values() {
    let mut g = bare_general();
    g.resolution = Some(Resolution { width: 69, height: 420 });
    let mut t = Transition::defaults();
    t.fps = Some(42069);
    let mut c = Config { general: Some(g), transition: Some(t) };
    c.complete(144, Resolution { width: 2560, height: 1440 }, "/p");
    assert_eq!(c.resolution(), Resolution { width: 69, height: 420 });
    assert_eq!(c.transition.as_ref().unwrap().fps(), 42069);
}

#[test]
fn completion_fills_detected_values() {
    let mut c = Config { general: None, transition: None };
    c.complete(144, Resolution { width: 2560, height: 1440 }, "/p");
    assert_eq!(c.resolution(), Resolution { width: 2560, height: 1440 });
    assert_eq!(c.transition.as_ref().unwrap().fps(), 144);
    assert_eq!(c.wallpaper_path(), "/p/Wallpapers");
    let mut c = Config { general: Some(bare_general()), transition: Some(Transition::defaults()) };
    c.complete(75, Resolution { width: 800, height: 600 }, "/p");
    assert_eq!(c.resolution(), Resolution { width: 800, height: 600 });
    assert_eq!(c.transition.as_ref().unwrap().fps(), 75);
}

#[test]
fn removal_reloads_once_and_rearms() {
    let r = react_to_file_event(false, true);
    assert!(r.reload);
    assert!(r.rearm);
    let r = react_to_file_event(true, false);
    assert!(r.reload);
    assert!(!r.rearm);
    let r = react_to_file_event(false, false);
    assert!(!r.reload);
    assert!(!r.rearm);
}

#[test]
fn description_lists_every_setting() {
    let mut g = bare_general();
    g.interval = Some(60);
    g.resolution = Some(Resolution { width: 2560, height: -1 });
    g.shuffle = Some(false);
    g.wallpaper_path = Some("/w".to_string());
    let mut t = Transition::defaults();
    t.flavour = Some(vec![TransitionFlavour::Wipe, TransitionFlavour::Grow]);
    t.bezier = Some([-100, 0, 1500, 1000]);
    let c = Config { general: Some(g), transition: Some(t) };
    let expected = "\nCurrent configuration\n---------------------\n\
[General]\n\
debug = None\n\
interval = 60\n\
resolution = { width = 2560, height = -1 }\n\
shuffle = false\n\
swww_path = None\n\
wallpaper_path = /w\n\
\n\
[Transition]\n\
bezier = [-0.1, 0, 1.5, 1]\n\
duration = 1\n\
dynamic_duration = true\n\
fill = 000000\n\
filter = Lanczos3\n\
flavour = [wipe, grow]\n\
fps = None\n\
step = 60\n\
resize = crop\n\
wave_size = [70, 80, 35, 40]\n\
\n";
    assert_eq!(c.describe(), expected);
}

#[test]
fn description_of_missing_sections() {
    let c = Config { general: None, transition: None };
    let text = c.describe();
    assert!(text.contains("resolution = { width = 1920, height = 1080 }\n"));
    assert!(text.contains("flavour = [wipe, wave, grow, outer]\n"));
    assert!(text.contains("duration = None\n"));
}
