use walrus::commands::Commands;
use walrus::config::Config;
use walrus::config::General;
use walrus::config::Transition;
use walrus::daemon::Daemon;
use walrus::daemon::Decision;
use walrus::daemon::Event;
use walrus::dirs::ipc_dir;
use walrus::dirs::ipc_paths;
use walrus::dirs::plan_category_link;
use walrus::dirs::resolve_dir;
use walrus::dirs::DirError;
use walrus::dirs::Dirs;
use walrus::queue::WalkEntry;
use walrus::transition::TransitionFlavour;

fn config(root: &str, shuffle: bool) -> Config {
    let general = General {
        debug: None,
        interval: Some(5),
        resolution: None,
        shuffle: Some(shuffle),
        swww_path: None,
        wallpaper_path: Some(root.to_string()),
    };
    Config { general: Some(general), transition: Some(Transition::defaults()) }
}

fn walk(paths: &[&str]) -> Vec<WalkEntry> {
    paths.iter().map(|p| WalkEntry { path: p.to_string(), is_file: true }).collect()
}

fn daemon() -> Daemon {
    Daemon::new(config("/w", false), &walk(&["/w/c.png", "/w/a.png", "/w/b.png"]))
}

fn is_advance(d: &Decision, forward: bool) -> bool {
    matches!(d, Decision::Advance { forward: f } if *f == forward)
}

#[test]
fn startup_sorts_and_shows_first() {
    let mut d = daemon();
    assert_eq!(d.prepare(), Some("/w/a.png".to_string()));
    assert_eq!(d.interval(), 5);
}

#[test]
fn commands_map_to_decisions() {
    let mut d = daemon();
    assert!(is_advance(&d.handle(Event::Command(Commands::Next)), true));
    assert!(is_advance(&d.handle(Event::Command(Commands::Previous)), false));
    assert!(matches!(d.handle(Event::Command(Commands::Reload)), Decision::Reload));
    assert!(matches!(d.handle(Event::Command(Commands::Shutdown)), Decision::Stop));
    assert!(matches!(d.handle(Event::Disconnected), Decision::Stop));
    match d.handle(Event::Command(Commands::Categorise { category: "like".to_string() })) {
        Decision::Categorise(c) => assert_eq!(c, "like"),
        other => panic!("unexpected {other:?}"),
    }
}

#[test]
fn pause_suppresses_only_the_timer() {
    let mut d = daemon();
    assert!(is_advance(&d.handle(Event::Timeout), true));
    assert!(matches!(d.handle(Event::Command(Commands::Pause)), Decision::Nothing));
    assert!(d.paused);
    assert!(matches!(d.handle(Event::Timeout), Decision::Nothing));
    assert!(is_advance(&d.handle(Event::Command(Commands::Next)), true));
    assert!(matches!(d.handle(Event::Command(Commands::Resume)), Decision::Nothing));
    assert!(!d.paused);
    assert!(is_advance(&d.handle(Event::Timeout), true));
}

#[test]
fn next_next_next_wraps() {
    let mut d = Daemon::new(config("/w", false), &walk(&["/w/A", "/w/B", "/w/C"]));
    assert_eq!(d.prepare(), Some("/w/A".to_string()));
    let alive = vec![true; 3];
    assert_eq!(d.advance(true, &alive), Some("/w/B".to_string()));
    assert_eq!(d.advance(true, &alive), Some("/w/C".to_string()));
    assert_eq!(d.advance(true, &alive), Some("/w/A".to_string()));
    assert_eq!(d.queue.index(), 0);
}

#[test]
fn empty_queue_has_nothing_to_show() {
    let mut d = Daemon::new(config("/w", true), &Vec::new());
    assert!(d.queue.is_empty());
    assert_eq!(d.prepare(), None);
    assert_eq!(d.advance(true, &Vec::new()), None);
    assert!(d.plan_category("like").is_none());
}

#[test]
fn categorise_mirrors_relative_path() {
    let d = Daemon::new(config("root", false), &walk(&["root/sub/img.png"]));
    let plan = d.plan_category("favorites").unwrap();
    assert_eq!(plan.dir, "root/.favorites");
    assert_eq!(plan.link, "root/.favorites/sub/img.png");
    assert_eq!(plan.target, "root/sub/img.png");
    assert_eq!(plan.conflict, None);
}

#[test]
fn like_and_dislike_exclude_each_other() {
    let plan = plan_category_link("/w/", "/w/a/b.png", "like").unwrap();
    assert_eq!(plan.link, "/w/.like/a/b.png");
    assert_eq!(plan.conflict, Some("/w/.dislike/a/b.png".to_string()));
    let plan = plan_category_link("/w", "/w/b.png", "dislike").unwrap();
    assert_eq!(plan.conflict, Some("/w/.like/b.png".to_string()));
    assert!(plan_category_link("/w", "/x/b.png", "like").is_none());
    assert!(plan_category_link("/w", "/wb.png", "like").is_none());
    assert!(plan.should_link(false));
    assert!(!plan.should_link(true));
    let free = plan_category_link("/w", "/w/b.png", "favorites").unwrap();
    assert!(free.should_link(true));
}

#[test]
fn doubled_separators_stay_under_the_root() {
    let plan = plan_category_link("w//", "w//sub/img.png", "favorites").unwrap();
    assert_eq!(plan.link, "w//.favorites/sub/img.png");
    let plan = plan_category_link("w", "w///sub/img.png", "like").unwrap();
    assert_eq!(plan.link, "w/.like/sub/img.png");
    let walk = vec![WalkEntry { path: "w//.like/a.png".to_string(), is_file: true }];
    let d = Daemon::new(config("w//", false), &walk);
    assert!(d.queue.is_empty());
}

#[test]
fn transitions_come_from_the_configured_styles() {
    let mut c = config("/w", false);
    let mut t = Transition::defaults();
    t.flavour = Some(vec![TransitionFlavour::Wipe]);
    t.wave_size = Some((80, 70, 10, 10));
    c.transition = Some(t);
    let mut d = Daemon::new(c, &walk(&["/w/a"]));
    for _ in 0..20 {
        let draw = d.draw_transition();
        assert_eq!(draw.flavour, TransitionFlavour::Wipe);
        assert!(draw.angle < 360000);
        assert!((70..=80).contains(&draw.wave.width));
        assert_eq!(draw.wave.height, 10);
        assert!(draw.pos.x <= 1000 && draw.pos.y <= 1000);
        assert!(d.needs_scaled_duration(&draw));
        let args = d.transition_args(&draw, d.base_duration());
        assert_eq!(&args[..3], &["img".to_string(), "--transition-type".to_string(), "wipe".to_string()]);
        assert_eq!(args[4], "1");
    }
}

#[test]
fn directories_resolve_from_environment_values() {
    assert_eq!(resolve_dir(Dirs::Config, Some("/home/u"), None), Ok("/home/u/.config".to_string()));
    assert_eq!(resolve_dir(Dirs::Config, Some("/home/u"), Some("/cfg")), Ok("/cfg".to_string()));
    assert_eq!(resolve_dir(Dirs::State, Some("/home/u"), Some("rel")), Ok("/home/u/.local/state".to_string()));
    assert_eq!(resolve_dir(Dirs::Home, Some("/home/u"), None), Ok("/home/u".to_string()));
    assert_eq!(resolve_dir(Dirs::Runtime, Some("/home/u"), Some("/run/user/1")), Ok("/run/user/1".to_string()));
    assert_eq!(
        resolve_dir(Dirs::Runtime, Some("/home/u"), None),
        Err(DirError::MissingVar("XDG_RUNTIME_DIR".to_string()))
    );
    assert_eq!(resolve_dir(Dirs::Data, None, None), Err(DirError::MissingVar("HOME".to_string())));
    assert_eq!(resolve_dir(Dirs::Runtime, None, Some("/run/u")), Ok("/run/u".to_string()));
    assert_eq!(resolve_dir(Dirs::Config, Some("rel"), Some("/cfg")), Ok("/cfg".to_string()));
    assert_eq!(resolve_dir(Dirs::Home, None, Some("/x")), Err(DirError::MissingVar("HOME".to_string())));
    assert_eq!(resolve_dir(Dirs::Data, Some("home"), None), Err(DirError::InvalidPath("home".to_string())));
    assert_eq!(DirError::MissingVar("HOME".to_string()).to_string(), "Missing environment variable: HOME");
}

#[test]
fn socket_lives_in_runtime_dir_or_tmp() {
    let dir = ipc_dir(&Ok("/run/user/1".to_string()));
    assert_eq!(ipc_paths(&dir), ("/run/user/1/walrus".to_string(), "/run/user/1/walrus.lock".to_string()));
    let dir = ipc_dir(&Err(DirError::MissingVar("XDG_RUNTIME_DIR".to_string())));
    assert_eq!(ipc_paths(&dir), ("/tmp/walrus".to_string(), "/tmp/walrus.lock".to_string()));
}
