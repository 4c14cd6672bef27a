use walrus::config::Transition;
use walrus::transition::FilterMethod;
use walrus::transition::ParseTransitionFlavourError;
use walrus::transition::Pos;
use walrus::transition::ResizeMethod;
use walrus::transition::TransitionArgBuilder;
use walrus::transition::TransitionDraw;
use walrus::transition::TransitionFlavour;
use walrus::transition::WaveSize;
use walrus::transition::parse_flavours;
use walrus::transition::transition_args;

fn strings(v: &[&str]) -> Vec<String> {
    v.iter().map(|s| s.to_string()).collect()
}

#[test]
fn test_all() {
    let builder = TransitionArgBuilder::new()
        .with_transition(&TransitionFlavour::Wave)
        .with_resize(ResizeMethod::Fit)
        .with_filter(FilterMethod::Nearest);
    assert_eq!(
        builder.build(),
        strings(&["img", "--transition-type", "wave", "--resize", "fit", "--filter", "Nearest"])
    );

    let builder = TransitionArgBuilder::new()
        .with_transition(&TransitionFlavour::Wipe)
        .with_duration(1000)
        .with_step(25)
        .with_fps(420)
        .with_resize(ResizeMethod::Crop)
        .with_bezier([0, 400, 0, 600])
        .with_filter(FilterMethod::Nearest)
        .with_fill(String::from("FFFFFF"))
        .with_angle(69000)
        .with_wave(WaveSize { width: 5, height: 10 })
        .with_pos(Pos { x: 10000, y: 20000 });
    assert_eq!(
        builder.build(),
        strings(&[
            "img",
            "--transition-type",
            "wipe",
            "--transition-duration",
            "1",
            "--transition-step",
            "25",
            "--transition-fps",
            "420",
            "--resize",
            "crop",
            "--transition-bezier",
            "0,0.4,0,0.6",
            "--filter",
            "Nearest",
            "--fill-color",
            "FFFFFF",
            "--transition-angle",
            "69",
            "--transition-wave",
            "5,10",
            "--transition-pos",
            "10,20",
        ])
    );
}

#[test]
fn fractional_values_are_trimmed() {
    let args = TransitionArgBuilder::new()
        .with_duration(1500)
        .with_angle(12345)
        .with_bezier([-250, 10, 1000, 1001])
        .with_pos(Pos { x: 500, y: 1000 })
        .build();
    assert_eq!(
        args,
        strings(&[
            "img",
            "--transition-duration",
            "1.5",
            "--transition-angle",
            "12.345",
            "--transition-bezier",
            "-0.25,0.01,1,1.001",
            "--transition-pos",
            "0.5,1",
        ])
    );
}

#[test]
fn names_parse_in_any_case() {
    assert_eq!(TransitionFlavour::from_name("WiPe"), Ok(TransitionFlavour::Wipe));
    assert_eq!(TransitionFlavour::from_name("outer"), Ok(TransitionFlavour::Outer));
    assert_eq!(
        TransitionFlavour::from_name("spin"),
        Err(ParseTransitionFlavourError::InvalidFlavour("spin".to_string()))
    );
    assert_eq!(
        ParseTransitionFlavourError::InvalidFlavour("spin".to_string()).to_string(),
        "Invalid transition type: spin"
    );
    assert_eq!(FilterMethod::from_name("CatmullRom"), Ok(FilterMethod::CatmullRom));
    assert_eq!(FilterMethod::from_name("box"), Err("Invalid filter method: box".to_string()));
    assert_eq!(ResizeMethod::from_name("FIT"), Ok(ResizeMethod::Fit));
    assert_eq!(ResizeMethod::from_name("zoom"), Err("Invalid resize method: zoom".to_string()));
    assert_eq!(TransitionFlavour::from_lowercase("Wipe"), None);
}

#[test]
fn flavour_lists_parse() {
    assert_eq!(
        parse_flavours(&strings(&["wipe", "GROW"])),
        Ok(vec![TransitionFlavour::Wipe, TransitionFlavour::Grow])
    );
    assert_eq!(
        parse_flavours(&strings(&["wipe", "fade", "zoom"])),
        Err(ParseTransitionFlavourError::InvalidFlavour("fade".to_string()))
    );
}

#[test]
fn display_names() {
    assert_eq!(TransitionFlavour::Grow.to_string(), "grow");
    assert_eq!(FilterMethod::Lanczos3.to_string(), "Lanczos3");
    assert_eq!(ResizeMethod::No.to_string(), "no");
}

#[test]
fn wave_rotation_turns_angle_back_a_quarter() {
    let t = Transition::defaults();
    let draw = TransitionDraw {
        flavour: TransitionFlavour::Wave,
        angle: 45000,
        wave: WaveSize { width: 72, height: 36 },
        pos: Pos { x: 0, y: 0 },
    };
    let args = transition_args(&t, &draw, 1250);
    assert_eq!(
        args,
        strings(&[
            "img",
            "--transition-type",
            "wave",
            "--transition-duration",
            "1.25",
            "--fill-color",
            "000000",
            "--filter",
            "Lanczos3",
            "--transition-fps",
            "60",
            "--resize",
            "crop",
            "--transition-step",
            "60",
            "--transition-bezier",
            "0.4,0,0.6,1",
            "--transition-angle",
            "315",
            "--transition-wave",
            "72,36",
        ])
    );
}

#[test]
fn grow_takes_a_position() {
    let t = Transition::defaults();
    let draw = TransitionDraw {
        flavour: TransitionFlavour::Grow,
        angle: 0,
        wave: WaveSize { width: 1, height: 1 },
        pos: Pos { x: 250, y: 750 },
    };
    let args = transition_args(&t, &draw, 1000);
    assert_eq!(&args[args.len() - 2..], &strings(&["--transition-pos", "0.25,0.75"])[..]);
    let wipe = TransitionDraw { flavour: TransitionFlavour::Wipe, angle: 90500, ..draw };
    let args = transition_args(&t, &wipe, 1000);
    assert_eq!(&args[args.len() - 2..], &strings(&["--transition-angle", "90.5"])[..]);
}
