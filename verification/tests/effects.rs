use rust_effects::color::{Rgb, Style};
use rust_effects::effect::{
    CellFilter, Effect, FadeDirection, Interpolation, Kind, Settings, SymbolSet, Timer,
};
use rust_effects::geometry::{Area, Offset};
use rust_effects::pattern::{Pattern, UNIT};

const RED: Rgb = Rgb { r: 200, g: 10, b: 20 };
const BLUE: Rgb = Rgb { r: 0, g: 0, b: 240 };

fn linear(ms: u32) -> Timer {
    Timer::new(ms, Interpolation::Linear)
}

fn fade(ms: u32) -> Effect {
    Effect::fade_from(RED, BLUE, linear(ms))
}

fn glow(ms: u32) -> Effect {
    Effect::evolve(SymbolSet::Shaded, Style { fg: RED, bg: BLUE }, linear(ms))
}

fn malformed() -> Effect {
    let origin_past_the_area = Pattern::Radial { origin_x: 1001, origin_y: 0, transition: 0 };
    Effect {
        settings: Settings { area: None, filter: None, pattern: Some(origin_past_the_area) },
        kind: Kind::Fade { fg: RED, bg: BLUE, direction: FadeDirection::From, timer: linear(5) },
    }
}

#[test]
fn colour_from_a_number() {
    assert_eq!(Rgb::from_u32(0x1D2021), Rgb { r: 0x1D, g: 0x20, b: 0x21 });
    assert_eq!(Rgb::from_u32(0x32302F), Rgb { r: 0x32, g: 0x30, b: 0x2F });
    assert_eq!(Rgb::from_u32(0xFF00_0001), Rgb { r: 0, g: 0, b: 1 });
    assert_eq!(Rgb::from_u32(0x00FF_FFFF), Rgb { r: 255, g: 255, b: 255 });
}

#[test]
fn timer_and_area_hold_what_they_are_given() {
    let t = Timer::new(300, Interpolation::CircIn);
    assert_eq!(t.duration_ms, 300);
    assert_eq!(t.curve, Interpolation::CircIn);
    let a = Area::new(12, 12, 80, 17);
    assert_eq!(a, Area { x: 12, y: 12, width: 80, height: 17 });
}

#[test]
fn leaves_are_built_as_asked() {
    let style = Style { fg: RED, bg: BLUE };
    let e = Effect::evolve(SymbolSet::Quadrants, style, linear(40));
    assert_eq!(e.settings, Settings { area: None, filter: None, pattern: None });
    assert!(matches!(
        e.kind,
        Kind::Evolve { symbols: SymbolSet::Quadrants, descending: false, .. }
    ));
    let f = Effect::evolve_from(SymbolSet::Shaded, style, linear(40));
    assert!(matches!(f.kind, Kind::Evolve { symbols: SymbolSet::Shaded, descending: true, .. }));
    let g = Effect::fade_from(RED, BLUE, linear(7));
    assert!(matches!(
        g.kind,
        Kind::Fade { fg: RED, bg: BLUE, direction: FadeDirection::From, timer }
            if timer == linear(7)
    ));
    let h = Effect::fade_to(BLUE, RED, linear(7));
    assert!(matches!(h.kind, Kind::Fade { fg: BLUE, bg: RED, direction: FadeDirection::To, .. }));
}

#[test]
fn combinators_hold_their_children() {
    let seq = Effect::sequence(vec![fade(1), glow(2), fade(3)]);
    match &seq.kind {
        Kind::Sequence(children) => {
            assert_eq!(children.len(), 3);
            assert_eq!(children[1].duration(), 2);
        },
        _ => panic!("not a sequence"),
    }
    let par = Effect::parallel(vec![fade(1), glow(2)]);
    assert!(matches!(&par.kind, Kind::Parallel(children) if children.len() == 2));
    let rev = fade(9).reversed();
    assert!(matches!(&rev.kind, Kind::Reversed(inner) if inner.duration() == 9));
    let held = Effect::prolong_start(100, fade(300));
    assert!(matches!(
        &held.kind,
        Kind::ProlongStart { delay_ms: 100, inner } if inner.duration() == 300
    ));
    let moved = Effect::translate(fade(9), Offset { x: 0, y: -22 }, linear(900));
    assert!(matches!(
        &moved.kind,
        Kind::Translate { offset: Offset { x: 0, y: -22 }, inner, .. } if inner.duration() == 9
    ));
}

#[test]
fn settings_are_set_one_by_one() {
    let area = Area::new(1, 2, 3, 4);
    let e = fade(5).with_area(area);
    assert_eq!(e.settings, Settings { area: Some(area), filter: None, pattern: None });
    let e = e.with_filter(CellFilter::Text);
    assert_eq!(
        e.settings,
        Settings { area: Some(area), filter: Some(CellFilter::Text), pattern: None }
    );
    let e = e.with_pattern(Pattern::Coalesce);
    assert_eq!(
        e.settings,
        Settings {
            area: Some(area),
            filter: Some(CellFilter::Text),
            pattern: Some(Pattern::Coalesce)
        }
    );
    assert_eq!(e.duration(), 5);
    let e = e.with_filter(CellFilter::NonText).with_area(Area::new(0, 0, 0, 0));
    assert_eq!(e.settings.filter, Some(CellFilter::NonText));
    assert_eq!(e.settings.area, Some(Area::new(0, 0, 0, 0)));
    assert_eq!(e.validate(), Some(5));
}

#[test]
fn durations_of_leaves() {
    assert_eq!(fade(5).duration(), 5);
    assert_eq!(glow(0).duration(), 0);
    assert_eq!(fade(u32::MAX).duration(), 0xFFFF_FFFF);
}

#[test]
fn sequence_lasts_as_long_as_its_children_together() {
    assert_eq!(Effect::sequence(vec![]).validate(), Some(0));
    assert_eq!(Effect::sequence(vec![fade(5), glow(7), fade(0)]).validate(), Some(12));
    assert_eq!(Effect::sequence(vec![fade(100), glow(200)]).duration(), 300);
    let long = Effect::sequence(vec![fade(u32::MAX), fade(u32::MAX), fade(u32::MAX)]);
    assert_eq!(long.validate(), Some(3 * 0xFFFF_FFFF));
}

#[test]
fn parallel_lasts_as_long_as_its_longest_child() {
    assert_eq!(Effect::parallel(vec![]).validate(), Some(0));
    assert_eq!(Effect::parallel(vec![fade(5), glow(7), fade(0)]).validate(), Some(7));
    assert_eq!(Effect::parallel(vec![fade(30), glow(80)]).duration(), 80);
    assert_eq!(Effect::parallel(vec![glow(80), fade(30)]).duration(), 80);
}

#[test]
fn reversed_keeps_the_duration() {
    assert_eq!(fade(70).reversed().duration(), 70);
    assert_eq!(Effect::sequence(vec![fade(5), glow(7)]).reversed().duration(), 12);
}

#[test]
fn held_start_adds_its_delay() {
    assert_eq!(Effect::prolong_start(100, fade(300)).duration(), 400);
    assert_eq!(Effect::prolong_start(0, fade(300)).duration(), 300);
    assert_eq!(
        Effect::prolong_start(u32::MAX, fade(u32::MAX)).validate(),
        Some(2 * 0xFFFF_FFFF)
    );
}

#[test]
fn translate_lasts_as_long_as_its_own_timer() {
    let e = Effect::translate(fade(500), Offset { x: 1, y: 1 }, linear(20));
    assert_eq!(e.validate(), Some(20));
}

#[test]
fn nested_trees_are_measured() {
    let tree = Effect::prolong_start(
        10,
        Effect::sequence(vec![
            glow(5),
            Effect::parallel(vec![fade(3), Effect::sequence(vec![fade(4), fade(4)]).reversed()]),
        ]),
    );
    assert_eq!(tree.validate(), Some(10 + 5 + 8));
}

#[test]
fn malformed_pattern_is_found_anywhere_in_the_tree() {
    assert_eq!(malformed().validate(), None);
    assert_eq!(Effect::sequence(vec![fade(5), malformed()]).validate(), None);
    assert_eq!(Effect::parallel(vec![malformed(), fade(5)]).validate(), None);
    assert_eq!(malformed().reversed().validate(), None);
    assert_eq!(Effect::prolong_start(3, malformed()).validate(), None);
    assert_eq!(Effect::translate(malformed(), Offset { x: 1, y: 1 }, linear(20)).validate(), None);
    let mut on_a_combinator = Effect::sequence(vec![fade(5)]);
    on_a_combinator.settings.pattern =
        Some(Pattern::Radial { origin_x: 0, origin_y: 1001, transition: 2 });
    assert_eq!(on_a_combinator.validate(), None);
}

#[test]
fn pattern_parameters_are_checked() {
    assert_eq!(UNIT, 1000);
    assert_eq!(
        Pattern::radial(500, 1000, 3),
        Some(Pattern::Radial { origin_x: 500, origin_y: 1000, transition: 3 })
    );
    assert_eq!(Pattern::radial(0, 0, 0), Some(Pattern::Radial { origin_x: 0, origin_y: 0, transition: 0 }));
    assert_eq!(Pattern::radial(1001, 0, 0), None);
    assert_eq!(Pattern::radial(0, 1001, 0), None);
    assert!(Pattern::Coalesce.is_valid());
    assert!(Pattern::Radial { origin_x: 1000, origin_y: 0, transition: 9 }.is_valid());
    assert!(!Pattern::Radial { origin_x: 0, origin_y: 65535, transition: 0 }.is_valid());
}

#[test]
fn settings_check_their_pattern() {
    assert!(Settings::new().is_valid());
    assert_eq!(Settings::new(), Settings { area: None, filter: None, pattern: None });
    let good = Settings { area: None, filter: None, pattern: Some(Pattern::Coalesce) };
    assert!(good.is_valid());
    assert!(!malformed().settings.is_valid());
}
