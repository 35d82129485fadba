//! The fire scene: an effect that sets a block of text ablaze and lets the
//! text reappear through the flames.

use crate::color::{rgb_of_u32, Rgb, Style};
use crate::effect::{longest_duration, total_duration, CellFilter, Effect, FadeDirection,
    Interpolation, Kind, Settings, SymbolSet, Timer};
use crate::geometry::{Area, Offset};
use crate::pattern::Pattern;
use vstd::prelude::*;

verus! {

/// The colour of the screen behind the text, as `0x00RRGGBB`.
pub const SCREEN_BG: u32 = 0x1D2021;

/// The colour of the glowing embers, as `0x00RRGGBB`.
pub const CONTENT_BG: u32 = 0x32302F;

/// The time that the scene waits before it starts, and that the ignition
/// takes, in milliseconds.
pub const BOOT_MS: u32 = 300;

/// The time that the fire burns, in milliseconds.
pub const BURN_MS: u32 = 900;

/// The block of text that burns.
pub open spec fn code_area() -> Area {
    Area { x: 12, y: 12, width: 80, height: 17 }
}

/// The colours of the fire: embers on the screen's background.
pub open spec fn fire_style() -> Style {
    Style { fg: rgb_of_u32(CONTENT_BG), bg: rgb_of_u32(SCREEN_BG) }
}

/// The timer of the burning phase.
pub open spec fn burn_timer() -> Timer {
    Timer { duration_ms: BURN_MS, curve: Interpolation::QuadIn }
}

/// The first phase: the block fills with shade from its centre outwards.
pub open spec fn ignition() -> Effect {
    Effect {
        settings: Settings {
            area: Some(code_area()),
            filter: None,
            pattern: Some(Pattern::Radial { origin_x: 500, origin_y: 500, transition: 10 }),
        },
        kind: Kind::Evolve {
            symbols: SymbolSet::Shaded,
            style: fire_style(),
            descending: false,
            timer: Timer { duration_ms: BOOT_MS, curve: Interpolation::CircIn },
        },
    }
}

/// The embers: quadrant glyphs that thin out cell after cell, run
/// backwards so that they thicken.
pub open spec fn embers() -> Effect {
    Effect {
        settings: Settings::none(),
        kind: Kind::Reversed(
            Box::new(
                Effect {
                    settings: Settings {
                        area: Some(code_area()),
                        filter: None,
                        pattern: Some(Pattern::Coalesce),
                    },
                    kind: Kind::Evolve {
                        symbols: SymbolSet::Quadrants,
                        style: fire_style(),
                        descending: true,
                        timer: burn_timer(),
                    },
                },
            ),
        ),
    }
}

/// The flames: the embers, rising by 22 rows while they burn.
pub open spec fn flames() -> Effect {
    Effect {
        settings: Settings { area: Some(code_area()), filter: None, pattern: None },
        kind: Kind::Translate {
            inner: Box::new(embers()),
            offset: Offset { x: 0, y: (-22i32) },
            timer: burn_timer(),
        },
    }
}

/// The whole screen fading in from the screen's background to its own
/// colours while the fire catches.
pub open spec fn dawn() -> Effect {
    Effect {
        settings: Settings::none(),
        kind: Kind::Fade {
            fg: rgb_of_u32(SCREEN_BG),
            bg: rgb_of_u32(SCREEN_BG),
            direction: FadeDirection::From,
            timer: Timer { duration_ms: BOOT_MS, curve: Interpolation::Linear },
        },
    }
}

/// The text of the block fading in, cell after cell, from the screen's
/// background to its own colours.
pub open spec fn text_fade_in() -> Effect {
    Effect {
        settings: Settings {
            area: Some(code_area()),
            filter: Some(CellFilter::Text),
            pattern: Some(Pattern::Coalesce),
        },
        kind: Kind::Fade {
            fg: rgb_of_u32(SCREEN_BG),
            bg: rgb_of_u32(SCREEN_BG),
            direction: FadeDirection::From,
            timer: burn_timer(),
        },
    }
}

/// Whether `e` is the burning phase: the screen fades in, the flames rise,
/// and the text fades in, side by side.
pub open spec fn is_burning(e: Effect) -> bool {
    &&& e.settings == Settings::none()
    &&& e.kind is Parallel
    &&& e.kind->Parallel_0@.len() == 3
    &&& e.kind->Parallel_0@[0] == dawn()
    &&& e.kind->Parallel_0@[1] == flames()
    &&& e.kind->Parallel_0@[2] == text_fade_in()
}

/// Whether `e` is the fire scene: a held start, then the ignition, then the
/// burning phase.
pub open spec fn is_fire_effect(e: Effect) -> bool {
    &&& e.settings == Settings::none()
    &&& e.kind is ProlongStart
    &&& e.kind->ProlongStart_delay_ms == BOOT_MS
    &&& e.kind->ProlongStart_inner.settings == Settings::none()
    &&& e.kind->ProlongStart_inner.kind is Sequence
    &&& e.kind->ProlongStart_inner.kind->Sequence_0@.len() == 2
    &&& e.kind->ProlongStart_inner.kind->Sequence_0@[0] == ignition()
    &&& is_burning(e.kind->ProlongStart_inner.kind->Sequence_0@[1])
}

/// Builds the fire scene. It lasts a second and a half: it waits, ignites
/// the block from its centre, then lets the flames rise while the text
/// fades back in.
pub fn fire_effect() -> (e: Effect)
    ensures
        is_fire_effect(e),
        e.wf(),
        e.duration_of() == 1500,
{
    let code_area = Area::new(12, 12, 80, 17);

    let screen_bg = Rgb::from_u32(SCREEN_BG);
    let content_bg = Rgb::from_u32(CONTENT_BG);

    let style = Style { fg: content_bg, bg: screen_bg };

    let boot_timer = Timer::new(BOOT_MS, Interpolation::CircIn);
    let timer = Timer::new(BURN_MS, Interpolation::QuadIn);

    let startup = Effect::evolve(SymbolSet::Shaded, style, boot_timer).with_pattern(
        Pattern::Radial { origin_x: 500, origin_y: 500, transition: 10 },
    ).with_area(code_area);

    let inner_fire_fx = Effect::evolve_from(SymbolSet::Quadrants, style, timer).with_pattern(
        Pattern::Coalesce,
    ).with_area(code_area).reversed();

    let fire = Effect::translate(inner_fire_fx, Offset { x: 0, y: -22 }, timer).with_area(
        code_area,
    );

    let fade_in_text = Effect::fade_from(screen_bg, screen_bg, timer).with_filter(
        CellFilter::Text,
    ).with_area(code_area).with_pattern(Pattern::Coalesce);

    let mut layers: Vec<Effect> = Vec::new();
    layers.push(
        Effect::fade_from(screen_bg, screen_bg, Timer::new(BOOT_MS, Interpolation::Linear)),
    );
    layers.push(fire);
    layers.push(fade_in_text);
    let burning = Effect::parallel(layers);
    proof {
        let children = burning.kind->Parallel_0@;
        assert(longest_duration(children, 0) == 0);
        assert(longest_duration(children, 1) == 300);
        assert(longest_duration(children, 2) == 900);
        assert(longest_duration(children, 3) == 900);
        assert(children[0] == dawn());
        assert(children[1] == flames());
        assert(children[2] == text_fade_in());
        assert(is_burning(burning));
        assert(burning.wf());
    }

    let mut phases: Vec<Effect> = Vec::new();
    phases.push(startup);
    phases.push(burning);
    let whole = Effect::sequence(phases);
    proof {
        let children = whole.kind->Sequence_0@;
        assert(children[0] == ignition());
        assert(total_duration(children, 0) == 0);
        assert(total_duration(children, 1) == 300);
        assert(total_duration(children, 2) == 1200);
        assert(whole.wf());
    }
    Effect::prolong_start(BOOT_MS, whole)
}

} // verus!
