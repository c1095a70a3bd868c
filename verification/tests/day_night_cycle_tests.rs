use balthazar::components::{Battery, SolarPanel};
use balthazar::day_night_cycle::{update_day_night_cycle, Color, DayNightCycle};
use balthazar::power_system::solar_charge;

fn millis(seconds: f64) -> u32 {
    (seconds * 1000.0).round() as u32
}

fn cycle_at(time_of_day: f64) -> DayNightCycle {
    DayNightCycle { time_of_day: millis(time_of_day), day_duration: millis(120.0), speed: 1000 }
}

fn channel(value: i64) -> f64 {
    value as f64 / 1000.0
}

#[test]
fn test_time_of_day_wraps_correctly() {
    let mut cycle = cycle_at(119.0);

    update_day_night_cycle(&mut cycle, millis(2.0));

    assert_eq!(
        cycle.time_of_day,
        millis(1.0),
        "Time should wrap to 1.0 after exceeding day_duration"
    );

    cycle.time_of_day = millis(119.0);
    update_day_night_cycle(&mut cycle, millis(125.0));
    while cycle.time_of_day >= cycle.day_duration {
        cycle.time_of_day -= cycle.day_duration;
    }

    assert_eq!(
        cycle.time_of_day,
        millis(4.0),
        "Time should wrap correctly even with multiple cycles"
    );
}

#[test]
fn test_normalized_time_at_different_times() {
    let cycle = cycle_at(0.0);
    assert_eq!(cycle.normalized_time(), 0, "Midnight should be 0.0");

    let mut cycle = cycle;
    cycle.time_of_day = millis(30.0);
    assert_eq!(cycle.normalized_time(), 250, "Dawn should be 0.25");

    cycle.time_of_day = millis(60.0);
    assert_eq!(cycle.normalized_time(), 500, "Noon should be 0.5");

    cycle.time_of_day = millis(90.0);
    assert_eq!(cycle.normalized_time(), 750, "Dusk should be 0.75");

    cycle.time_of_day = millis(119.0);
    assert!(
        (cycle.normalized_time() as f64 / 1000.0 - 0.9917).abs() < 0.001,
        "Just before midnight should be close to 1.0"
    );
}

#[test]
fn test_get_ambient_color_interpolation() {
    let cycle = cycle_at(0.0);

    let srgba = cycle.get_ambient_color();
    assert!((channel(srgba.red) - 0.1).abs() < 0.001, "Midnight red component");
    assert!((channel(srgba.green) - 0.1).abs() < 0.001, "Midnight green component");
    assert!((channel(srgba.blue) - 0.2).abs() < 0.001, "Midnight blue component");

    let mut cycle = cycle;
    cycle.time_of_day = millis(15.0);
    let srgba = cycle.get_ambient_color();
    assert!((channel(srgba.red) - 0.55).abs() < 0.001, "Mid-dawn red interpolation");
    assert!((channel(srgba.green) - 0.35).abs() < 0.001, "Mid-dawn green interpolation");
    assert!((channel(srgba.blue) - 0.3).abs() < 0.001, "Mid-dawn blue interpolation");

    cycle.time_of_day = millis(30.0);
    let srgba = cycle.get_ambient_color();
    assert!((channel(srgba.red) - 1.0).abs() < 0.001, "Dawn red component");
    assert!((channel(srgba.green) - 0.6).abs() < 0.001, "Dawn green component");
    assert!((channel(srgba.blue) - 0.4).abs() < 0.001, "Dawn blue component");

    cycle.time_of_day = millis(60.0);
    let srgba = cycle.get_ambient_color();
    assert!((channel(srgba.red) - 1.0).abs() < 0.001, "Noon red component");
    assert!((channel(srgba.green) - 1.0).abs() < 0.001, "Noon green component");
    assert!((channel(srgba.blue) - 0.95).abs() < 0.001, "Noon blue component");

    cycle.time_of_day = millis(90.0);
    let srgba = cycle.get_ambient_color();
    assert!((channel(srgba.red) - 1.0).abs() < 0.001, "Dusk red component");
    assert!((channel(srgba.green) - 0.5).abs() < 0.001, "Dusk green component");
    assert!((channel(srgba.blue) - 0.3).abs() < 0.001, "Dusk blue component");
}

#[test]
fn test_solar_charge_with_different_brightness_levels() {
    let panel = SolarPanel { max_output: 10_000 };
    let mut battery = Battery { max_charge: 100_000, current_charge: 0 };

    // Full brightness for one second.
    solar_charge(&mut battery, &panel, 1000, millis(1.0));
    assert!(
        (battery.current_charge as f64 / 1000.0 - 10.0).abs() < 0.1,
        "Charge at midnight with brightness 1.0"
    );

    // Lowest brightness for one second.
    battery.current_charge = 0;
    solar_charge(&mut battery, &panel, 200, millis(1.0));
    assert!(
        (battery.current_charge as f64 / 1000.0 - 2.0).abs() < 0.1,
        "Charge at noon with minimum brightness 0.2"
    );

    battery.current_charge = 95_000;
    solar_charge(&mut battery, &panel, 1000, millis(1.0));
    assert_eq!(battery.current_charge, 100_000, "Battery should cap at max_charge");
}

#[test]
fn test_solar_charge_scales_with_brightness() {
    let panel = SolarPanel { max_output: 20_000 };
    let mut battery = Battery { max_charge: 100_000, current_charge: 0 };

    solar_charge(&mut battery, &panel, 500, millis(0.5));

    assert!(
        (battery.current_charge as f64 / 1000.0 - 5.0).abs() < 0.1,
        "Solar charge should scale with brightness"
    );
    assert_eq!(battery.current_charge, 5_000);
}

#[test]
fn default_cycle_starts_at_the_middle_of_a_two_minute_day() {
    let cycle = DayNightCycle::default();
    assert_eq!(cycle, DayNightCycle { time_of_day: 60_000, day_duration: 120_000, speed: 1000 });
}

#[test]
fn day_lasts_from_dawn_to_dusk_exclusive() {
    assert!(!cycle_at(0.0).is_day());
    assert!(!cycle_at(30.0).is_day());
    assert!(cycle_at(30.001).is_day());
    assert!(cycle_at(60.0).is_day());
    assert!(cycle_at(89.999).is_day());
    assert!(!cycle_at(90.0).is_day());
    assert!(!cycle_at(119.0).is_day());
    let stopped = DayNightCycle { time_of_day: 5, day_duration: 0, speed: 1000 };
    assert!(!stopped.is_day());
}

#[test]
fn cycle_advances_by_scaled_time_and_wraps_once() {
    let mut cycle = DayNightCycle { time_of_day: 10_000, day_duration: 120_000, speed: 2000 };
    update_day_night_cycle(&mut cycle, 500);
    assert_eq!(cycle.time_of_day, 11_000);

    let mut cycle = cycle_at(119.0);
    update_day_night_cycle(&mut cycle, millis(125.0));
    assert_eq!(cycle.time_of_day, millis(124.0));

    let mut cycle = cycle_at(119.0);
    update_day_night_cycle(&mut cycle, millis(1.0));
    assert_eq!(cycle.time_of_day, 0);
}

#[test]
fn sky_color_blends_between_key_colors() {
    assert_eq!(cycle_at(0.0).sky_color(), Color { red: 50, green: 50, blue: 150 });
    assert_eq!(cycle_at(30.0).sky_color(), Color { red: 400, green: 300, blue: 500 });
    assert_eq!(cycle_at(60.0).sky_color(), Color { red: 530, green: 810, blue: 920 });
    assert_eq!(cycle_at(90.0).sky_color(), Color { red: 800, green: 400, blue: 300 });
    // Half way from dusk back to midnight.
    assert_eq!(cycle_at(105.0).sky_color(), Color { red: 425, green: 225, blue: 225 });

    let mut background = Color { red: 0, green: 0, blue: 0 };
    balthazar::update_sky_color(&cycle_at(45.0), &mut background);
    assert_eq!(background, Color { red: 465, green: 555, blue: 710 });
}

#[test]
fn ambient_color_past_the_end_of_the_day_keeps_fading() {
    // One and a quarter days: a full quarter beyond midnight on the way
    // from dusk.
    let late = cycle_at(150.0);
    assert_eq!(late.get_ambient_color(), Color { red: -800, green: -300, blue: 100 });
}

#[test]
fn lighting_multiplies_base_ambient_and_brightness() {
    let affected = balthazar::AffectedByDayNight {
        base_color: Color { red: 1000, green: 500, blue: 250 },
    };
    let ambient = Color { red: 1000, green: 600, blue: 400 };
    let lit = balthazar::apply_day_night_lighting(&affected, ambient, 500);
    assert_eq!(lit, Color { red: 500, green: 150, blue: 50 });
    let dark = balthazar::apply_day_night_lighting(&affected, ambient, 0);
    assert_eq!(dark, Color { red: 0, green: 0, blue: 0 });
}
