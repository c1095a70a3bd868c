use balthazar::power_system::{solar_charge, transfer_power, MIN_BRIGHTNESS};
use balthazar::{Battery, CordSystem, PowerSource, SolarPanel};

fn cord(attached_pole: Option<u64>) -> CordSystem {
    let mut cord = CordSystem::new(100, 1, 2, 10, 11, 50_000, 150_000, 20_000, 8_000, 100_000);
    cord.attached_pole = attached_pole;
    cord
}

fn battery(current_charge: u32) -> Battery {
    Battery { max_charge: 100_000, current_charge }
}

#[test]
fn attached_cord_charges_from_the_pole() {
    let mut player = battery(10_000);
    let source = PowerSource { max_output: 20_000 };
    transfer_power(&cord(Some(200)), &mut player, Some(source), 500);
    assert_eq!(player.current_charge, 20_000);
    transfer_power(&cord(Some(200)), &mut player, Some(source), 1);
    assert_eq!(player.current_charge, 20_020);
}

#[test]
fn no_power_flows_without_attachment_or_source() {
    let source = PowerSource { max_output: 20_000 };
    let mut player = battery(10_000);
    transfer_power(&cord(None), &mut player, Some(source), 500);
    assert_eq!(player.current_charge, 10_000);
    transfer_power(&cord(Some(200)), &mut player, None, 500);
    assert_eq!(player.current_charge, 10_000);
}

#[test]
fn charging_stops_at_the_capacity() {
    let mut player = battery(99_000);
    transfer_power(&cord(Some(200)), &mut player, Some(PowerSource { max_output: 20_000 }), 500);
    assert_eq!(player.current_charge, 100_000);

    let mut player = battery(0);
    let huge = PowerSource { max_output: u32::MAX };
    transfer_power(&cord(Some(200)), &mut player, Some(huge), u32::MAX);
    assert_eq!(player.current_charge, 100_000);

    let mut sunny = battery(0);
    solar_charge(&mut sunny, &SolarPanel { max_output: u32::MAX }, u32::MAX, u32::MAX);
    assert_eq!(sunny.current_charge, 100_000);
}

#[test]
fn a_battery_above_its_capacity_is_left_alone() {
    let mut over = Battery { max_charge: 100, current_charge: 150 };
    transfer_power(&cord(Some(200)), &mut over, Some(PowerSource { max_output: 20_000 }), 500);
    assert_eq!(over.current_charge, 150);
    solar_charge(&mut over, &SolarPanel { max_output: 5_000 }, 1000, 1000);
    assert_eq!(over.current_charge, 150);
}

#[test]
fn solar_charge_is_output_times_brightness_times_time() {
    let panel = SolarPanel { max_output: 5_000 };
    let mut player = battery(0);
    solar_charge(&mut player, &panel, 1000, 1000);
    assert_eq!(player.current_charge, 5_000);
    solar_charge(&mut player, &panel, MIN_BRIGHTNESS, 1000);
    assert_eq!(player.current_charge, 6_000);
    solar_charge(&mut player, &panel, 500, 16);
    assert_eq!(player.current_charge, 6_040);
    // Amounts below a thousandth are lost.
    solar_charge(&mut player, &panel, 1, 1);
    assert_eq!(player.current_charge, 6_040);
    solar_charge(&mut player, &panel, 0, 1000);
    assert_eq!(player.current_charge, 6_040);
}

#[test]
fn draining_stops_at_empty() {
    let mut player = battery(3_000);
    player.drain(2_000);
    assert_eq!(player.current_charge, 1_000);
    player.drain(2_000);
    assert_eq!(player.current_charge, 0);
    player.drain(2_000);
    assert_eq!(player.current_charge, 0);
    player.charge(250);
    assert_eq!(player.current_charge, 250);
    player.charge(u128::MAX);
    assert_eq!(player.current_charge, 100_000);
}
