use fleet::radar::{
    contact_offset, nearer_to_nose, reset, sector_width, slice_scan, track, tracking_window,
    RadarCommand, RadarSweepState, NO_CONTACT,
};
use fleet::sensor::{Contact, SensorSnapshot, ShipClass};
use fleet::vector::Vector2;

const ONE: i64 = 1_000_000;
const TAU: i64 = 6_283_185;

fn sensors() -> SensorSnapshot {
    SensorSnapshot {
        position: Vector2::zero(),
        velocity: Vector2::zero(),
        heading: 0,
        heading_direction: Vector2::new(ONE, 0),
        angular_velocity: 0,
        max_forward_acceleration: 60 * ONE,
        max_backward_acceleration: 30 * ONE,
        max_lateral_acceleration: 30 * ONE,
        max_angular_acceleration: TAU,
        radar_heading: 0,
        radar_width: TAU / 10,
        gun_reload_ticks: 0,
        missile_reload_ticks: 0,
        contact: None,
    }
}

fn contact_at(bearing: i64) -> Contact {
    Contact {
        class: ShipClass::Fighter,
        position: Vector2::new(1_000 * ONE, 0),
        velocity: Vector2::zero(),
        bearing,
    }
}

/// Runs one sweep from its start. `offsets[k]` is the angle off the nose of
/// the contact seen at tick `k`, if any. The radar follows its commands.
fn sweep(heading: i64, start: i64, offsets: &[Option<i64>]) -> (RadarSweepState, Vec<RadarCommand>) {
    let mut state = RadarSweepState::new(offsets.len() as u32);
    let first = reset(&mut state);
    let width = match first {
        RadarCommand::Sweep { width } => width,
        _ => panic!("a sweep starts with a sweep command"),
    };
    let mut aim = start;
    let mut commands = Vec::new();
    for offset in offsets {
        let mut now = sensors();
        now.heading = heading;
        now.radar_heading = aim;
        now.radar_width = width;
        now.contact = offset.map(|o| contact_at(heading + o));
        let command = slice_scan(&mut state, &now);
        match command {
            RadarCommand::Advance { heading } => aim = heading,
            RadarCommand::Acquire { heading } => aim = heading,
            _ => panic!("a sweep only advances or acquires"),
        }
        commands.push(command);
    }
    (state, commands)
}

#[test]
fn new_scheduler_tracks() {
    let state = RadarSweepState::new(10);
    assert_eq!(
        state,
        RadarSweepState { scans_remaining: 0, best_contact_angle: NO_CONTACT, sector_count: 10 }
    );
    assert!(state.is_tracking());
    assert!(!state.is_scanning());
}

#[test]
fn sectors_divide_the_circle() {
    assert_eq!(sector_width(10), 628_318);
    assert_eq!(sector_width(4), 1_570_796);
    assert_eq!(sector_width(1), TAU);
    assert_eq!(sector_width(15), 418_879);
}

#[test]
fn reset_starts_a_sweep() {
    let mut state = RadarSweepState::new(10);
    let command = reset(&mut state);
    assert_eq!(command, RadarCommand::Sweep { width: 628_318 });
    assert_eq!(state.scans_remaining, 10);
    assert_eq!(state.best_contact_angle, NO_CONTACT);
    assert!(state.is_scanning());
}

#[test]
fn reset_keeps_the_best_contact() {
    let mut state =
        RadarSweepState { scans_remaining: 3, best_contact_angle: 250_000, sector_count: 7 };
    reset(&mut state);
    assert_eq!(
        state,
        RadarSweepState { scans_remaining: 7, best_contact_angle: 250_000, sector_count: 7 }
    );
}

#[test]
fn sweep_without_contact_ends_tracking_at_the_nose() {
    for sectors in [1usize, 2, 4, 10, 15] {
        let heading = ONE;
        let (state, commands) = sweep(heading, heading, &vec![None; sectors]);
        assert!(state.is_tracking());
        assert_eq!(state.best_contact_angle, NO_CONTACT);
        assert_eq!(commands.len(), sectors);
        assert_eq!(commands[sectors - 1], RadarCommand::Acquire { heading });
        for command in &commands[..sectors - 1] {
            assert!(matches!(command, RadarCommand::Advance { .. }));
        }
    }
}

#[test]
fn sweep_of_ten_sectors_advances_by_a_tenth_of_a_turn() {
    let heading = 2 * ONE;
    let (state, commands) = sweep(heading, heading, &[None; 10]);
    for k in 0..9 {
        assert_eq!(
            commands[k],
            RadarCommand::Advance { heading: heading + (k as i64 + 1) * 628_318 }
        );
    }
    // the tenth tick closes the circle: the beam is back where it started
    assert_eq!(commands[9], RadarCommand::Acquire { heading });
    assert!(state.is_tracking());
    // ten sectors fall short of the full turn by less than ten millionths
    assert!(TAU - 10 < 10 * 628_318 && 10 * 628_318 <= TAU);
}

#[test]
fn scheduler_stays_scanning_until_the_last_sector() {
    let mut state = RadarSweepState::new(3);
    reset(&mut state);
    let now = sensors();
    slice_scan(&mut state, &now);
    assert!(state.is_scanning());
    assert_eq!(state.scans_remaining, 2);
    slice_scan(&mut state, &now);
    assert!(state.is_scanning());
    assert_eq!(state.scans_remaining, 1);
    slice_scan(&mut state, &now);
    assert!(state.is_tracking());
}

#[test]
fn sweep_acquires_the_contact_nearest_to_the_nose() {
    let heading = ONE;
    let mut offsets = [None; 10];
    offsets[3] = Some(500_000);
    offsets[6] = Some(-200_000);
    offsets[8] = Some(900_000);
    let (state, commands) = sweep(heading, heading, &offsets);
    assert_eq!(commands[9], RadarCommand::Acquire { heading: heading - 200_000 });
    assert!(state.is_tracking());
    assert_eq!(state.best_contact_angle, NO_CONTACT);
}

#[test]
fn sweep_acquires_a_contact_seen_at_the_last_tick() {
    let mut offsets = [None; 4];
    offsets[0] = Some(-300_000);
    offsets[3] = Some(100_000);
    let (_, commands) = sweep(0, 0, &offsets);
    assert_eq!(commands[3], RadarCommand::Acquire { heading: 100_000 });
}

#[test]
fn of_two_contacts_equally_near_the_first_wins() {
    let mut offsets = [None; 10];
    offsets[2] = Some(200_000);
    offsets[5] = Some(-200_000);
    let (_, commands) = sweep(0, 0, &offsets);
    assert_eq!(commands[9], RadarCommand::Acquire { heading: 200_000 });
}

#[test]
fn contact_dead_ahead_is_acquired() {
    let mut offsets = [None; 5];
    offsets[1] = Some(0);
    offsets[2] = Some(10);
    let (_, commands) = sweep(3 * ONE, 0, &offsets);
    assert_eq!(commands[4], RadarCommand::Acquire { heading: 3 * ONE });
}

#[test]
fn best_contact_is_kept_during_the_sweep() {
    let mut state = RadarSweepState::new(5);
    reset(&mut state);
    let mut now = sensors();
    now.contact = Some(contact_at(400_000));
    slice_scan(&mut state, &now);
    assert_eq!(state.best_contact_angle, 400_000);
    now.contact = Some(contact_at(-500_000));
    slice_scan(&mut state, &now);
    assert_eq!(state.best_contact_angle, 400_000);
    now.contact = Some(contact_at(TAU - 100_000));
    slice_scan(&mut state, &now);
    assert_eq!(state.best_contact_angle, -100_000);
    now.contact = None;
    slice_scan(&mut state, &now);
    assert_eq!(state.best_contact_angle, -100_000);
}

#[test]
fn contact_offset_is_measured_from_the_nose() {
    assert_eq!(contact_offset(ONE, contact_at(1_500_000)), 500_000);
    assert_eq!(contact_offset(ONE, contact_at(500_000)), -500_000);
    assert_eq!(contact_offset(6 * ONE, contact_at(100_000)), 100_000 + TAU - 6 * ONE);
}

#[test]
fn nearer_to_nose_needs_a_strictly_smaller_angle() {
    let mut now = sensors();
    assert_eq!(nearer_to_nose(NO_CONTACT, &now), NO_CONTACT);
    now.contact = Some(contact_at(300_000));
    assert_eq!(nearer_to_nose(NO_CONTACT, &now), 300_000);
    assert_eq!(nearer_to_nose(300_001, &now), 300_000);
    assert_eq!(nearer_to_nose(-300_000, &now), -300_000);
    assert_eq!(nearer_to_nose(100_000, &now), 100_000);
}

#[test]
fn tracking_window_grows_with_distance_and_speed() {
    // 25 m + 2 % of 1000 m + 0.04 s of 100 m/s = 49 m
    assert_eq!(tracking_window(1_000 * ONE, 100 * ONE), 49 * ONE);
    assert_eq!(tracking_window(0, 0), 25 * ONE);
    assert_eq!(tracking_window(5_000 * ONE, 0), 125 * ONE);
    assert_eq!(tracking_window(0, 1_000 * ONE), 65 * ONE);
}

#[test]
fn track_brackets_the_contact() {
    let mut now = sensors();
    now.position = Vector2::new(100 * ONE, 100 * ONE);
    now.velocity = Vector2::new(0, 50 * ONE);
    let contact = Contact {
        class: ShipClass::Fighter,
        position: Vector2::new(1_100 * ONE, 100 * ONE),
        velocity: Vector2::new(0, -50 * ONE),
        bearing: 12_345,
    };
    assert_eq!(
        track(&now, contact),
        RadarCommand::Track {
            heading: 12_345,
            // 49 m seen from 1000 m
            width: 49_000,
            min_distance: 975_500_000,
            max_distance: 1_024_500_000,
        }
    );
}

#[test]
fn track_narrows_the_beam_with_distance() {
    let now = sensors();
    let near = track(&now, contact_at(0));
    let mut far_contact = contact_at(0);
    far_contact.position = Vector2::new(10_000 * ONE, 0);
    let far = track(&now, far_contact);
    match (near, far) {
        (RadarCommand::Track { width: near, .. }, RadarCommand::Track { width: far, .. }) => {
            // 45 m at 1 km, 225 m at 10 km
            assert_eq!(near, 45_000);
            assert_eq!(far, 22_500);
        }
        _ => panic!("track gives a track command"),
    }
}

#[test]
fn step_scans_while_sectors_remain() {
    let mut state = RadarSweepState::new(10);
    reset(&mut state);
    let mut now = sensors();
    now.radar_heading = 1_000;
    now.radar_width = 628_318;
    now.contact = Some(contact_at(0));
    assert_eq!(state.step(&now), RadarCommand::Advance { heading: 629_318 });
    assert_eq!(state.scans_remaining, 9);
    assert_eq!(state.best_contact_angle, 0);
}

#[test]
fn step_tracks_a_contact() {
    let mut state = RadarSweepState::new(10);
    let mut now = sensors();
    now.contact = Some(contact_at(77));
    let command = state.step(&now);
    assert_eq!(command, track(&now, contact_at(77)));
    assert!(state.is_tracking());
}

#[test]
fn step_without_contact_while_tracking_starts_a_sweep() {
    let mut state = RadarSweepState::new(10);
    let now = sensors();
    assert_eq!(state.step(&now), RadarCommand::Sweep { width: 628_318 });
    assert!(state.is_scanning());
    assert_eq!(state.scans_remaining, 10);
}

#[test]
fn lost_track_is_found_again_by_the_next_sweep() {
    let mut state = RadarSweepState::new(4);
    let mut now = sensors();
    now.radar_width = sector_width(4);
    // tracking, contact lost
    assert!(matches!(state.step(&now), RadarCommand::Sweep { .. }));
    assert!(matches!(state.step(&now), RadarCommand::Advance { .. }));
    now.contact = Some(contact_at(-700_000));
    assert!(matches!(state.step(&now), RadarCommand::Advance { .. }));
    now.contact = None;
    assert!(matches!(state.step(&now), RadarCommand::Advance { .. }));
    assert_eq!(state.step(&now), RadarCommand::Acquire { heading: -700_000 });
    assert!(state.is_tracking());
    now.contact = Some(contact_at(-700_000));
    assert!(matches!(state.step(&now), RadarCommand::Track { .. }));
}

#[test]
fn track_window_holds_the_contact() {
    let now = sensors();
    for distance in [0i64, 1, 30 * ONE, 1_000 * ONE, 100_000 * ONE, i64::MAX] {
        let mut found = contact_at(5);
        found.position = Vector2::new(distance, 0);
        match track(&now, found) {
            RadarCommand::Track { heading, min_distance, max_distance, .. } => {
                assert_eq!(heading, 5);
                assert!(min_distance <= distance && distance <= max_distance);
            }
            _ => panic!("track gives a track command"),
        }
    }
}
