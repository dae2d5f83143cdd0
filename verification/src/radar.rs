//! The radar sweep scheduler.
//!
//! The beam is narrow. To find a target the scheduler steps it through the
//! sectors of a full circle and remembers the contact nearest to the nose;
//! after the last sector it points the beam there and tracks: each tick it
//! brackets the contact with a beam as narrow as the contact's distance and
//! speed allow. A tick without contact while tracking starts the next sweep.

use vstd::prelude::*;
use crate::angle::{angle_diff, spec_angle_diff, TAU};
use crate::fixed::{
    fx_abs, fx_add, fx_div, fx_half, fx_mul, fx_sub, spec_fx_abs, spec_fx_add, spec_fx_div,
    spec_fx_half, spec_fx_mul, spec_fx_sub, Fixed,
};
use crate::sensor::{Contact, SensorSnapshot};
use crate::settings::{ENEMY_SIZE, TARGET_D_V_MULT, TARGET_SCAN_RANGE_MULT};
use crate::vector::Vector2;

verus! {

/// The value of `best_contact_angle` while a sweep has seen no contact: it
/// is further from the nose than any angle.
pub const NO_CONTACT: Fixed = 0x7fff_ffff_ffff_ffff;

/// Where the scheduler stands: scanning while `scans_remaining` is above 0,
/// tracking at 0.
#[derive(Clone, Copy, Debug, PartialEq, Eq, Structural)]
pub struct RadarSweepState {
    /// Sectors of the current sweep that are still to be looked at.
    pub scans_remaining: u32,
    /// The angle off the nose of the best contact of the current sweep, or
    /// `NO_CONTACT`.
    pub best_contact_angle: Fixed,
    /// Sectors of a full sweep.
    pub sector_count: u32,
}

/// What the radar is to do next tick.
#[derive(Clone, Copy, Debug, PartialEq, Eq, Structural)]
pub enum RadarCommand {
    /// A sweep starts: open the range gate fully (from 0, without upper
    /// limit) and set the beam to one sector's width.
    Sweep { width: Fixed },
    /// The sweep goes on: point the beam at the next sector.
    Advance { heading: Fixed },
    /// The sweep is over: point the beam where the best contact was, with the
    /// range gate fully open.
    Acquire { heading: Fixed },
    /// Keep the contact in the beam: point at it and bracket its distance.
    Track { heading: Fixed, width: Fixed, min_distance: Fixed, max_distance: Fixed },
}

/// The width of one of `sector_count` equal sectors of the circle.
pub open spec fn spec_sector_width(sector_count: u32) -> Fixed {
    (TAU as int / sector_count as int) as i64
}

/// The width of one of `sector_count` equal sectors of the circle.
#[verifier::when_used_as_spec(spec_sector_width)]
pub fn sector_width(sector_count: u32) -> (w: Fixed)
    requires
        sector_count >= 1,
    ensures
        w == spec_sector_width(sector_count),
{
    TAU / (sector_count as i64)
}

/// The angle off the nose at which a contact is seen.
pub open spec fn spec_contact_offset(heading: Fixed, contact: Contact) -> Fixed {
    angle_diff(heading, contact.bearing)
}

/// The angle off the nose at which a contact is seen: the short way round
/// from the heading to the contact's bearing.
#[verifier::when_used_as_spec(spec_contact_offset)]
pub fn contact_offset(heading: Fixed, contact: Contact) -> (offset: Fixed)
    ensures
        offset == spec_contact_offset(heading, contact),
{
    angle_diff(heading, contact.bearing)
}

/// The best contact angle after one more look: that of this tick's contact
/// where there is one strictly nearer to the nose than the best so far.
pub open spec fn spec_nearer_to_nose(best: Fixed, sensors: SensorSnapshot) -> Fixed {
    match sensors.contact {
        Some(contact) => {
            let offset = contact_offset(sensors.heading, contact);
            if fx_abs(offset) < fx_abs(best) {
                offset
            } else {
                best
            }
        },
        None => best,
    }
}

/// The best contact angle after one more look: that of this tick's contact
/// where there is one strictly nearer to the nose than the best so far.
pub fn nearer_to_nose(best: Fixed, sensors: &SensorSnapshot) -> (next: Fixed)
    ensures
        next == spec_nearer_to_nose(best, *sensors),
{
    match sensors.contact {
        Some(contact) => {
            let offset = contact_offset(sensors.heading, contact);
            if fx_abs(offset) < fx_abs(best) {
                offset
            } else {
                best
            }
        },
        None => best,
    }
}

/// The angle off the nose to point the beam at when a sweep is over: that of
/// the best contact, or the nose itself where the sweep saw none.
pub open spec fn spec_acquisition_offset(best: Fixed) -> Fixed {
    if best == NO_CONTACT {
        0
    } else {
        best
    }
}

/// One tick of a sweep: the state after it and the command it gives.
pub open spec fn spec_slice_scan(state: RadarSweepState, sensors: SensorSnapshot) -> (
    RadarSweepState,
    RadarCommand,
) {
    let best = spec_nearer_to_nose(state.best_contact_angle, sensors);
    let remaining = (state.scans_remaining - 1) as u32;
    if remaining > 0 {
        (
            RadarSweepState {
                scans_remaining: remaining,
                best_contact_angle: best,
                sector_count: state.sector_count,
            },
            RadarCommand::Advance { heading: fx_add(sensors.radar_heading, sensors.radar_width) },
        )
    } else {
        (
            RadarSweepState {
                scans_remaining: 0,
                best_contact_angle: NO_CONTACT,
                sector_count: state.sector_count,
            },
            RadarCommand::Acquire {
                heading: fx_add(sensors.heading, spec_acquisition_offset(best)),
            },
        )
    }
}

/// The start of a sweep: the state after it and the command it gives.
pub open spec fn spec_reset(state: RadarSweepState) -> (RadarSweepState, RadarCommand) {
    (
        RadarSweepState {
            scans_remaining: state.sector_count,
            best_contact_angle: state.best_contact_angle,
            sector_count: state.sector_count,
        },
        RadarCommand::Sweep { width: sector_width(state.sector_count) },
    )
}

/// The width of the distance window put round a tracked contact: the
/// target's size, a share of its distance and a share of the relative speed.
pub open spec fn spec_tracking_window(distance: Fixed, relative_speed: Fixed) -> Fixed {
    fx_add(
        fx_add(ENEMY_SIZE, fx_mul(TARGET_SCAN_RANGE_MULT, distance)),
        fx_mul(TARGET_D_V_MULT, relative_speed),
    )
}

/// The width of the distance window put round a tracked contact.
#[verifier::when_used_as_spec(spec_tracking_window)]
pub fn tracking_window(distance: Fixed, relative_speed: Fixed) -> (window: Fixed)
    ensures
        window == spec_tracking_window(distance, relative_speed),
{
    fx_add(
        fx_add(ENEMY_SIZE, fx_mul(TARGET_SCAN_RANGE_MULT, distance)),
        fx_mul(TARGET_D_V_MULT, relative_speed),
    )
}

/// The command that keeps a contact in the beam.
pub open spec fn spec_track(sensors: SensorSnapshot, contact: Contact) -> RadarCommand {
    let distance = contact.position.distance(sensors.position);
    let relative_speed = contact.velocity.distance(sensors.velocity);
    let window = tracking_window(distance, relative_speed);
    RadarCommand::Track {
        heading: contact.bearing,
        width: fx_div(window, distance),
        min_distance: fx_sub(distance, fx_half(window)),
        max_distance: fx_add(distance, fx_half(window)),
    }
}

/// One tick of the scheduler: a slice of the sweep while scanning; while
/// tracking, the bracket round the contact, or the start of the next sweep
/// where there is no contact.
pub open spec fn spec_step(state: RadarSweepState, sensors: SensorSnapshot) -> (
    RadarSweepState,
    RadarCommand,
) {
    if state.scans_remaining > 0 {
        spec_slice_scan(state, sensors)
    } else {
        match sensors.contact {
            Some(contact) => (state, spec_track(sensors, contact)),
            None => spec_reset(state),
        }
    }
}

impl RadarSweepState {
    /// A full sweep has at least one sector, and no sweep has more sectors
    /// left than a full one.
    pub open spec fn wf(self) -> bool {
        self.sector_count >= 1 && self.scans_remaining <= self.sector_count
    }

    /// Whether the state is well formed.
    pub fn is_valid(&self) -> (valid: bool)
        ensures
            valid == self.wf(),
    {
        self.sector_count >= 1 && self.scans_remaining <= self.sector_count
    }

    /// Sectors of the current sweep are left to look at.
    pub open spec fn spec_is_scanning(&self) -> bool {
        self.scans_remaining > 0
    }

    /// No sweep is under way.
    pub open spec fn spec_is_tracking(&self) -> bool {
        self.scans_remaining == 0
    }

    /// A scheduler that tracks, for sweeps of `sector_count` sectors.
    pub fn new(sector_count: u32) -> (state: RadarSweepState)
        requires
            sector_count >= 1,
        ensures
            state == (RadarSweepState {
                scans_remaining: 0,
                best_contact_angle: NO_CONTACT,
                sector_count,
            }),
            state.wf(),
    {
        RadarSweepState { scans_remaining: 0, best_contact_angle: NO_CONTACT, sector_count }
    }

    /// Whether a sweep is under way.
    #[verifier::when_used_as_spec(spec_is_scanning)]
    pub fn is_scanning(&self) -> (b: bool)
        ensures
            b == self.spec_is_scanning(),
    {
        self.scans_remaining > 0
    }

    /// Whether the scheduler tracks.
    #[verifier::when_used_as_spec(spec_is_tracking)]
    pub fn is_tracking(&self) -> (b: bool)
        ensures
            b == self.spec_is_tracking(),
    {
        self.scans_remaining == 0
    }

    /// One tick of the scheduler.
    pub fn step(&mut self, sensors: &SensorSnapshot) -> (command: RadarCommand)
        requires
            old(self).wf(),
        ensures
            (*final(self), command) == spec_step(*old(self), *sensors),
            final(self).wf(),
            old(self).is_tracking() && sensors.contact is None ==> final(self).is_scanning()
                && command is Sweep,
            old(self).is_tracking() && sensors.contact is Some ==> final(self).is_tracking()
                && command is Track,
    {
        if self.scans_remaining > 0 {
            slice_scan(self, sensors)
        } else {
            match sensors.contact {
                Some(contact) => track(sensors, contact),
                None => reset(self),
            }
        }
    }
}

/// Looks at one sector of a sweep. A contact nearer to the nose than the best
/// so far becomes the best. Before the last sector the beam moves on by its
/// width; after it the beam is pointed at the best contact (at the nose where
/// there was none), the best contact is forgotten and the scheduler tracks.
pub fn slice_scan(state: &mut RadarSweepState, sensors: &SensorSnapshot) -> (command: RadarCommand)
    requires
        old(state).wf(),
        old(state).is_scanning(),
    ensures
        (*final(state), command) == spec_slice_scan(*old(state), *sensors),
        final(state).wf(),
        final(state).scans_remaining == old(state).scans_remaining - 1,
{
    let best = nearer_to_nose(state.best_contact_angle, sensors);
    state.scans_remaining = state.scans_remaining - 1;
    if state.scans_remaining > 0 {
        state.best_contact_angle = best;
        RadarCommand::Advance { heading: fx_add(sensors.radar_heading, sensors.radar_width) }
    } else {
        state.best_contact_angle = NO_CONTACT;
        let offset = if best == NO_CONTACT {
            0
        } else {
            best
        };
        RadarCommand::Acquire { heading: fx_add(sensors.heading, offset) }
    }
}

/// Starts a sweep of `sector_count` sectors.
pub fn reset(state: &mut RadarSweepState) -> (command: RadarCommand)
    requires
        old(state).wf(),
    ensures
        (*final(state), command) == spec_reset(*old(state)),
        final(state).wf(),
        final(state).scans_remaining == old(state).sector_count,
{
    state.scans_remaining = state.sector_count;
    RadarCommand::Sweep { width: sector_width(state.sector_count) }
}

/// Brackets a contact: the beam points at it, as wide as the tracking window
/// appears at the contact's distance, and the range gate is the window
/// centred on that distance.
pub fn track(sensors: &SensorSnapshot, contact: Contact) -> (command: RadarCommand)
    ensures
        command == spec_track(*sensors, contact),
        command matches RadarCommand::Track { heading, min_distance, max_distance, .. }
            && heading == contact.bearing && min_distance <= contact.position.distance(
            sensors.position,
        ) <= max_distance,
{
    let distance = contact.position.distance(sensors.position);
    let relative_speed = contact.velocity.distance(sensors.velocity);
    let window = tracking_window(distance, relative_speed);
    RadarCommand::Track {
        heading: contact.bearing,
        width: fx_div(window, distance),
        min_distance: fx_sub(distance, fx_half(window)),
        max_distance: fx_add(distance, fx_half(window)),
    }
}

/// The state after the ticks of `ticks`, one after the other.
pub open spec fn spec_run(state: RadarSweepState, ticks: Seq<SensorSnapshot>) -> RadarSweepState
    decreases ticks.len(),
{
    if ticks.len() == 0 {
        state
    } else {
        spec_step(spec_run(state, ticks.drop_last()), ticks.last()).0
    }
}

/// The command given at tick `k` of `ticks`, counted from 0.
pub open spec fn spec_command_at(
    state: RadarSweepState,
    ticks: Seq<SensorSnapshot>,
    k: int,
) -> RadarCommand {
    spec_step(spec_run(state, ticks.take(k)), ticks[k]).1
}

/// The best contact angle after looking at the ticks of `ticks`, one after
/// the other.
pub open spec fn spec_best_of(best: Fixed, ticks: Seq<SensorSnapshot>) -> Fixed
    decreases ticks.len(),
{
    if ticks.len() == 0 {
        best
    } else {
        spec_nearer_to_nose(spec_best_of(best, ticks.drop_last()), ticks.last())
    }
}

/// Fewer ticks than the sweep has sectors left leave the scheduler scanning:
/// each takes one sector off and looks at one contact.
pub proof fn lemma_run_within_sweep(state: RadarSweepState, ticks: Seq<SensorSnapshot>)
    requires
        ticks.len() < state.scans_remaining,
    ensures
        spec_run(state, ticks) == (RadarSweepState {
            scans_remaining: (state.scans_remaining - ticks.len()) as u32,
            best_contact_angle: spec_best_of(state.best_contact_angle, ticks),
            sector_count: state.sector_count,
        }),
    decreases ticks.len(),
{
    if ticks.len() > 0 {
        lemma_run_within_sweep(state, ticks.drop_last());
    }
}

/// While a sweep has more than one sector left, a tick moves the beam on by
/// its width.
pub proof fn lemma_command_within_sweep(
    state: RadarSweepState,
    ticks: Seq<SensorSnapshot>,
    k: int,
)
    requires
        0 <= k < ticks.len(),
        k + 1 < state.scans_remaining,
    ensures
        spec_run(state, ticks.take(k + 1)).is_scanning(),
        spec_command_at(state, ticks, k) == (RadarCommand::Advance {
            heading: fx_add(ticks[k].radar_heading, ticks[k].radar_width),
        }),
{
    lemma_run_within_sweep(state, ticks.take(k));
    lemma_run_within_sweep(state, ticks.take(k + 1));
}

/// The tick that looks at the last sector of a sweep points the beam at the
/// best contact of the whole sweep and leaves the scheduler tracking.
pub proof fn lemma_command_at_end_of_sweep(state: RadarSweepState, ticks: Seq<SensorSnapshot>)
    requires
        ticks.len() >= 1,
        ticks.len() == state.scans_remaining,
    ensures
        spec_run(state, ticks) == (RadarSweepState {
            scans_remaining: 0,
            best_contact_angle: NO_CONTACT,
            sector_count: state.sector_count,
        }),
        spec_command_at(state, ticks, ticks.len() - 1) == (RadarCommand::Acquire {
            heading: fx_add(
                ticks.last().heading,
                spec_acquisition_offset(spec_best_of(state.best_contact_angle, ticks)),
            ),
        }),
{
    lemma_run_within_sweep(state, ticks.drop_last());
    assert(ticks.take(ticks.len() - 1) =~= ticks.drop_last());
}

/// A sweep that never sees a contact keeps `NO_CONTACT` as its best angle.
pub proof fn lemma_best_without_contact(ticks: Seq<SensorSnapshot>)
    requires
        forall|i: int| 0 <= i < ticks.len() ==> ticks[i].contact is None,
    ensures
        spec_best_of(NO_CONTACT, ticks) == NO_CONTACT,
    decreases ticks.len(),
{
    if ticks.len() > 0 {
        lemma_best_without_contact(ticks.drop_last());
    }
}

/// A sweep of N sectors in which no tick sees a contact: each of the first
/// N - 1 ticks moves the beam on by its width, and the N-th points the beam
/// at the nose and leaves the scheduler tracking, with no best contact.
pub proof fn lemma_sweep_without_contact(state: RadarSweepState, ticks: Seq<SensorSnapshot>)
    requires
        ticks.len() >= 1,
        state.scans_remaining == ticks.len(),
        state.best_contact_angle == NO_CONTACT,
        forall|i: int| 0 <= i < ticks.len() ==> ticks[i].contact is None,
    ensures
        forall|k: int|
            0 <= k < ticks.len() - 1 ==> spec_run(state, ticks.take(k + 1)).is_scanning()
                && #[trigger] spec_command_at(state, ticks, k) == (RadarCommand::Advance {
                heading: fx_add(ticks[k].radar_heading, ticks[k].radar_width),
            }),
        spec_run(state, ticks).is_tracking(),
        spec_run(state, ticks).best_contact_angle == NO_CONTACT,
        spec_command_at(state, ticks, ticks.len() - 1) == (RadarCommand::Acquire {
            heading: ticks.last().heading,
        }),
{
    assert forall|k: int| 0 <= k < ticks.len() - 1 implies spec_run(
        state,
        ticks.take(k + 1),
    ).is_scanning() && #[trigger] spec_command_at(state, ticks, k) == (RadarCommand::Advance {
        heading: fx_add(ticks[k].radar_heading, ticks[k].radar_width),
    }) by {
        lemma_command_within_sweep(state, ticks, k);
    }
    lemma_command_at_end_of_sweep(state, ticks);
    lemma_best_without_contact(ticks);
}

/// The contact of tick `k` is at least as near to the nose as every contact
/// of `ticks`, and strictly nearer than every contact before it.
pub open spec fn is_nearest_contact(ticks: Seq<SensorSnapshot>, k: int) -> bool {
    &&& 0 <= k < ticks.len()
    &&& ticks[k].contact is Some
    &&& forall|j: int|
        0 <= j < ticks.len() && ticks[j].contact is Some ==> fx_abs(
            contact_offset(ticks[k].heading, ticks[k].contact->0),
        ) <= fx_abs(#[trigger] contact_offset(ticks[j].heading, ticks[j].contact->0))
    &&& forall|j: int|
        0 <= j < k && ticks[j].contact is Some ==> fx_abs(
            contact_offset(ticks[k].heading, ticks[k].contact->0),
        ) < fx_abs(#[trigger] contact_offset(ticks[j].heading, ticks[j].contact->0))
}

/// The best contact angle of a sweep is that of its nearest contact.
pub proof fn lemma_best_is_nearest(ticks: Seq<SensorSnapshot>, k: int, n: int)
    requires
        is_nearest_contact(ticks, k),
        0 <= n <= ticks.len(),
    ensures
        n <= k ==> fx_abs(spec_best_of(NO_CONTACT, ticks.take(n))) > fx_abs(
            contact_offset(ticks[k].heading, ticks[k].contact->0),
        ),
        n > k ==> spec_best_of(NO_CONTACT, ticks.take(n)) == contact_offset(
            ticks[k].heading,
            ticks[k].contact->0,
        ),
    decreases n,
{
    let nearest = contact_offset(ticks[k].heading, ticks[k].contact->0);
    if n > 0 {
        lemma_best_is_nearest(ticks, k, n - 1);
        assert(ticks.take(n).drop_last() =~= ticks.take(n - 1));
        assert(ticks.take(n).last() == ticks[n - 1]);
        if ticks[n - 1].contact is Some {
            let _ = contact_offset(ticks[n - 1].heading, ticks[n - 1].contact->0);
        }
    }
}

/// A sweep of N sectors whose nearest contact to the nose is seen at tick
/// `k`, at the angle a off the nose: the N-th tick points the beam at the
/// nose's angle plus a, and leaves the scheduler tracking.
pub proof fn lemma_sweep_acquires_nearest(
    state: RadarSweepState,
    ticks: Seq<SensorSnapshot>,
    k: int,
)
    requires
        ticks.len() >= 1,
        state.scans_remaining == ticks.len(),
        state.best_contact_angle == NO_CONTACT,
        is_nearest_contact(ticks, k),
    ensures
        spec_run(state, ticks).is_tracking(),
        spec_command_at(state, ticks, ticks.len() - 1) == (RadarCommand::Acquire {
            heading: fx_add(
                ticks.last().heading,
                contact_offset(ticks[k].heading, ticks[k].contact->0),
            ),
        }),
{
    lemma_command_at_end_of_sweep(state, ticks);
    lemma_best_is_nearest(ticks, k, ticks.len() as int);
    assert(ticks.take(ticks.len() as int) =~= ticks);
}

/// The radar does as it is told: it starts at `start` with a beam of
/// `width`, keeps that width, and at each tick but the first points where
/// the tick before commanded.
pub open spec fn radar_follows(
    state: RadarSweepState,
    ticks: Seq<SensorSnapshot>,
    start: Fixed,
    width: Fixed,
) -> bool {
    &&& ticks.len() >= 1
    &&& ticks[0].radar_heading == start
    &&& forall|k: int| 0 <= k < ticks.len() ==> (#[trigger] ticks[k]).radar_width == width
    &&& forall|k: int|
        0 <= k < ticks.len() - 1 ==> (RadarCommand::Advance {
            heading: ticks[k + 1].radar_heading,
        }) == #[trigger] spec_command_at(state, ticks, k)
}

/// During a sweep the beam advances by its width each tick: at tick `k` it
/// points `k` widths past where it started.
pub proof fn lemma_sweep_advances_by_width(
    state: RadarSweepState,
    ticks: Seq<SensorSnapshot>,
    start: Fixed,
    width: Fixed,
    k: int,
)
    requires
        state.scans_remaining == ticks.len(),
        radar_follows(state, ticks, start, width),
        0 <= k < ticks.len(),
        i64::MIN <= start + k * width <= i64::MAX,
        0 <= width,
    ensures
        ticks[k].radar_heading == start + k * width,
    decreases k,
{
    if k > 0 {
        assert(start <= start + (k - 1) * width <= start + k * width) by (nonlinear_arith)
            requires
                k >= 1,
                width >= 0,
        ;
        lemma_sweep_advances_by_width(state, ticks, start, width, k - 1);
        lemma_command_within_sweep(state, ticks, k - 1);
        assert(ticks[k - 1].radar_width == width);
        assert(start + (k - 1) * width + width == start + k * width) by (nonlinear_arith);
    } else {
        assert(k * width == 0) by (nonlinear_arith)
            requires
                k == 0,
        ;
    }
}

/// The sectors of a sweep cover the circle: together they fall short of a
/// full turn by less than one millionth of a radian each.
pub proof fn lemma_sectors_cover_circle(sector_count: u32)
    requires
        sector_count >= 1,
    ensures
        TAU - sector_count < sector_count * sector_width(sector_count) <= TAU,
{
    vstd::arithmetic::div_mod::lemma_fundamental_div_mod(TAU as int, sector_count as int);
    vstd::arithmetic::div_mod::lemma_mod_bound(TAU as int, sector_count as int);
}

} // verus!
