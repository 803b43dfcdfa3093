//! Fixed-timestep input accumulation.
//!
//! A device's per-key state reports "just pressed" / "just released"
//! transitions for one frame only. [`FixedInput`] copies those transitions
//! into a state of its own once per frame ([`input_update`]) and empties its
//! transient sets only once per simulation tick ([`input_clear`]), so a tick
//! sees every transition since its own previous clear exactly once, however
//! many frames passed in between.

use core::hash::Hash;
use vstd::prelude::*;

verus! {

/// Declares bevy_input's `Input` so that its values can stand in signatures
/// and fields; the library keys it by `u32`.
#[verifier::external_type_specification]
#[verifier::external_body]
#[verifier::reject_recursive_types(T)]
pub struct ExInput<T: Copy + Eq + Hash + Send + Sync + 'static>(bevy::input::Input<T>);

/// The set of keys the device state currently holds as pressed.
pub uninterp spec fn device_pressed(i: bevy::input::Input<u32>) -> Set<u32>;

/// The set of keys the device state reports as just pressed.
pub uninterp spec fn device_just_pressed(i: bevy::input::Input<u32>) -> Set<u32>;

/// The set of keys the device state reports as just released.
pub uninterp spec fn device_just_released(i: bevy::input::Input<u32>) -> Set<u32>;

/// Mathematical model of a per-key input state: the keys currently held and
/// the two transient transition sets of the current sampling window.
#[verifier::ext_equal]
pub ghost struct InputModel {
    pub pressed: Set<u32>,
    pub just_pressed: Set<u32>,
    pub just_released: Set<u32>,
}

/// The model of a concrete input state.
pub open spec fn input_model(i: bevy::input::Input<u32>) -> InputModel {
    InputModel {
        pressed: device_pressed(i),
        just_pressed: device_just_pressed(i),
        just_released: device_just_released(i),
    }
}

/// The state after ingesting one frame's transition snapshot: presses are
/// applied first, then releases, as [`input_update`] does.
pub open spec fn ingest_model(m: InputModel, dp: Set<u32>, dr: Set<u32>) -> InputModel {
    InputModel {
        pressed: m.pressed.union(dp).difference(dr),
        just_pressed: m.just_pressed.union(dp.difference(m.pressed)),
        just_released: m.just_released.union(dr.intersect(m.pressed.union(dp))),
    }
}

/// The state after a simulation tick's clear: the transient sets are emptied,
/// the held set is untouched.
pub open spec fn clear_model(m: InputModel) -> InputModel {
    InputModel {
        pressed: m.pressed,
        just_pressed: Set::empty(),
        just_released: Set::empty(),
    }
}

/// Relies on bevy_input's `Input::default`: all three sets start empty.
#[verifier::external_body]
fn new_device_state() -> (r: bevy::input::Input<u32>)
    ensures
        device_pressed(r) == Set::<u32>::empty(),
        device_just_pressed(r) == Set::<u32>::empty(),
        device_just_released(r) == Set::<u32>::empty(),
{
    bevy::input::Input::default()
}

/// Relies on bevy_input's `Input::press`: inserts the key into the pressed
/// set, and into the just-pressed set only when it was not pressed before.
#[verifier::external_body]
fn device_press(i: &mut bevy::input::Input<u32>, key: u32)
    ensures
        device_pressed(*final(i)) == device_pressed(*old(i)).insert(key),
        device_just_pressed(*final(i)) == (if device_pressed(*old(i)).contains(key) {
            device_just_pressed(*old(i))
        } else {
            device_just_pressed(*old(i)).insert(key)
        }),
        device_just_released(*final(i)) == device_just_released(*old(i)),
{
    i.press(key);
}

/// Relies on bevy_input's `Input::release`: removes the key from the pressed
/// set, and inserts it into the just-released set only when it was pressed.
#[verifier::external_body]
fn device_release(i: &mut bevy::input::Input<u32>, key: u32)
    ensures
        device_pressed(*final(i)) == device_pressed(*old(i)).remove(key),
        device_just_released(*final(i)) == (if device_pressed(*old(i)).contains(key) {
            device_just_released(*old(i)).insert(key)
        } else {
            device_just_released(*old(i))
        }),
        device_just_pressed(*final(i)) == device_just_pressed(*old(i)),
{
    i.release(key);
}

/// Relies on bevy_input's `Input::clear`: empties the just-pressed and
/// just-released sets and leaves the pressed set as it is.
#[verifier::external_body]
fn device_clear_transitions(i: &mut bevy::input::Input<u32>)
    ensures
        device_pressed(*final(i)) == device_pressed(*old(i)),
        device_just_pressed(*final(i)) == Set::<u32>::empty(),
        device_just_released(*final(i)) == Set::<u32>::empty(),
{
    i.clear();
}

/// Relies on bevy_input's `Input::pressed`: membership in the pressed set.
#[verifier::external_body]
fn device_pressed_query(i: &bevy::input::Input<u32>, key: u32) -> (r: bool)
    ensures
        r == device_pressed(*i).contains(key),
{
    i.pressed(key)
}

/// Relies on bevy_input's `Input::just_pressed`: membership in the
/// just-pressed set.
#[verifier::external_body]
fn device_just_pressed_query(i: &bevy::input::Input<u32>, key: u32) -> (r: bool)
    ensures
        r == device_just_pressed(*i).contains(key),
{
    i.just_pressed(key)
}

/// Relies on bevy_input's `Input::just_released`: membership in the
/// just-released set.
#[verifier::external_body]
fn device_just_released_query(i: &bevy::input::Input<u32>, key: u32) -> (r: bool)
    ensures
        r == device_just_released(*i).contains(key),
{
    i.just_released(key)
}

/// Relies on bevy_input's `Input::get_just_pressed`: iterates exactly the
/// just-pressed set, in arbitrary order.
#[verifier::external_body]
fn device_just_pressed_keys(i: &bevy::input::Input<u32>) -> (r: Vec<u32>)
    ensures
        forall|k: u32| #![all_triggers] r@.contains(k) <==> device_just_pressed(*i).contains(k),
{
    i.get_just_pressed().copied().collect()
}

/// Relies on bevy_input's `Input::get_just_released`: iterates exactly the
/// just-released set, in arbitrary order.
#[verifier::external_body]
fn device_just_released_keys(i: &bevy::input::Input<u32>) -> (r: Vec<u32>)
    ensures
        forall|k: u32| #![all_triggers] r@.contains(k) <==> device_just_released(*i).contains(k),
{
    i.get_just_released().copied().collect()
}

/// A per-key input state that accumulates the device's transitions at frame
/// rate and is cleared at simulation-tick rate.
pub struct FixedInput {
    state: bevy::input::Input<u32>,
}

impl View for FixedInput {
    type V = InputModel;

    closed spec fn view(&self) -> InputModel {
        input_model(self.state)
    }
}

impl Default for FixedInput {
    /// A fresh accumulator: nothing held, no transitions.
    fn default() -> (r: Self)
        ensures
            r@.pressed == Set::<u32>::empty(),
            r@.just_pressed == Set::<u32>::empty(),
            r@.just_released == Set::<u32>::empty(),
    {
        FixedInput { state: new_device_state() }
    }
}

impl FixedInput {
    /// Whether the key is currently held.
    pub fn pressed(&self, key: u32) -> (r: bool)
        ensures
            r == self@.pressed.contains(key),
    {
        device_pressed_query(&self.state, key)
    }

    /// Whether the key was pressed since this accumulator's last clear.
    pub fn just_pressed(&self, key: u32) -> (r: bool)
        ensures
            r == self@.just_pressed.contains(key),
    {
        device_just_pressed_query(&self.state, key)
    }

    /// Whether the key was released since this accumulator's last clear.
    pub fn just_released(&self, key: u32) -> (r: bool)
        ensures
            r == self@.just_released.contains(key),
    {
        device_just_released_query(&self.state, key)
    }
}

/// Copies the device's current transition snapshot into the accumulator:
/// every just-pressed key is pressed into it, then every just-released key is
/// released from it. Runs once per frame-loop iteration, after device polling.
pub fn input_update(fixed_input: &mut FixedInput, input: &bevy::input::Input<u32>)
    ensures
        final(fixed_input)@ == ingest_model(
            old(fixed_input)@,
            device_just_pressed(*input),
            device_just_released(*input),
        ),
{
    let ghost m0: InputModel = fixed_input@;
    let ghost dp: Set<u32> = device_just_pressed(*input);
    let ghost dr: Set<u32> = device_just_released(*input);

    let pressed_keys = device_just_pressed_keys(input);
    let mut i: usize = 0;
    while i < pressed_keys.len()
        invariant
            i <= pressed_keys.len(),
            forall|k: u32| #![all_triggers] pressed_keys@.contains(k) <==> dp.contains(k),
            fixed_input@.pressed == m0.pressed.union(pressed_keys@.take(i as int).to_set()),
            fixed_input@.just_pressed == m0.just_pressed.union(
                pressed_keys@.take(i as int).to_set().difference(m0.pressed),
            ),
            fixed_input@.just_released == m0.just_released,
        decreases pressed_keys.len() - i,
    {
        let ghost seen: Set<u32> = pressed_keys@.take(i as int).to_set();
        let key = pressed_keys[i];
        device_press(&mut fixed_input.state, key);
        proof {
            pressed_keys@.lemma_take_succ_push(i as int);
            pressed_keys@.take(i as int).lemma_push_to_set_commute(key);
            assert(pressed_keys@.take(i as int + 1).to_set() =~= seen.insert(key));
            assert(fixed_input@.pressed =~= m0.pressed.union(seen.insert(key)));
            assert(fixed_input@.just_pressed =~= m0.just_pressed.union(
                seen.insert(key).difference(m0.pressed),
            ));
        }
        i = i + 1;
    }
    proof {
        pressed_keys@.lemma_take_len();
        assert(pressed_keys@.to_set() =~= dp);
        assert(fixed_input@.pressed =~= m0.pressed.union(dp));
        assert(fixed_input@.just_pressed =~= m0.just_pressed.union(dp.difference(m0.pressed)));
    }

    let ghost m1: InputModel = fixed_input@;
    let released_keys = device_just_released_keys(input);
    let mut j: usize = 0;
    while j < released_keys.len()
        invariant
            j <= released_keys.len(),
            forall|k: u32| #![all_triggers] released_keys@.contains(k) <==> dr.contains(k),
            fixed_input@.pressed == m1.pressed.difference(released_keys@.take(j as int).to_set()),
            fixed_input@.just_released == m1.just_released.union(
                released_keys@.take(j as int).to_set().intersect(m1.pressed),
            ),
            fixed_input@.just_pressed == m1.just_pressed,
        decreases released_keys.len() - j,
    {
        let ghost seen: Set<u32> = released_keys@.take(j as int).to_set();
        let key = released_keys[j];
        device_release(&mut fixed_input.state, key);
        proof {
            released_keys@.lemma_take_succ_push(j as int);
            released_keys@.take(j as int).lemma_push_to_set_commute(key);
            assert(released_keys@.take(j as int + 1).to_set() =~= seen.insert(key));
            assert(fixed_input@.pressed =~= m1.pressed.difference(seen.insert(key)));
            assert(fixed_input@.just_released =~= m1.just_released.union(
                seen.insert(key).intersect(m1.pressed),
            ));
        }
        j = j + 1;
    }
    proof {
        released_keys@.lemma_take_len();
        assert(released_keys@.to_set() =~= dr);
        assert(fixed_input@.pressed =~= ingest_model(m0, dp, dr).pressed);
        assert(fixed_input@.just_released =~= ingest_model(m0, dp, dr).just_released);
        assert(fixed_input@ =~= ingest_model(m0, dp, dr));
    }
}

/// Empties the accumulator's transient transition sets, leaving the held set
/// untouched. Runs once per simulation tick, after that tick's consumers.
pub fn input_clear(fixed_input: &mut FixedInput)
    ensures
        final(fixed_input)@ == clear_model(old(fixed_input)@),
{
    device_clear_transitions(&mut fixed_input.state);
}

/// The accumulator after ingesting a whole run of frame snapshots, oldest
/// first, with no clear in between; each snapshot pairs the frame's
/// just-pressed set with its just-released set.
pub open spec fn ingest_all(m: InputModel, frames: Seq<(Set<u32>, Set<u32>)>) -> InputModel
    decreases frames.len(),
{
    if frames.len() == 0 {
        m
    } else {
        ingest_all(ingest_model(m, frames[0].0, frames[0].1), frames.drop_first())
    }
}

/// A just-pressed transition the device reports for a key that is not yet
/// held by the accumulator is visible right after the ingest: the key is
/// held and reported just-pressed.
pub proof fn lemma_ingest_press_observed(m: InputModel, dp: Set<u32>, dr: Set<u32>, k: u32)
    requires
        dp.contains(k),
        !dr.contains(k),
        !m.pressed.contains(k),
    ensures
        ingest_model(m, dp, dr).pressed.contains(k),
        ingest_model(m, dp, dr).just_pressed.contains(k),
{
}

/// An observed press cannot be taken away by later frames: until the
/// accumulator's own clear, a held, just-pressed key stays held and stays
/// reported just-pressed through any run of frames in which the device never
/// reports it released — however many frames pass between two ticks.
pub proof fn lemma_press_visible_until_clear(
    m: InputModel,
    frames: Seq<(Set<u32>, Set<u32>)>,
    k: u32,
)
    requires
        m.pressed.contains(k),
        m.just_pressed.contains(k),
        forall|i: int| 0 <= i < frames.len() ==> !(#[trigger] frames[i]).1.contains(k),
    ensures
        ingest_all(m, frames).pressed.contains(k),
        ingest_all(m, frames).just_pressed.contains(k),
    decreases frames.len(),
{
    if frames.len() > 0 {
        let m1 = ingest_model(m, frames[0].0, frames[0].1);
        assert(!frames[0].1.contains(k));
        let rest = frames.drop_first();
        assert forall|i: int| 0 <= i < rest.len() implies !(#[trigger] rest[i]).1.contains(k) by {
            assert(rest[i] == frames[i + 1]);
        }
        lemma_press_visible_until_clear(m1, rest, k);
    }
}

/// A held key stays held across the accumulator's clear; only an ingested
/// release removes it.
pub proof fn lemma_held_survives_clear(m: InputModel, k: u32)
    requires
        m.pressed.contains(k),
    ensures
        clear_model(m).pressed.contains(k),
{
}

/// Ingesting the same transition snapshot again before a clear changes
/// nothing: the accumulation is idempotent for any snapshot in which no key
/// is reported both just-pressed and just-released.
pub proof fn lemma_ingest_idempotent(m: InputModel, dp: Set<u32>, dr: Set<u32>)
    requires
        dp.disjoint(dr),
    ensures
        ingest_model(ingest_model(m, dp, dr), dp, dr) == ingest_model(m, dp, dr),
{
    let m1 = ingest_model(m, dp, dr);
    assert(ingest_model(m1, dp, dr).pressed =~= m1.pressed);
    assert(ingest_model(m1, dp, dr).just_pressed =~= m1.just_pressed);
    assert(ingest_model(m1, dp, dr).just_released =~= m1.just_released);
    assert(ingest_model(m1, dp, dr) =~= m1);
}

/// A clear empties both transient transition sets for every key and leaves
/// the held set exactly as it was.
pub proof fn lemma_clear_only_transients(m: InputModel)
    ensures
        clear_model(m).just_pressed == Set::<u32>::empty(),
        clear_model(m).just_released == Set::<u32>::empty(),
        clear_model(m).pressed == m.pressed,
{
}

} // verus!
