//! The decision core of the polling thread: one owned aggregate of registry
//! and trigger-debounce state, driven by hardware events and by the haptic
//! request queue.
//!
//! The hosting program owns the hardware event source, the outbound delivery
//! of events, and the tick cadence. Each tick it translates the pending
//! hardware events into [`CoreEvent`] values, feeds them through
//! [`GamepadCore::run_tick`] together with the requests drained from the
//! queue, and then performs the returned effects and rumble commands. Every
//! decision — what to record, what to emit, what to rumble — is made here.

use vstd::prelude::*;
use crate::haptic::HapticRequest;
use crate::haptic::RumbleCommand;
use crate::haptic::batch_fan_out;
use crate::haptic::dispatch_batch;
use crate::mapper::TriggerDebounce;
use crate::mapper::TriggerSide;
use crate::mapper::UNMAPPED;
use crate::mapper::VendorButton;
use crate::mapper::button_to_w3c;
use crate::mapper::debounce_emits;
use crate::mapper::is_mapped;
use crate::mapper::side_index_spec;
use crate::mapper::side_pressed;
use crate::mapper::step_trigger;
use crate::mapper::w3c_index_spec;
use crate::registry::ControllerEntry;
use crate::registry::Registry;
use crate::registry::StatusEvent;
use crate::registry::StatusModel;
use crate::registry::contains_id;
use crate::registry::find_index;

verus! {

/// Outbound notification that a normalized button was pressed.
#[derive(Clone, Copy, Debug, PartialEq, Eq, Structural)]
pub struct ButtonEvent {
    pub button: u8,
}

/// One event for the decision core, as the hosting program reports it:
/// a device it opened successfully, a device the hardware detached, a
/// digital button press, or an analog sample of a trigger axis.
#[derive(Clone, Debug, PartialEq, Eq)]
pub enum CoreEvent {
    DeviceOpened { instance_id: u32, name: String, has_haptic: bool },
    DeviceRemoved { instance_id: u32 },
    ButtonDown { button: VendorButton },
    TriggerMotion { side: TriggerSide, value: i16 },
}

/// One outbound notification the hosting program must deliver.
#[derive(Clone, Debug, PartialEq, Eq)]
pub enum Effect {
    Status(StatusEvent),
    Button(ButtonEvent),
}

/// The mathematical content of an outbound notification.
pub enum EffectModel {
    Status(StatusModel),
    Button(u8),
}

impl View for Effect {
    type V = EffectModel;

    open spec fn view(&self) -> EffectModel {
        match self {
            Effect::Status(s) => EffectModel::Status(s@),
            Effect::Button(b) => EffectModel::Button(b.button),
        }
    }
}

/// The mathematical content of an optional outbound notification.
pub open spec fn effect_model_of(out: Option<Effect>) -> Option<EffectModel> {
    match out {
        Some(e) => Some(e@),
        None => None,
    }
}

/// The decision core's whole state: the attached controllers and the two
/// trigger latches.
pub struct CoreView {
    pub entries: Seq<ControllerEntry>,
    pub triggers: TriggerDebounce,
}

/// The decision core: everything the polling thread mutates.
pub struct GamepadCore {
    pub registry: Registry,
    pub triggers: TriggerDebounce,
}

impl View for GamepadCore {
    type V = CoreView;

    open spec fn view(&self) -> CoreView {
        CoreView { entries: self.registry@, triggers: self.triggers }
    }
}

/// The state after one event. An opened device is appended; a removal of a
/// known identifier drops its entry and releases both trigger latches; a
/// removal of an unknown identifier, and a button press, change nothing; a
/// trigger sample steps the sampled latch.
pub open spec fn step_state(v: CoreView, ev: CoreEvent) -> CoreView {
    match ev {
        CoreEvent::DeviceOpened { instance_id, name, has_haptic } => CoreView {
            entries: v.entries.push(ControllerEntry { instance_id, name, has_haptic }),
            triggers: v.triggers,
        },
        CoreEvent::DeviceRemoved { instance_id } => if contains_id(v.entries, instance_id) {
            CoreView {
                entries: v.entries.remove(find_index(v.entries, instance_id)),
                triggers: TriggerDebounce { left_pressed: false, right_pressed: false },
            }
        } else {
            v
        },
        CoreEvent::ButtonDown { .. } => v,
        CoreEvent::TriggerMotion { side, value } => CoreView {
            entries: v.entries,
            triggers: step_trigger(v.triggers, side, value),
        },
    }
}

/// The notification one event produces, if any. An opened device announces
/// itself connected; a known removal announces the removed device's name
/// disconnected; a mapped button press and an upward trigger crossing carry
/// their external index; everything else — an unknown removal, an unmapped
/// button, a non-crossing sample — is suppressed.
pub open spec fn step_effect(v: CoreView, ev: CoreEvent) -> Option<EffectModel> {
    match ev {
        CoreEvent::DeviceOpened { instance_id, name, has_haptic } => Some(
            EffectModel::Status(StatusModel { connected: true, name: name@ }),
        ),
        CoreEvent::DeviceRemoved { instance_id } => if contains_id(v.entries, instance_id) {
            Some(
                EffectModel::Status(
                    StatusModel {
                        connected: false,
                        name: v.entries[find_index(v.entries, instance_id)].name@,
                    },
                ),
            )
        } else {
            None
        },
        CoreEvent::ButtonDown { button } => if is_mapped(button) {
            Some(EffectModel::Button(w3c_index_spec(button)))
        } else {
            None
        },
        CoreEvent::TriggerMotion { side, value } => if debounce_emits(
            side_pressed(v.triggers, side),
            value,
        ) {
            Some(EffectModel::Button(side_index_spec(side)))
        } else {
            None
        },
    }
}

/// The state after a sequence of events, fed in order.
pub open spec fn steps(v: CoreView, evs: Seq<CoreEvent>) -> CoreView
    decreases evs.len(),
{
    if evs.len() == 0 {
        v
    } else {
        steps(step_state(v, evs[0]), evs.subrange(1, evs.len() as int))
    }
}

/// The notifications a sequence of events produces, in order, with the
/// suppressed ones omitted.
pub open spec fn effects(v: CoreView, evs: Seq<CoreEvent>) -> Seq<EffectModel>
    decreases evs.len(),
{
    if evs.len() == 0 {
        Seq::empty()
    } else {
        let rest = effects(step_state(v, evs[0]), evs.subrange(1, evs.len() as int));
        match step_effect(v, evs[0]) {
            Some(m) => seq![m] + rest,
            None => rest,
        }
    }
}

/// The mathematical content of a list of notifications.
pub open spec fn effect_models(effs: Seq<Effect>) -> Seq<EffectModel> {
    effs.map_values(|e: Effect| e@)
}

/// Folding one more event at the end of a sequence: the state steps once
/// more, and the new event's notification, if any, comes last.
pub proof fn lemma_steps_snoc(v: CoreView, evs: Seq<CoreEvent>, ev: CoreEvent)
    ensures
        steps(v, evs.push(ev)) == step_state(steps(v, evs), ev),
        effects(v, evs.push(ev)) == effects(v, evs) + (match step_effect(steps(v, evs), ev) {
            Some(m) => seq![m],
            None => Seq::<EffectModel>::empty(),
        }),
    decreases evs.len(),
{
    let whole = evs.push(ev);
    if evs.len() == 0 {
        assert(whole[0] == ev);
        let tail = whole.subrange(1, whole.len() as int);
        assert(tail =~= Seq::<CoreEvent>::empty());
        assert(steps(step_state(v, ev), tail) == step_state(v, ev));
        assert(steps(v, evs) == v);
        assert(effects(step_state(v, ev), tail) == Seq::<EffectModel>::empty());
        assert(effects(v, evs) == Seq::<EffectModel>::empty());
        match step_effect(v, ev) {
            Some(m) => {
                assert(effects(v, whole) == seq![m] + Seq::<EffectModel>::empty());
                assert(seq![m] + Seq::<EffectModel>::empty() =~= Seq::<EffectModel>::empty()
                    + seq![m]);
            },
            None => {
                assert(effects(v, whole) == Seq::<EffectModel>::empty());
                assert(Seq::<EffectModel>::empty() + Seq::<EffectModel>::empty() =~= Seq::<
                    EffectModel,
                >::empty());
            },
        }
    } else {
        let head = evs[0];
        let tail = evs.subrange(1, evs.len() as int);
        assert(whole[0] == head);
        assert(whole.subrange(1, whole.len() as int) =~= tail.push(ev));
        lemma_steps_snoc(step_state(v, head), tail, ev);
        match step_effect(v, head) {
            Some(m) => {
                assert(effects(v, whole) =~= effects(v, evs) + (match step_effect(
                    steps(v, evs),
                    ev,
                ) {
                    Some(m2) => seq![m2],
                    None => Seq::<EffectModel>::empty(),
                }));
            },
            None => {
            },
        }
    }
}

impl GamepadCore {
    /// A fresh core: no controller attached, both trigger latches released.
    pub fn new() -> (c: Self)
        ensures
            c@.entries == Seq::<ControllerEntry>::empty(),
            !c@.triggers.left_pressed,
            !c@.triggers.right_pressed,
    {
        GamepadCore { registry: Registry::new(), triggers: TriggerDebounce::new() }
    }

    /// Feeds one event through the core: the state steps as [`step_state`]
    /// says and the returned notification is exactly what [`step_effect`]
    /// says, unknown and unmapped inputs included.
    pub fn handle_event(&mut self, ev: CoreEvent) -> (out: Option<Effect>)
        ensures
            final(self)@ == step_state(old(self)@, ev),
            effect_model_of(out) == step_effect(old(self)@, ev),
    {
        match ev {
            CoreEvent::DeviceOpened { instance_id, name, has_haptic } => {
                let st = self.registry.open_device(instance_id, name, has_haptic);
                Some(Effect::Status(st))
            },
            CoreEvent::DeviceRemoved { instance_id } => {
                match self.registry.remove_device(instance_id) {
                    Some(st) => {
                        self.triggers.reset();
                        Some(Effect::Status(st))
                    },
                    None => None,
                }
            },
            CoreEvent::ButtonDown { button } => {
                let idx = button_to_w3c(button);
                if idx != UNMAPPED {
                    Some(Effect::Button(ButtonEvent { button: idx }))
                } else {
                    None
                }
            },
            CoreEvent::TriggerMotion { side, value } => {
                match self.triggers.sample(side, value) {
                    Some(idx) => Some(Effect::Button(ButtonEvent { button: idx })),
                    None => None,
                }
            },
        }
    }

    /// One tick of the running poll loop, after the hosting program pumped
    /// the hardware queue and drained the request queue: feeds every event
    /// through the core in order, then fans the tick's requests out over the
    /// registry as those events left it. Returns the notifications to
    /// deliver and the rumble commands to issue, both in order.
    pub fn run_tick(&mut self, events: Vec<CoreEvent>, requests: &Vec<HapticRequest>) -> (r: (
        Vec<Effect>,
        Vec<RumbleCommand>,
    ))
        ensures
            final(self)@ == steps(old(self)@, events@),
            effect_models(r.0@) == effects(old(self)@, events@),
            r.1@ == batch_fan_out(steps(old(self)@, events@).entries, requests@),
    {
        let ghost evs = events@;
        let ghost orig = self@;
        let mut pending = events;
        let mut effs: Vec<Effect> = Vec::new();
        let ghost mut k: int = 0;
        proof {
            assert(evs.subrange(0, 0) =~= Seq::<CoreEvent>::empty());
            assert(effect_models(effs@) =~= effects(orig, evs.subrange(0, 0)));
        }
        while pending.len() > 0
            invariant
                0 <= k <= evs.len(),
                pending@ == evs.subrange(k, evs.len() as int),
                orig == old(self)@,
                self@ == steps(orig, evs.subrange(0, k)),
                effect_models(effs@) == effects(orig, evs.subrange(0, k)),
            decreases pending@.len(),
        {
            let ghost effs_before = effs@;
            let ev = pending.remove(0);
            proof {
                assert(ev == evs[k]);
                assert(evs.subrange(k, evs.len() as int).remove(0) =~= evs.subrange(
                    k + 1,
                    evs.len() as int,
                ));
            }
            let out = self.handle_event(ev);
            if let Some(e) = out {
                effs.push(e);
            }
            proof {
                lemma_steps_snoc(orig, evs.subrange(0, k), evs[k]);
                assert(evs.subrange(0, k).push(evs[k]) =~= evs.subrange(0, k + 1));
                match step_effect(steps(orig, evs.subrange(0, k)), evs[k]) {
                    Some(m) => {
                        assert(effect_models(effs@) =~= effect_models(effs_before) + seq![m]);
                    },
                    None => {
                        assert(effect_models(effs@) =~= effect_models(effs_before) + Seq::<
                            EffectModel,
                        >::empty());
                    },
                }
                k = k + 1;
            }
        }
        proof {
            assert(evs.subrange(0, evs.len() as int) =~= evs);
            assert(evs.subrange(k, evs.len() as int).len() == 0);
        }
        let cmds = dispatch_batch(&self.registry, requests);
        (effs, cmds)
    }
}

} // verus!
