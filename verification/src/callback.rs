//! The protocol of one debug callback registration.
//!
//! A registration is created for an instance, is handed to the driver once,
//! and is released once. This module decides every step of that on plain
//! values and never talks to the driver: it says which native call is due,
//! and is told what came back.
//!
//! ```text
//! Unregistered --created--> Registered --release--> Destroyed
//! ```
//!
//! There is no other transition. A registration that the instance cannot
//! support is never built, so nothing is ever asked of the driver for it.

use crate::error::DebugCallbackCreationError;
use crate::flags::{
    lemma_severity_encoding_range, lemma_severity_round_trip, lemma_type_encoding_range,
    lemma_type_round_trip, MessageSeverity, MessageType, SEVERITY_KNOWN_BITS, TYPE_KNOWN_BITS,
};
use vstd::prelude::*;

verus! {

/// The structure type tag of the native messenger create-info record.
pub const STRUCTURE_TYPE_DEBUG_UTILS_MESSENGER_CREATE_INFO: u32 = 1000128004;

/// What a registration reads of the instance it is made for.
#[derive(Debug, Copy, Clone, PartialEq, Eq, Structural)]
pub struct InstanceInfo {
    /// The raw handle of the instance, as native calls take it.
    pub handle: usize,
    /// Whether the debug-utils extension is enabled on the instance.
    pub ext_debug_utils: bool,
}

/// The plain fields of the native messenger create-info record. The caller
/// adds what only it can know: the trampoline and the address of the stored
/// callback.
#[derive(Debug, Copy, Clone, PartialEq, Eq, Structural)]
pub struct MessengerCreateInfo {
    /// Always [`STRUCTURE_TYPE_DEBUG_UTILS_MESSENGER_CREATE_INFO`].
    pub structure_type: u32,
    /// Reserved by the driver; always zero.
    pub flags: u32,
    /// The severities to report, as a native bit mask.
    pub message_severity: u32,
    /// The message types to report, as a native bit mask.
    pub message_type: u32,
}

/// The native call that creates a messenger.
#[derive(Debug, Copy, Clone, PartialEq, Eq, Structural)]
pub struct CreateMessenger {
    /// The instance to create the messenger on.
    pub instance: usize,
    /// What the messenger is to report.
    pub info: MessengerCreateInfo,
}

/// The native call that destroys a messenger.
#[derive(Debug, Copy, Clone, PartialEq, Eq, Structural)]
pub struct DestroyMessenger {
    /// The instance the messenger was created on.
    pub instance: usize,
    /// The messenger to destroy.
    pub messenger: u64,
}

/// Where a registration stands.
#[derive(Debug, Copy, Clone, PartialEq, Eq, Structural)]
pub enum Phase {
    /// Built, not yet known to the driver.
    Unregistered,
    /// The driver holds a messenger for it and may invoke the callback.
    Registered {
        /// The handle the driver gave the messenger.
        messenger: u64,
    },
    /// The messenger has been handed back; the driver is done with it.
    Destroyed,
}

/// Something that happens to a registration.
#[derive(Debug, Copy, Clone, PartialEq, Eq, Structural)]
pub enum Event {
    /// The driver created the messenger and returned its handle.
    Created {
        /// The handle the driver returned.
        messenger: u64,
    },
    /// The owner lets go of the registration.
    Released,
}

/// The mathematical value of a [`DebugCallback`].
pub struct Registration {
    /// The raw handle of the instance the registration belongs to.
    pub instance: usize,
    /// The severities it asks for.
    pub severity: MessageSeverity,
    /// The message types it asks for.
    pub ty: MessageType,
    /// Where it stands.
    pub phase: Phase,
}

impl Registration {
    /// The registration as [`DebugCallback::new`] builds it.
    pub open spec fn fresh(
        instance: InstanceInfo,
        severity: MessageSeverity,
        ty: MessageType,
    ) -> Registration {
        Registration { instance: instance.handle, severity, ty, phase: Phase::Unregistered }
    }

    /// The native call that creates the messenger for this registration.
    pub open spec fn create_call(self) -> CreateMessenger {
        CreateMessenger {
            instance: self.instance,
            info: MessengerCreateInfo {
                structure_type: STRUCTURE_TYPE_DEBUG_UTILS_MESSENGER_CREATE_INFO,
                flags: 0,
                message_severity: self.severity.bits(),
                message_type: self.ty.bits(),
            },
        }
    }

    /// The registration after an event.
    pub open spec fn after(self, event: Event) -> Registration {
        match (self.phase, event) {
            (Phase::Unregistered, Event::Created { messenger }) => Registration {
                phase: Phase::Registered { messenger },
                ..self
            },
            (Phase::Registered { .. }, Event::Released) => Registration {
                phase: Phase::Destroyed,
                ..self
            },
            _ => self,
        }
    }

    /// The native call an event makes due, if any: releasing a registered
    /// callback destroys its messenger, and nothing else asks anything of
    /// the driver.
    pub open spec fn call_due(self, event: Event) -> Option<DestroyMessenger> {
        match (self.phase, event) {
            (Phase::Registered { messenger }, Event::Released) => Some(
                DestroyMessenger { instance: self.instance, messenger },
            ),
            _ => None,
        }
    }

    /// The registration after a sequence of events, first to last.
    pub open spec fn after_all(self, events: Seq<Event>) -> Registration
        decreases events.len(),
    {
        if events.len() == 0 {
            self
        } else {
            self.after_all(events.drop_last()).after(events.last())
        }
    }

    /// The destroy calls that a sequence of events makes due, in order.
    pub open spec fn calls_due(self, events: Seq<Event>) -> Seq<DestroyMessenger>
        decreases events.len(),
    {
        if events.len() == 0 {
            Seq::empty()
        } else {
            let before = self.after_all(events.drop_last());
            let earlier = self.calls_due(events.drop_last());
            match before.call_due(events.last()) {
                Some(call) => earlier.push(call),
                None => earlier,
            }
        }
    }
}

/// Registration of a callback called by validation layers.
///
/// The callback can be called as long as the registration is in
/// [`Phase::Registered`].
#[must_use]
#[derive(Debug)]
pub struct DebugCallback {
    instance: usize,
    severity: MessageSeverity,
    ty: MessageType,
    phase: Phase,
}

impl View for DebugCallback {
    type V = Registration;

    closed spec fn view(&self) -> Registration {
        Registration {
            instance: self.instance,
            severity: self.severity,
            ty: self.ty,
            phase: self.phase,
        }
    }
}

impl DebugCallback {
    /// Prepares a debug callback for an instance.
    ///
    /// Fails with [`DebugCallbackCreationError::MissingExtension`] exactly
    /// when the debug-utils extension is not enabled on the instance; no
    /// registration exists then, and so no native call is ever due for it.
    /// Otherwise the registration is unregistered and
    /// [`DebugCallback::create_call`] says what to ask of the driver.
    pub fn new(instance: &InstanceInfo, severity: MessageSeverity, ty: MessageType) -> (res: Result<
        DebugCallback,
        DebugCallbackCreationError,
    >)
        ensures
            match res {
                Ok(callback) => instance.ext_debug_utils && callback@ == Registration::fresh(
                    *instance,
                    severity,
                    ty,
                ),
                Err(error) => !instance.ext_debug_utils && error
                    == DebugCallbackCreationError::MissingExtension,
            },
    {
        if !instance.ext_debug_utils {
            return Err(DebugCallbackCreationError::MissingExtension);
        }
        Ok(DebugCallback { instance: instance.handle, severity, ty, phase: Phase::Unregistered })
    }

    /// Prepares a debug callback for errors and warnings of the general type.
    ///
    /// Shortcut for `new(instance, MessageSeverity::errors_and_warnings(),
    /// MessageType::general())`.
    #[inline]
    pub fn errors_and_warnings(instance: &InstanceInfo) -> (res: Result<
        DebugCallback,
        DebugCallbackCreationError,
    >)
        ensures
            match res {
                Ok(callback) => instance.ext_debug_utils && callback@ == Registration::fresh(
                    *instance,
                    MessageSeverity {
                        error: true,
                        warning: true,
                        information: false,
                        verbose: false,
                    },
                    MessageType { general: true, validation: false, performance: false },
                ),
                Err(error) => !instance.ext_debug_utils && error
                    == DebugCallbackCreationError::MissingExtension,
            },
    {
        DebugCallback::new(instance, MessageSeverity::errors_and_warnings(), MessageType::general())
    }

    /// The raw handle of the instance the registration belongs to.
    pub fn instance(&self) -> (handle: usize)
        ensures
            handle == self@.instance,
    {
        self.instance
    }

    /// The severities the registration asks for.
    pub fn severity(&self) -> (severity: MessageSeverity)
        ensures
            severity == self@.severity,
    {
        self.severity
    }

    /// The message types the registration asks for.
    pub fn ty(&self) -> (ty: MessageType)
        ensures
            ty == self@.ty,
    {
        self.ty
    }

    /// Where the registration stands.
    pub fn phase(&self) -> (phase: Phase)
        ensures
            phase == self@.phase,
    {
        self.phase
    }

    /// The native call that creates the messenger: on the registration's
    /// instance, with both selections encoded and the reserved flags zero.
    pub fn create_call(&self) -> (call: CreateMessenger)
        ensures
            call == self@.create_call(),
    {
        CreateMessenger {
            instance: self.instance,
            info: MessengerCreateInfo {
                structure_type: STRUCTURE_TYPE_DEBUG_UTILS_MESSENGER_CREATE_INFO,
                flags: 0,
                message_severity: self.severity.encode(),
                message_type: self.ty.encode(),
            },
        }
    }

    /// Takes note of an event and says which native call it makes due.
    ///
    /// The registration moves as [`Registration::after`] says. The result is
    /// the destroy call for the registration's own messenger when a
    /// registered callback is released, and `None` for every other event.
    pub fn handle(&mut self, event: Event) -> (call: Option<DestroyMessenger>)
        ensures
            final(self)@ == old(self)@.after(event),
            call == old(self)@.call_due(event),
    {
        match (self.phase, event) {
            (Phase::Unregistered, Event::Created { messenger }) => {
                self.phase = Phase::Registered { messenger };
                None
            },
            (Phase::Registered { messenger }, Event::Released) => {
                self.phase = Phase::Destroyed;
                Some(DestroyMessenger { instance: self.instance, messenger })
            },
            _ => None,
        }
    }

    /// Records that the driver created the messenger. Returns whether the
    /// registration was waiting for that; if it was not, nothing changes.
    pub fn created(&mut self, messenger: u64) -> (accepted: bool)
        ensures
            accepted == (old(self)@.phase is Unregistered),
            final(self)@ == old(self)@.after(Event::Created { messenger }),
    {
        let accepted = match self.phase {
            Phase::Unregistered => true,
            _ => false,
        };
        let _ = self.handle(Event::Created { messenger });
        accepted
    }

    /// Lets go of the registration. Returns the destroy call for its
    /// messenger if the driver holds one, and `None` if there is nothing to
    /// hand back: before the messenger exists, and after the first release.
    pub fn release(&mut self) -> (call: Option<DestroyMessenger>)
        ensures
            final(self)@ == old(self)@.after(Event::Released),
            call == old(self)@.call_due(Event::Released),
    {
        self.handle(Event::Released)
    }
}

/// How far along a phase is.
pub open spec fn phase_rank(phase: Phase) -> nat {
    match phase {
        Phase::Unregistered => 0,
        Phase::Registered { .. } => 1,
        Phase::Destroyed => 2,
    }
}

/// An event leaves a registration where it is or moves it one phase on, never
/// back and never past a phase. Only the phase ever changes.
pub proof fn lemma_phase_only_advances(r: Registration, event: Event)
    ensures
        phase_rank(r.phase) <= phase_rank(r.after(event).phase) <= phase_rank(r.phase) + 1,
        phase_rank(r.after(event).phase) == phase_rank(r.phase) ==> r.after(event) == r,
        r.after(event).instance == r.instance,
        r.after(event).severity == r.severity,
        r.after(event).ty == r.ty,
{
}

/// A native call is due exactly when an event takes a registration from
/// registered to destroyed, and it is the destroy call for the messenger the
/// registration held, on the registration's instance.
pub proof fn lemma_call_due_on_destroy_only(r: Registration, event: Event)
    ensures
        r.call_due(event) is Some <==> r.phase is Registered && r.after(event).phase is Destroyed,
        r.call_due(event) is Some ==> r.phase == (Phase::Registered {
            messenger: r.call_due(event)->0.messenger,
        }) && r.call_due(event)->0.instance == r.instance,
{
}

/// Releasing a registered callback makes exactly one destroy call due, and a
/// second release makes none.
pub proof fn lemma_release_destroys_once(r: Registration)
    requires
        r.phase is Registered,
    ensures
        r.call_due(Event::Released) == Some(
            DestroyMessenger { instance: r.instance, messenger: r.phase->messenger },
        ),
        r.after(Event::Released).phase is Destroyed,
        r.after(Event::Released).call_due(Event::Released) is None,
        r.after(Event::Released).after(Event::Released) == r.after(Event::Released),
{
}

/// Nothing happens to a destroyed registration any more: whatever events
/// follow, it stays as it is and no native call becomes due.
pub proof fn lemma_destroyed_is_final(r: Registration, events: Seq<Event>)
    requires
        r.phase is Destroyed,
    ensures
        r.after_all(events) == r,
        r.calls_due(events).len() == 0,
    decreases events.len(),
{
    if events.len() > 0 {
        lemma_destroyed_is_final(r, events.drop_last());
    }
}

/// Over the whole life of a registration at most one native call becomes
/// due, whatever events arrive and in whatever order. For a registration
/// that starts out unregistered there is exactly one once it is destroyed
/// and none before, and the call names the registration's instance.
pub proof fn lemma_at_most_one_destroy(r: Registration, events: Seq<Event>)
    ensures
        r.calls_due(events).len() <= 1,
        r.after_all(events).instance == r.instance,
        phase_rank(r.phase) <= phase_rank(r.after_all(events).phase),
        forall|i: int|
            0 <= i < r.calls_due(events).len() ==> (#[trigger] r.calls_due(events)[i]).instance
                == r.instance,
        r.calls_due(events).len() == 1 ==> r.after_all(events).phase is Destroyed,
        r.phase is Unregistered ==> (r.calls_due(events).len() == 1 <==> r.after_all(
            events,
        ).phase is Destroyed),
    decreases events.len(),
{
    if events.len() > 0 {
        let earlier = events.drop_last();
        lemma_at_most_one_destroy(r, earlier);
    }
}

/// When a registration starts out unregistered, the messenger it asks the
/// driver to destroy is one the driver reported as created for it before.
pub proof fn lemma_destroys_what_was_created(r: Registration, events: Seq<Event>)
    requires
        r.phase is Unregistered,
    ensures
        r.after_all(events).phase is Registered ==> events.contains(
            Event::Created { messenger: r.after_all(events).phase->messenger },
        ),
        forall|i: int|
            0 <= i < r.calls_due(events).len() ==> events.contains(
                Event::Created { messenger: (#[trigger] r.calls_due(events)[i]).messenger },
            ),
    decreases events.len(),
{
    if events.len() > 0 {
        let earlier = events.drop_last();
        lemma_destroys_what_was_created(r, earlier);
        assert forall|e: Event| earlier.contains(e) implies events.contains(e) by {
            let j = choose|j: int| 0 <= j < earlier.len() && earlier[j] == e;
            assert(events[j] == e);
        }
        let calls = r.calls_due(events);
        assert forall|i: int| 0 <= i < calls.len() implies events.contains(
            Event::Created { messenger: (#[trigger] calls[i]).messenger },
        ) by {
            // An earlier call, or the one that the last event made due.
            if i < r.calls_due(earlier).len() {
                assert(calls[i] == r.calls_due(earlier)[i]);
            } else {
                assert(r.after_all(earlier).phase is Registered);
            }
        }
    }
}

/// The create call asks the driver for exactly the selection the
/// registration was made with, for nothing the driver could not know, and
/// leaves the reserved flags zero.
pub proof fn lemma_create_call_carries_selection(r: Registration)
    ensures
        r.create_call().instance == r.instance,
        r.create_call().info.flags == 0,
        MessageSeverity::of_bits(r.create_call().info.message_severity) == r.severity,
        MessageType::of_bits(r.create_call().info.message_type) == r.ty,
        r.create_call().info.message_severity & !SEVERITY_KNOWN_BITS == 0,
        r.create_call().info.message_type & !TYPE_KNOWN_BITS == 0,
{
    lemma_severity_round_trip(r.severity);
    lemma_type_round_trip(r.ty);
    lemma_severity_encoding_range(r.severity);
    lemma_type_encoding_range(r.ty);
}

/// Two registered callbacks on one instance are released independently: the
/// call that is due when one is released destroys that one's messenger, and
/// it is not the call that is due when the other is released.
pub proof fn lemma_releases_are_independent(a: Registration, b: Registration)
    requires
        a.phase is Registered,
        b.phase is Registered,
        a.instance == b.instance,
        a.phase->messenger != b.phase->messenger,
    ensures
        a.call_due(Event::Released) == Some(
            DestroyMessenger { instance: a.instance, messenger: a.phase->messenger },
        ),
        b.call_due(Event::Released) == Some(
            DestroyMessenger { instance: b.instance, messenger: b.phase->messenger },
        ),
        a.call_due(Event::Released) != b.call_due(Event::Released),
{
}

} // verus!
