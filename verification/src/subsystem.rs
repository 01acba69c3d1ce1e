//! The event subsystem and the event pump: what they compute around SDL's event queue.
//!
//! SDL owns the queue. Each method here takes what SDL answered and gives what the caller
//! returns, or takes an event and gives what is handed to SDL.

use std::marker::PhantomData;
use vstd::prelude::*;

use crate::custom::CustomEventTypeMaps;
use crate::custom::CustomEventTypesView;
use crate::event::decodes_to;
use crate::event::lemma_to_ll_from_ll;
use crate::event::USER_EVENT_BASE;
use crate::event_type::SDL_LASTEVENT;
use crate::raw::RawEventView;
use crate::event::raw_event_accepted;
use crate::event::spec_rejection;
use crate::event::Event;
use crate::event::RawEventError;
use crate::keyboard::KeyboardState;
use crate::mouse::MouseState;
use crate::mouse::RelativeMouseState;
use crate::raw::RawEvent;

verus! {

/// SDL's answer to a query of an event type's state when the type is disabled.
pub const SDL_DISABLE: u8 = 0;

/// SDL's answer to a query of an event type's state when the type is enabled.
pub const SDL_ENABLE: u8 = 1;

/// What `SDL_RegisterEvents` answers when it cannot hand out the events asked for.
pub const REGISTER_EVENTS_FAILED: u32 = 0xffff_ffff;

/// The user event that carries a custom event's payload: event type `type_`, the payload's
/// address in `data1`, and zero elsewhere.
pub open spec fn custom_user_event(type_: u32, data1: u64) -> Event {
    Event::User { timestamp: 0, window_id: 0, type_, code: 0, data1, data2: 0 }
}

/// A custom event pushed for a registered type comes back from the queue as that type's
/// event: when the registry maps the type to an event type number that SDL hands out for
/// registered events and maps that number back to the type, the raw event pushed is
/// accepted, it decodes to exactly the user event that carries the payload, and that event
/// gives the payload address back when asked for the registered type and nothing when asked
/// for any other type.
pub proof fn lemma_custom_event_round_trip(
    maps: CustomEventTypesView,
    type_id: u64,
    other_type_id: u64,
    data1: u64,
    dropped_file: Seq<u8>,
)
    requires
        maps.type_id_to_sdl_id.contains_key(type_id),
        maps.sdl_id_to_type_id.contains_key(maps.type_id_to_sdl_id[type_id]),
        maps.sdl_id_to_type_id[maps.type_id_to_sdl_id[type_id]] == type_id,
        USER_EVENT_BASE <= maps.type_id_to_sdl_id[type_id] < SDL_LASTEVENT,
        other_type_id != type_id,
    ensures
        ({
            let e = custom_user_event(maps.type_id_to_sdl_id[type_id], data1);
            let v = RawEventView { bytes: e.spec_to_ll().unwrap(), dropped_file };
            &&& raw_event_accepted(v)
            &&& forall|e2: Event| decodes_to(v, e2) <==> e2 == e
            &&& e is User
            &&& e.spec_user_event_data(maps, type_id) == Some(data1)
            &&& e.spec_user_event_data(maps, other_type_id) is None
        }),
{
    let e = custom_user_event(maps.type_id_to_sdl_id[type_id], data1);
    lemma_to_ll_from_ll(e, dropped_file);
}

/// The event subsystem.
pub struct EventSubsystem {
    _private: (),
}

impl EventSubsystem {
    pub fn new() -> (r: EventSubsystem) {
        EventSubsystem { _private: () }
    }

    /// The raw event to push to the queue for `event`; an error for events that cannot be
    /// converted.
    pub fn push_event(&self, event: Event) -> (r: Result<RawEvent, String>)
        ensures
            r is Ok <==> event.spec_to_ll() is Some,
            r matches Ok(raw) ==> raw@.bytes == event.spec_to_ll().unwrap()
                && raw@.dropped_file == Seq::<u8>::empty(),
            r matches Err(msg) ==> msg@ == "Cannot push unsupported event type to the queue"@,
    {
        match event.to_ll() {
            Some(raw_event) => Ok(raw_event),
            None => Err("Cannot push unsupported event type to the queue".to_owned()),
        }
    }

    /// The event type numbers registered by a call of `SDL_RegisterEvents` for `nr` events
    /// that answered `first_id`: the `nr` numbers from `first_id` on, or an error when SDL
    /// could hand out no more.
    pub fn register_events(&self, nr: u32, first_id: u32) -> (r: Result<Vec<u32>, String>)
        requires
            first_id == REGISTER_EVENTS_FAILED || first_id + nr <= u32::MAX,
        ensures
            r is Err <==> first_id == REGISTER_EVENTS_FAILED,
            r matches Err(msg) ==> msg@
                == "No more user events can be created; SDL_LASTEVENT reached"@,
            r matches Ok(ids) ==> ids@ == Seq::new(nr as nat, |i: int| (first_id + i) as u32),
    {
        if first_id == REGISTER_EVENTS_FAILED {
            return Err("No more user events can be created; SDL_LASTEVENT reached".to_owned());
        }
        let mut event_ids: Vec<u32> = Vec::new();
        let mut i: u32 = 0;
        while i < nr
            invariant
                first_id + nr <= u32::MAX,
                i <= nr,
                event_ids@ == Seq::new(i as nat, |j: int| (first_id + j) as u32),
            decreases nr - i,
        {
            event_ids.push(first_id + i);
            i = i + 1;
            assert(event_ids@ =~= Seq::new(i as nat, |j: int| (first_id + j) as u32));
        }
        Ok(event_ids)
    }

    /// The event type number registered by a call of `SDL_RegisterEvents` for one event that
    /// answered `first_id`, or an error when SDL could hand out no more.
    pub fn register_event(&self, first_id: u32) -> (r: Result<u32, String>)
        ensures
            r is Err <==> first_id == REGISTER_EVENTS_FAILED,
            r matches Err(msg) ==> msg@
                == "No more user events can be created; SDL_LASTEVENT reached"@,
            r matches Ok(id) ==> id == first_id,
    {
        let ids = self.register_events(1, first_id)?;
        Ok(ids[0])
    }

    /// Registers the type with key `type_id` as a custom event type, using the event type
    /// number that a call of `SDL_RegisterEvents` for one event answered (`first_id`).
    /// Errors: SDL could hand out no more events; the type is registered already. On error
    /// the registry is left as it was.
    pub fn register_custom_event(
        &self,
        maps: &mut CustomEventTypeMaps,
        first_id: u32,
        type_id: u64,
    ) -> (r: Result<(), String>)
        ensures
            r is Ok <==> first_id != REGISTER_EVENTS_FAILED
                && !old(maps)@.type_id_to_sdl_id.contains_key(type_id),
            r is Ok ==> final(maps)@ == old(maps)@.registered(first_id, type_id),
            r is Err ==> final(maps)@ == old(maps)@,
            first_id == REGISTER_EVENTS_FAILED ==> (r matches Err(msg) && msg@
                == "No more user events can be created; SDL_LASTEVENT reached"@),
            first_id != REGISTER_EVENTS_FAILED && old(maps)@.type_id_to_sdl_id.contains_key(type_id)
                ==> (r matches Err(msg) && msg@ == "The same event type can not be registered twice!"@),
    {
        let event_id = self.register_event(first_id)?;
        maps.register(event_id, type_id)
    }

    /// The raw event to push to the queue for a custom event of the type with key `type_id`
    /// whose payload is at address `data1`: the user event of the type's registered event
    /// type number. The type must be registered.
    pub fn push_custom_event(&self, maps: &CustomEventTypeMaps, type_id: u64, data1: u64) -> (r:
        RawEvent)
        requires
            maps@.type_id_to_sdl_id.contains_key(type_id),
        ensures
            r@.bytes == custom_user_event(maps@.type_id_to_sdl_id[type_id], data1).spec_to_ll().unwrap(),
            r@.dropped_file == Seq::<u8>::empty(),
    {
        let user_event_id = maps.sdl_id_of(type_id).unwrap();
        let event = Event::User {
            timestamp: 0,
            window_id: 0,
            type_: user_event_id,
            code: 0,
            data1,
            data2: 0,
        };
        self.push_event(event).unwrap()
    }

    /// The events that the raw events read from the queue stand for, in order; the first
    /// reason why one cannot be converted, if one cannot.
    pub fn peek_events(&self, raws: &Vec<RawEvent>) -> (r: Result<Vec<Event>, RawEventError>)
        ensures
            r is Ok <==> forall|i: int| 0 <= i < raws@.len() ==> raw_event_accepted(#[trigger] raws@[i]@),
            r matches Ok(events) ==> events@.len() == raws@.len() && forall|i: int|
                0 <= i < raws@.len() ==> decodes_to(#[trigger] raws@[i]@, events@[i]),
            r matches Err(err) ==> exists|i: int|
                0 <= i < raws@.len() && spec_rejection(#[trigger] raws@[i]@) == Some(err)
                    && forall|j: int| 0 <= j < i ==> raw_event_accepted(#[trigger] raws@[j]@),
    {
        let mut events: Vec<Event> = Vec::new();
        let mut i: usize = 0;
        while i < raws.len()
            invariant
                i <= raws@.len(),
                events@.len() == i,
                forall|j: int| 0 <= j < i ==> raw_event_accepted(#[trigger] raws@[j]@),
                forall|j: int| 0 <= j < i ==> decodes_to(#[trigger] raws@[j]@, events@[j]),
            decreases raws@.len() - i,
        {
            match Event::checked_from_ll(&raws[i]) {
                Ok(event) => events.push(event),
                Err(err) => {
                    assert(spec_rejection(raws@[i as int]@) == Some(err));
                    return Err(err);
                },
            }
            i = i + 1;
        }
        Ok(events)
    }
}

/// What polling the queue gives, when `pending` says whether an event was read into `raw`:
/// nothing when none was; otherwise the event that `raw` stands for, or why it cannot be
/// converted.
pub fn poll_event(pending: bool, raw: &RawEvent) -> (r: Result<Option<Event>, RawEventError>)
    ensures
            !pending ==> r matches Ok(None),
            pending ==> (r is Ok <==> raw_event_accepted(raw@)),
            pending && r is Ok ==> (r matches Ok(Some(e)) && decodes_to(raw@, e)),
            r matches Err(err) ==> spec_rejection(raw@) == Some(err),
{
    if pending {
        match Event::checked_from_ll(raw) {
            Ok(e) => Ok(Some(e)),
            Err(err) => Err(err),
        }
    } else {
        Ok(None)
    }
}

/// What waiting for the next event gives: the event that `raw` stands for, or why it cannot
/// be converted.
pub fn wait_event(raw: &RawEvent) -> (r: Result<Event, RawEventError>)
    ensures
        r is Ok <==> raw_event_accepted(raw@),
        r matches Ok(e) ==> decodes_to(raw@, e),
        r matches Err(err) ==> spec_rejection(raw@) == Some(err),
{
    Event::checked_from_ll(raw)
}

/// What waiting with a timeout gives, when `arrived` says whether an event was read into
/// `raw` before the timeout: nothing when none was; otherwise the event that `raw` stands
/// for, or why it cannot be converted.
pub fn wait_event_timeout(arrived: bool, raw: &RawEvent) -> (r: Result<Option<Event>, RawEventError>)
    ensures
            !arrived ==> r matches Ok(None),
            arrived ==> (r is Ok <==> raw_event_accepted(raw@)),
            arrived && r is Ok ==> (r matches Ok(Some(e)) && decodes_to(raw@, e)),
            r matches Err(err) ==> spec_rejection(raw@) == Some(err),
{
    poll_event(arrived, raw)
}

/// The event pump: reads events from SDL's queue.
pub struct EventPump {
    _private: (),
}

impl EventPump {
    pub fn new() -> (r: EventPump) {
        EventPump { _private: () }
    }

    /// Whether an event type is enabled, given SDL's answer to the query of its state.
    pub fn is_event_enabled(&self, state: u8) -> (r: bool)
        ensures
            r == (state != SDL_DISABLE),
    {
        state != SDL_DISABLE
    }

    /// Whether an event type was enabled before it was enabled, given SDL's answer to the
    /// request to enable it.
    pub fn enable_event(&mut self, state: u8) -> (r: bool)
        ensures
            r == (state != SDL_DISABLE),
    {
        state != SDL_DISABLE
    }

    /// Whether an event type was enabled before it was disabled, given SDL's answer to the
    /// request to disable it.
    pub fn disable_event(&mut self, state: u8) -> (r: bool)
        ensures
            r == (state != SDL_DISABLE),
    {
        state != SDL_DISABLE
    }

    /// The event polled from the queue: see `poll_event`.
    pub fn poll_event(&mut self, pending: bool, raw: &RawEvent) -> (r: Result<Option<Event>, RawEventError>)
        ensures
            !pending ==> r matches Ok(None),
            pending ==> (r is Ok <==> raw_event_accepted(raw@)),
            pending && r is Ok ==> (r matches Ok(Some(e)) && decodes_to(raw@, e)),
            r matches Err(err) ==> spec_rejection(raw@) == Some(err),
    {
        poll_event(pending, raw)
    }

    /// The event that a wait for the next event read: see `wait_event`.
    pub fn wait_event(&mut self, raw: &RawEvent) -> (r: Result<Event, RawEventError>)
        ensures
            r is Ok <==> raw_event_accepted(raw@),
            r matches Ok(e) ==> decodes_to(raw@, e),
            r matches Err(err) ==> spec_rejection(raw@) == Some(err),
    {
        wait_event(raw)
    }

    /// The event that a wait with a timeout read: see `wait_event_timeout`.
    pub fn wait_event_timeout(&mut self, arrived: bool, raw: &RawEvent) -> (r: Result<Option<Event>, RawEventError>)
        ensures
            !arrived ==> r matches Ok(None),
            arrived ==> (r is Ok <==> raw_event_accepted(raw@)),
            arrived && r is Ok ==> (r matches Ok(Some(e)) && decodes_to(raw@, e)),
            r matches Err(err) ==> spec_rejection(raw@) == Some(err),
    {
        wait_event_timeout(arrived, raw)
    }

    /// A polling iterator, which ends once no event is pending.
    pub fn poll_iter(&mut self) -> (r: EventPollIterator<'_>) {
        EventPollIterator { _marker: PhantomData }
    }

    /// A waiting iterator, which never ends.
    pub fn wait_iter(&mut self) -> (r: EventWaitIterator<'_>) {
        EventWaitIterator { _marker: PhantomData }
    }

    /// An iterator that waits up to `timeout` milliseconds for each event and ends when a
    /// wait times out.
    pub fn wait_timeout_iter(&mut self, timeout: u32) -> (r: EventWaitTimeoutIterator<'_>)
        ensures
            r.spec_timeout() == timeout,
    {
        EventWaitTimeoutIterator { _marker: PhantomData, timeout }
    }

    /// The keyboard state whose bytes SDL reported, one per scan code.
    pub fn keyboard_state(&self, state: &[u8]) -> (r: KeyboardState)
        ensures
            r.spec_state() == state@,
    {
        KeyboardState::new(state)
    }

    /// The mouse state that SDL reported: button mask and pointer position.
    pub fn mouse_state(&self, state: u32, x: i32, y: i32) -> (r: MouseState)
        ensures
            r.spec_sdl_state() == state,
            r.spec_x() == x,
            r.spec_y() == y,
    {
        MouseState::new(state, x, y)
    }

    /// The relative mouse state that SDL reported: button mask and pointer motion.
    pub fn relative_mouse_state(&self, state: u32, x: i32, y: i32) -> (r: RelativeMouseState)
        ensures
            r.spec_sdl_state() == state,
            r.spec_x() == x,
            r.spec_y() == y,
    {
        RelativeMouseState::new(state, x, y)
    }
}

/// An iterator that polls the event queue.
pub struct EventPollIterator<'a> {
    _marker: PhantomData<&'a ()>,
}

/// An iterator that waits for events.
pub struct EventWaitIterator<'a> {
    _marker: PhantomData<&'a ()>,
}

/// An iterator that waits for events with a timeout.
pub struct EventWaitTimeoutIterator<'a> {
    _marker: PhantomData<&'a ()>,
    timeout: u32,
}

impl<'a> EventWaitTimeoutIterator<'a> {
    /// The time to wait for each event, in milliseconds.
    pub closed spec fn spec_timeout(&self) -> u32 {
        self.timeout
    }

    /// The time to wait for each event, in milliseconds.
    pub fn timeout(&self) -> (r: u32)
        ensures
            r == self.spec_timeout(),
    {
        self.timeout
    }
}


/// The numbers of SDL's interface that the event subsystem and the pump rely on:
/// `SDL_RegisterEvents` fails with `(Uint32)-1`, registered events start at `SDL_USEREVENT`
/// (0x8000), `SDL_EventState` answers `SDL_DISABLE` (0) or `SDL_ENABLE` (1), and a key or
/// button state is `SDL_RELEASED` (0) or `SDL_PRESSED` (1).
pub proof fn lemma_sdl_numbers()
    ensures
        REGISTER_EVENTS_FAILED == 0xffff_ffff,
        USER_EVENT_BASE == 0x8000,
        SDL_DISABLE == 0,
        SDL_ENABLE == 1,
        crate::event::SDL_RELEASED == 0,
        crate::event::SDL_PRESSED == 1,
{
}

} // verus!
