//! The buttons driver adapter: the canonical consumer of the event bridge.
//!
//! Its callback records each press or release in an [`EventRecord`] and
//! toggles the marker; a waiter polls for a marker change and filters for the
//! button and state it cares about, re-capturing the marker whenever it
//! observes an event meant for someone else.

use vstd::prelude::*;

use crate::callback::{CallbackSubscription, SubscribableCallback};
use crate::events::{poll_outcome, EventListener, EventRecord, RecordId};
use crate::kernel::{command_observed, pending_code, subscribe_observed, Kernel};
use crate::result::{CommandError, SubscribeError, TockError, TockResult};
use crate::syscalls;

verus! {

pub const DRIVER_NUMBER: usize = 3;

pub const COMMAND_COUNT: usize = 0;

pub const COMMAND_ENABLE_INTERRUPT: usize = 1;

pub const COMMAND_DISABLE_INTERRUPT: usize = 2;

pub const COMMAND_READ: usize = 3;

pub const SUBSCRIBE_CALLBACK: usize = 0;

/// The last observed button event: which button, and whether it went down or
/// up.
#[derive(Copy, Clone, Debug, PartialEq, Eq, Structural)]
pub enum RecordedState {
    Pressed(usize),
    Released(usize),
}

/// The state of one button as a read command reports it.
#[derive(Copy, Clone, Debug, PartialEq, Eq, Structural)]
pub enum ButtonState {
    Pressed,
    Released,
}

impl ButtonState {
    /// The state a read command's non-negative result encodes. The buttons
    /// driver reports nothing but zero (released) and one (pressed).
    pub fn from(state: usize) -> (s: ButtonState)
        requires
            state <= 1,
        ensures
            s == (if state == 0 {
                ButtonState::Released
            } else {
                ButtonState::Pressed
            }),
    {
        if state == 0 {
            ButtonState::Released
        } else {
            ButtonState::Pressed
        }
    }
}

/// The callback target the buttons driver is subscribed with: the shared
/// event record that the dispatch trampoline writes and waiters read.
pub struct ButtonsDriverCallback {
    pub record: EventRecord<RecordedState>,
}

impl SubscribableCallback for ButtonsDriverCallback {
    /// A delivery with state zero records a release, one records a press, and
    /// anything else is ignored without touching the marker.
    open spec fn on_event(pre: Self, arg1: usize, arg2: usize, arg3: usize) -> Self {
        if arg2 == 0 {
            ButtonsDriverCallback {
                record: EventRecord {
                    payload: RecordedState::Released(arg1),
                    record_id: pre.record.record_id.spec_next(),
                },
            }
        } else if arg2 == 1 {
            ButtonsDriverCallback {
                record: EventRecord {
                    payload: RecordedState::Pressed(arg1),
                    record_id: pre.record.record_id.spec_next(),
                },
            }
        } else {
            pre
        }
    }

    fn call_rust(&mut self, arg1: usize, arg2: usize, arg3: usize) {
        if arg2 == 0 {
            self.record.record(RecordedState::Released(arg1));
        } else if arg2 == 1 {
            self.record.record(RecordedState::Pressed(arg1));
        }
    }
}

/// The pair a waiter resumes with: the state and number of the fresh event.
pub open spec fn state_pair(s: RecordedState) -> (ButtonState, usize) {
    match s {
        RecordedState::Pressed(button_num) => (ButtonState::Pressed, button_num),
        RecordedState::Released(button_num) => (ButtonState::Released, button_num),
    }
}

/// Whether a waiter that captured `last_seen` and is waiting for `expected`
/// resumes against the callback state `callback`.
pub open spec fn expected_poll_outcome(
    last_seen: RecordId,
    callback: ButtonsDriverCallback,
    expected: RecordedState,
) -> bool {
    poll_outcome(last_seen, callback.record) == Some(expected)
}

impl ButtonsDriverCallback {
    /// Begins one wait on the shared event record.
    pub fn listen(&self) -> (listener: EventListener)
        ensures
            listener.last_seen() == self.record.record_id,
    {
        self.record.listen()
    }

    /// One poll for any button event: resumes with the freshly recorded state
    /// exactly when the marker moved since the listener's capture.
    pub fn poll_any_event(&self, listener: &mut EventListener) -> (woke: Option<(
        ButtonState,
        usize,
    )>)
        ensures
            match poll_outcome(old(listener).last_seen(), self.record) {
                Some(s) => woke == Some(state_pair(s)) && final(listener).last_seen()
                    == self.record.record_id,
                None => woke is None && *final(listener) == *old(listener),
            },
    {
        match listener.poll(&self.record) {
            Some(RecordedState::Pressed(button_num)) => Some((ButtonState::Pressed, button_num)),
            Some(RecordedState::Released(button_num)) => Some((ButtonState::Released, button_num)),
            None => None,
        }
    }

    /// One poll for one specific event: resumes exactly when the marker moved
    /// and the fresh event is `expected`.  An event for someone else still
    /// re-captures the marker, so the waiter keeps waiting for the next event
    /// rather than re-examining this one.
    pub fn poll_expected_event(
        &self,
        listener: &mut EventListener,
        expected: RecordedState,
    ) -> (woke: bool)
        ensures
            woke == expected_poll_outcome(old(listener).last_seen(), *self, expected),
            poll_outcome(old(listener).last_seen(), self.record) is Some ==> final(listener).last_seen()
                == self.record.record_id,
            poll_outcome(old(listener).last_seen(), self.record) is None ==> *final(listener)
                == *old(listener),
    {
        match listener.poll(&self.record) {
            Some(state) => state == expected,
            None => false,
        }
    }
}

/// Makes the context a buttons driver needs; the context must outlive the
/// driver, since the kernel holds a token for the context's callback record
/// for the driver's whole lifetime.
pub struct ButtonsDriverFactory;

impl ButtonsDriverFactory {
    /// Creates the context before the driver itself can be initialized. The
    /// context cannot be created inside the initialization routine: with no
    /// heap, the callback record must live in the caller's frame, above the
    /// subscription that points at it.
    pub fn create_context(&mut self) -> (context: ButtonsDriverContext)
        ensures
            context.callback.record.payload == RecordedState::Released(0),
            context.callback.record.record_id == RecordId::A,
    {
        ButtonsDriverContext {
            callback: ButtonsDriverCallback {
                record: EventRecord::new(RecordedState::Released(0)),
            },
        }
    }
}

/// The callback state a buttons driver is registered with. The kernel's
/// dispatch trampoline resolves its token to `callback`.
pub struct ButtonsDriverContext {
    pub callback: ButtonsDriverCallback,
}

impl ButtonsDriverContext {
    /// Counts the buttons and subscribes the context's callback record.
    ///
    /// The kernel decides both steps: a negative count answer fails with that
    /// command error and no subscription is attempted; a non-zero subscribe
    /// answer fails with that subscribe error. Otherwise the driver holds the
    /// reported button count and the subscription's release obligation.
    pub fn init_driver(&mut self, kernel: &mut Kernel) -> (r: TockResult<ButtonsDriver>)
        ensures
            *final(self) == *old(self),
            ({
                let k0 = old(kernel)@;
                let c0 = pending_code(k0);
                let k1 = command_observed(k0, DRIVER_NUMBER, COMMAND_COUNT, 0, 0);
                if c0 < 0 {
                    final(kernel)@ == k1 && r == Err::<ButtonsDriver, TockError>(
                        TockError::Command(
                            CommandError {
                                driver_number: DRIVER_NUMBER,
                                command_number: COMMAND_COUNT,
                                arg1: 0,
                                arg2: 0,
                                return_code: c0,
                            },
                        ),
                    )
                } else {
                    let c1 = pending_code(k1);
                    final(kernel)@ == subscribe_observed(k1, DRIVER_NUMBER, SUBSCRIBE_CALLBACK)
                        && if c1 != 0 {
                        r == Err::<ButtonsDriver, TockError>(
                            TockError::Subscribe(
                                SubscribeError {
                                    driver_number: DRIVER_NUMBER,
                                    subscribe_number: SUBSCRIBE_CALLBACK,
                                    return_code: c1,
                                },
                            ),
                        )
                    } else {
                        match r {
                            Ok(driver) => driver.spec_num_buttons() == c0 as usize
                                && driver.spec_subscription().spec_driver_number()
                                == DRIVER_NUMBER
                                && driver.spec_subscription().spec_subscribe_number()
                                == SUBSCRIBE_CALLBACK,
                            Err(_) => false,
                        }
                    }
                }
            }),
    {
        let num_buttons = match syscalls::command(kernel, DRIVER_NUMBER, COMMAND_COUNT, 0, 0) {
            Ok(n) => n,
            Err(e) => {
                return Err(TockError::Command(e));
            },
        };
        let subscription = match syscalls::subscribe(
            kernel,
            DRIVER_NUMBER,
            SUBSCRIBE_CALLBACK,
            &mut self.callback,
        ) {
            Ok(subscription) => subscription,
            Err(e) => {
                return Err(TockError::Subscribe(e));
            },
        };
        Ok(ButtonsDriver { num_buttons, subscription })
    }
}

/// A live buttons driver: the reported number of buttons plus the release
/// obligation of the callback subscription.
pub struct ButtonsDriver {
    num_buttons: usize,
    subscription: CallbackSubscription,
}

impl ButtonsDriver {
    /// How many buttons the kernel reported at initialization.
    pub closed spec fn spec_num_buttons(&self) -> usize {
        self.num_buttons
    }

    /// The release obligation created at initialization.
    pub closed spec fn spec_subscription(&self) -> CallbackSubscription {
        self.subscription
    }

    /// Hands out the buttons, one handle per button number.
    pub fn buttons(&mut self) -> (buttons: Buttons)
        ensures
            *final(self) == *old(self),
            buttons.spec_num_buttons() == old(self).spec_num_buttons(),
            buttons.spec_curr_button() == 0,
    {
        Buttons { num_buttons: self.num_buttons, curr_button: 0 }
    }

    /// Releases the subscription: the kernel forgets the token that points at
    /// the context's callback record.
    pub fn release(self, kernel: &mut Kernel)
        ensures
            final(kernel)@ == crate::kernel::forget_observed(
                old(kernel)@,
                self.spec_subscription().spec_driver_number(),
                self.spec_subscription().spec_subscribe_number(),
            ),
    {
        self.subscription.release(kernel);
    }
}

/// A hand-rolled iterator over the button handles.
pub struct Buttons {
    num_buttons: usize,
    curr_button: usize,
}

impl Buttons {
    /// The number of buttons being handed out.
    pub closed spec fn spec_num_buttons(&self) -> usize {
        self.num_buttons
    }

    /// The number of the next button to hand out.
    pub closed spec fn spec_curr_button(&self) -> usize {
        self.curr_button
    }

    /// The next button handle, if one is left.
    pub fn next(&mut self) -> (item: Option<Button>)
        ensures
            final(self).spec_num_buttons() == old(self).spec_num_buttons(),
            old(self).spec_curr_button() < old(self).spec_num_buttons() ==> item == Some(
                Button { button_num: old(self).spec_curr_button() },
            ) && final(self).spec_curr_button() == old(self).spec_curr_button() + 1,
            old(self).spec_curr_button() >= old(self).spec_num_buttons() ==> item is None
                && final(self).spec_curr_button() == old(self).spec_curr_button(),
    {
        if self.curr_button < self.num_buttons {
            let item = Button { button_num: self.curr_button };
            self.curr_button = self.curr_button + 1;
            Some(item)
        } else {
            None
        }
    }
}

/// One button's handle: commands address the button by its number, and waits
/// filter the shared event record for it.
pub struct Button {
    pub button_num: usize,
}

impl Button {
    /// Reads the button's current state with a read command.
    ///
    /// The buttons driver answers a read with zero or one, so the kernel
    /// double must be scripted within that convention (negative codes, being
    /// rejections, are still allowed and become the command error).
    pub fn read(&self, kernel: &mut Kernel) -> (r: TockResult<ButtonState>)
        requires
            pending_code(old(kernel)@) <= 1,
        ensures
            final(kernel)@ == command_observed(
                old(kernel)@,
                DRIVER_NUMBER,
                COMMAND_READ,
                self.button_num,
                0,
            ),
            ({
                let code = pending_code(old(kernel)@);
                if code < 0 {
                    r == Err::<ButtonState, TockError>(
                        TockError::Command(
                            CommandError {
                                driver_number: DRIVER_NUMBER,
                                command_number: COMMAND_READ,
                                arg1: self.button_num,
                                arg2: 0,
                                return_code: code,
                            },
                        ),
                    )
                } else {
                    r == Ok::<ButtonState, TockError>(
                        if code == 0 {
                            ButtonState::Released
                        } else {
                            ButtonState::Pressed
                        },
                    )
                }
            }),
    {
        match syscalls::command(kernel, DRIVER_NUMBER, COMMAND_READ, self.button_num, 0) {
            Ok(state) => Ok(ButtonState::from(state)),
            Err(e) => Err(TockError::Command(e)),
        }
    }

    /// Asks the kernel to deliver this button's interrupts.
    pub fn enable_interrupt(&self, kernel: &mut Kernel) -> (r: TockResult<()>)
        ensures
            final(kernel)@ == command_observed(
                old(kernel)@,
                DRIVER_NUMBER,
                COMMAND_ENABLE_INTERRUPT,
                self.button_num,
                0,
            ),
            ({
                let code = pending_code(old(kernel)@);
                if code < 0 {
                    r == Err::<(), TockError>(
                        TockError::Command(
                            CommandError {
                                driver_number: DRIVER_NUMBER,
                                command_number: COMMAND_ENABLE_INTERRUPT,
                                arg1: self.button_num,
                                arg2: 0,
                                return_code: code,
                            },
                        ),
                    )
                } else {
                    r == Ok::<(), TockError>(())
                }
            }),
    {
        match syscalls::command(kernel, DRIVER_NUMBER, COMMAND_ENABLE_INTERRUPT, self.button_num, 0) {
            Ok(_) => Ok(()),
            Err(e) => Err(TockError::Command(e)),
        }
    }

    /// Asks the kernel to stop delivering this button's interrupts.
    pub fn disable_interrupt(&self, kernel: &mut Kernel) -> (r: TockResult<()>)
        ensures
            final(kernel)@ == command_observed(
                old(kernel)@,
                DRIVER_NUMBER,
                COMMAND_DISABLE_INTERRUPT,
                self.button_num,
                0,
            ),
            ({
                let code = pending_code(old(kernel)@);
                if code < 0 {
                    r == Err::<(), TockError>(
                        TockError::Command(
                            CommandError {
                                driver_number: DRIVER_NUMBER,
                                command_number: COMMAND_DISABLE_INTERRUPT,
                                arg1: self.button_num,
                                arg2: 0,
                                return_code: code,
                            },
                        ),
                    )
                } else {
                    r == Ok::<(), TockError>(())
                }
            }),
    {
        match syscalls::command(
            kernel,
            DRIVER_NUMBER,
            COMMAND_DISABLE_INTERRUPT,
            self.button_num,
            0,
        ) {
            Ok(_) => Ok(()),
            Err(e) => Err(TockError::Command(e)),
        }
    }

    /// One poll of a wait for this button's press.
    pub fn poll_pressed_event(
        &self,
        callback: &ButtonsDriverCallback,
        listener: &mut EventListener,
    ) -> (woke: bool)
        ensures
            woke == expected_poll_outcome(
                old(listener).last_seen(),
                *callback,
                RecordedState::Pressed(self.button_num),
            ),
            poll_outcome(old(listener).last_seen(), callback.record) is Some ==> final(listener).last_seen()
                == callback.record.record_id,
            poll_outcome(old(listener).last_seen(), callback.record) is None ==> *final(listener)
                == *old(listener),
    {
        callback.poll_expected_event(listener, RecordedState::Pressed(self.button_num))
    }

    /// One poll of a wait for this button's release.
    pub fn poll_released_event(
        &self,
        callback: &ButtonsDriverCallback,
        listener: &mut EventListener,
    ) -> (woke: bool)
        ensures
            woke == expected_poll_outcome(
                old(listener).last_seen(),
                *callback,
                RecordedState::Released(self.button_num),
            ),
            poll_outcome(old(listener).last_seen(), callback.record) is Some ==> final(listener).last_seen()
                == callback.record.record_id,
            poll_outcome(old(listener).last_seen(), callback.record) is None ==> *final(listener)
                == *old(listener),
    {
        callback.poll_expected_event(listener, RecordedState::Released(self.button_num))
    }
}

/// Law: every delivered press or release toggles the event marker, the two
/// marker values differ, and toggling twice returns to the start — the marker
/// strictly alternates between exactly two values.
pub proof fn lemma_marker_strictly_alternates(
    pre: ButtonsDriverCallback,
    button_num: usize,
    button_state: usize,
    arg3: usize,
)
    requires
        button_state == 0 || button_state == 1,
    ensures
        ({
            let post = ButtonsDriverCallback::on_event(pre, button_num, button_state, arg3);
            &&& post.record.record_id == pre.record.record_id.spec_next()
            &&& post.record.record_id != pre.record.record_id
            &&& pre.record.record_id.spec_next().spec_next() == pre.record.record_id
        }),
{
}

/// Law: a waiter for "button 2 pressed" that captured the marker before a
/// press of button 0 followed by a press of button 2 does not resume on the
/// button 0 event — though it wakes and re-captures — and does resume, with
/// the button 2 press, on the second event.
pub proof fn lemma_waiter_resumes_on_matching_press(
    pre: ButtonsDriverCallback,
    captured: RecordId,
    x0: usize,
    x2: usize,
)
    requires
        captured == pre.record.record_id,
    ensures
        ({
            let s1 = ButtonsDriverCallback::on_event(pre, 0, 1, x0);
            let s2 = ButtonsDriverCallback::on_event(s1, 2, 1, x2);
            &&& poll_outcome(captured, s1.record) == Some(RecordedState::Pressed(0))
            &&& !expected_poll_outcome(captured, s1, RecordedState::Pressed(2))
            &&& expected_poll_outcome(s1.record.record_id, s2, RecordedState::Pressed(2))
            &&& state_pair(s2.record.payload) == (ButtonState::Pressed, 2usize)
        }),
{
}

} // verus!
