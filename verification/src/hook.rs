//! What a low-level mouse event over the taskbar asks for.

use vstd::prelude::*;

verus! {

/// The kind of mouse message the hook received.
#[derive(Clone, Copy, Debug, PartialEq, Eq, Structural)]
pub enum MouseMessage {
    /// The vertical wheel turned.
    Wheel,
    /// The middle button went down.
    MiddleButtonDown,
    /// Any other message.
    Other,
}

/// What the application does in answer to a mouse event.
#[derive(Clone, Copy, Debug, PartialEq, Eq, Structural)]
pub enum HookAction {
    /// Nothing.
    Ignore,
    /// One volume notch, up when `increase` holds.
    ChangeVolume { increase: bool },
    /// Flip the mute state.
    ToggleMute,
}

/// The signed wheel distance held in the high word of the message data.
pub open spec fn spec_wheel_delta(mouse_data: u32) -> int {
    let high = mouse_data as int / 0x1_0000;
    if high >= 0x8000 {
        high - 0x1_0000
    } else {
        high
    }
}

/// The signed wheel distance held in the high word of the message data.
pub fn wheel_delta(mouse_data: u32) -> (d: i32)
    ensures
        d == spec_wheel_delta(mouse_data),
{
    let high: u32 = mouse_data >> 16;
    assert(high == mouse_data / 0x1_0000) by (bit_vector)
        requires
            high == mouse_data >> 16,
    ;
    if high >= 0x8000 {
        high as i32 - 0x1_0000
    } else {
        high as i32
    }
}

/// The action a mouse event asks for: only events that the hook may handle
/// (`code` not negative) and that happen over the taskbar count; a wheel turn
/// changes the volume in the direction of its delta, a middle click toggles
/// mute.
pub open spec fn spec_hook_action(
    code: i32,
    over_taskbar: bool,
    message: MouseMessage,
    mouse_data: u32,
) -> HookAction {
    if code >= 0 && over_taskbar {
        match message {
            MouseMessage::Wheel => {
                let d = spec_wheel_delta(mouse_data);
                if d != 0 {
                    HookAction::ChangeVolume { increase: d > 0 }
                } else {
                    HookAction::Ignore
                }
            },
            MouseMessage::MiddleButtonDown => HookAction::ToggleMute,
            MouseMessage::Other => HookAction::Ignore,
        }
    } else {
        HookAction::Ignore
    }
}

/// The action a mouse event asks for; see `spec_hook_action`.
pub fn hook_action(code: i32, over_taskbar: bool, message: MouseMessage, mouse_data: u32) -> (a:
    HookAction)
    ensures
        a == spec_hook_action(code, over_taskbar, message, mouse_data),
{
    if code >= 0 && over_taskbar {
        match message {
            MouseMessage::Wheel => {
                let d = wheel_delta(mouse_data);
                if d != 0 {
                    HookAction::ChangeVolume { increase: d > 0 }
                } else {
                    HookAction::Ignore
                }
            },
            MouseMessage::MiddleButtonDown => HookAction::ToggleMute,
            MouseMessage::Other => HookAction::Ignore,
        }
    } else {
        HookAction::Ignore
    }
}

/// Law: a wheel turn away from the user (high word of the data between 1 and
/// 0x7FFF) raises the volume, a turn towards the user (0x8000 and above)
/// lowers it, and a zero delta does nothing.
pub proof fn law_wheel_direction(code: i32, mouse_data: u32)
    requires
        code >= 0,
    ensures
        ({
            let a = spec_hook_action(code, true, MouseMessage::Wheel, mouse_data);
            let high = mouse_data as int / 0x1_0000;
            &&& 1 <= high < 0x8000 ==> a == HookAction::ChangeVolume { increase: true }
            &&& 0x8000 <= high ==> a == HookAction::ChangeVolume { increase: false }
            &&& high == 0 ==> a == HookAction::Ignore
        }),
{
}

/// Law: events the hook must pass on untouched (`code` negative) and events
/// away from the taskbar never lead to an action.
pub proof fn law_only_taskbar_events_act(
    code: i32,
    over_taskbar: bool,
    message: MouseMessage,
    mouse_data: u32,
)
    requires
        code < 0 || !over_taskbar,
    ensures
        spec_hook_action(code, over_taskbar, message, mouse_data) == HookAction::Ignore,
{
}

/// Law: the wheel delta is the high word of the data read as a signed 16-bit
/// number: it lies in `-0x8000..0x8000` and equals the high word modulo
/// `0x1_0000`.
pub proof fn law_wheel_delta_is_signed_high_word(mouse_data: u32)
    ensures
        -0x8000 <= spec_wheel_delta(mouse_data) < 0x8000,
        spec_wheel_delta(mouse_data) == mouse_data as int / 0x1_0000
            || spec_wheel_delta(mouse_data) == mouse_data as int / 0x1_0000 - 0x1_0000,
{
}

/// Law: only a middle click toggles mute, only a wheel turn changes the
/// volume, and any other message never acts. A middle click that may be
/// handled over the taskbar always toggles mute.
pub proof fn law_message_decides_action(
    code: i32,
    over_taskbar: bool,
    message: MouseMessage,
    mouse_data: u32,
)
    ensures
        spec_hook_action(code, over_taskbar, MouseMessage::Other, mouse_data) == HookAction::Ignore,
        spec_hook_action(code, over_taskbar, message, mouse_data) == HookAction::ToggleMute
            ==> message == MouseMessage::MiddleButtonDown && code >= 0 && over_taskbar,
        spec_hook_action(code, over_taskbar, message, mouse_data) is ChangeVolume ==> message
            == MouseMessage::Wheel && code >= 0 && over_taskbar && mouse_data >= 0x1_0000,
        code >= 0 && over_taskbar ==> spec_hook_action(
            code,
            over_taskbar,
            MouseMessage::MiddleButtonDown,
            mouse_data,
        ) == HookAction::ToggleMute,
{
}

} // verus!
