//! The five globals the session depends on, and the interface names under
//! which the registry announces them.

use vstd::prelude::*;
use wayland_client::protocol::wl_seat;

verus! {

/// A global the session must have bound before it can create its window.
#[derive(Clone, Copy, Debug, PartialEq, Eq)]
pub enum Capability {
    Compositor,
    SinglePixelBufferManager,
    Viewporter,
    Seat,
    XdgWmBase,
}

impl Capability {
    /// The interface name under which the registry announces this global.
    pub open spec fn interface(self) -> Seq<char> {
        match self {
            Capability::Compositor => "wl_compositor"@,
            Capability::SinglePixelBufferManager => "wp_single_pixel_buffer_manager_v1"@,
            Capability::Viewporter => "wp_viewporter"@,
            Capability::Seat => "wl_seat"@,
            Capability::XdgWmBase => "xdg_wm_base"@,
        }
    }

    /// The interface name under which the registry announces this global.
    pub fn interface_name(self) -> (name: &'static str)
        ensures
            name@ == self.interface(),
    {
        match self {
            Capability::Compositor => "wl_compositor",
            Capability::SinglePixelBufferManager => "wp_single_pixel_buffer_manager_v1",
            Capability::Viewporter => "wp_viewporter",
            Capability::Seat => "wl_seat",
            Capability::XdgWmBase => "xdg_wm_base",
        }
    }
}

/// The capability that an interface name stands for, if it is one of the five.
pub open spec fn recognize(interface: Seq<char>) -> Option<Capability> {
    if interface == Capability::Compositor.interface() {
        Some(Capability::Compositor)
    } else if interface == Capability::SinglePixelBufferManager.interface() {
        Some(Capability::SinglePixelBufferManager)
    } else if interface == Capability::Viewporter.interface() {
        Some(Capability::Viewporter)
    } else if interface == Capability::Seat.interface() {
        Some(Capability::Seat)
    } else if interface == Capability::XdgWmBase.interface() {
        Some(Capability::XdgWmBase)
    } else {
        None
    }
}

/// Whether a seat capability bitmask has the keyboard bit set.
pub open spec fn keyboard_bit_set(bits: u32) -> bool {
    bits & 2 == 2
}

/// Trusted: `<str as PartialEq>::eq` of the standard library, the `==` of
/// string slices. Two slices compare equal exactly when they hold the same
/// characters in the same order.
#[verifier::external_body]
fn same_text(a: &str, b: &str) -> (same: bool)
    ensures
        same == (a@ == b@),
{
    a == b
}

/// Trusted: `Capability::from_bits_retain` and `Capability::contains` of
/// `wayland_client::protocol::wl_seat`, the bitflags type generated for the
/// seat's `capability` bitfield. `from_bits_retain` keeps every bit as given,
/// and `contains` holds when all bits of its argument are set. The argument is
/// `Capability::Keyboard`, which the protocol defines as the value 2.
#[verifier::external_body]
pub(crate) fn has_keyboard(bits: u32) -> (present: bool)
    ensures
        present == keyboard_bit_set(bits),
{
    wl_seat::Capability::from_bits_retain(bits).contains(wl_seat::Capability::Keyboard)
}

/// Matches an announced interface name against the five interfaces of
/// interest. Any other name gives `None`.
pub fn recognize_interface(interface: &str) -> (capability: Option<Capability>)
    ensures
        capability == recognize(interface@),
{
    if same_text(interface, Capability::Compositor.interface_name()) {
        Some(Capability::Compositor)
    } else if same_text(interface, Capability::SinglePixelBufferManager.interface_name()) {
        Some(Capability::SinglePixelBufferManager)
    } else if same_text(interface, Capability::Viewporter.interface_name()) {
        Some(Capability::Viewporter)
    } else if same_text(interface, Capability::Seat.interface_name()) {
        Some(Capability::Seat)
    } else if same_text(interface, Capability::XdgWmBase.interface_name()) {
        Some(Capability::XdgWmBase)
    } else {
        None
    }
}

/// The five interface names are pairwise different, so each capability is
/// recognized by its own name and by no other.
pub proof fn lemma_recognize_own_interface(capability: Capability)
    ensures
        recognize(capability.interface()) == Some(capability),
{
    reveal_strlit("wl_compositor");
    reveal_strlit("wp_single_pixel_buffer_manager_v1");
    reveal_strlit("wp_viewporter");
    reveal_strlit("wl_seat");
    reveal_strlit("xdg_wm_base");
    assert("wl_compositor"@.len() == 13 && "wl_compositor"@[1] == 'l');
    assert("wp_viewporter"@.len() == 13 && "wp_viewporter"@[1] == 'p');
    assert("wp_single_pixel_buffer_manager_v1"@.len() == 33);
    assert("wl_seat"@.len() == 7);
    assert("xdg_wm_base"@.len() == 11);
}

} // verus!
