//! The notification-area icon: its picture, its tooltip, its menu events.

use crate::text::{owned, push_decimal, decimal};
use crate::ui::WindowEvent;
use vstd::prelude::*;

verus! {

/// What the tray menu asks for.
#[derive(Debug)]
pub enum TrayEvent {
    Show,
    Quit,
}

/// The window event a tray menu choice stands for.
pub fn window_event_for(event: TrayEvent) -> (r: WindowEvent)
    ensures
        event is Show ==> r is Show,
        event is Quit ==> r is Quit,
{
    match event {
        TrayEvent::Show => WindowEvent::Show,
        TrayEvent::Quit => WindowEvent::Quit,
    }
}

/// The icon is `ICON_SIDE` pixels square.
pub const ICON_SIDE: u32 = 32;

/// Pixel `(x, y)` lies on the lens: its distance to the centre `(16, 16)`
/// is between 8 and 10 (compared on squares, which is what comparing the
/// `f32` square root with 8.0 and 10.0 decides for these small whole numbers).
pub open spec fn on_lens(x: int, y: int) -> bool {
    let d = (x - 16) * (x - 16) + (y - 16) * (y - 16);
    64 <= d <= 100
}

/// Pixel `(x, y)` lies on the handle.
pub open spec fn on_handle(x: int, y: int) -> bool {
    20 <= x <= 22 && 20 <= y <= 28
}

/// Byte `i` of the RGBA picture of a magnifying glass: white opaque on the
/// lens and the handle, transparent elsewhere; pixels row by row.
pub open spec fn icon_byte(i: int) -> u8 {
    let p = i / 4;
    let x = p % 32;
    let y = p / 32;
    if on_lens(x, y) || on_handle(x, y) { 255 } else { 0 }
}

/// The 32x32 RGBA picture of the tray icon.
pub fn search_icon_rgba() -> (r: Vec<u8>)
    ensures
        r@.len() == 4096,
        forall|i: int| 0 <= i < 4096 ==> #[trigger] r@[i] == icon_byte(i),
{
    let mut rgba: Vec<u8> = Vec::new();
    let mut p: u32 = 0;
    while p < 1024
        invariant
            p <= 1024,
            rgba@.len() == 4 * p,
            forall|i: int| 0 <= i < 4 * p ==> #[trigger] rgba@[i] == icon_byte(i),
        decreases 1024 - p,
    {
        let x: i32 = (p % 32) as i32;
        let y: i32 = (p / 32) as i32;
        let dx = x - 16;
        let dy = y - 16;
        assert(0 <= dx * dx <= 256 && 0 <= dy * dy <= 256) by (nonlinear_arith)
            requires
                -16 <= dx <= 15,
                -16 <= dy <= 15,
        ;
        let d = dx * dx + dy * dy;
        let on = (64 <= d && d <= 100) || (20 <= x && x <= 22 && 20 <= y && y <= 28);
        let value: u8 = if on { 255 } else { 0 };
        proof {
            assert(icon_byte(4 * p + 0) == value);
            assert(icon_byte(4 * p + 1) == value);
            assert(icon_byte(4 * p + 2) == value);
            assert(icon_byte(4 * p + 3) == value);
        }
        rgba.push(value);
        rgba.push(value);
        rgba.push(value);
        rgba.push(value);
        proof {
            assert forall|i: int| 0 <= i < 4 * (p + 1) implies #[trigger] rgba@[i] == icon_byte(i) by {
                if i >= 4 * p {
                    assert(i == 4 * p || i == 4 * p + 1 || i == 4 * p + 2 || i == 4 * p + 3);
                }
            }
        }
        p = p + 1;
    }
    rgba
}

/// The tooltip: how many files are indexed, or that indexing is under way.
pub open spec fn tooltip_text(num_documents: u64) -> Seq<char> {
    if num_documents > 0 {
        "Spotlight Windows - "@ + decimal(num_documents as nat) + " fichiers indexés"@
    } else {
        "Spotlight Windows - Indexation en cours..."@
    }
}

/// The tooltip for an index holding `num_documents` documents.
pub fn tray_tooltip(num_documents: u64) -> (r: String)
    ensures
        r@ == tooltip_text(num_documents),
{
    if num_documents > 0 {
        let mut s = owned("Spotlight Windows - ");
        push_decimal(&mut s, num_documents);
        s.append(" fichiers indexés");
        s
    } else {
        owned("Spotlight Windows - Indexation en cours...")
    }
}

} // verus!
