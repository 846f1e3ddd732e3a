use vstd::prelude::*;
use vstd::string::*;

use crate::text::{decimal, decimal_text};

verus! {

/// A notification starts fading this long before it vanishes, in milliseconds.
pub const FADE_AT: u32 = 600;

/// The colour of a notification's text.
#[derive(Clone, Copy, Debug, PartialEq, Eq, Structural)]
pub enum NotificationColor {
    White,
    Blue,
    Green,
    Red,
}

/// A message shown for a while in the middle of the screen.
#[derive(Clone, Debug)]
pub struct NotificationEvent {
    pub text: String,
    /// How long it shows, in milliseconds.
    pub show_for: u32,
    pub color: NotificationColor,
}

/// What a shown notification does after a frame.
#[derive(Clone, Copy, Debug, PartialEq, Eq, Structural)]
pub enum NotificationStep {
    Vanish,
    /// Still shown, with this opacity in thousandths.
    Show(u32),
}

/// Opacity while fading, in thousandths, for `t` thousandths of the fade
/// left: an ease-out, `1 - (1 - t)^3`.
pub open spec fn fade(t: int) -> int {
    1000 - (1000 - t) * (1000 - t) * (1000 - t) / 1_000_000
}

/// Counts a notification down by `delta` milliseconds: it vanishes once no
/// time is left, and fades out over its last `FADE_AT` milliseconds.
pub fn despawn_notifications(time_left: &mut i64, delta: u32) -> (r: NotificationStep)
    requires
        *old(time_left) - delta >= i64::MIN,
    ensures
        *final(time_left) == *old(time_left) - delta,
        *final(time_left) <= 0 ==> r == NotificationStep::Vanish,
        0 < *final(time_left) <= FADE_AT ==> r == NotificationStep::Show(
            fade(*final(time_left) * 1000 / FADE_AT as int) as u32,
        ),
        *final(time_left) > FADE_AT ==> r == NotificationStep::Show(1000),
{
    *time_left = *time_left - delta as i64;
    if *time_left <= 0 {
        NotificationStep::Vanish
    } else if *time_left <= FADE_AT as i64 {
        let t = *time_left * 1000 / FADE_AT as i64;
        let u = 1000 - t;
        proof {
            assert(0 < t <= 1000) by (nonlinear_arith)
                requires
                    0 < *time_left <= 600,
                    t == *time_left * 1000 / 600,
            ;
            assert(0 <= u * u <= 1_000_000) by (nonlinear_arith)
                requires
                    0 <= u < 1000,
            ;
            assert(0 <= u * u * u <= 1_000_000_000) by (nonlinear_arith)
                requires
                    0 <= u < 1000,
                    0 <= u * u <= 1_000_000,
            ;
        }
        NotificationStep::Show((1000 - u * u * u / 1_000_000) as u32)
    } else {
        NotificationStep::Show(1000)
    }
}

/// Announces the wave with the given number, for three seconds.
pub fn wave_notification(wave: usize) -> (r: NotificationEvent)
    ensures
        r.text@ == "Wave "@ + decimal(wave as nat) + "!"@,
        r.show_for == 3000,
        r.color == NotificationColor::Blue,
{
    let mut text = String::from_str("Wave ");
    text.append(decimal_text(wave as u64).as_str());
    text.append("!");
    NotificationEvent { text, show_for: 3000, color: NotificationColor::Blue }
}

/// Announces a win, for a minute.
pub fn win_notification() -> (r: NotificationEvent)
    ensures
        r.text@ == "You Win!"@,
        r.show_for == 60_000,
        r.color == NotificationColor::Green,
{
    NotificationEvent { text: String::from_str("You Win!"), show_for: 60_000, color: NotificationColor::Green }
}

/// Announces a loss, for five seconds.
pub fn loss_notification() -> (r: NotificationEvent)
    ensures
        r.text@ == "You Lost!"@,
        r.show_for == 5000,
        r.color == NotificationColor::Red,
{
    NotificationEvent { text: String::from_str("You Lost!"), show_for: 5000, color: NotificationColor::Red }
}

/// The notifications that open the game.
pub fn intro_notifications() -> (r: Vec<NotificationEvent>)
    ensures
        r@.len() == 2,
        r@[0].text@ == "Protect The Trees!"@,
        r@[0].show_for == 7000,
        r@[0].color == NotificationColor::White,
        r@[1].text@ == "Wave 1!"@,
        r@[1].show_for == 3000,
        r@[1].color == NotificationColor::Blue,
{
    vec![
        NotificationEvent {
            text: String::from_str("Protect The Trees!"),
            show_for: 7000,
            color: NotificationColor::White,
        },
        NotificationEvent { text: String::from_str("Wave 1!"), show_for: 3000, color: NotificationColor::Blue },
    ]
}

} // verus!
