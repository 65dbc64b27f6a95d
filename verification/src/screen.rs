//! What all screens share: the screen a session starts on, the hand-over from one screen to
//! the next, and the area inside a screen's border.
use vstd::prelude::*;
use ratatui::layout::{Margin, Rect};

verus! {

/// The SSH public key of a session's connection. The screens carry it, unread, for the
/// server's work on the user database.
#[verifier::external_type_specification]
#[verifier::external_body]
pub struct ExPublicKey(russh::keys::PublicKey);

/// The screen that a new session is shown first.
#[derive(Clone, Copy, Debug, PartialEq, Eq, Structural)]
pub enum ScreenType {
    Register,
    Login,
}

impl Default for ScreenType {
    /// A session starts on the registration screen.
    fn default() -> (res: ScreenType)
        ensures
            res == ScreenType::Register,
    {
        ScreenType::Register
    }
}

/// What a screen asks for once it is done with a key press: another screen, or work that only
/// the server can do (the user database), whose outcome it then hands back to the screen.
#[derive(Debug)]
pub enum Next {
    /// Show the home screen.
    Home,
    /// Show the registration screen.
    Register,
    /// Show the flags to the player whose account was found or made.
    Browse,
    /// Show the admin's flag list (the server loads the flags).
    Admin,
    /// Look up the account of the connection's key.
    LookUpUser,
    /// Make an account of this name for the connection's key.
    RegisterUser(String),
}

/// A rectangle of terminal cells: its top-left corner and its size.
#[derive(Clone, Copy, Debug, PartialEq, Eq, Structural)]
pub struct Area {
    pub x: u16,
    pub y: u16,
    pub width: u16,
    pub height: u16,
}

/// `2 * m`, held at the largest `u16`.
pub open spec fn doubled_margin(m: u16) -> int {
    if 2 * m > u16::MAX {
        u16::MAX as int
    } else {
        2 * m
    }
}

/// `a + b`, held at the largest `u16`.
pub open spec fn saturating_add_u16(a: u16, b: u16) -> int {
    if a + b > u16::MAX {
        u16::MAX as int
    } else {
        a + b
    }
}

/// The area inside `area` when `horizontal` cells are left free on its left and right and
/// `vertical` cells on its top and bottom; nothing is left where the margins do not fit.
pub open spec fn inner_area(area: Area, horizontal: u16, vertical: u16) -> Area {
    if area.width < doubled_margin(horizontal) || area.height < doubled_margin(vertical) {
        Area { x: 0, y: 0, width: 0, height: 0 }
    } else {
        Area {
            x: saturating_add_u16(area.x, horizontal) as u16,
            y: saturating_add_u16(area.y, vertical) as u16,
            width: (area.width - doubled_margin(horizontal)) as u16,
            height: (area.height - doubled_margin(vertical)) as u16,
        }
    }
}

/// Calls ratatui's `Rect::inner` with a `Margin` of the given sizes. Its source takes the
/// doubled margins with `saturating_mul`, returns the zero rectangle where the area is narrower
/// or lower than they are, and otherwise moves the corner by the margins with `saturating_add`
/// and shrinks the size by the doubled margins; this contract says exactly that.
#[verifier::external_body]
fn rect_inner(area: Area, horizontal: u16, vertical: u16) -> (res: Area)
    ensures
        res == inner_area(area, horizontal, vertical),
{
    let rect = Rect { x: area.x, y: area.y, width: area.width, height: area.height };
    let inner = rect.inner(Margin::new(horizontal, vertical));
    Area { x: inner.x, y: inner.y, width: inner.width, height: inner.height }
}

/// The area left for a screen's content inside the one-cell border drawn round `area`.
pub fn screen_content_area(area: Area) -> (res: Area)
    ensures
        res == inner_area(area, 1, 1),
        area.width >= 2 && area.height >= 2 ==> {
            &&& res.width == area.width - 2
            &&& res.height == area.height - 2
            &&& area.x + area.width <= u16::MAX ==> res.x == area.x + 1
            &&& area.y + area.height <= u16::MAX ==> res.y == area.y + 1
        },
        area.width < 2 || area.height < 2 ==> res == (Area { x: 0, y: 0, width: 0, height: 0 }),
{
    rect_inner(area, 1, 1)
}

} // verus!
