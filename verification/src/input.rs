//! Buttons and click configuration: which handlers are registered for which
//! button, and the parameters passed to the C click subscriptions.
use vstd::prelude::*;

verus! {

/// `ButtonId`: the back button.
pub const BUTTON_ID_BACK: u8 = 0;
/// `ButtonId`: the up button.
pub const BUTTON_ID_UP: u8 = 1;
/// `ButtonId`: the select button.
pub const BUTTON_ID_SELECT: u8 = 2;
/// `ButtonId`: the down button.
pub const BUTTON_ID_DOWN: u8 = 3;

/// The watch buttons.
#[derive(PartialEq, Eq, Structural, Clone, Copy, Debug)]
pub enum Button {
    /// The back button, which exits the current menu or app.
    Back,
    /// The up button.
    Up,
    /// The select (center) button.
    Select,
    /// The down button.
    Down,
}

impl Button {
    /// The C `ButtonId` of this button.
    pub open spec fn spec_raw(self) -> u8 {
        match self {
            Button::Back => BUTTON_ID_BACK,
            Button::Up => BUTTON_ID_UP,
            Button::Select => BUTTON_ID_SELECT,
            Button::Down => BUTTON_ID_DOWN,
        }
    }

    /// The C `ButtonId` of this button.
    pub fn raw(&self) -> (r: u8)
        ensures
            r == self.spec_raw(),
    {
        match self {
            Button::Back => BUTTON_ID_BACK,
            Button::Up => BUTTON_ID_UP,
            Button::Select => BUTTON_ID_SELECT,
            Button::Down => BUTTON_ID_DOWN,
        }
    }

    /// The button of a C `ButtonId`; there are no other button ids.
    pub fn from_raw(value: u8) -> (r: Self)
        requires
            value <= BUTTON_ID_DOWN,
        ensures
            r.spec_raw() == value,
    {
        match value {
            BUTTON_ID_BACK => Button::Back,
            BUTTON_ID_UP => Button::Up,
            BUTTON_ID_SELECT => Button::Select,
            _ => Button::Down,
        }
    }
}

/// The action buttons that an action bar shows icons for.
#[derive(Copy, Clone, Hash, Eq, PartialEq, Structural, Debug)]
pub enum ActionButton {
    /// The up button.
    Up,
    /// The select (center) button.
    Select,
    /// The down button.
    Down,
}

impl ActionButton {
    /// The C `ButtonId` of this button.
    pub open spec fn spec_raw(self) -> u8 {
        match self {
            ActionButton::Up => BUTTON_ID_UP,
            ActionButton::Select => BUTTON_ID_SELECT,
            ActionButton::Down => BUTTON_ID_DOWN,
        }
    }

    /// The C `ButtonId` of this button.
    pub fn raw(&self) -> (r: u8)
        ensures
            r == self.spec_raw(),
    {
        match self {
            ActionButton::Up => BUTTON_ID_UP,
            ActionButton::Select => BUTTON_ID_SELECT,
            ActionButton::Down => BUTTON_ID_DOWN,
        }
    }
}

/// A duration in milliseconds, saturated to the `u16` that the C click API takes.
pub fn duration_to_millis(millis: u128) -> (r: u16)
    ensures
        r == if millis > u16::MAX { u16::MAX as u128 } else { millis },
{
    if millis > 65535 {
        65535
    } else {
        millis as u16
    }
}

/// The click counts that a multi-click subscription is made with: at least
/// two clicks; a maximum below the minimum becomes 0, which the C API reads
/// as "the minimum".
pub fn multi_click_range(min_clicks: u8, max_clicks: u8) -> (r: (u8, u8))
    ensures
        r.0 == if min_clicks < 2 { 2 } else { min_clicks },
        r.1 == if max_clicks < r.0 { 0 } else { max_clicks },
{
    let mut lo = min_clicks;
    let mut hi = max_clicks;
    if lo < 2 {
        lo = 2;
    }
    if hi < lo {
        hi = 0;
    }
    (lo, hi)
}

/// The click handlers of one button.
pub struct ButtonClickConfig<H> {
    pub single: Option<H>,
    pub long_start: Option<H>,
    pub long_release: Option<H>,
    pub multi: Option<H>,
}

impl<H> ButtonClickConfig<H> {
    /// No handlers.
    pub fn new() -> (r: Self)
        ensures
            r.single is None,
            r.long_start is None,
            r.long_release is None,
            r.multi is None,
    {
        ButtonClickConfig { single: None, long_start: None, long_release: None, multi: None }
    }
}

/// The click handlers of all four buttons.
pub struct ClickConfig<H> {
    pub up: ButtonClickConfig<H>,
    pub select: ButtonClickConfig<H>,
    pub down: ButtonClickConfig<H>,
    pub back: ButtonClickConfig<H>,
}

impl<H> ClickConfig<H> {
    /// The handlers of a button.
    pub open spec fn of(&self, button: Button) -> &ButtonClickConfig<H> {
        match button {
            Button::Up => &self.up,
            Button::Select => &self.select,
            Button::Down => &self.down,
            Button::Back => &self.back,
        }
    }

    /// Every button other than `button` keeps its handlers.
    pub open spec fn others_unchanged(&self, old: &Self, button: Button) -> bool {
        forall|b: Button| b != button ==> #[trigger] self.of(b) == old.of(b)
    }

    /// No handlers for any button.
    pub fn new() -> (r: Self)
        ensures
            forall|b: Button|
                #[trigger] r.of(b).single is None && r.of(b).long_start is None && r.of(
                    b,
                ).long_release is None && r.of(b).multi is None,
    {
        ClickConfig {
            up: ButtonClickConfig::new(),
            select: ButtonClickConfig::new(),
            down: ButtonClickConfig::new(),
            back: ButtonClickConfig::new(),
        }
    }

    fn button_mut(&mut self, button: Button) -> (r: &mut ButtonClickConfig<H>)
        ensures
            *r == *old(self).of(button),
            *final(self).of(button) == *final(r),
            final(self).others_unchanged(old(self), button),
    {
        match button {
            Button::Up => &mut self.up,
            Button::Select => &mut self.select,
            Button::Down => &mut self.down,
            Button::Back => &mut self.back,
        }
    }

    /// Sets the single-click handler of a button.
    pub fn set_single(&mut self, button: Button, handler: H)
        ensures
            final(self).of(button).single == Some(handler),
            final(self).of(button).long_start == old(self).of(button).long_start,
            final(self).of(button).long_release == old(self).of(button).long_release,
            final(self).of(button).multi == old(self).of(button).multi,
            final(self).others_unchanged(old(self), button),
    {
        let c = self.button_mut(button);
        c.single = Some(handler);
    }

    /// Sets the long-click handlers of a button. The back button has no long
    /// click: nothing is set and `false` is returned.
    pub fn set_long(&mut self, button: Button, start: H, release: H) -> (r: bool)
        ensures
            r == (button != Button::Back),
            !r ==> *final(self) == *old(self),
            r ==> final(self).of(button).long_start == Some(start),
            r ==> final(self).of(button).long_release == Some(release),
            final(self).of(button).single == old(self).of(button).single,
            final(self).of(button).multi == old(self).of(button).multi,
            final(self).others_unchanged(old(self), button),
    {
        if button == Button::Back {
            return false;
        }
        let c = self.button_mut(button);
        c.long_start = Some(start);
        c.long_release = Some(release);
        true
    }

    /// Sets the multi-click handler of a button.
    pub fn set_multi(&mut self, button: Button, handler: H)
        ensures
            final(self).of(button).multi == Some(handler),
            final(self).of(button).single == old(self).of(button).single,
            final(self).of(button).long_start == old(self).of(button).long_start,
            final(self).of(button).long_release == old(self).of(button).long_release,
            final(self).others_unchanged(old(self), button),
    {
        let c = self.button_mut(button);
        c.multi = Some(handler);
    }
}

/// Every button id comes back from its button, and every button from its id.
pub proof fn lemma_button_raw_roundtrip(b: Button, v: u8)
    ensures
        b.spec_raw() <= BUTTON_ID_DOWN,
        v <= BUTTON_ID_DOWN ==> exists|c: Button| #[trigger] c.spec_raw() == v,
{
    if v == 0 {
        assert(Button::Back.spec_raw() == v);
    } else if v == 1 {
        assert(Button::Up.spec_raw() == v);
    } else if v == 2 {
        assert(Button::Select.spec_raw() == v);
    } else if v == 3 {
        assert(Button::Down.spec_raw() == v);
    }
}

} // verus!
