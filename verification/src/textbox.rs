//! A single-line text box.
//!
//! The box does not own the text it edits: the caller passes the text in on
//! every frame. The box itself holds only its geometry, its hint, its limits
//! and whether it has the keyboard focus.

use crate::fixed::{quotient, saturate_i32, saturated_i32, toward_zero};
use crate::geometry::Rectangle;
use crate::keys::{refused_space_adds_nothing, type_into, typed, Key, KeyInput};
use crate::pointer::Pointer;
use crate::render::{Color, DrawCommand, TextSource};
use vstd::prelude::*;

verus! {

/// Gap between the left edge of the box and its text, in pixels.
pub const TEXT_INSET: i32 = 10;

/// Opacity of the fill while the box has the focus.
pub const ACTIVE_ALPHA: u8 = 100;

/// Opacity of the fill while the box does not have the focus.
pub const INACTIVE_ALPHA: u8 = 200;

pub struct TextBox {
    pub rect: Rectangle,
    /// The hint shown while nothing has been typed.
    pub text: String,
    pub text_size: u8,
    /// Length at which the edited text takes no further character.
    pub max_length: u8,
    pub spaces_allowed: bool,
    /// Whether keyboard input goes to this box.
    pub active: bool,
}

impl TextBox {
    /// Whether the box has the focus after a frame in which the pointer was
    /// as `pointer` says: a press decides it, by where it lands, and a frame
    /// without a press leaves it as it was.
    pub open spec fn focused(self, pointer: Pointer) -> bool {
        if pointer.pressed {
            self.rect.covers(pointer.position)
        } else {
            self.active
        }
    }

    /// Whether the box has the focus after the frames of `frames`, oldest
    /// first.
    pub open spec fn focus_after(self, frames: Seq<Pointer>) -> bool
        decreases frames.len(),
    {
        if frames.len() == 0 {
            self.active
        } else {
            (TextBox { active: self.focus_after(frames.drop_last()), ..self }).focused(
                frames.last(),
            )
        }
    }

    /// The edited text after a frame of keyboard input: without the focus,
    /// the text as it was.
    pub open spec fn edited(self, text: Seq<char>, keys: KeyInput) -> Seq<char> {
        if self.active {
            typed(text, keys, self.max_length, self.spaces_allowed)
        } else {
            text
        }
    }

    /// The fill of the box: more transparent while it has the focus.
    pub open spec fn fill(self) -> Color {
        Color {
            r: 50,
            g: 50,
            b: 50,
            a: if self.active {
                ACTIVE_ALPHA
            } else {
                INACTIVE_ALPHA
            },
        }
    }

    /// What one drawing of the box consists of, for the edited text `text`:
    /// the fill, then the text in white or, while there is none, the hint in
    /// gray, starting [`TEXT_INSET`] from the left edge and centered
    /// vertically.
    pub open spec fn draw_plan(self, text: Seq<char>) -> Seq<DrawCommand> {
        seq![
            DrawCommand::FillRect {
                x: self.rect.x,
                y: self.rect.y,
                width: self.rect.width,
                height: self.rect.height,
                color: self.fill(),
            },
            DrawCommand::Text {
                source: if text.len() > 0 {
                    TextSource::Typed
                } else {
                    TextSource::Placeholder
                },
                x: saturated_i32(self.rect.x + TEXT_INSET),
                y: saturated_i32(
                    self.rect.y + toward_zero(self.rect.height as int, 2) - self.text_size / 2,
                ),
                size: self.text_size as i32,
                color: if text.len() > 0 {
                    Color::white()
                } else {
                    Color::gray()
                },
            },
        ]
    }

    /// Whether the primary button went down inside the box in this frame.
    pub fn is_clicked(&self, pointer: &Pointer) -> (inside: bool)
        ensures
            inside == (self.rect.covers(pointer.position) && pointer.pressed),
    {
        self.rect.contains(pointer.position) && pointer.pressed
    }

    /// Whether the primary button went down outside the box in this frame.
    pub fn is_not_clicked(&self, pointer: &Pointer) -> (outside: bool)
        ensures
            outside == (!self.rect.covers(pointer.position) && pointer.pressed),
    {
        !self.rect.contains(pointer.position) && pointer.pressed
    }

    /// Gives the box the focus when it is clicked and takes it away when
    /// something else is.
    pub fn update_focus(&mut self, pointer: &Pointer)
        ensures
            final(self).active == old(self).focused(*pointer),
            *final(self) == (TextBox { active: final(self).active, ..*old(self) }),
    {
        if self.is_clicked(pointer) {
            self.active = true;
        }
        if self.is_not_clicked(pointer) {
            self.active = false;
        }
    }

    /// Applies one frame of keyboard input to `text`, provided the box has
    /// the focus.
    pub fn input(&self, text: &mut String, keys: &KeyInput)
        ensures
            final(text)@ == self.edited(old(text)@, *keys),
    {
        if self.active {
            type_into(text, keys, self.max_length, self.spaces_allowed);
        }
    }

    /// Lists what is to be drawn for the box, given the text it edits.
    pub fn draw(&self, text: String) -> (plan: Vec<DrawCommand>)
        ensures
            plan@ == self.draw_plan(text@),
    {
        let has_text = !text.as_str().is_empty();
        let half_height = quotient(self.rect.height as i128, 2);
        let half_size: i128 = (self.text_size / 2) as i128;
        let mut commands: Vec<DrawCommand> = Vec::new();
        commands.push(
            DrawCommand::FillRect {
                x: self.rect.x,
                y: self.rect.y,
                width: self.rect.width,
                height: self.rect.height,
                color: Color {
                    r: 50,
                    g: 50,
                    b: 50,
                    a: if self.active {
                        ACTIVE_ALPHA
                    } else {
                        INACTIVE_ALPHA
                    },
                },
            },
        );
        commands.push(
            DrawCommand::Text {
                source: if has_text {
                    TextSource::Typed
                } else {
                    TextSource::Placeholder
                },
                x: saturate_i32(self.rect.x as i128 + TEXT_INSET as i128),
                y: saturate_i32(self.rect.y as i128 + half_height - half_size),
                size: self.text_size as i32,
                color: if has_text {
                    Color::white()
                } else {
                    Color::gray()
                },
            },
        );
        assert(commands@ =~= self.draw_plan(text@));
        commands
    }
}

/// A click inside the box gives it the focus, and the focus then lasts
/// through every later frame until a click lands outside the box.
pub proof fn focus_lasts_until_outside_click(tb: TextBox, frames: Seq<Pointer>)
    requires
        frames.len() > 0,
        frames[0].pressed && tb.rect.covers(frames[0].position),
        forall|i: int|
            1 <= i < frames.len() ==> !((#[trigger] frames[i]).pressed && !tb.rect.covers(
                frames[i].position,
            )),
    ensures
        tb.focus_after(frames),
    decreases frames.len(),
{
    if frames.len() > 1 {
        let earlier = frames.drop_last();
        assert(earlier[0] == frames[0]);
        assert forall|i: int| 1 <= i < earlier.len() implies !((#[trigger] earlier[i]).pressed
            && !tb.rect.covers(earlier[i].position)) by {
            assert(earlier[i] == frames[i]);
        }
        focus_lasts_until_outside_click(tb, earlier);
        assert(frames.last() == frames[frames.len() - 1]);
    } else {
        assert(frames.last() == frames[0]);
        assert(frames.drop_last().len() == 0);
    }
}

/// A click outside the box takes the focus away, and a frame without a
/// click leaves the focus where it was.
pub proof fn focus_follows_last_click(tb: TextBox, frames: Seq<Pointer>)
    requires
        frames.len() > 0,
    ensures
        frames.last().pressed ==> tb.focus_after(frames) == tb.rect.covers(frames.last().position),
        !frames.last().pressed ==> tb.focus_after(frames) == tb.focus_after(frames.drop_last()),
{
}

/// Without the focus no key changes the text; with it, a box that refuses
/// spaces gets no character from a frame in which only the space bar is
/// pressed.
pub proof fn space_needs_permission(tb: TextBox, text: Seq<char>, keys: KeyInput)
    requires
        !tb.spaces_allowed,
        forall|i: int| 0 <= i < keys.pressed@.len() ==> keys.pressed@[i] == Key::Space,
    ensures
        tb.edited(text, keys) == text,
{
    refused_space_adds_nothing(keys.pressed@, keys.shift);
    if keys.pressed@.contains(Key::Backspace) {
        let i = choose|i: int| 0 <= i < keys.pressed@.len() && keys.pressed@[i] == Key::Backspace;
        assert(keys.pressed@[i] == Key::Space);
    }
}

} // verus!
