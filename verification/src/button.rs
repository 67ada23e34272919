//! A push button with eased hover and press animations.
//!
//! Hit tests always use the button's own rectangle. The rectangle that is
//! drawn grows while the pointer hovers and sinks while the button is held,
//! but the area that reacts to the pointer stays where it is.

use crate::fixed::{
    between, ease, eased, eased_makes_progress, eased_rests_at_target, eased_stays_between,
    far_from, product, quotient, saturate, saturate_i32, saturated, saturated_i32, to_pixels,
    toward_zero, whole_pixels, MICRO,
};
use crate::geometry::{Point, Rectangle};
use crate::pointer::Pointer;
use crate::render::{Color, DrawCommand, FixedRect, ImageSize, TextSource};
use vstd::prelude::*;

verus! {

/// Scale that the drawn button eases toward while hovered: `1.1`.
pub const HOVER_SCALE: i64 = 1_100_000;

/// Downward shift that the drawn button eases toward while held: 4 pixels.
pub const PRESS_DEPTH: i64 = 4_000_000;

/// Rate per second at which the scale closes in on its target.
pub const HOVER_RATE: u8 = 12;

/// Rate per second at which the press offset closes in on its target.
pub const PRESS_RATE: u8 = 15;

/// Rate per second at which the blend timer runs.
pub const BLEND_RATE: u8 = 8;

/// The longest frame, in microseconds, whose steps are no longer than the
/// gap they close: with the fastest rate, 15 per second, a fifteenth of a
/// second.
pub const STEADY_FRAME: u32 = 66_666;

/// Offset of the drop shadow from the body, along both axes: 4 pixels.
pub const SHADOW_OFFSET: i64 = 4_000_000;

/// Thickness of the outline: 5 pixels.
pub const OUTLINE_THICKNESS: i64 = 5_000_000;

/// Number of segments per corner of the outline.
pub const OUTLINE_SEGMENTS: i32 = 4;

/// A labelled button and the state of its animations.
///
/// The three animation values are fixed-point numbers in millionths. They
/// are carried from frame to frame and set outright only by
/// [`Button::new`].
pub struct Button {
    /// The area that reacts to the pointer, and the drawn area at rest.
    pub rect: Rectangle,
    /// The label.
    pub text: String,
    pub font_size: i32,
    pub base_color: Color,
    /// Scale of the drawn rectangle, in millionths.
    pub hover_scale: i64,
    /// Downward shift of the drawn rectangle, in millionths of a pixel.
    pub press_offset: i64,
    /// Whether the button was held down at the last update.
    pub is_pressed: bool,
    /// Progress of the hover blend, in millionths, from 0 to [`MICRO`].
    pub animation_timer: i64,
}

/// Colors for one drawing of a button.
#[derive(Clone, Copy, Debug, PartialEq, Eq, Structural)]
pub struct ButtonColor {
    pub main: Color,
    pub outline: Color,
    pub text: Color,
}

/// Why a button could not be drawn.
#[derive(Clone, Copy, Debug, PartialEq, Eq, Structural)]
pub enum DrawError {
    /// The caller asked for the image face and supplied no image.
    MissingImage,
}

/// Where content of size `content` starts so that it sits in the middle of
/// the span that starts at `origin` and is `extent` long.
pub open spec fn centered(origin: i32, extent: i32, content: i32) -> i32 {
    saturated_i32(origin + toward_zero(extent - content, 2))
}

/// Computes [`centered`].
pub fn center(origin: i32, extent: i32, content: i32) -> (start: i32)
    ensures
        start == centered(origin, extent, content),
{
    let slack: i128 = extent as i128 - content as i128;
    saturate_i32(origin as i128 + quotient(slack, 2))
}

/// The scale that the drawn button eases toward: [`HOVER_SCALE`] under the
/// pointer, its own size otherwise.
pub open spec fn scale_target(hovered: bool) -> i64 {
    if hovered {
        HOVER_SCALE
    } else {
        MICRO
    }
}

/// The downward shift that the drawn button eases toward: [`PRESS_DEPTH`]
/// while held, none otherwise.
pub open spec fn offset_target(held: bool) -> i64 {
    if held {
        PRESS_DEPTH
    } else {
        0
    }
}

/// The blend timer after a frame: it runs up to [`MICRO`] while the pointer
/// hovers and down to zero while it does not, and stops at either end.
pub open spec fn blended(timer: i64, hovered: bool, delta_micros: u32) -> i64 {
    if hovered {
        vstd::math::min(timer + delta_micros * BLEND_RATE, MICRO as int) as i64
    } else {
        vstd::math::max(timer - delta_micros * BLEND_RATE, 0) as i64
    }
}

/// Runs the blend timer for one frame.
pub fn blend(timer: i64, hovered: bool, delta_micros: u32) -> (next: i64)
    ensures
        next == blended(timer, hovered, delta_micros),
{
    assert(delta_micros * BLEND_RATE <= 0xffff_ffff * 0xff) by (nonlinear_arith)
        requires
            0 <= delta_micros <= 0xffff_ffff,
            0 <= BLEND_RATE <= 0xff,
    ;
    let change: i64 = delta_micros as i64 * BLEND_RATE as i64;
    if hovered {
        if timer >= MICRO - change {
            MICRO
        } else {
            timer + change
        }
    } else {
        if timer <= change {
            0
        } else {
            timer - change
        }
    }
}

impl Button {
    /// Whether `self` is a button as [`Button::new`] makes it and
    /// [`Button::update`] keeps it: the blend timer is within its range.
    pub open spec fn wf(self) -> bool {
        0 <= self.animation_timer <= MICRO
    }

    /// The button after a frame of `delta_micros` microseconds in which the
    /// pointer was as `pointer` says.
    pub open spec fn stepped(self, pointer: Pointer, delta_micros: u32) -> Button {
        let hovered = self.rect.covers(pointer.position);
        let held = hovered && pointer.down;
        Button {
            hover_scale: saturated(
                eased(
                    self.hover_scale as int,
                    scale_target(hovered) as int,
                    delta_micros as int,
                    HOVER_RATE as int,
                ),
            ),
            press_offset: saturated(
                eased(
                    self.press_offset as int,
                    offset_target(held) as int,
                    delta_micros as int,
                    PRESS_RATE as int,
                ),
            ),
            animation_timer: blended(self.animation_timer, hovered, delta_micros),
            is_pressed: held,
            ..self
        }
    }

    /// Whether the button counts as clicked in a frame: the primary button
    /// came up during it while the pointer was over the button's rectangle.
    pub open spec fn clicked(self, pointer: Pointer) -> bool {
        self.rect.covers(pointer.position) && pointer.released
    }

    /// The button after the frames of `frames`, oldest first, each given as
    /// the pointer's snapshot and the frame's length in microseconds.
    pub open spec fn replayed(self, frames: Seq<(Pointer, u32)>) -> Button
        decreases frames.len(),
    {
        if frames.len() == 0 {
            self
        } else {
            self.replayed(frames.drop_last()).stepped(frames.last().0, frames.last().1)
        }
    }

    /// Whether the button is at rest: drawn at its own size and place, not
    /// pressed, with the blend timer at zero.
    pub open spec fn at_rest(self) -> bool {
        &&& self.hover_scale == MICRO
        &&& self.press_offset == 0
        &&& self.animation_timer == 0
        &&& !self.is_pressed
    }

    /// A button at rest: drawn at its own size, not pressed, blend at zero.
    pub fn new(x: i32, y: i32, width: i32, height: i32, text: &str, font_size: i32) -> (b: Self)
        ensures
            b.rect == (Rectangle { x, y, width, height }),
            b.text@ == text@,
            b.font_size == font_size,
            b.base_color == Color::white(),
            b.hover_scale == MICRO,
            b.press_offset == 0,
            !b.is_pressed,
            b.animation_timer == 0,
            b.wf(),
            b.at_rest(),
    {
        Button {
            rect: Rectangle::new(x, y, width, height),
            text: text.to_owned(),
            font_size,
            base_color: Color::white(),
            hover_scale: MICRO,
            press_offset: 0,
            is_pressed: false,
            animation_timer: 0,
        }
    }

    /// Advances the animations by one frame and records whether the button
    /// is being held.
    pub fn update(&mut self, pointer: &Pointer, delta_micros: u32)
        ensures
            *final(self) == old(self).stepped(*pointer, delta_micros),
            old(self).wf() ==> final(self).wf(),
    {
        let hovered = self.is_hovered(pointer.position);
        let held = hovered && pointer.down;
        let target_scale = if hovered {
            HOVER_SCALE
        } else {
            MICRO
        };
        let target_offset = if held {
            PRESS_DEPTH
        } else {
            0
        };
        self.hover_scale = ease(self.hover_scale, target_scale, delta_micros, HOVER_RATE);
        self.press_offset = ease(self.press_offset, target_offset, delta_micros, PRESS_RATE);
        self.animation_timer = blend(self.animation_timer, hovered, delta_micros);
        self.is_pressed = held;
    }

    /// Whether `mouse_pos` is over the button.
    pub fn is_hovered(&self, mouse_pos: Point) -> (over: bool)
        ensures
            over == self.rect.covers(mouse_pos),
    {
        self.rect.contains(mouse_pos)
    }

    /// Whether the button was clicked in this frame: the primary button came
    /// up while the pointer was over it.
    pub fn is_clicked(&self, pointer: &Pointer) -> (clicked: bool)
        ensures
            clicked == self.clicked(*pointer),
    {
        self.is_hovered(pointer.position) && pointer.released
    }

    /// The rectangle that is drawn, in millionths of a pixel: the button's
    /// own rectangle scaled by `hover_scale` about its center and moved
    /// down by `press_offset`.
    pub open spec fn drawn_rect(self) -> FixedRect {
        let grow_x = toward_zero(self.rect.width * (self.hover_scale - MICRO), 2);
        let grow_y = toward_zero(self.rect.height * (self.hover_scale - MICRO), 2);
        FixedRect {
            x: saturated(self.rect.x * MICRO - grow_x),
            y: saturated(self.rect.y * MICRO - grow_y + self.press_offset),
            width: saturated(self.rect.width * self.hover_scale),
            height: saturated(self.rect.height * self.hover_scale),
        }
    }

    /// The drop shadow: the drawn rectangle moved by [`SHADOW_OFFSET`],
    /// left out while the button is pressed.
    pub open spec fn shadow_plan(self) -> Seq<DrawCommand> {
        let r = self.drawn_rect();
        if self.is_pressed {
            seq![]
        } else {
            seq![
                DrawCommand::FillRect {
                    x: whole_pixels(r.x + SHADOW_OFFSET),
                    y: whole_pixels(r.y + SHADOW_OFFSET),
                    width: whole_pixels(r.width as int),
                    height: whole_pixels(r.height as int),
                    color: Color { r: 0, g: 0, b: 0, a: 40 },
                },
            ]
        }
    }

    /// The filled body and the outline around it.
    pub open spec fn body_plan(self, colors: ButtonColor) -> Seq<DrawCommand> {
        let r = self.drawn_rect();
        seq![
            DrawCommand::FillRect {
                x: whole_pixels(r.x as int),
                y: whole_pixels(r.y as int),
                width: whole_pixels(r.width as int),
                height: whole_pixels(r.height as int),
                color: colors.main,
            },
            DrawCommand::RoundedOutline {
                rect: r,
                roundness: 0,
                segments: OUTLINE_SEGMENTS,
                thickness: OUTLINE_THICKNESS,
                color: colors.outline,
            },
        ]
    }

    /// The label in the middle of the drawn rectangle, over a faint copy of
    /// itself one pixel down and to the right. `text_width` is the width of
    /// the label at `font_size`, as the backend measures it.
    pub open spec fn label_plan(self, colors: ButtonColor, text_width: i32) -> Seq<DrawCommand> {
        let r = self.drawn_rect();
        let x = centered(whole_pixels(r.x as int), whole_pixels(r.width as int), text_width);
        let y = centered(whole_pixels(r.y as int), whole_pixels(r.height as int), self.font_size);
        seq![
            DrawCommand::Text {
                source: TextSource::Label,
                x: saturated_i32(x + 1),
                y: saturated_i32(y + 1),
                size: self.font_size,
                color: Color { r: 0, g: 0, b: 0, a: 30 },
            },
            DrawCommand::Text {
                source: TextSource::Label,
                x,
                y,
                size: self.font_size,
                color: colors.text,
            },
        ]
    }

    /// The image, magnified by `image_scale` millionths, with its middle on
    /// the middle of the button's own rectangle.
    pub open spec fn image_plan(self, image: ImageSize, image_scale: i64) -> Seq<DrawCommand> {
        seq![
            DrawCommand::Image {
                left: saturated(
                    self.rect.x * MICRO + toward_zero(self.rect.width * MICRO, 2) - toward_zero(
                        image.width * image_scale,
                        2,
                    ),
                ),
                top: saturated(
                    self.rect.y * MICRO + toward_zero(self.rect.height * MICRO, 2) - toward_zero(
                        image.height * image_scale,
                        2,
                    ),
                ),
                scale: image_scale,
                tint: Color::white(),
            },
        ]
    }

    /// Everything that one drawing of the button consists of, back to
    /// front. With `image` the face is that image, without it the label.
    pub open spec fn draw_plan(
        self,
        image: Option<ImageSize>,
        image_scale: i64,
        colors: ButtonColor,
        text_width: i32,
    ) -> Seq<DrawCommand> {
        self.shadow_plan() + self.body_plan(colors) + match image {
            Some(size) => self.image_plan(size, image_scale),
            None => self.label_plan(colors, text_width),
        }
    }

    /// Computes [`Button::drawn_rect`].
    pub fn scaled_rect(&self) -> (r: FixedRect)
        ensures
            r == self.drawn_rect(),
    {
        let growth: i128 = self.hover_scale as i128 - MICRO as i128;
        let grow_x = quotient(product(self.rect.width, growth), 2);
        let grow_y = quotient(product(self.rect.height, growth), 2);
        FixedRect {
            x: saturate(product(self.rect.x, MICRO as i128) - grow_x),
            y: saturate(product(self.rect.y, MICRO as i128) - grow_y + self.press_offset as i128),
            width: saturate(product(self.rect.width, self.hover_scale as i128)),
            height: saturate(product(self.rect.height, self.hover_scale as i128)),
        }
    }

    /// Lists what is to be drawn for the button in its current state.
    ///
    /// With `use_image` the face of the button is `image`, magnified by
    /// `image_scale` millionths; otherwise it is the label, whose width at
    /// `font_size` the caller has measured as `text_width`. Asking for the
    /// image face without an image is an error, and nothing is listed.
    pub fn draw(
        &self,
        use_image: bool,
        image: Option<ImageSize>,
        image_scale: i64,
        colors: ButtonColor,
        text_width: i32,
    ) -> (plan: Result<Vec<DrawCommand>, DrawError>)
        ensures
            plan.is_err() <==> use_image && image.is_none(),
            plan.is_err() ==> plan == Err::<Vec<DrawCommand>, DrawError>(DrawError::MissingImage),
            plan.is_ok() ==> plan.unwrap()@ == self.draw_plan(
                if use_image {
                    image
                } else {
                    None
                },
                image_scale,
                colors,
                text_width,
            ),
    {
        if use_image && image.is_none() {
            return Err(DrawError::MissingImage);
        }
        let r = self.scaled_rect();
        let x = to_pixels(r.x);
        let y = to_pixels(r.y);
        let width = to_pixels(r.width);
        let height = to_pixels(r.height);
        let mut commands: Vec<DrawCommand> = Vec::new();
        if !self.is_pressed {
            commands.push(
                DrawCommand::FillRect {
                    x: to_pixels(saturate(r.x as i128 + SHADOW_OFFSET as i128)),
                    y: to_pixels(saturate(r.y as i128 + SHADOW_OFFSET as i128)),
                    width,
                    height,
                    color: Color { r: 0, g: 0, b: 0, a: 40 },
                },
            );
        }
        commands.push(DrawCommand::FillRect { x, y, width, height, color: colors.main });
        commands.push(
            DrawCommand::RoundedOutline {
                rect: r,
                roundness: 0,
                segments: OUTLINE_SEGMENTS,
                thickness: OUTLINE_THICKNESS,
                color: colors.outline,
            },
        );
        match (use_image, image) {
            (true, Some(size)) => {
                let half_width = quotient(product(self.rect.width, MICRO as i128), 2);
                let half_height = quotient(product(self.rect.height, MICRO as i128), 2);
                let half_image_width = quotient(product(size.width, image_scale as i128), 2);
                let half_image_height = quotient(product(size.height, image_scale as i128), 2);
                commands.push(
                    DrawCommand::Image {
                        left: saturate(
                            product(self.rect.x, MICRO as i128) + half_width - half_image_width,
                        ),
                        top: saturate(
                            product(self.rect.y, MICRO as i128) + half_height - half_image_height,
                        ),
                        scale: image_scale,
                        tint: Color::white(),
                    },
                );
            },
            _ => {
                let text_x = center(x, width, text_width);
                let text_y = center(y, height, self.font_size);
                commands.push(
                    DrawCommand::Text {
                        source: TextSource::Label,
                        x: saturate_i32(text_x as i128 + 1),
                        y: saturate_i32(text_y as i128 + 1),
                        size: self.font_size,
                        color: Color { r: 0, g: 0, b: 0, a: 30 },
                    },
                );
                commands.push(
                    DrawCommand::Text {
                        source: TextSource::Label,
                        x: text_x,
                        y: text_y,
                        size: self.font_size,
                        color: colors.text,
                    },
                );
            },
        }
        assert(commands@ =~= self.draw_plan(
            if use_image {
                image
            } else {
                None
            },
            image_scale,
            colors,
            text_width,
        ));
        Ok(commands)
    }
}

/// A frame no longer than [`STEADY_FRAME`] never carries the scale or the
/// press offset past its target, wherever the pointer is: each lands
/// between its old value and the target of that frame.
pub proof fn steady_frame_never_overshoots(b: Button, pointer: Pointer, delta_micros: u32)
    requires
        delta_micros <= STEADY_FRAME,
    ensures
        between(
            b.stepped(pointer, delta_micros).hover_scale as int,
            b.hover_scale as int,
            scale_target(b.rect.covers(pointer.position)) as int,
        ),
        between(
            b.stepped(pointer, delta_micros).press_offset as int,
            b.press_offset as int,
            offset_target(b.rect.covers(pointer.position) && pointer.down) as int,
        ),
        b.wf() ==> b.stepped(pointer, delta_micros).wf(),
{
    eased_stays_between(
        b.hover_scale as int,
        scale_target(b.rect.covers(pointer.position)) as int,
        delta_micros as int,
        HOVER_RATE as int,
    );
    eased_stays_between(
        b.press_offset as int,
        offset_target(b.rect.covers(pointer.position) && pointer.down) as int,
        delta_micros as int,
        PRESS_RATE as int,
    );
}

/// A frame with the pointer off the button moves each animation toward its
/// rest and never past it. The blend timer runs down to zero and stops
/// there, whatever the length of the frame. The scale and the press offset
/// land between their old value and their rest, provided the frame is no
/// longer than [`STEADY_FRAME`]; a longer frame makes a step longer than the
/// gap. They do move for as long as they are [`far_from`] their rest.
pub proof fn idle_frame_settles(b: Button, pointer: Pointer, delta_micros: u32)
    requires
        !b.rect.covers(pointer.position),
    ensures
        !b.stepped(pointer, delta_micros).is_pressed,
        0 <= b.stepped(pointer, delta_micros).animation_timer,
        b.animation_timer >= 0 ==> b.stepped(pointer, delta_micros).animation_timer
            <= b.animation_timer,
        delta_micros <= STEADY_FRAME ==> between(
            b.stepped(pointer, delta_micros).hover_scale as int,
            b.hover_scale as int,
            MICRO as int,
        ),
        delta_micros <= STEADY_FRAME ==> between(
            b.stepped(pointer, delta_micros).press_offset as int,
            b.press_offset as int,
            0,
        ),
        delta_micros <= STEADY_FRAME && far_from(
            b.hover_scale as int,
            MICRO as int,
            delta_micros as int,
            HOVER_RATE as int,
        ) ==> b.stepped(pointer, delta_micros).hover_scale != b.hover_scale,
        delta_micros <= STEADY_FRAME && far_from(
            b.press_offset as int,
            0,
            delta_micros as int,
            PRESS_RATE as int,
        ) ==> b.stepped(pointer, delta_micros).press_offset != b.press_offset,
{
    if delta_micros <= STEADY_FRAME {
        steady_frame_never_overshoots(b, pointer, delta_micros);
        if far_from(b.hover_scale as int, MICRO as int, delta_micros as int, HOVER_RATE as int) {
            eased_makes_progress(
                b.hover_scale as int,
                MICRO as int,
                delta_micros as int,
                HOVER_RATE as int,
            );
        }
        if far_from(b.press_offset as int, 0, delta_micros as int, PRESS_RATE as int) {
            eased_makes_progress(b.press_offset as int, 0, delta_micros as int, PRESS_RATE as int);
        }
    }
}

/// Any number of frames with the pointer off the button, none longer than
/// [`STEADY_FRAME`], leave the scale and the press offset between where they
/// started and their rest, and the blend timer no higher than it started.
pub proof fn idle_frames_settle(b: Button, frames: Seq<(Pointer, u32)>)
    requires
        forall|i: int|
            0 <= i < frames.len() ==> !b.rect.covers((#[trigger] frames[i]).0.position)
                && frames[i].1 <= STEADY_FRAME,
    ensures
        b.replayed(frames).rect == b.rect,
        between(b.replayed(frames).hover_scale as int, b.hover_scale as int, MICRO as int),
        between(b.replayed(frames).press_offset as int, b.press_offset as int, 0),
        b.animation_timer >= 0 ==> 0 <= b.replayed(frames).animation_timer <= b.animation_timer,
    decreases frames.len(),
{
    if frames.len() > 0 {
        let earlier = frames.drop_last();
        assert forall|i: int| 0 <= i < earlier.len() implies !b.rect.covers(
            (#[trigger] earlier[i]).0.position,
        ) && earlier[i].1 <= STEADY_FRAME by {
            assert(earlier[i] == frames[i]);
        }
        idle_frames_settle(b, earlier);
        let last = frames.last();
        assert(last == frames[frames.len() - 1]);
        idle_frame_settles(b.replayed(earlier), last.0, last.1);
    }
}

/// A button at rest stays at rest for as long as the pointer keeps off it.
pub proof fn rest_is_stable(b: Button, pointer: Pointer, delta_micros: u32)
    requires
        b.at_rest(),
        !b.rect.covers(pointer.position),
    ensures
        b.stepped(pointer, delta_micros) == b,
{
    eased_rests_at_target(MICRO as int, delta_micros as int, HOVER_RATE as int);
    eased_rests_at_target(0, delta_micros as int, PRESS_RATE as int);
}

/// A click is the frame in which the primary button, held in the frame
/// before, comes up over the button. A release off the button is no click,
/// and neither is the frame that follows a click.
pub proof fn click_is_release_over_button(
    b: Button,
    before: Pointer,
    position: Point,
    down: bool,
    next_position: Point,
    next_down: bool,
)
    ensures
        b.clicked(before.followed_by(position, down)) <==> before.down && !down && b.rect.covers(
            position,
        ),
        b.clicked(before.followed_by(position, down)) ==> !b.clicked(
            before.followed_by(position, down).followed_by(next_position, next_down),
        ),
{
}

} // verus!
