//! One browsing session: a search button, a URL bar and the page that was
//! fetched last.
//!
//! The session decides; it performs nothing. Each frame the caller hands it
//! the window width and the state of mouse and keyboard, and gets back the
//! address to fetch, if the user asked for one. The caller fetches however
//! it likes, without holding up the frames that follow, and hands the body
//! back through [`Session::deliver`] when it has arrived.

use crate::button::{Button, ButtonColor};
use crate::fixed::{saturate_i32, saturated_i32, MICRO};
use crate::geometry::Rectangle;
use crate::keys::KeyInput;
use crate::pointer::Pointer;
use crate::render::{Color, DrawCommand, TextSource};
use crate::textbox::TextBox;
use vstd::prelude::*;

verus! {

/// Distance from the right edge of the window to the left edge of the
/// search button.
pub const BUTTON_FROM_RIGHT: i32 = 120;

/// What the URL bar leaves free of the window's width.
pub const BAR_MARGIN: i32 = 160;

/// Where the fetched page is written.
pub const PAGE_X: i32 = 20;

pub const PAGE_Y: i32 = 100;

pub const PAGE_TEXT_SIZE: i32 = 30;

pub struct Session {
    pub search_button: Button,
    pub url_bar: TextBox,
    /// The address typed so far.
    pub url: String,
    /// The body of the page that was fetched last.
    pub website: String,
    /// Whether nothing has been asked for yet.
    pub on_new_tab: bool,
}

impl Session {
    /// The search button where a window of width `screen_width` puts it.
    pub open spec fn button_placed(self, screen_width: i32) -> Button {
        Button {
            rect: Rectangle {
                x: saturated_i32(screen_width - BUTTON_FROM_RIGHT),
                ..self.search_button.rect
            },
            ..self.search_button
        }
    }

    /// The URL bar as wide as a window of width `screen_width` makes it.
    pub open spec fn bar_placed(self, screen_width: i32) -> TextBox {
        TextBox {
            rect: Rectangle {
                width: saturated_i32(screen_width - BAR_MARGIN),
                ..self.url_bar.rect
            },
            ..self.url_bar
        }
    }

    /// Whether a frame asks for a page: the search button is clicked while
    /// an address has been typed.
    pub open spec fn asks_for_page(self, screen_width: i32, pointer: Pointer) -> bool {
        self.button_placed(screen_width).clicked(pointer) && self.url@.len() > 0
    }

    /// The URL bar after a frame: placed for the window's width, with the
    /// focus where the frame's click, if there was one, puts it.
    pub open spec fn bar_after(self, screen_width: i32, pointer: Pointer) -> TextBox {
        let bar = self.bar_placed(screen_width);
        TextBox { active: bar.focused(pointer), ..bar }
    }

    /// What one drawing of the window consists of: the background, the
    /// button with its label, the URL bar, and the page once one has been
    /// asked for.
    pub open spec fn draw_plan(self, text_width: i32) -> Seq<DrawCommand> {
        seq![DrawCommand::Clear { color: Color { r: 30, g: 30, b: 30, a: 255 } }]
            + self.search_button.draw_plan(
            None,
            MICRO,
            ButtonColor { main: Color::white(), outline: Color::black(), text: Color::black() },
            text_width,
        ) + self.url_bar.draw_plan(self.url@) + if self.on_new_tab {
            seq![]
        } else {
            seq![
                DrawCommand::Text {
                    source: TextSource::Page,
                    x: PAGE_X,
                    y: PAGE_Y,
                    size: PAGE_TEXT_SIZE,
                    color: Color::white(),
                },
            ]
        }
    }

    /// A fresh session: a resting "Search" button, an empty address behind
    /// an unfocused bar that shows "URL", and no page.
    pub fn new() -> (s: Session)
        ensures
            s.search_button.rect == (Rectangle { x: 0, y: 20, width: 100, height: 50 }),
            s.search_button.text@ == "Search"@,
            s.search_button.font_size == 20,
            s.search_button.base_color == Color::white(),
            s.search_button.at_rest(),
            s.url_bar.rect == (Rectangle { x: 20, y: 20, width: 0, height: 50 }),
            s.url_bar.text@ == "URL"@,
            s.url_bar.text_size == 30,
            s.url_bar.max_length == 255,
            !s.url_bar.spaces_allowed,
            !s.url_bar.active,
            s.url@.len() == 0,
            s.website@.len() == 0,
            s.on_new_tab,
    {
        Session {
            search_button: Button::new(0, 20, 100, 50, "Search", 20),
            url_bar: TextBox {
                rect: Rectangle::new(20, 20, 0, 50),
                text: "URL".to_owned(),
                text_size: 30,
                max_length: 255,
                spaces_allowed: false,
                active: false,
            },
            url: String::new(),
            website: String::new(),
            on_new_tab: true,
        }
    }

    /// Places the widgets for a window of width `screen_width`: the button
    /// near the right edge, the bar across the rest.
    pub fn layout(&mut self, screen_width: i32)
        ensures
            final(self).search_button == old(self).button_placed(screen_width),
            final(self).url_bar == old(self).bar_placed(screen_width),
            final(self).url == old(self).url,
            final(self).website == old(self).website,
            final(self).on_new_tab == old(self).on_new_tab,
    {
        self.search_button.rect.x = saturate_i32(screen_width as i128 - BUTTON_FROM_RIGHT as i128);
        self.url_bar.rect.width = saturate_i32(screen_width as i128 - BAR_MARGIN as i128);
    }

    /// Runs one frame and says which address, if any, is to be fetched.
    ///
    /// The widgets are placed for the window's width first. The button then
    /// animates, the URL bar takes or loses the focus, and the keys are
    /// typed into the address if the bar has the focus by then. A request
    /// for a page ends the new-tab state; the page itself changes only when
    /// a body is delivered. The address handed back is the one typed before
    /// this frame's keys were applied.
    pub fn frame(
        &mut self,
        screen_width: i32,
        pointer: &Pointer,
        keys: &KeyInput,
        delta_micros: u32,
    ) -> (request: Option<String>)
        ensures
            final(self).search_button == old(self).button_placed(screen_width).stepped(
                *pointer,
                delta_micros,
            ),
            final(self).url_bar == old(self).bar_after(screen_width, *pointer),
            final(self).url@ == old(self).bar_after(screen_width, *pointer).edited(
                old(self).url@,
                *keys,
            ),
            final(self).website == old(self).website,
            final(self).on_new_tab == (old(self).on_new_tab && !old(self).asks_for_page(
                screen_width,
                *pointer,
            )),
            request.is_some() <==> old(self).asks_for_page(screen_width, *pointer),
            request.is_some() ==> request.unwrap()@ == old(self).url@,
    {
        self.layout(screen_width);
        self.search_button.update(pointer, delta_micros);
        let mut request: Option<String> = None;
        if self.search_button.is_clicked(pointer) && !self.url.as_str().is_empty() {
            self.on_new_tab = false;
            request = Some(self.url.clone());
        }
        self.url_bar.update_focus(pointer);
        self.url_bar.input(&mut self.url, keys);
        request
    }

    /// Takes the body of the page that was asked for.
    pub fn deliver(&mut self, body: String)
        ensures
            *final(self) == (Session { website: body, ..*old(self) }),
    {
        self.website = body;
    }

    /// Lists what is to be drawn for the window. `text_width` is the width
    /// of the button's label at its font size, as the backend measures it.
    pub fn draw(&self, text_width: i32) -> (plan: Vec<DrawCommand>)
        ensures
            plan@ == self.draw_plan(text_width),
    {
        let mut commands: Vec<DrawCommand> = Vec::new();
        commands.push(DrawCommand::Clear { color: Color { r: 30, g: 30, b: 30, a: 255 } });
        let colors = ButtonColor {
            main: Color::white(),
            outline: Color::black(),
            text: Color::black(),
        };
        let mut button = self.search_button.draw(false, None, MICRO, colors, text_width).unwrap();
        commands.append(&mut button);
        let mut bar = self.url_bar.draw(self.url.clone());
        commands.append(&mut bar);
        if !self.on_new_tab {
            commands.push(
                DrawCommand::Text {
                    source: TextSource::Page,
                    x: PAGE_X,
                    y: PAGE_Y,
                    size: PAGE_TEXT_SIZE,
                    color: Color::white(),
                },
            );
        }
        assert(commands@ =~= self.draw_plan(text_width));
        commands
    }
}

} // verus!
