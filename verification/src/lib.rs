//! Ownership and lifecycle rules for handles to the objects of a native GUI
//! toolkit, *libui-ng*.
//!
//! The toolkit itself is not called from here. Every function of this crate
//! that wants something of the toolkit returns a [`Call`]: a description of
//! the native call to make. Whoever embeds the crate performs the call and
//! hands what came back to the function that reads it.
//!
//! What the crate decides, and proves of its decisions:
//!
//! - A [`Control`] is destroyed by this side when its scope ends, unless it
//!   has been made the child of a container. A child is destroyed by its
//!   parent and never from here, whatever is done with it afterwards.
//! - A session, [`Ui`], is made at most once: the guard in [`ui`] grants its
//!   first claim and refuses every later one. The session keeps the widgets
//!   in an arena, where they and the slots of their callbacks stay in place
//!   until it ends. What is left of the controls is destroyed before that,
//!   containers first.
//! - A constructor of the toolkit that gives no object gives an error here,
//!   and no widget.
//! - Text goes to the toolkit as its UTF-8 bytes and a closing zero byte, and
//!   comes back as it went. Text with a zero byte inside is refused, not cut.
//! - A widget holds one callback for each of its events; a new one takes the
//!   place of the one before.
//!
//! Sessions, controls and widgets stay on the thread that they were made on.

pub mod area;
pub mod axis;
pub mod bibox;
pub mod boxx;
pub mod button;
pub mod call;
pub mod callback;
pub mod checkbox;
pub mod color;
pub mod combobox;
pub mod control;
pub mod downcast;
pub mod error;
pub mod ffi;
pub mod font;
pub mod font_selector_button;
pub mod form;
pub mod grid;
pub mod group;
pub mod image;
pub mod label;
pub mod menu;
pub mod multiline_text_entry;
pub mod progress_bar;
pub mod pushbutton;
pub mod radio_button_group;
pub mod radio_buttons;
pub mod separator;
pub mod slider;
pub mod spinbox;
pub mod tab;
pub mod table;
pub mod text_entry;
pub mod ui;
pub mod unibox;
pub mod window;

pub use crate::area::Area;
pub use crate::axis::Axis;
pub use crate::bibox::BiBox;
pub use crate::boxx::Boxx;
pub use crate::button::Button;
pub use crate::call::Call;
pub use crate::checkbox::Checkbox;
pub use crate::color::Picker as ColorPicker;
pub use crate::combobox::Combobox;
pub use crate::control::Control;
pub use crate::error::Error;
pub use crate::font::Font;
pub use crate::font::Picker as FontPicker;
pub use crate::form::Form;
pub use crate::grid::Grid;
pub use crate::group::Group;
pub use crate::image::Image;
pub use crate::label::Label;
pub use crate::menu::item::Item as MenuItem;
pub use crate::menu::Menu;
pub use crate::progress_bar::ProgressBar;
pub use crate::pushbutton::Pushbutton;
pub use crate::radio_buttons::RadioButtons;
pub use crate::separator::Separator;
pub use crate::slider::Slider;
pub use crate::spinbox::Spinbox;
pub use crate::tab::Tab;
pub use crate::table::Table;
pub use crate::ui::Ui;
pub use crate::unibox::UniBox;
pub use crate::window::Window;
