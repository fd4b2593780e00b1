//! From a type-erased control to the widget that its kind says it is.

use vstd::prelude::*;

use crate::area::Area;
use crate::button::Button;
use crate::checkbox::Checkbox;
use crate::combobox::Combobox;
use crate::control::Control;
use crate::control::TypeId;
use crate::form::Form;
use crate::grid::Grid;
use crate::group::Group;
use crate::label::Label;
use crate::progress_bar::ProgressBar;
use crate::slider::Slider;
use crate::spinbox::Spinbox;
use crate::tab::Tab;
use crate::table::Table;
use crate::ui::FromControl;
use crate::unibox::UniBox;
use crate::window::Window;

verus! {

/// A control as the widget of its kind.
#[derive(Debug)]
pub enum Downcasted<F> {
    Area(Area),
    UniBox(UniBox),
    Button(Button<F>),
    Checkbox(Checkbox<F>),
    Combobox(Combobox<F>),
    Form(Form),
    Grid(Grid),
    Group(Group),
    Label(Label),
    ProgressBar(ProgressBar),
    Slider(Slider<F>),
    Spinbox(Spinbox<F>),
    Tab(Tab),
    Table(Table),
    Window(Window<F>),
}

impl<F> Downcasted<F> {
    /// The control inside the widget.
    pub open spec fn control(self) -> Control {
        match self {
            Downcasted::Area(widget) => widget.control(),
            Downcasted::UniBox(widget) => widget.control(),
            Downcasted::Button(widget) => widget.control(),
            Downcasted::Checkbox(widget) => widget.control(),
            Downcasted::Combobox(widget) => widget.control(),
            Downcasted::Form(widget) => widget.control(),
            Downcasted::Grid(widget) => widget.control(),
            Downcasted::Group(widget) => widget.control(),
            Downcasted::Label(widget) => widget.control(),
            Downcasted::ProgressBar(widget) => widget.control(),
            Downcasted::Slider(widget) => widget.control(),
            Downcasted::Spinbox(widget) => widget.control(),
            Downcasted::Tab(widget) => widget.control(),
            Downcasted::Table(widget) => widget.control(),
            Downcasted::Window(widget) => widget.control(),
        }
    }

    /// The widget holds no callback.
    pub open spec fn is_fresh(self) -> bool {
        match self {
            Downcasted::Area(widget) => widget.is_fresh(),
            Downcasted::UniBox(widget) => widget.is_fresh(),
            Downcasted::Button(widget) => widget.is_fresh(),
            Downcasted::Checkbox(widget) => widget.is_fresh(),
            Downcasted::Combobox(widget) => widget.is_fresh(),
            Downcasted::Form(widget) => widget.is_fresh(),
            Downcasted::Grid(widget) => widget.is_fresh(),
            Downcasted::Group(widget) => widget.is_fresh(),
            Downcasted::Label(widget) => widget.is_fresh(),
            Downcasted::ProgressBar(widget) => widget.is_fresh(),
            Downcasted::Slider(widget) => widget.is_fresh(),
            Downcasted::Spinbox(widget) => widget.is_fresh(),
            Downcasted::Tab(widget) => widget.is_fresh(),
            Downcasted::Table(widget) => widget.is_fresh(),
            Downcasted::Window(widget) => widget.is_fresh(),
        }
    }

    /// The kind of the widget.
    pub open spec fn kind(self) -> TypeId {
        match self {
            Downcasted::Area(_) => TypeId::Area,
            Downcasted::UniBox(_) => TypeId::UniBox,
            Downcasted::Button(_) => TypeId::Button,
            Downcasted::Checkbox(_) => TypeId::Checkbox,
            Downcasted::Combobox(_) => TypeId::Combobox,
            Downcasted::Form(_) => TypeId::Form,
            Downcasted::Grid(_) => TypeId::Grid,
            Downcasted::Group(_) => TypeId::Group,
            Downcasted::Label(_) => TypeId::Label,
            Downcasted::ProgressBar(_) => TypeId::ProgressBar,
            Downcasted::Slider(_) => TypeId::Slider,
            Downcasted::Spinbox(_) => TypeId::Spinbox,
            Downcasted::Tab(_) => TypeId::Tab,
            Downcasted::Table(_) => TypeId::Table,
            Downcasted::Window(_) => TypeId::Window,
        }
    }
}

impl Control {
    /// Makes of this control the widget that `kind` says it is, with no
    /// callback set. `kind` is what `TypeId::new` made of the control's type
    /// signature. A control of a kind that is not known stays what it is:
    /// there is no widget for it.
    pub fn downcast<F>(self, kind: TypeId) -> (r: Result<Downcasted<F>, Control>)
        ensures
            kind is Unknown <==> r is Err,
            r matches Ok(widget) ==> widget.kind() == kind && widget.control() == self
                && widget.is_fresh(),
            r matches Err(control) ==> control == self,
    {
        match kind {
            TypeId::Area => Ok(Downcasted::Area(Area::from_control(self))),
            TypeId::UniBox => Ok(Downcasted::UniBox(UniBox::from_control(self))),
            TypeId::Button => Ok(Downcasted::Button(Button::from_control(self))),
            TypeId::Checkbox => Ok(Downcasted::Checkbox(Checkbox::from_control(self))),
            TypeId::Combobox => Ok(Downcasted::Combobox(Combobox::from_control(self))),
            TypeId::Form => Ok(Downcasted::Form(Form::from_control(self))),
            TypeId::Grid => Ok(Downcasted::Grid(Grid::from_control(self))),
            TypeId::Group => Ok(Downcasted::Group(Group::from_control(self))),
            TypeId::Label => Ok(Downcasted::Label(Label::from_control(self))),
            TypeId::ProgressBar => Ok(Downcasted::ProgressBar(ProgressBar::from_control(self))),
            TypeId::Slider => Ok(Downcasted::Slider(Slider::from_control(self))),
            TypeId::Spinbox => Ok(Downcasted::Spinbox(Spinbox::from_control(self))),
            TypeId::Tab => Ok(Downcasted::Tab(Tab::from_control(self))),
            TypeId::Table => Ok(Downcasted::Table(Table::from_control(self))),
            TypeId::Window => Ok(Downcasted::Window(Window::from_control(self))),
            TypeId::Unknown(_) => Err(self),
        }
    }
}

} // verus!
