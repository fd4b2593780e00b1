//! The calls into the native toolkit that this crate asks for.
//!
//! A [`Call`] names one function of the toolkit and carries its arguments as
//! plain values. Objects are given by their addresses, truth values as 0 or 1,
//! text in the toolkit's form.

use vstd::prelude::*;
use vstd::string::*;

use crate::error::Error;
use crate::ffi::bool_to_int;
use crate::ffi::c_text;
use crate::ffi::create_c_string;
use crate::ffi::has_nul;
use crate::ffi::int_of_bool;
use crate::ffi::CText;

verus! {

/// A function of the toolkit that makes an object and gives its address, or
/// the address zero where it fails.
#[derive(Debug, PartialEq, Eq)]
pub enum Constructor {
    /// `uiNewHorizontalBox`.
    HorizontalBox,
    /// `uiNewVerticalBox`.
    VerticalBox,
    /// `uiNewButton`.
    Button { text: CText },
    /// `uiNewCheckbox`.
    Checkbox { text: CText },
    /// `uiNewColorButton`.
    ColorButton,
    /// `uiNewCombobox`.
    Combobox,
    /// `uiNewFontButton`.
    FontButton,
    /// `uiNewGrid`.
    Grid,
    /// `uiNewGroup`.
    Group { title: CText },
    /// `uiNewLabel`.
    Label { text: CText },
    /// `uiNewMenu`.
    Menu { name: CText },
    /// `uiMenuAppendItem`.
    MenuItem { menu: usize, text: CText },
    /// `uiMenuAppendCheckItem`.
    MenuCheckItem { menu: usize, text: CText },
    /// `uiMenuAppendQuitItem`.
    MenuQuitItem { menu: usize },
    /// `uiMenuAppendPreferencesItem`.
    MenuPreferencesItem { menu: usize },
    /// `uiMenuAppendAboutItem`.
    MenuAboutItem { menu: usize },
    /// `uiNewProgressBar`.
    ProgressBar,
    /// `uiNewRadioButtons`.
    RadioButtons,
    /// `uiNewHorizontalSeparator`.
    HorizontalSeparator,
    /// `uiNewVerticalSeparator`.
    VerticalSeparator,
    /// `uiNewSlider`.
    Slider { min: i32, max: i32 },
    /// `uiNewSpinbox`.
    Spinbox { min: i32, max: i32 },
    /// `uiNewTab`.
    Tab,
    /// `uiNewTable`, with the address of the model and the column that colours
    /// the rows, or -1.
    Table { model: usize, row_background: i32 },
    /// `uiNewEntry`.
    Entry,
    /// `uiNewPasswordEntry`.
    PasswordEntry,
    /// `uiNewSearchEntry`.
    SearchEntry,
    /// `uiNewMultilineEntry`.
    MultilineEntry,
    /// `uiNewNonWrappingMultilineEntry`.
    NonWrappingMultilineEntry,
    /// `uiNewWindow`.
    Window { title: CText, width: i32, height: i32, has_menubar: i32 },
}

impl Constructor {
    /// The name of the native function, as a sequence of characters.
    pub open spec fn name_spec(self) -> Seq<char> {
        match self {
            Constructor::HorizontalBox => "uiNewHorizontalBox"@,
            Constructor::VerticalBox => "uiNewVerticalBox"@,
            Constructor::Button { .. } => "uiNewButton"@,
            Constructor::Checkbox { .. } => "uiNewCheckbox"@,
            Constructor::ColorButton => "uiNewColorButton"@,
            Constructor::Combobox => "uiNewCombobox"@,
            Constructor::FontButton => "uiNewFontButton"@,
            Constructor::Grid => "uiNewGrid"@,
            Constructor::Group { .. } => "uiNewGroup"@,
            Constructor::Label { .. } => "uiNewLabel"@,
            Constructor::Menu { .. } => "uiNewMenu"@,
            Constructor::MenuItem { .. } => "uiMenuAppendItem"@,
            Constructor::MenuCheckItem { .. } => "uiMenuAppendCheckItem"@,
            Constructor::MenuQuitItem { .. } => "uiMenuAppendQuitItem"@,
            Constructor::MenuPreferencesItem { .. } => "uiMenuAppendPreferencesItem"@,
            Constructor::MenuAboutItem { .. } => "uiMenuAppendAboutItem"@,
            Constructor::ProgressBar => "uiNewProgressBar"@,
            Constructor::RadioButtons => "uiNewRadioButtons"@,
            Constructor::HorizontalSeparator => "uiNewHorizontalSeparator"@,
            Constructor::VerticalSeparator => "uiNewVerticalSeparator"@,
            Constructor::Slider { .. } => "uiNewSlider"@,
            Constructor::Spinbox { .. } => "uiNewSpinbox"@,
            Constructor::Tab => "uiNewTab"@,
            Constructor::Table { .. } => "uiNewTable"@,
            Constructor::Entry => "uiNewEntry"@,
            Constructor::PasswordEntry => "uiNewPasswordEntry"@,
            Constructor::SearchEntry => "uiNewSearchEntry"@,
            Constructor::MultilineEntry => "uiNewMultilineEntry"@,
            Constructor::NonWrappingMultilineEntry => "uiNewNonWrappingMultilineEntry"@,
            Constructor::Window { .. } => "uiNewWindow"@,
        }
    }

    /// The name of the native function, by which a failure is reported.
    pub fn name(&self) -> (name: &'static str)
        ensures
            name@ == self.name_spec(),
    {
        match self {
            Constructor::HorizontalBox => "uiNewHorizontalBox",
            Constructor::VerticalBox => "uiNewVerticalBox",
            Constructor::Button { .. } => "uiNewButton",
            Constructor::Checkbox { .. } => "uiNewCheckbox",
            Constructor::ColorButton => "uiNewColorButton",
            Constructor::Combobox => "uiNewCombobox",
            Constructor::FontButton => "uiNewFontButton",
            Constructor::Grid => "uiNewGrid",
            Constructor::Group { .. } => "uiNewGroup",
            Constructor::Label { .. } => "uiNewLabel",
            Constructor::Menu { .. } => "uiNewMenu",
            Constructor::MenuItem { .. } => "uiMenuAppendItem",
            Constructor::MenuCheckItem { .. } => "uiMenuAppendCheckItem",
            Constructor::MenuQuitItem { .. } => "uiMenuAppendQuitItem",
            Constructor::MenuPreferencesItem { .. } => "uiMenuAppendPreferencesItem",
            Constructor::MenuAboutItem { .. } => "uiMenuAppendAboutItem",
            Constructor::ProgressBar => "uiNewProgressBar",
            Constructor::RadioButtons => "uiNewRadioButtons",
            Constructor::HorizontalSeparator => "uiNewHorizontalSeparator",
            Constructor::VerticalSeparator => "uiNewVerticalSeparator",
            Constructor::Slider { .. } => "uiNewSlider",
            Constructor::Spinbox { .. } => "uiNewSpinbox",
            Constructor::Tab => "uiNewTab",
            Constructor::Table { .. } => "uiNewTable",
            Constructor::Entry => "uiNewEntry",
            Constructor::PasswordEntry => "uiNewPasswordEntry",
            Constructor::SearchEntry => "uiNewSearchEntry",
            Constructor::MultilineEntry => "uiNewMultilineEntry",
            Constructor::NonWrappingMultilineEntry => "uiNewNonWrappingMultilineEntry",
            Constructor::Window { .. } => "uiNewWindow",
        }
    }
}

/// A function of the toolkit that takes an object and nothing else, and gives
/// nothing back.
#[derive(Clone, Copy, Debug, PartialEq, Eq)]
pub enum Action {
    /// `uiControlDestroy`: the object and everything that it contains is gone
    /// after the call.
    ControlDestroy,
    /// `uiControlShow`.
    ControlShow,
    /// `uiControlHide`.
    ControlHide,
    /// `uiControlEnable`.
    ControlEnable,
    /// `uiControlDisable`.
    ControlDisable,
    /// `uiComboboxClear`.
    ComboboxClear,
    /// `uiMenuAppendSeparator`.
    MenuAppendSeparator,
    /// `uiMenuItemEnable`.
    MenuItemEnable,
    /// `uiMenuItemDisable`.
    MenuItemDisable,
}

/// A function of the toolkit that takes an object and gives an integer.
#[derive(Clone, Copy, Debug, PartialEq, Eq)]
pub enum Getter {
    /// `uiControlVisible`.
    ControlVisible,
    /// `uiControlEnabled`.
    ControlEnabled,
    /// `uiControlEnabledToUser`.
    ControlEnabledToUser,
    /// `uiBoxNumChildren`.
    BoxNumChildren,
    /// `uiBoxPadded`.
    BoxPadded,
    /// `uiCheckboxChecked`.
    CheckboxChecked,
    /// `uiComboboxNumItems`.
    ComboboxNumItems,
    /// `uiComboboxSelected`.
    ComboboxSelected,
    /// `uiGridPadded`.
    GridPadded,
    /// `uiGroupMargined`.
    GroupMargined,
    /// `uiMenuItemChecked`.
    MenuItemChecked,
    /// `uiEntryReadOnly`.
    EntryReadOnly,
    /// `uiMultilineEntryReadOnly`.
    MultilineEntryReadOnly,
    /// `uiProgressBarValue`.
    ProgressBarValue,
    /// `uiRadioButtonsSelected`.
    RadioButtonsSelected,
    /// `uiSliderValue`.
    SliderValue,
    /// `uiSliderHasToolTip`.
    SliderHasToolTip,
    /// `uiSpinboxValue`.
    SpinboxValue,
    /// `uiTabNumPages`.
    TabNumPages,
    /// `uiTableHeaderVisible`.
    TableHeaderVisible,
    /// `uiWindowFullscreen`.
    WindowFullscreen,
    /// `uiWindowBorderless`.
    WindowBorderless,
    /// `uiWindowMargined`.
    WindowMargined,
    /// `uiWindowResizeable`.
    WindowResizeable,
}

/// A function of the toolkit that takes an object and an index, and gives an
/// integer.
#[derive(Clone, Copy, Debug, PartialEq, Eq)]
pub enum IndexedGetter {
    /// `uiTabMargined`.
    TabMargined,
    /// `uiTableColumnWidth`.
    TableColumnWidth,
}

/// A function of the toolkit that takes an object and an integer, and gives
/// nothing back.
#[derive(Clone, Copy, Debug, PartialEq, Eq)]
pub enum Setter {
    /// `uiBoxDelete`.
    BoxDelete,
    /// `uiBoxSetPadded`.
    BoxSetPadded,
    /// `uiCheckboxSetChecked`.
    CheckboxSetChecked,
    /// `uiComboboxDelete`.
    ComboboxDelete,
    /// `uiComboboxSetSelected`.
    ComboboxSetSelected,
    /// `uiGridSetPadded`.
    GridSetPadded,
    /// `uiGroupSetMargined`.
    GroupSetMargined,
    /// `uiMenuItemSetChecked`.
    MenuItemSetChecked,
    /// `uiEntrySetReadOnly`.
    EntrySetReadOnly,
    /// `uiMultilineEntrySetReadOnly`.
    MultilineEntrySetReadOnly,
    /// `uiProgressBarSetValue`.
    ProgressBarSetValue,
    /// `uiRadioButtonsSetSelected`.
    RadioButtonsSetSelected,
    /// `uiSliderSetValue`.
    SliderSetValue,
    /// `uiSliderSetHasToolTip`.
    SliderSetHasToolTip,
    /// `uiSpinboxSetValue`.
    SpinboxSetValue,
    /// `uiTabDelete`.
    TabDelete,
    /// `uiTableHeaderSetVisible`.
    TableHeaderSetVisible,
    /// `uiWindowSetFullscreen`.
    WindowSetFullscreen,
    /// `uiWindowSetBorderless`.
    WindowSetBorderless,
    /// `uiWindowSetMargined`.
    WindowSetMargined,
    /// `uiWindowSetResizeable`.
    WindowSetResizeable,
}

/// A function of the toolkit that takes an object and two integers, and gives
/// nothing back.
#[derive(Clone, Copy, Debug, PartialEq, Eq)]
pub enum PairSetter {
    /// `uiSliderSetRange`, with the least and the greatest value.
    SliderSetRange,
    /// `uiTabSetMargined`, with the page and the truth value.
    TabSetMargined,
    /// `uiTableColumnSetWidth`, with the column and the width.
    TableColumnSetWidth,
    /// `uiWindowSetContentSize`, with the width and the height.
    WindowSetContentSize,
}

/// A function of the toolkit that takes an object and gives text, which the
/// caller frees with `uiFreeText` once it is copied.
#[derive(Clone, Copy, Debug, PartialEq, Eq)]
pub enum TextGetter {
    /// `uiButtonText`.
    ButtonText,
    /// `uiCheckboxText`.
    CheckboxText,
    /// `uiGroupTitle`.
    GroupTitle,
    /// `uiLabelText`.
    LabelText,
    /// `uiEntryText`.
    EntryText,
    /// `uiMultilineEntryText`.
    MultilineEntryText,
    /// `uiWindowTitle`.
    WindowTitle,
}

/// A function of the toolkit that takes an object and text, and gives nothing
/// back.
#[derive(Clone, Copy, Debug, PartialEq, Eq)]
pub enum TextSetter {
    /// `uiButtonSetText`.
    ButtonSetText,
    /// `uiCheckboxSetText`.
    CheckboxSetText,
    /// `uiComboboxAppend`.
    ComboboxAppend,
    /// `uiGroupSetTitle`.
    GroupSetTitle,
    /// `uiLabelSetText`.
    LabelSetText,
    /// `uiEntrySetText`.
    EntrySetText,
    /// `uiMultilineEntrySetText`.
    MultilineEntrySetText,
    /// `uiMultilineEntryAppend`.
    MultilineEntryAppend,
    /// `uiRadioButtonsAppend`.
    RadioButtonsAppend,
    /// `uiWindowSetTitle`.
    WindowSetTitle,
}

/// A function of the toolkit that makes one object the child of another. From
/// then on the parent destroys the child when it is destroyed itself.
#[derive(Clone, Copy, Debug, PartialEq, Eq)]
pub enum Attachment {
    /// `uiGroupSetChild`.
    GroupSetChild,
    /// `uiWindowSetChild`.
    WindowSetChild,
}

/// An event of an object for which the toolkit takes a callback.
#[derive(Clone, Copy, Debug, PartialEq, Eq)]
pub enum Event {
    /// `uiButtonOnClicked`.
    ButtonClicked,
    /// `uiCheckboxOnToggled`.
    CheckboxToggled,
    /// `uiColorButtonOnChanged`.
    ColorButtonChanged,
    /// `uiComboboxOnSelected`.
    ComboboxSelected,
    /// `uiFontButtonOnChanged`.
    FontButtonChanged,
    /// `uiMenuItemOnClicked`.
    MenuItemClicked,
    /// `uiEntryOnChanged`.
    EntryChanged,
    /// `uiMultilineEntryOnChanged`.
    MultilineEntryChanged,
    /// `uiRadioButtonsOnSelected`.
    RadioButtonsSelected,
    /// `uiSliderOnChanged`.
    SliderChanged,
    /// `uiSpinboxOnChanged`.
    SpinboxChanged,
    /// `uiWindowOnContentSizeChanged`.
    WindowContentSizeChanged,
    /// `uiWindowOnClosing`.
    WindowClosing,
}

/// What a window does by itself when the user asks it to close.
#[derive(Clone, Copy, Debug, PartialEq, Eq)]
pub enum ClosePolicy {
    /// The event loop is told to stop.
    Quit,
    /// The window is hidden.
    Hide,
}

/// One call into the toolkit.
#[derive(Debug, PartialEq, Eq)]
pub enum Call {
    /// `uiInit`. The reply is the toolkit's message, or none where it succeeded.
    Init,
    /// `uiMain`: runs the event loop until it is told to stop.
    Main,
    /// `uiQuit`: tells the event loop to stop.
    Quit,
    /// `uiUninit`: ends the toolkit's work in this process.
    Uninit,
    /// `uiOnShouldQuit`, with a callback that agrees to quit.
    OnShouldQuit,
    /// The constructor. The reply is the address of the new object, or zero.
    New(Constructor),
    /// The function, on the object at `target`.
    Do { action: Action, target: usize },
    /// The function, on the object at `target`. The reply is an integer.
    GetInt { getter: Getter, target: usize },
    /// The function, on the object at `target`. The reply is an integer.
    GetIntAt { indexed_getter: IndexedGetter, target: usize, index: i32 },
    /// The function, on the object at `target`.
    SetInt { setter: Setter, target: usize, value: i32 },
    /// The function, on the object at `target`.
    SetPair { pair_setter: PairSetter, target: usize, first: i32, second: i32 },
    /// The function, on the object at `target`. The reply is the bytes of the
    /// text, without the closing zero byte.
    GetText { text_getter: TextGetter, target: usize },
    /// The function, on the object at `target`.
    SetText { text_setter: TextSetter, target: usize, text: CText },
    /// `uiComboboxInsertAt`.
    ComboboxInsertAt { target: usize, index: i32, text: CText },
    /// `uiMsgBox`.
    MsgBox { window: usize, title: CText, description: CText },
    /// `uiMsgBoxError`.
    MsgBoxError { window: usize, title: CText, description: CText },
    /// The function, which makes the object at `child` a child of the one at
    /// `parent`.
    Attach { attachment: Attachment, parent: usize, child: usize },
    /// `uiBoxAppend`.
    BoxAppend { parent: usize, child: usize, stretchy: i32 },
    /// `uiTabAppend`.
    TabAppend { parent: usize, name: CText, child: usize },
    /// `uiTabInsertAt`.
    TabInsertAt { parent: usize, name: CText, before: i32, child: usize },
    /// The registration of the callback that the object at `target` holds in
    /// its slot for `event`. It takes the place of an earlier registration for
    /// the same event.
    Register { event: Event, target: usize },
    /// `uiWindowOnClosing`, with a callback that does what `policy` says and
    /// then keeps the window.
    RegisterClosePolicy { target: usize, policy: ClosePolicy },
    /// A read of the type signature in the object at `target`. The reply is an
    /// unsigned integer.
    ControlTypeSignature { target: usize },
    /// `uiControlHandle`. The reply is an address.
    ControlHandle { target: usize },
    /// `uiWindowContentSize`. The reply is the width and the height.
    WindowContentSize { target: usize },
    /// `uiFontButtonFont`. The reply is the font's descriptor, which the caller
    /// frees with `uiFreeFontButtonFont` once it is copied.
    FontButtonFont { target: usize },
    /// `uiImageAppend`, with the pixels as bytes.
    ImageAppend { target: usize, pixels: Vec<u8>, width: i32, height: i32, byte_stride: i32 },
}

impl Call {
    /// `self` hands `content`, in the toolkit's form, to `setter` on the object
    /// at `target`.
    pub open spec fn is_set_text(self, setter: TextSetter, target: usize, content: Seq<u8>) -> bool {
        self matches Call::SetText { text_setter: s, target: t, text } && s == setter && t == target
            && text@ == c_text(content)
    }

    /// `self` makes the control at `child` the content of a new last page of the
    /// tab at `parent`, under the name `content`.
    pub open spec fn is_tab_append(self, parent: usize, content: Seq<u8>, child: usize) -> bool {
        self matches Call::TabAppend { parent: p, name, child: c } && p == parent && c == child
            && name@ == c_text(content)
    }

    /// `self` makes the control at `child` the content of a new page of the tab
    /// at `parent`, before the page at `before` and under the name `content`.
    pub open spec fn is_tab_insert_at(
        self,
        parent: usize,
        content: Seq<u8>,
        before: i32,
        child: usize,
    ) -> bool {
        self matches Call::TabInsertAt { parent: p, name, before: b, child: c } && p == parent
            && b == before && c == child && name@ == c_text(content)
    }

    /// `self` shows a message with the given title and description over the
    /// window at `window`, as an error where `as_error` says so.
    pub open spec fn is_msg_box(
        self,
        as_error: bool,
        window: usize,
        title: Seq<u8>,
        description: Seq<u8>,
    ) -> bool {
        if as_error {
            self matches Call::MsgBoxError { window: w, title: t, description: d } && w == window
                && t@ == c_text(title) && d@ == c_text(description)
        } else {
            self matches Call::MsgBox { window: w, title: t, description: d } && w == window && t@
                == c_text(title) && d@ == c_text(description)
        }
    }

    /// `self` makes a window with the given title, size and menubar.
    pub open spec fn is_new_window(
        self,
        title: Seq<u8>,
        width: i32,
        height: i32,
        has_menubar: i32,
    ) -> bool {
        self matches Call::New(Constructor::Window { title: t, width: w, height: h, has_menubar: m })
            && t@ == c_text(title) && w == width && h == height && m == has_menubar
    }

    /// `self` asks the toolkit to destroy the object at `target`.
    pub open spec fn is_destroy_of(self, target: usize) -> bool {
        self == (Call::Do { action: Action::ControlDestroy, target })
    }
}

/// The call that hands `text` to `setter` on the object at `target`, or the
/// error where `text` holds a zero byte.
pub fn set_text_call(setter: TextSetter, target: usize, text: &str) -> (r: Result<Call, Error>)
    ensures
        r is Ok <==> !has_nul(text.spec_bytes()),
        r matches Ok(call) ==> call.is_set_text(setter, target, text.spec_bytes()),
        r matches Err(e) ==> e.is_nul_in(text.spec_bytes()),
{
    match create_c_string(text) {
        Ok(text) => Ok(Call::SetText { text_setter: setter, target, text }),
        Err(e) => Err(Error::ConvertRustString(e)),
    }
}

/// The call that sets a truth value by `setter` on the object at `target`.
pub fn set_bool_call(setter: Setter, target: usize, value: bool) -> (call: Call)
    ensures
        call == (Call::SetInt { setter, target, value: int_of_bool(value) }),
{
    Call::SetInt { setter, target, value: bool_to_int(value) }
}

} // verus!
