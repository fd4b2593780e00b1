//! An application window.

use vstd::prelude::*;
use vstd::string::*;

use crate::call::Action;
use crate::call::Attachment;
use crate::call::Call;
use crate::call::ClosePolicy;
use crate::call::Constructor;
use crate::call::Event;
use crate::call::Getter;
use crate::call::PairSetter;
use crate::call::Setter;
use crate::call::TextGetter;
use crate::call::TextSetter;
use crate::call::set_bool_call;
use crate::call::set_text_call;
use crate::callback::Slot;
use crate::control::Control;
use crate::control::Op;
use crate::error::Error;
use crate::ffi::bool_to_int;
use crate::ffi::create_c_string;
use crate::ffi::has_nul;
use crate::ffi::int_of_bool;
use crate::ffi::text_from_c;
use crate::ui::FromControl;
use crate::ui::Ui;

verus! {

impl Ui {
    /// The call that makes a window with the given title and size in pixels,
    /// with a menubar where `has_menubar` says so; or the error where the title
    /// holds a zero byte. `adopt_window` reads the reply.
    pub fn create_window(&self, title: &str, width: u16, height: u16, has_menubar: bool) -> (r:
        Result<Call, Error>)
        ensures
            r is Ok <==> !has_nul(title.spec_bytes()),
            r matches Ok(call) ==> call.is_new_window(
                title.spec_bytes(),
                width as i32,
                height as i32,
                int_of_bool(has_menubar),
            ),
            r matches Err(e) ==> e.is_nul_in(title.spec_bytes()),
    {
        match create_c_string(title) {
            Ok(title) => Ok(
                Call::New(
                    Constructor::Window {
                        title,
                        width: width as i32,
                        height: height as i32,
                        has_menubar: bool_to_int(has_menubar),
                    },
                ),
            ),
            Err(e) => Err(Error::ConvertRustString(e)),
        }
    }

    /// Reads the reply to the constructor of a window. Where the toolkit made
    /// one, the result is the window, kept in the arena, and the calls that
    /// settle what it does when the user asks it to close: with
    /// `should_quit_on_close` it stops the event loop, and the toolkit is told
    /// that quitting is agreed to; without, it is hidden. Either way the toolkit
    /// does not destroy the window then. Where the toolkit made no window, the
    /// result is the failure of the constructor.
    pub fn adopt_window<F>(
        &self,
        constructor: &Constructor,
        obj: usize,
        should_quit_on_close: bool,
    ) -> (r: Result<(&mut Window<F>, Vec<Call>), Error>)
        ensures
            obj == 0 <==> r is Err,
            r matches Ok(pair) ==> pair.0.control().address() == obj && !pair.0.control().child()
                && pair.0.is_fresh() && pair.1@ == close_policy_calls(obj, should_quit_on_close),
            r matches Err(e) ==> e.is_failure_of(constructor.name_spec()),
    {
        match self.adopt::<Window<F>>(constructor, obj) {
            Ok(window) => {
                let policy = ClosePolicy::of(should_quit_on_close);
                let mut calls: Vec<Call> = Vec::new();
                calls.push(Call::RegisterClosePolicy { target: window.as_ptr(), policy });
                if should_quit_on_close {
                    calls.push(Call::OnShouldQuit);
                }
                proof {
                    assert(calls@ =~= close_policy_calls(obj, should_quit_on_close));
                }
                Ok((window, calls))
            },
            Err(e) => Err(e),
        }
    }
}

/// The calls that settle what the window at `target` does by itself when the
/// user asks it to close.
pub open spec fn close_policy_calls(target: usize, should_quit_on_close: bool) -> Seq<Call> {
    if should_quit_on_close {
        seq![
            Call::RegisterClosePolicy { target, policy: ClosePolicy::Quit },
            Call::OnShouldQuit,
        ]
    } else {
        seq![Call::RegisterClosePolicy { target, policy: ClosePolicy::Hide }]
    }
}

impl ClosePolicy {
    /// The policy of a window that quits the application when it is closed, or
    /// of one that does not.
    pub fn of(should_quit_on_close: bool) -> (policy: ClosePolicy)
        ensures
            policy == if should_quit_on_close {
                ClosePolicy::Quit
            } else {
                ClosePolicy::Hide
            },
    {
        if should_quit_on_close {
            ClosePolicy::Quit
        } else {
            ClosePolicy::Hide
        }
    }

    /// What the window at `window` does under this policy when the user asks
    /// it to close: the call to make, and what the toolkit is told after it.
    /// The toolkit is told every time that it shall not destroy the window.
    pub fn on_closing(&self, window: usize) -> (r: (Call, i32))
        ensures
            r.0 == match *self {
                ClosePolicy::Quit => Call::Quit,
                ClosePolicy::Hide => Call::Do { action: Action::ControlHide, target: window },
            },
            r.1 == int_of_bool(false),
    {
        match self {
            ClosePolicy::Quit => (Call::Quit, bool_to_int(false)),
            ClosePolicy::Hide => (
                Call::Do { action: Action::ControlHide, target: window },
                bool_to_int(false),
            ),
        }
    }

    /// What the toolkit is told when it asks whether the application may quit:
    /// that it may.
    pub fn on_should_quit() -> (reply: i32)
        ensures
            reply == int_of_bool(true),
    {
        bool_to_int(true)
    }
}

/// An application window.
#[derive(Debug)]
pub struct Window<F> {
    inner: Control,
    on_content_size_changed: Slot<F>,
    on_closing: Slot<F>,
}

impl<F> FromControl for Window<F> {
    closed spec fn control(&self) -> Control {
        self.inner
    }

    open spec fn is_fresh(&self) -> bool {
        self.content_size_changed_callback() is None && self.closing_callback() is None
    }

    fn from_control(control: Control) -> (widget: Self) {
        Window {
            inner: control,
            on_content_size_changed: Slot::empty(),
            on_closing: Slot::empty(),
        }
    }
}

impl<F> Window<F> {
    /// The callback that runs when the content size of this window changes, if
    /// one is set.
    pub closed spec fn content_size_changed_callback(&self) -> Option<F> {
        self.on_content_size_changed.held()
    }

    /// The callback that runs when this window is requested to close, if one is
    /// set.
    pub closed spec fn closing_callback(&self) -> Option<F> {
        self.on_closing.held()
    }

    /// Wraps the native window at `ptr`, which this side is to destroy.
    pub fn new(ptr: usize) -> (widget: Self)
        requires
            ptr != 0,
        ensures
            widget.control().address() == ptr,
            !widget.control().child(),
            widget.is_fresh(),
    {
        Self::from_control(Control::new(ptr))
    }

    /// The address of the native window. It is not zero.
    pub fn as_ptr(&self) -> (ptr: usize)
        ensures
            ptr == self.control().address(),
            ptr != 0,
    {
        self.inner.as_ptr()
    }

    /// The control inside the window.
    pub fn as_control(&self) -> (control: &Control)
        ensures
            *control == self.control(),
    {
        &self.inner
    }

    /// Gives up the window for the control inside it.
    pub fn into_control(self) -> (control: Control)
        ensures
            control == self.control(),
    {
        self.inner
    }

    /// The control inside the window, to change it.
    pub fn as_control_mut(&mut self) -> (control: &mut Control)
        ensures
            *control == old(self).control(),
            final(self).control() == *final(control),
            final(self).content_size_changed_callback() == old(self).content_size_changed_callback(),
            final(self).closing_callback() == old(self).closing_callback(),
    {
        &mut self.inner
    }

    /// The call that asks for the title of this window. The reply is text in
    /// the toolkit's form, read by `text_from_c` or `raw_text_from_c`.
    pub fn title(&self) -> (call: Call)
        ensures
            call == (Call::GetText {
                text_getter: TextGetter::WindowTitle,
                target: self.control().address(),
            }),
    {
        Call::GetText { text_getter: TextGetter::WindowTitle, target: self.inner.as_ptr() }
    }

    /// The call that sets the title of this window, or the error where the text
    /// holds a zero byte.
    pub fn set_title(&self, title: &str) -> (r: Result<Call, Error>)
        ensures
            r is Ok <==> !has_nul(title.spec_bytes()),
            r matches Ok(call) ==> call.is_set_text(
                TextSetter::WindowSetTitle,
                self.control().address(),
                title.spec_bytes(),
            ),
            r matches Err(e) ==> e.is_nul_in(title.spec_bytes()),
    {
        set_text_call(TextSetter::WindowSetTitle, self.inner.as_ptr(), title)
    }

    /// Sets the callback for when the content size of this window changes, in
    /// place of the one set before, and gives the call that registers it.
    pub fn on_content_size_changed(&mut self, callback: F) -> (call: Call)
        ensures
            final(self).content_size_changed_callback() == Some(callback),
            final(self).control() == old(self).control(),
            final(self).closing_callback() == old(self).closing_callback(),
            call == (Call::Register {
                event: Event::WindowContentSizeChanged,
                target: old(self).control().address(),
            }),
    {
        let _ = self.on_content_size_changed.set(callback);
        Call::Register { event: Event::WindowContentSizeChanged, target: self.inner.as_ptr() }
    }

    /// The callback to run now that the content size of this window changed.
    pub fn on_content_size_changed_callback(&mut self) -> (callback: Option<&mut F>)
        ensures
            match callback {
                Some(f) => old(self).content_size_changed_callback() == Some(*f)
                    && final(self).content_size_changed_callback() == Some(*final(f)),
                None => old(self).content_size_changed_callback() is None
                    && final(self).content_size_changed_callback() is None,
            },
            final(self).control() == old(self).control(),
            final(self).closing_callback() == old(self).closing_callback(),
    {
        self.on_content_size_changed.get_mut()
    }

    /// Sets the callback for when this window is requested to close, in place
    /// of the one set before and of what the window did by itself, and gives
    /// the call that registers it. After the callback the window stays: see
    /// `reply_to_closing`.
    pub fn on_closing(&mut self, callback: F) -> (call: Call)
        ensures
            final(self).closing_callback() == Some(callback),
            final(self).control() == old(self).control(),
            final(self).content_size_changed_callback() == old(self).content_size_changed_callback(),
            call == (Call::Register {
                event: Event::WindowClosing,
                target: old(self).control().address(),
            }),
    {
        let _ = self.on_closing.set(callback);
        Call::Register { event: Event::WindowClosing, target: self.inner.as_ptr() }
    }

    /// The callback to run now that this window was requested to close.
    pub fn on_closing_callback(&mut self) -> (callback: Option<&mut F>)
        ensures
            match callback {
                Some(f) => old(self).closing_callback() == Some(*f)
                    && final(self).closing_callback() == Some(*final(f)),
                None => old(self).closing_callback() is None
                    && final(self).closing_callback() is None,
            },
            final(self).control() == old(self).control(),
            final(self).content_size_changed_callback() == old(self).content_size_changed_callback(),
    {
        self.on_closing.get_mut()
    }

    /// The call that asks whether this window is fullscreen. The reply is a
    /// truth value in the toolkit's form. Windows are not fullscreen by
    /// default.
    pub fn is_fullscreen(&self) -> (call: Call)
        ensures
            call == (Call::GetInt {
                getter: Getter::WindowFullscreen,
                target: self.control().address(),
            }),
    {
        Call::GetInt { getter: Getter::WindowFullscreen, target: self.inner.as_ptr() }
    }

    /// The call that sets whether this window is fullscreen.
    pub fn set_fullscreen(&self, value: bool) -> (call: Call)
        ensures
            call == (Call::SetInt {
                setter: Setter::WindowSetFullscreen,
                target: self.control().address(),
                value: int_of_bool(value),
            }),
    {
        set_bool_call(Setter::WindowSetFullscreen, self.inner.as_ptr(), value)
    }

    /// The call that asks whether this window is borderless. The reply is a
    /// truth value in the toolkit's form. Windows are bordered by default.
    pub fn is_borderless(&self) -> (call: Call)
        ensures
            call == (Call::GetInt {
                getter: Getter::WindowBorderless,
                target: self.control().address(),
            }),
    {
        Call::GetInt { getter: Getter::WindowBorderless, target: self.inner.as_ptr() }
    }

    /// The call that sets whether this window is borderless.
    pub fn set_borderless(&self, value: bool) -> (call: Call)
        ensures
            call == (Call::SetInt {
                setter: Setter::WindowSetBorderless,
                target: self.control().address(),
                value: int_of_bool(value),
            }),
    {
        set_bool_call(Setter::WindowSetBorderless, self.inner.as_ptr(), value)
    }

    /// Makes `child` the child control of this window, which destroys it from
    /// now on, and gives the call that tells the toolkit.
    pub fn set_child(&self, child: &mut Control) -> (call: Call)
        ensures
            *final(child) == old(child).after(Op::MakeChild),
            final(child).child(),
            final(child).address() == old(child).address(),
            call == (Call::Attach {
                attachment: Attachment::WindowSetChild,
                parent: self.control().address(),
                child: old(child).address(),
            }),
    {
        child.make_child();
        Call::Attach {
            attachment: Attachment::WindowSetChild,
            parent: self.inner.as_ptr(),
            child: child.as_ptr(),
        }
    }

    /// The call that asks whether this window has margins. The reply is a truth
    /// value in the toolkit's form.
    pub fn is_margined(&self) -> (call: Call)
        ensures
            call == (Call::GetInt {
                getter: Getter::WindowMargined,
                target: self.control().address(),
            }),
    {
        Call::GetInt { getter: Getter::WindowMargined, target: self.inner.as_ptr() }
    }

    /// The call that sets whether this window has margins.
    pub fn set_margined(&self, value: bool) -> (call: Call)
        ensures
            call == (Call::SetInt {
                setter: Setter::WindowSetMargined,
                target: self.control().address(),
                value: int_of_bool(value),
            }),
    {
        set_bool_call(Setter::WindowSetMargined, self.inner.as_ptr(), value)
    }

    /// The call that asks whether this window is resizeable. The reply is a
    /// truth value in the toolkit's form.
    pub fn is_resizeable(&self) -> (call: Call)
        ensures
            call == (Call::GetInt {
                getter: Getter::WindowResizeable,
                target: self.control().address(),
            }),
    {
        Call::GetInt { getter: Getter::WindowResizeable, target: self.inner.as_ptr() }
    }

    /// The call that sets whether this window is resizeable.
    pub fn set_resizeable(&self, value: bool) -> (call: Call)
        ensures
            call == (Call::SetInt {
                setter: Setter::WindowSetResizeable,
                target: self.control().address(),
                value: int_of_bool(value),
            }),
    {
        set_bool_call(Setter::WindowSetResizeable, self.inner.as_ptr(), value)
    }

    /// The call that sets the inner size of this window.
    pub fn set_content_size(&self, width: u16, height: u16) -> (call: Call)
        ensures
            call == (Call::SetPair {
                pair_setter: PairSetter::WindowSetContentSize,
                target: self.control().address(),
                first: width as i32,
                second: height as i32,
            }),
    {
        Call::SetPair {
            pair_setter: PairSetter::WindowSetContentSize,
            target: self.inner.as_ptr(),
            first: width as i32,
            second: height as i32,
        }
    }

    /// The call that asks for the inner size of this window. The reply is the
    /// width and the height, each a count in the toolkit's form.
    pub fn content_size(&self) -> (call: Call)
        ensures
            call == (Call::WindowContentSize { target: self.control().address() }),
    {
        Call::WindowContentSize { target: self.inner.as_ptr() }
    }

    /// What the toolkit is told after the callback for a request to close has
    /// run: that it shall not destroy the window. The window stays until this
    /// side destroys it, so no wrapper is left behind with the address of a
    /// window that is gone.
    pub fn reply_to_closing() -> (reply: i32)
        ensures
            reply == int_of_bool(false),
    {
        bool_to_int(false)
    }

    /// The call that shows a message with the given title and description over
    /// this window, or the error where one of the two holds a zero byte: that
    /// of the title where both do.
    pub fn present_alert(&self, title: &str, desc: &str) -> (r: Result<Call, Error>)
        ensures
            r is Ok <==> !has_nul(title.spec_bytes()) && !has_nul(desc.spec_bytes()),
            r matches Ok(call) ==> call.is_msg_box(
                false,
                self.control().address(),
                title.spec_bytes(),
                desc.spec_bytes(),
            ),
            r matches Err(e) ==> if has_nul(title.spec_bytes()) {
                e.is_nul_in(title.spec_bytes())
            } else {
                e.is_nul_in(desc.spec_bytes())
            },
    {
        let title = match create_c_string(title) {
            Ok(title) => title,
            Err(e) => {
                return Err(Error::ConvertRustString(e));
            },
        };
        let description = match create_c_string(desc) {
            Ok(desc) => desc,
            Err(e) => {
                return Err(Error::ConvertRustString(e));
            },
        };
        Ok(Call::MsgBox { window: self.inner.as_ptr(), title, description })
    }

    /// The call that shows an error message with the given title and description over
    /// this window, or the error where one of the two holds a zero byte: that
    /// of the title where both do.
    pub fn present_error(&self, title: &str, desc: &str) -> (r: Result<Call, Error>)
        ensures
            r is Ok <==> !has_nul(title.spec_bytes()) && !has_nul(desc.spec_bytes()),
            r matches Ok(call) ==> call.is_msg_box(
                true,
                self.control().address(),
                title.spec_bytes(),
                desc.spec_bytes(),
            ),
            r matches Err(e) ==> if has_nul(title.spec_bytes()) {
                e.is_nul_in(title.spec_bytes())
            } else {
                e.is_nul_in(desc.spec_bytes())
            },
    {
        let title = match create_c_string(title) {
            Ok(title) => title,
            Err(e) => {
                return Err(Error::ConvertRustString(e));
            },
        };
        let description = match create_c_string(desc) {
            Ok(desc) => desc,
            Err(e) => {
                return Err(Error::ConvertRustString(e));
            },
        };
        Ok(Call::MsgBoxError { window: self.inner.as_ptr(), title, description })
    }
}

} // verus!
