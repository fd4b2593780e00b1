use std::collections::HashMap;

use boing::call::Action;
use boing::call::Attachment;
use boing::call::Constructor;
use boing::call::Event;
use boing::call::Getter;
use boing::call::Setter;
use boing::call::TextGetter;
use boing::call::TextSetter;
use boing::ffi::bool_from_int;
use boing::ffi::raw_text_from_c;
use boing::ffi::text_from_c;
use boing::ffi::to_u16;
use boing::ui::InitGuard;
use boing::Button;
use boing::Call;
use boing::Label;
use boing::Ui;
use boing::UniBox;
use boing::Window;

/// What a toolkit answers to a call.
#[derive(Debug, PartialEq)]
enum Reply {
    Nothing,
    Int(i32),
    Address(usize),
    Text(Vec<u8>),
}

/// A stand-in for the toolkit that keeps what the calls tell it.
struct Toolkit {
    next: usize,
    live: Vec<usize>,
    children: HashMap<usize, Vec<usize>>,
    numbers: Vec<(usize, Setter, i32)>,
    texts: HashMap<usize, Vec<u8>>,
    registered: Vec<(usize, Event)>,
    double_frees: usize,
}

impl Toolkit {
    fn new() -> Self {
        Toolkit {
            next: 0x1000,
            live: Vec::new(),
            children: HashMap::new(),
            numbers: Vec::new(),
            texts: HashMap::new(),
            registered: Vec::new(),
            double_frees: 0,
        }
    }

    fn destroy(&mut self, target: usize) {
        match self.live.iter().position(|&p| p == target) {
            Some(at) => {
                self.live.remove(at);
            }
            None => self.double_frees += 1,
        }
        for child in self.children.remove(&target).unwrap_or_default() {
            self.destroy(child);
        }
    }

    fn content(text: &boing::ffi::CText) -> Vec<u8> {
        let bytes = text.as_bytes_with_nul();
        bytes[..bytes.len() - 1].to_vec()
    }

    fn perform(&mut self, call: &Call) -> Reply {
        match call {
            Call::New(constructor) => {
                let ptr = self.next;
                self.next += 0x10;
                self.live.push(ptr);
                match constructor {
                    Constructor::Button { text } | Constructor::Label { text } => {
                        self.texts.insert(ptr, Self::content(text));
                    }
                    Constructor::Window { title, .. } => {
                        self.texts.insert(ptr, Self::content(title));
                    }
                    _ => {}
                }
                Reply::Address(ptr)
            }
            Call::BoxAppend { parent, child, .. } => {
                self.children.entry(*parent).or_default().push(*child);
                Reply::Nothing
            }
            Call::Attach { attachment: Attachment::WindowSetChild, parent, child } => {
                self.children.insert(*parent, vec![*child]);
                Reply::Nothing
            }
            Call::GetInt { getter: Getter::BoxNumChildren, target } => {
                Reply::Int(self.children.get(target).map_or(0, |c| c.len()) as i32)
            }
            Call::GetInt { getter: Getter::BoxPadded, target } => {
                let set = self.numbers.iter().rev().find(|(t, s, _)| t == target && *s == Setter::BoxSetPadded);
                Reply::Int(set.map_or(0, |(_, _, value)| *value))
            }
            Call::SetInt { setter: Setter::BoxDelete, target, value } => {
                self.children.get_mut(target).unwrap().remove(*value as usize);
                Reply::Nothing
            }
            Call::SetInt { setter, target, value } => {
                self.numbers.push((*target, *setter, *value));
                Reply::Nothing
            }
            Call::SetText { target, text, .. } => {
                self.texts.insert(*target, Self::content(text));
                Reply::Nothing
            }
            Call::GetText { target, .. } => Reply::Text(self.texts[target].clone()),
            Call::Register { event, target } => {
                self.registered.retain(|(t, e)| !(t == target && e == event));
                self.registered.push((*target, *event));
                Reply::Nothing
            }
            Call::Do { action: Action::ControlDestroy, target } => {
                self.destroy(*target);
                Reply::Nothing
            }
            _ => Reply::Nothing,
        }
    }

    fn make(&mut self, call: &Call) -> usize {
        match self.perform(call) {
            Reply::Address(ptr) => ptr,
            other => panic!("{:?}", other),
        }
    }

    fn ask(&mut self, call: &Call) -> i32 {
        match self.perform(call) {
            Reply::Int(value) => value,
            other => panic!("{:?}", other),
        }
    }

    fn read(&mut self, call: &Call) -> Vec<u8> {
        match self.perform(call) {
            Reply::Text(bytes) => bytes,
            other => panic!("{:?}", other),
        }
    }
}

fn session() -> Ui {
    let mut guard = InitGuard::new();
    Ui::new(guard.claim().unwrap(), None).unwrap()
}

#[test]
fn container_composition() {
    let ui = session();
    let mut toolkit = Toolkit::new();

    let call = ui.create_vertical_box();
    let column = UniBox::new(toolkit.make(&call));
    let mut leaves = Vec::new();
    for text in ["one", "two", "three"] {
        let call = ui.create_label(text).unwrap();
        let mut label = Label::new(toolkit.make(&call));
        let append = column.append_child(label.as_control_mut(), false);
        assert!(matches!(append, Call::BoxAppend { stretchy: 0, .. }));
        toolkit.perform(&append);
        leaves.push(label);
    }
    assert_eq!(to_u16(toolkit.ask(&column.child_count())), 3);

    toolkit.perform(&column.delete_child(1));
    assert_eq!(to_u16(toolkit.ask(&column.child_count())), 2);

    let first = toolkit.read(&leaves[0].text());
    let last = toolkit.read(&leaves[2].text());
    assert_eq!(text_from_c(&first), "one");
    assert_eq!(text_from_c(&last), "three");
    assert_eq!(toolkit.double_frees, 0);
}

#[test]
fn callback_replacement() {
    let mut toolkit = Toolkit::new();
    let mut log: Vec<&str> = Vec::new();
    let mut button: Button<fn(&mut Vec<&'static str>)> = Button::new(0x1000);

    fn a(log: &mut Vec<&'static str>) {
        log.push("A");
    }
    fn b(log: &mut Vec<&'static str>) {
        log.push("B");
    }
    let call = button.on_clicked(a);
    assert_eq!(call, Call::Register { event: Event::ButtonClicked, target: 0x1000 });
    toolkit.perform(&call);
    let call = button.on_clicked(b);
    toolkit.perform(&call);
    assert_eq!(toolkit.registered, vec![(0x1000, Event::ButtonClicked)]);

    // The button is clicked once.
    if let Some(callback) = button.on_clicked_callback() {
        callback(&mut log);
    }
    assert_eq!(log, vec!["B"]);
}

#[test]
fn callback_that_changes_as_it_runs() {
    let mut button: Button<Box<dyn FnMut() -> u32>> = Button::new(0x1000);
    assert!(button.on_clicked_callback().is_none());
    let mut count = 0;
    button.on_clicked(Box::new(move || {
        count += 1;
        count
    }));
    assert_eq!(button.on_clicked_callback().map(|f| f()), Some(1));
    assert_eq!(button.on_clicked_callback().map(|f| f()), Some(2));
}

#[test]
fn teardown_ordering() {
    let ui = session();
    let mut toolkit = Toolkit::new();

    let call = ui.create_window("main", 200, 200, false).unwrap();
    let window: Window<()> = Window::new(toolkit.make(&call));
    let call = ui.create_horizontal_box();
    let mut row = UniBox::new(toolkit.make(&call));
    let call = ui.create_button("ok").unwrap();
    let mut button: Button<()> = Button::new(toolkit.make(&call));

    let call = row.append_child(button.as_control_mut(), true);
    toolkit.perform(&call);
    let call = window.set_child(row.as_control_mut());
    toolkit.perform(&call);
    assert_eq!(toolkit.live.len(), 3);

    // The scopes end leaf first and root last; any other order does as well.
    for released in [button.into_control(), row.into_control(), window.into_control()] {
        if let Some(call) = released.release() {
            toolkit.perform(&call);
        }
    }
    assert!(toolkit.live.is_empty());
    assert_eq!(toolkit.double_frees, 0);
}

#[test]
fn teardown_ordering_root_first() {
    let mut toolkit = Toolkit::new();
    let ui = session();
    let window: Window<()> = Window::new(toolkit.make(&ui.create_window("w", 1, 1, true).unwrap()));
    let mut button: Button<()> = Button::new(toolkit.make(&ui.create_button("b").unwrap()));
    toolkit.perform(&window.set_child(button.as_control_mut()));

    for released in [window.into_control(), button.into_control()] {
        if let Some(call) = released.release() {
            toolkit.perform(&call);
        }
    }
    assert!(toolkit.live.is_empty());
    assert_eq!(toolkit.double_frees, 0);
}

#[test]
fn text_property_round_trip() {
    let ui = session();
    let mut toolkit = Toolkit::new();
    let label = Label::new(toolkit.make(&ui.create_label("").unwrap()));
    for text in ["", "plain", "Grüße, 世界! 🎈", "line\nbreak"] {
        let call = label.set_text(text).unwrap();
        assert_eq!(
            call,
            Call::SetText {
                text_setter: TextSetter::LabelSetText,
                target: label.as_ptr(),
                text: boing::ffi::create_c_string(text).unwrap(),
            }
        );
        toolkit.perform(&call);
        let ask = label.text();
        assert_eq!(ask, Call::GetText { text_getter: TextGetter::LabelText, target: label.as_ptr() });
        let reply = toolkit.read(&ask);
        assert_eq!(raw_text_from_c(&reply), Ok(text.to_string()));
        assert_eq!(text_from_c(&reply), text);
    }
}

#[test]
fn text_with_a_zero_byte_never_reaches_the_toolkit() {
    let ui = session();
    let mut toolkit = Toolkit::new();
    let label = Label::new(toolkit.make(&ui.create_label("before").unwrap()));
    assert!(label.set_text("cut\0off").is_err());
    assert!(ui.create_label("cut\0off").is_err());
    assert_eq!(text_from_c(&toolkit.read(&label.text())), "before");
}

#[test]
fn boolean_setter_is_idempotent() {
    let ui = session();
    let mut toolkit = Toolkit::new();
    let row = UniBox::new(toolkit.make(&ui.create_horizontal_box()));
    assert!(!bool_from_int(toolkit.ask(&row.is_padded())));
    for value in [true, false] {
        let first = row.set_padded(value);
        let second = row.set_padded(value);
        assert_eq!(first, second);
        toolkit.perform(&first);
        assert_eq!(bool_from_int(toolkit.ask(&row.is_padded())), value);
        toolkit.perform(&second);
        assert_eq!(bool_from_int(toolkit.ask(&row.is_padded())), value);
    }
}
