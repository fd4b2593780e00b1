use boing::call::Action;
use boing::call::ClosePolicy;
use boing::call::Constructor;
use boing::control::TypeId;
use boing::ffi::create_c_string;
use boing::ffi::NulError;
use boing::ui::InitGuard;
use boing::ui::Root;
use boing::ui::BENIGN_INIT_MESSAGE;
use boing::Button;
use boing::Call;
use boing::Control;
use boing::Error;
use boing::Label;
use boing::Ui;
use boing::Window;

fn destroy(target: usize) -> Call {
    Call::Do { action: Action::ControlDestroy, target }
}

fn session() -> Ui {
    let mut guard = InitGuard::new();
    let permit = guard.claim().unwrap();
    assert_eq!(permit.call(), Call::Init);
    Ui::new(permit, None).unwrap()
}

fn root(kind: TypeId, ptr: usize, is_child: bool) -> Root {
    let mut control = Control::new(ptr);
    if is_child {
        control.make_child();
    }
    Root { kind, control }
}

#[test]
fn first_claim_is_granted() {
    let mut guard = InitGuard::new();
    assert!(guard.claim().is_ok());
}

#[test]
fn second_claim_is_refused() {
    let mut guard = InitGuard::new();
    let _permit = guard.claim().unwrap();
    match guard.claim() {
        Err(e) => assert_eq!(e, Error::AlreadyInitedLibui),
        Ok(_) => panic!("a second session was let through"),
    }
}

#[test]
fn every_later_claim_is_refused() {
    let mut guard = InitGuard::new();
    let _permit = guard.claim().unwrap();
    for _ in 0..5 {
        assert!(guard.claim().is_err());
    }
}

#[test]
fn claim_stays_refused_after_a_failed_initialization() {
    let mut guard = InitGuard::new();
    let permit = guard.claim().unwrap();
    assert!(Ui::new(permit, Some(b"no display")).is_err());
    assert!(guard.claim().is_err());
}

#[test]
fn initialization_without_message_succeeds() {
    assert_eq!(Ui::init_unchecked(None), Ok(()));
    assert_eq!(Ui::init_result(Ok(())), Ok(()));
}

#[test]
fn initialization_with_message_fails_with_the_cause() {
    assert_eq!(
        Ui::init_unchecked(Some(b"no display")),
        Err(Error::LibuiFn { name: "uiInit", cause: Some("no display".to_string()) })
    );
    assert_eq!(
        Ui::init_result(Err(String::new())),
        Err(Error::LibuiFn { name: "uiInit", cause: Some(String::new()) })
    );
}

#[test]
fn benign_message_is_no_failure() {
    assert_eq!(
        Ui::init_unchecked(Some(
            b"error initializing libui: initializing Common Controls; code 0"
        )),
        Ok(())
    );
    assert_eq!(
        Ui::init_unchecked(Some(
            b"error initializing libui: initializing Common Controls; code 0 (The operation completed successfully.)"
        )),
        Ok(())
    );
    assert_eq!(Ui::init_result(Err(BENIGN_INIT_MESSAGE.to_string())), Ok(()));
}

#[test]
fn message_that_only_resembles_the_benign_one_is_a_failure() {
    let almost = "error initializing libui: initializing Common Controls; code 5";
    assert_eq!(
        Ui::init_result(Err(almost.to_string())),
        Err(Error::LibuiFn { name: "uiInit", cause: Some(almost.to_string()) })
    );
    let inside = " error initializing libui: initializing Common Controls; code 0";
    assert!(Ui::init_result(Err(inside.to_string())).is_err());
    let cut = "error initializing libui: initializing Common Controls; code";
    assert!(Ui::init_result(Err(cut.to_string())).is_err());
}

#[test]
fn session_reads_the_reply_of_the_toolkit() {
    let mut guard = InitGuard::new();
    let permit = guard.claim().unwrap();
    match Ui::new(permit, Some(b"boom")) {
        Err(e) => {
            assert_eq!(e, Error::LibuiFn { name: "uiInit", cause: Some("boom".to_string()) })
        }
        Ok(_) => panic!("a session was made of a failed initialization"),
    }
}

#[test]
fn run_enters_the_event_loop() {
    let ui = session();
    assert_eq!(ui.run(), Call::Main);
    assert_eq!(ui.run(), Call::Main);
}

#[test]
fn null_reply_is_the_failure_of_the_constructor() {
    let ui = session();
    let constructor = Constructor::HorizontalSeparator;
    assert_eq!(
        Ui::object_from_reply(&constructor, 0),
        Err(Error::LibuiFn { name: "uiNewHorizontalSeparator", cause: None })
    );
    match ui.adopt::<Label>(&Constructor::Label { text: create_c_string("x").unwrap() }, 0) {
        Err(e) => assert_eq!(e, Error::LibuiFn { name: "uiNewLabel", cause: None }),
        Ok(_) => panic!("a label was made of no object"),
    }
    match ui.adopt_menu(&Constructor::Menu { name: create_c_string("File").unwrap() }, 0) {
        Err(e) => assert_eq!(e, Error::LibuiFn { name: "uiNewMenu", cause: None }),
        Ok(_) => panic!("a menu was made of no object"),
    }
}

#[test]
fn reply_with_an_address_is_wrapped() {
    let ui = session();
    assert_eq!(Ui::object_from_reply(&Constructor::Tab, 0x500), Ok(0x500));
    let label = ui.adopt::<Label>(&Constructor::Grid, 0x500).unwrap();
    assert_eq!(label.as_ptr(), 0x500);
    assert!(!label.as_control().is_child());
}

#[test]
fn arena_keeps_every_widget_in_its_own_place() {
    let ui = session();
    let a = ui.adopt::<Button<u32>>(&Constructor::ColorButton, 0x10).unwrap();
    let b = ui.adopt::<Button<u32>>(&Constructor::ColorButton, 0x20).unwrap();
    let c = ui.adopt::<Label>(&Constructor::ColorButton, 0x30).unwrap();
    a.on_clicked(1);
    b.on_clicked(2);
    b.as_control_mut().make_child();
    assert_eq!(a.as_ptr(), 0x10);
    assert_eq!(b.as_ptr(), 0x20);
    assert_eq!(c.as_ptr(), 0x30);
    assert_eq!(a.on_clicked_callback(), Some(&mut 1));
    assert_eq!(b.on_clicked_callback(), Some(&mut 2));
    assert!(!a.as_control().is_child());
    assert!(b.as_control().is_child());
    assert!(!c.as_control().is_child());
}

#[test]
fn every_constructor_has_the_name_of_its_function() {
    let text = |s: &str| create_c_string(s).unwrap();
    assert_eq!(Constructor::HorizontalBox.name(), "uiNewHorizontalBox");
    assert_eq!(Constructor::VerticalBox.name(), "uiNewVerticalBox");
    assert_eq!(Constructor::Button { text: text("") }.name(), "uiNewButton");
    assert_eq!(Constructor::Checkbox { text: text("") }.name(), "uiNewCheckbox");
    assert_eq!(Constructor::ColorButton.name(), "uiNewColorButton");
    assert_eq!(Constructor::Combobox.name(), "uiNewCombobox");
    assert_eq!(Constructor::FontButton.name(), "uiNewFontButton");
    assert_eq!(Constructor::Grid.name(), "uiNewGrid");
    assert_eq!(Constructor::Group { title: text("") }.name(), "uiNewGroup");
    assert_eq!(Constructor::Label { text: text("") }.name(), "uiNewLabel");
    assert_eq!(Constructor::Menu { name: text("") }.name(), "uiNewMenu");
    assert_eq!(Constructor::MenuItem { menu: 1, text: text("") }.name(), "uiMenuAppendItem");
    assert_eq!(
        Constructor::MenuCheckItem { menu: 1, text: text("") }.name(),
        "uiMenuAppendCheckItem"
    );
    assert_eq!(Constructor::MenuQuitItem { menu: 1 }.name(), "uiMenuAppendQuitItem");
    assert_eq!(
        Constructor::MenuPreferencesItem { menu: 1 }.name(),
        "uiMenuAppendPreferencesItem"
    );
    assert_eq!(Constructor::MenuAboutItem { menu: 1 }.name(), "uiMenuAppendAboutItem");
    assert_eq!(Constructor::ProgressBar.name(), "uiNewProgressBar");
    assert_eq!(Constructor::RadioButtons.name(), "uiNewRadioButtons");
    assert_eq!(Constructor::HorizontalSeparator.name(), "uiNewHorizontalSeparator");
    assert_eq!(Constructor::VerticalSeparator.name(), "uiNewVerticalSeparator");
    assert_eq!(Constructor::Slider { min: 0, max: 1 }.name(), "uiNewSlider");
    assert_eq!(Constructor::Spinbox { min: 0, max: 1 }.name(), "uiNewSpinbox");
    assert_eq!(Constructor::Tab.name(), "uiNewTab");
    assert_eq!(Constructor::Table { model: 1, row_background: -1 }.name(), "uiNewTable");
    assert_eq!(Constructor::Entry.name(), "uiNewEntry");
    assert_eq!(Constructor::PasswordEntry.name(), "uiNewPasswordEntry");
    assert_eq!(Constructor::SearchEntry.name(), "uiNewSearchEntry");
    assert_eq!(Constructor::MultilineEntry.name(), "uiNewMultilineEntry");
    assert_eq!(
        Constructor::NonWrappingMultilineEntry.name(),
        "uiNewNonWrappingMultilineEntry"
    );
    assert_eq!(
        Constructor::Window { title: text(""), width: 1, height: 1, has_menubar: 0 }.name(),
        "uiNewWindow"
    );
}

#[test]
fn window_is_made_with_its_arguments_in_the_toolkits_form() {
    let ui = session();
    assert_eq!(
        ui.create_window("Hello World!", 640, 480, false),
        Ok(Call::New(Constructor::Window {
            title: create_c_string("Hello World!").unwrap(),
            width: 640,
            height: 480,
            has_menubar: 0,
        }))
    );
    assert_eq!(
        ui.create_window("", 65535, 0, true),
        Ok(Call::New(Constructor::Window {
            title: create_c_string("").unwrap(),
            width: 65535,
            height: 0,
            has_menubar: 1,
        }))
    );
}

#[test]
fn window_title_with_a_zero_byte_is_refused() {
    let ui = session();
    assert_eq!(
        ui.create_window("Hel\0lo", 1, 1, true),
        Err(Error::ConvertRustString(NulError { position: 3 }))
    );
}

#[test]
fn window_that_quits_on_close_registers_both_handlers() {
    let ui = session();
    let constructor = Constructor::Tab;
    let (window, calls) = ui.adopt_window::<u8>(&constructor, 0x900, true).unwrap();
    assert_eq!(window.as_ptr(), 0x900);
    assert!(!window.as_control().is_child());
    assert_eq!(
        calls,
        vec![
            Call::RegisterClosePolicy { target: 0x900, policy: ClosePolicy::Quit },
            Call::OnShouldQuit,
        ]
    );
}

#[test]
fn window_that_stays_on_close_registers_the_hiding_handler() {
    let ui = session();
    let constructor = Constructor::Tab;
    let (window, calls) = ui.adopt_window::<u8>(&constructor, 0x900, false).unwrap();
    assert_eq!(window.as_ptr(), 0x900);
    assert_eq!(calls, vec![Call::RegisterClosePolicy { target: 0x900, policy: ClosePolicy::Hide }]);
}

#[test]
fn window_is_not_made_of_no_object() {
    let ui = session();
    let constructor =
        Constructor::Window { title: create_c_string("t").unwrap(), width: 1, height: 1, has_menubar: 0 };
    match ui.adopt_window::<u8>(&constructor, 0, true) {
        Err(e) => assert_eq!(e, Error::LibuiFn { name: "uiNewWindow", cause: None }),
        Ok(_) => panic!("a window was made of no object"),
    }
}

#[test]
fn closing_never_lets_the_toolkit_destroy_the_window() {
    assert_eq!(ClosePolicy::of(true), ClosePolicy::Quit);
    assert_eq!(ClosePolicy::of(false), ClosePolicy::Hide);
    assert_eq!(ClosePolicy::Quit.on_closing(0x900), (Call::Quit, 0));
    assert_eq!(
        ClosePolicy::Hide.on_closing(0x900),
        (Call::Do { action: Action::ControlHide, target: 0x900 }, 0)
    );
    assert_eq!(Window::<u8>::reply_to_closing(), 0);
    assert_eq!(ClosePolicy::on_should_quit(), 1);
}

#[test]
fn teardown_of_nothing_asks_for_nothing() {
    assert_eq!(session().teardown(Vec::new()), Vec::new());
}

#[test]
fn end_of_the_session_ends_the_toolkits_work() {
    let ui = session();
    let calls = ui.teardown(vec![root(TypeId::Window, 0x2, false)]);
    assert_eq!(calls, vec![destroy(0x2)]);
    assert_eq!(ui.end(), Call::Uninit);
}

#[test]
fn widget_in_the_arena_hands_its_control_to_the_teardown() {
    let ui = session();
    let window = ui.adopt::<Window<u8>>(&Constructor::Tab, 0x10).unwrap();
    let button = ui.adopt::<Button<u8>>(&Constructor::Tab, 0x20).unwrap();
    let label = ui.adopt::<Label>(&Constructor::Tab, 0x30).unwrap();
    window.set_child(button.as_control_mut());
    let roots = vec![
        Root { kind: TypeId::Label, control: label.as_control_mut().hand_over() },
        Root { kind: TypeId::Button, control: button.as_control_mut().hand_over() },
        Root { kind: TypeId::Window, control: window.as_control_mut().hand_over() },
    ];
    assert!(window.as_control().is_child());
    assert!(label.as_control().is_child());
    assert_eq!(ui.teardown(roots), vec![destroy(0x10), destroy(0x30)]);
    assert_eq!(ui.end(), Call::Uninit);
}

#[test]
fn handed_over_control_has_one_owner() {
    let mut control = Control::new(0x10);
    let handed = control.hand_over();
    assert_eq!(handed.as_ptr(), 0x10);
    assert!(!handed.is_child());
    assert!(control.is_child());
    assert_eq!(control.release(), None);
    assert_eq!(handed.release(), Some(destroy(0x10)));
}

#[test]
fn handed_over_child_stays_a_child() {
    let mut control = Control::new(0x10);
    control.make_child();
    let handed = control.hand_over();
    assert_eq!(handed.release(), None);
    assert_eq!(control.release(), None);
}

#[test]
fn teardown_destroys_containers_before_leaves() {
    let roots = vec![
        root(TypeId::Button, 0x1, false),
        root(TypeId::Window, 0x2, false),
        root(TypeId::Label, 0x3, false),
        root(TypeId::UniBox, 0x4, false),
        root(TypeId::Unknown(9), 0x5, false),
    ];
    assert_eq!(
        session().teardown(roots),
        vec![destroy(0x2), destroy(0x4), destroy(0x1), destroy(0x3), destroy(0x5)]
    );
}

#[test]
fn teardown_leaves_children_to_their_parents() {
    // A window that holds a box that holds a button.
    let roots = vec![
        root(TypeId::Button, 0x30, true),
        root(TypeId::UniBox, 0x20, true),
        root(TypeId::Window, 0x10, false),
    ];
    assert_eq!(session().teardown(roots), vec![destroy(0x10)]);
}

#[test]
fn teardown_of_children_only_destroys_nothing() {
    let roots = vec![root(TypeId::Tab, 0x1, true), root(TypeId::Slider, 0x2, true)];
    assert_eq!(session().teardown(roots), Vec::new());
}

#[test]
fn control_is_adopted_under_the_name_of_its_function() {
    let ui = session();
    let image = ui.adopt_as::<boing::Image>("uiNewImage", 0x40).unwrap();
    assert_eq!(image.as_ptr(), 0x40);
    match ui.adopt_as::<boing::Image>("uiNewImage", 0) {
        Err(e) => assert_eq!(e, Error::LibuiFn { name: "uiNewImage", cause: None }),
        Ok(_) => panic!("an image was made of no object"),
    }
}
