use boing::call::Action;
use boing::call::Getter;
use boing::control::TypeId;
use boing::Call;
use boing::Control;

fn destroy(target: usize) -> Call {
    Call::Do { action: Action::ControlDestroy, target }
}

#[test]
fn new_control_is_owned() {
    let control = Control::new(0x1000);
    assert_eq!(control.as_ptr(), 0x1000);
    assert!(!control.is_child());
}

#[test]
fn owned_control_is_destroyed_on_release() {
    assert_eq!(Control::new(0x1000).release(), Some(destroy(0x1000)));
}

#[test]
fn child_is_not_destroyed_on_release() {
    let mut control = Control::new(0x1000);
    control.make_child();
    assert!(control.is_child());
    assert_eq!(control.as_ptr(), 0x1000);
    assert_eq!(control.release(), None);
}

#[test]
fn making_a_child_twice_changes_nothing() {
    let mut once = Control::new(0x1000);
    once.make_child();
    let mut twice = Control::new(0x1000);
    twice.make_child();
    twice.make_child();
    assert_eq!(once, twice);
    assert_eq!(twice.release(), None);
}

#[test]
fn child_asks_for_no_destruction_whatever_is_done_with_it() {
    let mut control = Control::new(0x40);
    control.make_child();
    let calls = vec![
        control.show(),
        control.conceal(),
        control.enable(),
        control.disable(),
        control.is_visible(),
        control.is_enabled(),
        control.is_enabled_to_user(),
        control.native_handle(),
        control.type_id(),
    ];
    assert!(!calls.contains(&destroy(0x40)));
    assert_eq!(control.release(), None);
}

#[test]
fn transient_wrapper_destroys_nothing() {
    let view = Control::transient(0x1000);
    assert_eq!(view.as_ptr(), 0x1000);
    assert!(view.is_child());
    assert_eq!(view.release(), None);
}

#[test]
fn control_calls_name_their_target() {
    let control = Control::new(0x77);
    assert_eq!(control.show(), Call::Do { action: Action::ControlShow, target: 0x77 });
    assert_eq!(control.conceal(), Call::Do { action: Action::ControlHide, target: 0x77 });
    assert_eq!(control.enable(), Call::Do { action: Action::ControlEnable, target: 0x77 });
    assert_eq!(control.disable(), Call::Do { action: Action::ControlDisable, target: 0x77 });
    assert_eq!(
        control.is_visible(),
        Call::GetInt { getter: Getter::ControlVisible, target: 0x77 }
    );
    assert_eq!(
        control.is_enabled(),
        Call::GetInt { getter: Getter::ControlEnabled, target: 0x77 }
    );
    assert_eq!(
        control.is_enabled_to_user(),
        Call::GetInt { getter: Getter::ControlEnabledToUser, target: 0x77 }
    );
    assert_eq!(control.native_handle(), Call::ControlHandle { target: 0x77 });
    assert_eq!(control.type_id(), Call::ControlTypeSignature { target: 0x77 });
}

#[test]
fn known_signatures_give_their_kind() {
    assert_eq!(TypeId::new(0x41726561), TypeId::Area);
    assert_eq!(TypeId::new(0x426F784C), TypeId::UniBox);
    assert_eq!(TypeId::new(0x42746F6E), TypeId::Button);
    assert_eq!(TypeId::new(0x43686B62), TypeId::Checkbox);
    assert_eq!(TypeId::new(0x436F6D62), TypeId::Combobox);
    assert_eq!(TypeId::new(0x466F726D), TypeId::Form);
    assert_eq!(TypeId::new(0x47726964), TypeId::Grid);
    assert_eq!(TypeId::new(0x47727062), TypeId::Group);
    assert_eq!(TypeId::new(0x4C61626C), TypeId::Label);
    assert_eq!(TypeId::new(0x50426172), TypeId::ProgressBar);
    assert_eq!(TypeId::new(0x536C6964), TypeId::Slider);
    assert_eq!(TypeId::new(0x5370696E), TypeId::Spinbox);
    assert_eq!(TypeId::new(0x54616273), TypeId::Tab);
    assert_eq!(TypeId::new(0x5461626C), TypeId::Table);
    assert_eq!(TypeId::new(0x57696E64), TypeId::Window);
}

#[test]
fn other_signatures_are_unknown() {
    assert_eq!(TypeId::new(0), TypeId::Unknown(0));
    assert_eq!(TypeId::new(0x53657061), TypeId::Unknown(0x53657061));
    assert_eq!(TypeId::new(0x5264696F), TypeId::Unknown(0x5264696F));
    assert_eq!(TypeId::new(u32::MAX), TypeId::Unknown(u32::MAX));
}

#[test]
fn signature_of_a_kind_reads_back_as_the_kind() {
    let kinds = [
        TypeId::Area,
        TypeId::UniBox,
        TypeId::Button,
        TypeId::Checkbox,
        TypeId::Combobox,
        TypeId::Form,
        TypeId::Grid,
        TypeId::Group,
        TypeId::Label,
        TypeId::ProgressBar,
        TypeId::Slider,
        TypeId::Spinbox,
        TypeId::Tab,
        TypeId::Table,
        TypeId::Window,
        TypeId::Unknown(5),
    ];
    for kind in kinds {
        assert_eq!(TypeId::new(kind.signature()), kind);
    }
}

#[test]
fn containers_are_told_from_leaves() {
    for kind in [
        TypeId::Window,
        TypeId::UniBox,
        TypeId::Group,
        TypeId::Tab,
        TypeId::Table,
        TypeId::Form,
        TypeId::Grid,
    ] {
        assert!(kind.can_contain());
    }
    for kind in [
        TypeId::Area,
        TypeId::Button,
        TypeId::Checkbox,
        TypeId::Combobox,
        TypeId::Label,
        TypeId::ProgressBar,
        TypeId::Slider,
        TypeId::Spinbox,
        TypeId::Unknown(1),
    ] {
        assert!(!kind.can_contain());
    }
}
