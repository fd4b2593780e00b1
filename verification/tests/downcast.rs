use boing::control::TypeId;
use boing::downcast::Downcasted;
use boing::Control;

#[test]
fn control_of_a_known_kind_becomes_its_widget() {
    match Control::new(0x10).downcast::<u8>(TypeId::new(0x42746F6E)) {
        Ok(Downcasted::Button(mut button)) => {
            assert_eq!(button.as_ptr(), 0x10);
            assert!(!button.as_control().is_child());
            assert_eq!(button.on_clicked_callback(), None);
        }
        other => panic!("{:?}", other),
    }
    match Control::new(0x20).downcast::<u8>(TypeId::Window) {
        Ok(Downcasted::Window(window)) => assert_eq!(window.as_ptr(), 0x20),
        other => panic!("{:?}", other),
    }
    match Control::new(0x30).downcast::<u8>(TypeId::UniBox) {
        Ok(Downcasted::UniBox(unibox)) => assert_eq!(unibox.as_ptr(), 0x30),
        other => panic!("{:?}", other),
    }
}

#[test]
fn downcast_keeps_who_destroys_the_control() {
    let mut control = Control::new(0x10);
    control.make_child();
    match control.downcast::<u8>(TypeId::Label) {
        Ok(Downcasted::Label(label)) => {
            assert!(label.as_control().is_child());
            assert_eq!(label.into_control().release(), None);
        }
        other => panic!("{:?}", other),
    }
}

#[test]
fn control_of_an_unknown_kind_stays_a_control() {
    match Control::new(0x10).downcast::<u8>(TypeId::new(0x53657061)) {
        Err(control) => {
            assert_eq!(control.as_ptr(), 0x10);
            assert!(control.release().is_some());
        }
        Ok(widget) => panic!("{:?}", widget),
    }
}
