use boing::call::Action;
use boing::call::Attachment;
use boing::call::Constructor;
use boing::call::Event;
use boing::call::Getter;
use boing::call::IndexedGetter;
use boing::call::PairSetter;
use boing::call::Setter;
use boing::call::TextSetter;
use boing::ffi::create_c_string;
use boing::ffi::NulError;
use boing::font::ItalicKind;
use boing::font::StretchKind;
use boing::image::Pixel;
use boing::table::RowBackgroundColor;
use boing::ui::InitGuard;
use boing::Axis;
use boing::Call;
use boing::Checkbox;
use boing::Combobox;
use boing::Control;
use boing::Error;
use boing::Font;
use boing::FontPicker;
use boing::Group;
use boing::Image;
use boing::MenuItem;
use boing::ProgressBar;
use boing::RadioButtons;
use boing::Slider;
use boing::Tab;
use boing::Table;
use boing::Ui;
use boing::UniBox;
use boing::Window;

fn session() -> Ui {
    let mut guard = InitGuard::new();
    Ui::new(guard.claim().unwrap(), None).unwrap()
}

fn nul_at(position: usize) -> Error {
    Error::ConvertRustString(NulError { position })
}

#[test]
fn biaxial_box_is_a_vertical_box_in_a_horizontal_one() {
    let ui = session();
    let (bibox, call) = ui.create_biaxial_box(UniBox::new(0x10), UniBox::new(0x20), true);
    assert_eq!(call, Call::BoxAppend { parent: 0x10, child: 0x20, stretchy: 1 });
    assert_eq!(bibox.as_control().as_ptr(), 0x10);
    assert!(!bibox.as_control().is_child());
    assert_eq!(
        bibox.release(),
        Some(Call::Do { action: Action::ControlDestroy, target: 0x10 })
    );
}

#[test]
fn biaxial_box_hands_its_children_to_the_inner_box() {
    let ui = session();
    let (mut bibox, _) = ui.create_biaxial_box(UniBox::new(0x10), UniBox::new(0x20), false);
    let mut child = Control::new(0x30);
    assert_eq!(
        bibox.append_child(&mut child),
        Call::BoxAppend { parent: 0x20, child: 0x30, stretchy: 0 }
    );
    assert!(child.is_child());
    assert_eq!(child.release(), None);
    assert_eq!(
        bibox.child_count(),
        Call::GetInt { getter: Getter::BoxNumChildren, target: 0x20 }
    );
    assert_eq!(
        bibox.delete_child(4),
        Call::SetInt { setter: Setter::BoxDelete, target: 0x20, value: 4 }
    );
}

#[test]
fn biaxial_box_pads_inside_then_outside() {
    let ui = session();
    let (mut bibox, _) = ui.create_biaxial_box(UniBox::new(0x10), UniBox::new(0x20), false);
    assert_eq!(
        bibox.set_padded(true),
        (
            Call::SetInt { setter: Setter::BoxSetPadded, target: 0x20, value: 1 },
            Call::SetInt { setter: Setter::BoxSetPadded, target: 0x10, value: 1 },
        )
    );
    assert_eq!(bibox.set_padded(true), bibox.set_padded(true));
    assert_eq!(
        bibox.set_padded(false).1,
        Call::SetInt { setter: Setter::BoxSetPadded, target: 0x10, value: 0 }
    );
}

#[test]
fn biaxial_box_that_is_a_child_is_not_destroyed() {
    let ui = session();
    let (mut bibox, _) = ui.create_biaxial_box(UniBox::new(0x10), UniBox::new(0x20), false);
    bibox.as_control_mut().make_child();
    assert_eq!(bibox.release(), None);
}

#[test]
fn axis_gives_the_index_of_the_pushed_child() {
    let axis = Axis::new(0x10);
    let mut child = Control::new(0x20);
    let (index, call) = axis.push_new_child(&mut child, true, 5);
    assert_eq!(index, 5);
    assert_eq!(call, Call::BoxAppend { parent: 0x10, child: 0x20, stretchy: 1 });
    assert!(child.is_child());
    assert_eq!(
        axis.remove_child(5),
        Call::SetInt { setter: Setter::BoxDelete, target: 0x10, value: 5 }
    );
}

#[test]
fn boxes_are_made_by_the_same_constructors() {
    let ui = session();
    assert_eq!(ui.create_horizontal_box(), Call::New(Constructor::HorizontalBox));
    assert_eq!(ui.create_vertical_box(), Call::New(Constructor::VerticalBox));
    assert_eq!(ui.create_horizontal_axis(), Call::New(Constructor::HorizontalBox));
    assert_eq!(ui.create_vertical_axis(), Call::New(Constructor::VerticalBox));
}

#[test]
fn tab_page_makes_its_control_a_child() {
    let tab = Tab::new(0x10);
    let mut page = Control::new(0x20);
    assert_eq!(
        tab.push_new_page("First", &mut page, 0),
        Ok((
            0,
            Call::TabAppend { parent: 0x10, name: create_c_string("First").unwrap(), child: 0x20 }
        ))
    );
    assert!(page.is_child());
}

#[test]
fn tab_page_with_a_bad_name_leaves_its_control_with_its_owner() {
    let tab = Tab::new(0x10);
    let mut page = Control::new(0x20);
    assert_eq!(tab.push_new_page("\0", &mut page, 3), Err(nul_at(0)));
    assert!(!page.is_child());
    assert_eq!(page.as_ptr(), 0x20);
    assert_eq!(page.release(), Some(Call::Do { action: Action::ControlDestroy, target: 0x20 }));
    let mut other = Control::new(0x30);
    assert_eq!(tab.insert_new_page("a\0", 0, &mut other, 3), Err(nul_at(1)));
    assert!(!other.is_child());
    assert_eq!(other.release(), Some(Call::Do { action: Action::ControlDestroy, target: 0x30 }));
}

#[test]
fn tab_page_with_a_bad_name_leaves_a_child_a_child() {
    let tab = Tab::new(0x10);
    let mut page = Control::new(0x20);
    page.make_child();
    assert_eq!(tab.push_new_page("bad\0name", &mut page, 0), Err(nul_at(3)));
    assert!(page.is_child());
    assert_eq!(page.release(), None);
}

#[test]
fn attached_child_keeps_its_address() {
    let mut child = Control::new(0x20);
    UniBox::new(0x10).append_child(&mut child, false);
    assert_eq!(child.as_ptr(), 0x20);
    let mut page = Control::new(0x30);
    Tab::new(0x10).push_new_page("ok", &mut page, 0).unwrap();
    assert_eq!(page.as_ptr(), 0x30);
    assert!(page.is_child());
}

#[test]
fn inserted_tab_page_reports_the_count_before() {
    let tab = Tab::new(0x10);
    let mut page = Control::new(0x20);
    assert_eq!(
        tab.insert_new_page("Second", 1, &mut page, 4),
        Ok((
            4,
            Call::TabInsertAt {
                parent: 0x10,
                name: create_c_string("Second").unwrap(),
                before: 1,
                child: 0x20,
            }
        ))
    );
}

#[test]
fn tab_margins_go_by_page() {
    let tab = Tab::new(0x10);
    assert_eq!(
        tab.is_page_margined(2),
        Call::GetIntAt { indexed_getter: IndexedGetter::TabMargined, target: 0x10, index: 2 }
    );
    assert_eq!(
        tab.set_page_margined(2, true),
        Call::SetPair { pair_setter: PairSetter::TabSetMargined, target: 0x10, first: 2, second: 1 }
    );
    assert_eq!(tab.page_count(), Call::GetInt { getter: Getter::TabNumPages, target: 0x10 });
    assert_eq!(
        tab.remove_page(65535),
        Call::SetInt { setter: Setter::TabDelete, target: 0x10, value: 65535 }
    );
}

#[test]
fn row_background_becomes_a_column_or_minus_one() {
    assert_eq!(RowBackgroundColor::Default.into_param(), -1);
    assert_eq!(RowBackgroundColor::SameAsColumn { index: 0 }.into_param(), 0);
    assert_eq!(RowBackgroundColor::SameAsColumn { index: 65535 }.into_param(), 65535);
}

#[test]
fn table_is_made_over_its_model() {
    let ui = session();
    assert_eq!(
        ui.create_table(0x700, RowBackgroundColor::SameAsColumn { index: 3 }),
        Call::New(Constructor::Table { model: 0x700, row_background: 3 })
    );
    assert_eq!(
        ui.create_table(0x700, RowBackgroundColor::Default),
        Call::New(Constructor::Table { model: 0x700, row_background: -1 })
    );
    let table = Table::new(0x10);
    assert_eq!(
        table.set_column_width(1, 120),
        Call::SetPair {
            pair_setter: PairSetter::TableColumnSetWidth,
            target: 0x10,
            first: 1,
            second: 120,
        }
    );
    assert_eq!(
        table.column_width(1),
        Call::GetIntAt { indexed_getter: IndexedGetter::TableColumnWidth, target: 0x10, index: 1 }
    );
}

#[test]
fn slant_is_read_from_its_number() {
    assert_eq!(ItalicKind::try_from_desc(0), Ok(None));
    assert_eq!(ItalicKind::try_from_desc(1), Ok(Some(ItalicKind::Oblique)));
    assert_eq!(ItalicKind::try_from_desc(2), Ok(Some(ItalicKind::True)));
    assert_eq!(ItalicKind::try_from_desc(3), Err(()));
    assert_eq!(ItalicKind::try_from_desc(u32::MAX), Err(()));
}

#[test]
fn width_is_read_from_its_number() {
    assert_eq!(StretchKind::try_from_desc(0), Ok(StretchKind::UltraCondensed));
    assert_eq!(StretchKind::try_from_desc(1), Ok(StretchKind::ExtraCondensed));
    assert_eq!(StretchKind::try_from_desc(2), Ok(StretchKind::Condensed));
    assert_eq!(StretchKind::try_from_desc(3), Ok(StretchKind::SemiCondensed));
    assert_eq!(StretchKind::try_from_desc(4), Ok(StretchKind::Normal));
    assert_eq!(StretchKind::try_from_desc(5), Ok(StretchKind::SemiExpanded));
    assert_eq!(StretchKind::try_from_desc(6), Ok(StretchKind::ExtraExpanded));
    assert_eq!(StretchKind::try_from_desc(7), Ok(StretchKind::UltraExpanded));
    assert_eq!(StretchKind::try_from_desc(8), Err(()));
    assert_eq!(StretchKind::try_from_desc(u32::MAX), Err(()));
}

#[test]
fn font_is_read_from_its_descriptor() {
    let picker: FontPicker<()> = FontPicker::new(0x10);
    assert_eq!(picker.font_descriptor(), Call::FontButtonFont { target: 0x10 });
    assert_eq!(
        picker.selected_font(b"DejaVu Sans", 400, 2, 4),
        Font {
            family: "DejaVu Sans".to_string(),
            weight: 400,
            italic_kind: Some(ItalicKind::True),
            stretch: StretchKind::Normal,
        }
    );
    assert_eq!(
        picker.selected_font(&[0xFF], 700, 0, 7),
        Font {
            family: "\u{FFFD}".to_string(),
            weight: 700,
            italic_kind: None,
            stretch: StretchKind::UltraExpanded,
        }
    );
}

#[test]
fn pixels_go_over_in_the_order_of_their_fields() {
    let image = Image::new(0x10);
    let pixels = [Pixel { r: 1, b: 2, g: 3, a: 4 }, Pixel { r: 5, b: 6, g: 7, a: 8 }];
    assert_eq!(
        image.append(&pixels, 2, 1, 8),
        Call::ImageAppend {
            target: 0x10,
            pixels: vec![1, 2, 3, 4, 5, 6, 7, 8],
            width: 2,
            height: 1,
            byte_stride: 8,
        }
    );
    assert_eq!(
        image.append(&[], 0, 0, 0),
        Call::ImageAppend { target: 0x10, pixels: vec![], width: 0, height: 0, byte_stride: 0 }
    );
}

#[test]
fn menu_is_made_and_filled() {
    let ui = session();
    assert_eq!(
        ui.create_menu("File"),
        Ok(Call::New(Constructor::Menu { name: create_c_string("File").unwrap() }))
    );
    assert_eq!(ui.create_menu("Fi\0le"), Err(nul_at(2)));
    let menu = ui.adopt_menu(&Constructor::Tab, 0x100).unwrap();
    assert_eq!(menu.as_ptr(), 0x100);
    assert_eq!(
        menu.push_separator(),
        Call::Do { action: Action::MenuAppendSeparator, target: 0x100 }
    );
    assert_eq!(
        menu.push_new_item("Open"),
        Ok(Call::New(Constructor::MenuItem { menu: 0x100, text: create_c_string("Open").unwrap() }))
    );
    assert_eq!(
        menu.push_new_check_item("Wrap"),
        Ok(Call::New(Constructor::MenuCheckItem {
            menu: 0x100,
            text: create_c_string("Wrap").unwrap(),
        }))
    );
    assert_eq!(menu.push_new_item("\0"), Err(nul_at(0)));
    assert_eq!(menu.push_new_check_item("ab\0"), Err(nul_at(2)));
    assert_eq!(menu.push_new_quit_item(), Call::New(Constructor::MenuQuitItem { menu: 0x100 }));
    assert_eq!(
        menu.push_new_preferences_item(),
        Call::New(Constructor::MenuPreferencesItem { menu: 0x100 })
    );
    assert_eq!(menu.push_new_about_item(), Call::New(Constructor::MenuAboutItem { menu: 0x100 }));
}

#[test]
fn menu_item_lives_in_the_session() {
    let ui = session();
    let menu = ui.adopt_menu(&Constructor::Tab, 0x100).unwrap();
    let constructor = Constructor::MenuQuitItem { menu: 0x100 };
    let quit = menu.adopt_item::<u8>(&constructor, 0x200).unwrap();
    let about = menu.adopt_item::<u8>(&constructor, 0x300).unwrap();
    drop(menu);
    assert_eq!(quit.as_ptr(), 0x200);
    assert_eq!(about.as_ptr(), 0x300);
    assert_eq!(
        quit.on_clicked(7),
        Call::Register { event: Event::MenuItemClicked, target: 0x200 }
    );
    assert_eq!(quit.on_clicked_callback(), Some(&mut 7));
    assert_eq!(about.on_clicked_callback(), None);
    assert_eq!(quit.enable(), Call::Do { action: Action::MenuItemEnable, target: 0x200 });
    assert_eq!(quit.disable(), Call::Do { action: Action::MenuItemDisable, target: 0x200 });
    assert_eq!(
        quit.is_checked(),
        Call::GetInt { getter: Getter::MenuItemChecked, target: 0x200 }
    );
    assert_eq!(
        quit.set_checked(true),
        Call::SetInt { setter: Setter::MenuItemSetChecked, target: 0x200, value: 1 }
    );
}

#[test]
fn menu_item_is_not_made_of_no_object() {
    let ui = session();
    let menu = ui.adopt_menu(&Constructor::Tab, 0x100).unwrap();
    match menu.adopt_item::<u8>(&Constructor::MenuAboutItem { menu: 0x100 }, 0) {
        Err(e) => assert_eq!(e, Error::LibuiFn { name: "uiMenuAppendAboutItem", cause: None }),
        Ok(_) => panic!("an item was made of no object"),
    }
}

#[test]
fn new_menu_item_holds_no_callback() {
    let mut item: MenuItem<u8> = MenuItem::new(0x10);
    assert_eq!(item.on_clicked_callback(), None);
}

#[test]
fn combobox_indices() {
    let combobox: Combobox<()> = Combobox::new(0x10);
    assert_eq!(Combobox::<()>::index_of_pushed_item(1), 0);
    assert_eq!(Combobox::<()>::index_of_pushed_item(65535), 65534);
    assert_eq!(
        combobox.insert_new_item("b", 2),
        Ok((
            2,
            Call::ComboboxInsertAt { target: 0x10, index: 2, text: create_c_string("b").unwrap() }
        ))
    );
    assert_eq!(combobox.insert_new_item("\0b", 2), Err(nul_at(0)));
    assert_eq!(
        combobox.push_new_item("a"),
        Ok(Call::SetText {
            text_setter: TextSetter::ComboboxAppend,
            target: 0x10,
            text: create_c_string("a").unwrap(),
        })
    );
    assert_eq!(combobox.clear(), Call::Do { action: Action::ComboboxClear, target: 0x10 });
}

#[test]
fn radio_buttons_count_what_is_pushed() {
    let mut radio: RadioButtons<()> = RadioButtons::new(0x10);
    assert_eq!(radio.item_count(), 0);
    let expected = |text: &str| Call::SetText {
        text_setter: TextSetter::RadioButtonsAppend,
        target: 0x10,
        text: create_c_string(text).unwrap(),
    };
    assert_eq!(radio.push_new_item("a"), Ok((0, expected("a"))));
    assert_eq!(radio.push_new_item("b"), Ok((1, expected("b"))));
    assert_eq!(radio.push_new_item("\0"), Err(nul_at(0)));
    assert_eq!(radio.item_count(), 2);
    assert_eq!(radio.push_new_item("c"), Ok((2, expected("c"))));
    assert_eq!(radio.item_count(), 3);
}

#[test]
fn indefinite_progress_is_minus_one() {
    let bar = ProgressBar::new(0x10);
    assert_eq!(
        bar.set_as_indefinite(),
        Call::SetInt { setter: Setter::ProgressBarSetValue, target: 0x10, value: -1 }
    );
    assert_eq!(
        bar.set_value(50),
        Call::SetInt { setter: Setter::ProgressBarSetValue, target: 0x10, value: 50 }
    );
}

#[test]
fn slider_range_is_least_then_greatest() {
    let ui = session();
    assert_eq!(ui.create_slider(1, 10), Call::New(Constructor::Slider { min: 1, max: 10 }));
    assert_eq!(ui.create_spinbox(0, 65535), Call::New(Constructor::Spinbox { min: 0, max: 65535 }));
    let slider: Slider<()> = Slider::new(0x10);
    assert_eq!(
        slider.set_range(3, 9),
        Call::SetPair { pair_setter: PairSetter::SliderSetRange, target: 0x10, first: 3, second: 9 }
    );
}

#[test]
fn group_and_window_take_their_child() {
    let group = Group::new(0x10);
    let mut child = Control::new(0x20);
    assert_eq!(
        group.set_child(&mut child),
        Call::Attach { attachment: Attachment::GroupSetChild, parent: 0x10, child: 0x20 }
    );
    assert!(child.is_child());
    let window: Window<()> = Window::new(0x30);
    let mut child = Control::new(0x40);
    assert_eq!(
        window.set_child(&mut child),
        Call::Attach { attachment: Attachment::WindowSetChild, parent: 0x30, child: 0x40 }
    );
    assert_eq!(child.release(), None);
}

#[test]
fn window_callbacks_have_a_slot_each() {
    let mut window: Window<u8> = Window::new(0x10);
    assert_eq!(
        window.on_closing(1),
        Call::Register { event: Event::WindowClosing, target: 0x10 }
    );
    assert_eq!(window.on_content_size_changed_callback(), None);
    assert_eq!(
        window.on_content_size_changed(2),
        Call::Register { event: Event::WindowContentSizeChanged, target: 0x10 }
    );
    assert_eq!(window.on_closing_callback(), Some(&mut 1));
    assert_eq!(window.on_content_size_changed_callback(), Some(&mut 2));
    window.on_closing(3);
    assert_eq!(window.on_closing_callback(), Some(&mut 3));
    assert_eq!(window.on_content_size_changed_callback(), Some(&mut 2));
}

#[test]
fn window_size() {
    let window: Window<()> = Window::new(0x10);
    assert_eq!(window.content_size(), Call::WindowContentSize { target: 0x10 });
    assert_eq!(
        window.set_content_size(800, 600),
        Call::SetPair {
            pair_setter: PairSetter::WindowSetContentSize,
            target: 0x10,
            first: 800,
            second: 600,
        }
    );
}

#[test]
fn message_boxes() {
    let window: Window<()> = Window::new(0x10);
    assert_eq!(
        window.present_alert("Note", "Saved."),
        Ok(Call::MsgBox {
            window: 0x10,
            title: create_c_string("Note").unwrap(),
            description: create_c_string("Saved.").unwrap(),
        })
    );
    assert_eq!(
        window.present_error("Oops", "Lost."),
        Ok(Call::MsgBoxError {
            window: 0x10,
            title: create_c_string("Oops").unwrap(),
            description: create_c_string("Lost.").unwrap(),
        })
    );
}

#[test]
fn message_box_reports_the_title_before_the_description() {
    let window: Window<()> = Window::new(0x10);
    assert_eq!(window.present_alert("ab\0", "\0"), Err(nul_at(2)));
    assert_eq!(window.present_alert("ab", "c\0"), Err(nul_at(1)));
    assert_eq!(window.present_error("\0", "fine"), Err(nul_at(0)));
    assert_eq!(window.present_error("fine", "\0"), Err(nul_at(0)));
}

#[test]
fn checkbox_state() {
    let ui = session();
    assert_eq!(
        ui.create_checkbox("Wrap"),
        Ok(Call::New(Constructor::Checkbox { text: create_c_string("Wrap").unwrap() }))
    );
    assert_eq!(ui.create_checkbox("W\0"), Err(nul_at(1)));
    let checkbox: Checkbox<()> = Checkbox::new(0x10);
    assert_eq!(
        checkbox.checked(),
        Call::GetInt { getter: Getter::CheckboxChecked, target: 0x10 }
    );
    assert_eq!(
        checkbox.set_checked(false),
        Call::SetInt { setter: Setter::CheckboxSetChecked, target: 0x10, value: 0 }
    );
}
