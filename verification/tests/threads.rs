use boing::ffi::Address;
use boing::Button;
use boing::Control;
use boing::Menu;
use boing::MenuItem;
use boing::Ui;
use boing::Window;

// `stays::<T, _>()` compiles only where one of the two impls applies to `T`,
// which is so exactly where `T` cannot be sent to another thread.
trait Stays<A> {
    fn here() -> bool {
        true
    }
}

impl<T: ?Sized> Stays<()> for T {}

impl<T: ?Sized + Send> Stays<u8> for T {}

fn stays<T: Stays<A>, A>() -> bool {
    T::here()
}

#[test]
fn control_stays_on_its_thread() {
    assert!(stays::<Control, _>());
    assert!(stays::<&Control, _>());
}

#[test]
fn session_stays_on_its_thread() {
    assert!(stays::<Ui, _>());
    assert!(stays::<&Ui, _>());
}

#[test]
fn widgets_stay_on_their_thread() {
    assert!(stays::<Button<u8>, _>());
    assert!(stays::<Window<u8>, _>());
    assert!(stays::<MenuItem<u8>, _>());
    assert!(stays::<Menu<'static>, _>());
    assert!(stays::<Address, _>());
}
