use zoha::hack::init_keycode;
use zoha::hack::keycode_name;
use zoha::hack::list_keycodes;
use zoha::hack::KeyError;
use zoha::hack::KeyGrabber;

fn keys(names: &[&str]) -> Vec<String> {
    names.iter().map(|name| name.to_string()).collect()
}

#[test]
fn keycodes_are_listed_in_order() {
    let names = list_keycodes();
    assert_eq!(names.len(), 96);
    assert_eq!(names[0], "Key0");
    assert_eq!(names[10], "A");
    assert_eq!(names[36], "F1");
    assert_eq!(names[56], "Meta");
    assert_eq!(names[95], "Slash");
}

#[test]
fn every_listed_keycode_is_known_under_its_own_number() {
    for (place, name) in list_keycodes().into_iter().enumerate() {
        let grabber = init_keycode(&keys(&[name])).unwrap();
        assert_eq!(grabber.get_keycodes(), vec![place as u32]);
        assert_eq!(keycode_name(place as u32), Some(name));
    }
    assert_eq!(keycode_name(96), None);
}

#[test]
fn an_unknown_keycode_is_reported() {
    let refused = init_keycode(&keys(&["LControl", "Hyper", "F1", "Nope"]));
    match refused {
        Err(KeyError::InvalidKeycode(key)) => assert_eq!(key, "Hyper"),
        Ok(_) => panic!("an unknown key was accepted"),
    }
    let error = init_keycode(&keys(&["f1"])).err().unwrap();
    assert_eq!(error.to_string(), "invalid keycode: f1");
}

#[test]
fn the_window_toggles_when_exactly_the_configured_keys_are_down() {
    let mut grabber = init_keycode(&keys(&["LControl", "F1"])).unwrap();
    let control = 50;
    let f1 = 36;
    let a = 10;
    assert_eq!(keycode_name(control), Some("LControl"));
    assert!(!grabber.down(control));
    assert!(grabber.down(f1));
    assert!(grabber.down(f1));
    assert!(!grabber.down(a));
    grabber.up(a);
    grabber.up(f1);
    assert!(grabber.down(f1));
    grabber.up(control);
    grabber.up(control);
    assert!(!grabber.down(f1));
}

#[test]
fn repeated_keys_count_once() {
    let mut grabber = KeyGrabber::from_codes(&vec![3, 3, 5]);
    assert_eq!(grabber.get_keycodes(), vec![3, 5]);
    assert!(!grabber.down(5));
    assert!(grabber.down(3));
    let mut nothing = KeyGrabber::from_codes(&Vec::new());
    assert!(!nothing.down(1));
    nothing.up(1);
}
