use smallvil::extra_state::WindowPosition;
use smallvil::input::{
    parse_key, parse_pressed_key, parse_released_key, Action, FilterResult, ModifiersState,
    KEY_COMMA, KEY_F, KEY_G, KEY_H, KEY_I, KEY_J, KEY_K, KEY_M, KEY_N, KEY_SWITCH_VT_1,
    KEY_SWITCH_VT_12, KEY_TAB, KEY_U, KEY_X, KEY_Y,
};
use xkeysym::key;

const PLAIN: ModifiersState = ModifiersState { ctrl: false, alt: false, logo: false };
const ALT: ModifiersState = ModifiersState { ctrl: false, alt: true, logo: false };
const LOGO: ModifiersState = ModifiersState { ctrl: false, alt: false, logo: true };
const CTRL: ModifiersState = ModifiersState { ctrl: true, alt: false, logo: false };
const CTRL_ALT: ModifiersState = ModifiersState { ctrl: true, alt: true, logo: false };

const BOUND: [u32; 13] = [
    key::Tab,
    key::f,
    key::g,
    key::x,
    key::y,
    key::u,
    key::i,
    key::k,
    key::comma,
    key::m,
    key::j,
    key::n,
    key::h,
];

fn focus(slot: WindowPosition) -> FilterResult {
    FilterResult::Intercept(Action::FocusInDirection(slot))
}

fn spawn(command: &'static str) -> FilterResult {
    FilterResult::Intercept(Action::SpawnCommand(command))
}

#[test]
fn key_numbers() {
    assert_eq!(KEY_TAB, key::Tab);
    assert_eq!(KEY_COMMA, key::comma);
    assert_eq!(KEY_F, key::f);
    assert_eq!(KEY_G, key::g);
    assert_eq!(KEY_H, key::h);
    assert_eq!(KEY_I, key::i);
    assert_eq!(KEY_J, key::j);
    assert_eq!(KEY_K, key::k);
    assert_eq!(KEY_M, key::m);
    assert_eq!(KEY_N, key::n);
    assert_eq!(KEY_U, key::u);
    assert_eq!(KEY_X, key::x);
    assert_eq!(KEY_Y, key::y);
    assert_eq!(KEY_SWITCH_VT_1, key::XF86_Switch_VT_1);
    assert_eq!(KEY_SWITCH_VT_12, key::XF86_Switch_VT_12);
}

#[test]
fn bound_keys() {
    for modifiers in [ALT, LOGO, CTRL_ALT] {
        let pressed = |sym: u32| parse_pressed_key(&modifiers, sym);
        assert_eq!(pressed(key::Tab), FilterResult::Intercept(Action::Quit));
        assert_eq!(pressed(key::f), spawn("firefox"));
        assert_eq!(pressed(key::g), spawn("ghostty"));
        assert_eq!(pressed(key::x), spawn("systemctl suspend"));
        assert_eq!(pressed(key::y), focus(WindowPosition::TopLeft));
        assert_eq!(pressed(key::u), focus(WindowPosition::Top));
        assert_eq!(pressed(key::i), focus(WindowPosition::TopRight));
        assert_eq!(pressed(key::k), focus(WindowPosition::Right));
        assert_eq!(pressed(key::comma), focus(WindowPosition::BottomRight));
        assert_eq!(pressed(key::m), focus(WindowPosition::Bottom));
        assert_eq!(pressed(key::j), focus(WindowPosition::Bottom));
        assert_eq!(pressed(key::n), focus(WindowPosition::BottomLeft));
        assert_eq!(pressed(key::h), focus(WindowPosition::Left));
        assert_eq!(pressed(key::a), FilterResult::Forward);
        assert_eq!(pressed(key::F), FilterResult::Forward);
    }
}

#[test]
fn plain_keys_are_forwarded() {
    for sym in BOUND {
        assert_eq!(parse_pressed_key(&PLAIN, sym), FilterResult::Forward);
        assert_eq!(parse_pressed_key(&CTRL, sym), FilterResult::Forward);
    }
}

#[test]
fn released_keys_are_forwarded() {
    for sym in BOUND {
        assert_eq!(parse_released_key(&ALT, sym), FilterResult::Forward);
    }
}

#[test]
fn keys_act_when_they_are_pressed() {
    for sym in BOUND {
        assert_eq!(parse_key(true, &ALT, sym), parse_pressed_key(&ALT, sym));
        assert!(matches!(parse_key(true, &ALT, sym), FilterResult::Intercept(_)));
        assert_eq!(parse_key(true, &PLAIN, sym), FilterResult::Forward);
        assert_eq!(parse_key(false, &ALT, sym), FilterResult::Forward);
    }
}

#[test]
fn keys_of_virtual_terminals() {
    for vt in 1..=12 {
        let sym = key::XF86_Switch_VT_1 + vt - 1;
        assert_eq!(
            parse_pressed_key(&CTRL_ALT, sym),
            FilterResult::Intercept(Action::VtSwitch(vt as i32))
        );
        assert_eq!(parse_pressed_key(&ALT, sym), FilterResult::Forward);
        assert_eq!(parse_pressed_key(&CTRL, sym), FilterResult::Forward);
    }
    assert_eq!(
        parse_pressed_key(&CTRL_ALT, key::XF86_Switch_VT_12 + 1),
        FilterResult::Forward
    );
    assert_eq!(
        parse_pressed_key(&CTRL_ALT, key::XF86_Switch_VT_1 - 1),
        FilterResult::Forward
    );
}
