use nezumi::mouse::BatteryStatus;
use nezumi::status::{append_decimal, status_line, GLYPH_CHARGING, GLYPH_MOUSE};

#[test]
fn glyphs() {
    assert_eq!(GLYPH_MOUSE, '\u{f8cc}');
    assert_eq!(GLYPH_CHARGING, '\u{f0e7}');
}

#[test]
fn line_of_a_mouse_on_battery() {
    let status = BatteryStatus { is_charging: false, percent: 60 };
    assert_eq!(status_line(&status), "\u{f8cc} 60%");
}

#[test]
fn line_of_a_charging_mouse() {
    let status = BatteryStatus { is_charging: true, percent: 100 };
    assert_eq!(status_line(&status), "\u{f8cc}\u{f0e7} 100%");
}

#[test]
fn line_of_an_empty_battery() {
    assert_eq!(status_line(&BatteryStatus { is_charging: false, percent: 0 }), "\u{f8cc} 0%");
    assert_eq!(
        status_line(&BatteryStatus { is_charging: true, percent: 5 }),
        "\u{f8cc}\u{f0e7} 5%"
    );
}

#[test]
fn line_is_what_formatting_gives() {
    for percent in [0u16, 5, 9, 10, 55, 99, 100, 101, 625, 999, 1000, 9999, 10000, 65535] {
        for is_charging in [false, true] {
            let expected = format!(
                "\u{f8cc}{} {}%",
                if is_charging { "\u{f0e7}" } else { "" },
                percent
            );
            assert_eq!(status_line(&BatteryStatus { is_charging, percent }), expected);
        }
    }
}

#[test]
fn decimal_of_every_number() {
    for n in 0u16..=65535 {
        let mut line = String::from("x");
        append_decimal(&mut line, n);
        assert_eq!(line, format!("x{}", n));
    }
}
