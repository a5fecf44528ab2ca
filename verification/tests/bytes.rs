use dc::ansi::Theme;
use dc::bytes::{format_bytes, Unit};

const UNITS: [(f32, &str); 6] = [
    (1024.0, "k"),
    (1024.0 * 1024.0, "M"),
    (1024.0 * 1024.0 * 1024.0, "G"),
    (1024.0 * 1024.0 * 1024.0 * 1024.0, "T"),
    (1024.0 * 1024.0 * 1024.0 * 1024.0 * 1024.0, "P"),
    (1024.0 * 1024.0 * 1024.0 * 1024.0 * 1024.0 * 1024.0, "E"),
];

/// The same size worked out in single precision.
fn in_floats(bytes: u64) -> String {
    let bytes = bytes as f32;
    let unit = UNITS.iter().take_while(|unit| unit.0 <= bytes).last().unwrap_or(&UNITS[0]);
    let value = bytes / unit.0;
    let n_decimals = if value < 10.0 {
        2
    } else if value < 100.0 {
        1
    } else {
        0
    };
    let decimal_point = if n_decimals == 0 { "." } else { "" };
    format!("{:.*}{} {}", n_decimals, value, decimal_point, unit.1)
}

fn shown(bytes: u64) -> String {
    format_bytes(&Theme::plain(), bytes)
}

#[test]
fn sizes_read_as_expected() {
    assert_eq!(shown(0), "0.00 k");
    assert_eq!(shown(1), "0.00 k");
    assert_eq!(shown(5), "0.00 k");
    assert_eq!(shown(6), "0.01 k");
    assert_eq!(shown(512), "0.50 k");
    assert_eq!(shown(1023), "1.00 k");
    assert_eq!(shown(1024), "1.00 k");
    assert_eq!(shown(1536), "1.50 k");
    assert_eq!(shown(10 * 1024), "10.0 k");
    assert_eq!(shown(150 * 1024), "150. k");
    assert_eq!(shown(1024 * 1024 - 1), "1024. k");
    assert_eq!(shown(1024 * 1024), "1.00 M");
    assert_eq!(shown(5 * 1024 * 1024 * 1024), "5.00 G");
    assert_eq!(shown(1 << 40), "1.00 T");
    assert_eq!(shown(1 << 50), "1.00 P");
    assert_eq!(shown(1 << 60), "1.00 E");
    assert_eq!(shown(u64::MAX), "16.0 E");
}

#[test]
fn sizes_take_the_colour_of_their_unit() {
    let codes = (0..16).map(|n| format!("<{n}>")).collect();
    let theme = Theme::custom(codes, "</>".to_string()).unwrap();
    assert_eq!(format_bytes(&theme, 2048), "<12>2.00 k</>");
    assert_eq!(format_bytes(&theme, 3 << 20), "<14>3.00 M</>");
    assert_eq!(format_bytes(&theme, 3 << 30), "<13>3.00 G</>");
    assert_eq!(format_bytes(&theme, 3 << 40), "<9>3.00 T</>");
    assert_eq!(format_bytes(&theme, 3 << 50), "<9>3.00 P</>");
    assert_eq!(format_bytes(&theme, 3 << 60), "<9>3.00 E</>");
    assert_eq!(Unit::Kilo.bytes(), 1024);
    assert_eq!(Unit::Exa.bytes(), 1 << 60);
    assert_eq!(Unit::Giga.letter(), "G");
}

#[test]
fn sizes_agree_with_single_precision_at_the_edges() {
    let mut edges: Vec<u64> = Vec::new();
    for shift in 0..64u32 {
        let power = 1u64 << shift;
        for factor in [1u64, 3, 5, 10, 100, 1000, 1023, 1024, 1025] {
            let base = power.saturating_mul(factor);
            for delta in 0..4u64 {
                edges.push(base.saturating_add(delta));
                edges.push(base.saturating_sub(delta));
            }
            edges.push(base.saturating_add(power / 2));
            edges.push(base.saturating_sub(power / 2));
            edges.push(base.saturating_add(power >> 24));
            edges.push(base.saturating_add(power >> 25));
            edges.push(base.saturating_add((power >> 25) + 1));
            edges.push(base.saturating_add((power >> 24) + (power >> 25)));
        }
    }
    edges.push(u64::MAX);
    edges.push(u64::MAX - (1 << 39));
    edges.push(u64::MAX - (1 << 40));
    for bytes in edges {
        assert_eq!(shown(bytes), in_floats(bytes), "{bytes}");
    }
}

#[test]
fn sizes_agree_with_single_precision_where_rounding_ties() {
    for unit in [10u32, 20, 30, 40, 50, 60] {
        for hundredths in 0..1100u64 {
            for eighth in [0u64, 1, 2, 3, 4, 5, 6, 7] {
                let numerator = hundredths * 8 + eighth;
                let Some(scaled) = numerator.checked_mul(1u64 << unit) else { continue };
                let bytes = scaled / 800;
                assert_eq!(shown(bytes), in_floats(bytes), "{bytes}");
                let bytes = (scaled / 800).saturating_add(1);
                assert_eq!(shown(bytes), in_floats(bytes), "{bytes}");
            }
        }
    }
    for sixteenths in 0..(16 * 1100u64) {
        let bytes = sixteenths << 6;
        assert_eq!(shown(bytes), in_floats(bytes), "{bytes}");
        let bytes = sixteenths << 26;
        assert_eq!(shown(bytes), in_floats(bytes), "{bytes}");
    }
}

#[test]
fn sizes_agree_with_single_precision_all_over() {
    let mut state: u64 = 0x9e37_79b9_7f4a_7c15;
    for round in 0..20000u32 {
        state ^= state << 13;
        state ^= state >> 7;
        state ^= state << 17;
        let bytes = state >> (round % 64);
        assert_eq!(shown(bytes), in_floats(bytes), "{bytes}");
    }
    for bytes in 0..5000u64 {
        assert_eq!(shown(bytes), in_floats(bytes), "{bytes}");
    }
}
