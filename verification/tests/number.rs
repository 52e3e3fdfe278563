use koe::number::is_float;

#[test]
fn plain_numbers_are_numerals() {
    let texts =
        ["0", "7", "0.5", "1.", ".5", "007", "+1", "-1", "+.5", "-0.0", "123456789012345678901234"];
    for text in texts {
        assert!(is_float(text));
    }
}

#[test]
fn exponents_are_read() {
    for text in ["1e3", "1E3", "1e+3", "1e-3", "1.5e10", "1.e5", ".5E-2", "-2e0", "0e000"] {
        assert!(is_float(text));
    }
    for text in ["1e", "1e+", "e5", ".e5", "1e5.0", "1e 5", "1ee5", "1e5e5", "1e++5", "1x5"] {
        assert!(!is_float(text));
    }
}

#[test]
fn named_values_count_in_either_case() {
    let texts = [
        "inf", "INF", "Inf", "+inf", "-infinity", "Infinity", "iNfInItY", "nan", "NaN", "-NAN",
        "+nan",
    ];
    for text in texts {
        assert!(is_float(text));
    }
    for text in ["in", "infi", "infinit", "infinityy", "na", "nann", "++inf", "i nf", "ınf"] {
        assert!(!is_float(text));
    }
}

#[test]
fn other_texts_are_no_numerals() {
    let texts = [
        "", ".", "+", "-", "+-1", "1..2", "1.2.3", " 1", "1 ", "1,5", "0x10", "1_000", "٣", "one",
        "1f", "--1",
    ];
    for text in texts {
        assert!(!is_float(text));
    }
}

#[test]
fn is_float_agrees_with_the_standard_library() {
    let pieces =
        ["", "+", "-", "0", "12", ".", "e", "E", "e+", "e-3", "inf", "INFINITY", "nan", "x", " "];
    for a in pieces {
        for b in pieces {
            for c in pieces {
                let text = format!("{a}{b}{c}");
                assert_eq!(is_float(&text), text.parse::<f64>().is_ok(), "{text:?}");
            }
        }
    }
}
