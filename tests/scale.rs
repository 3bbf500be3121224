use sizes::Scale;

const ALL: [Scale; 7] = [
    Scale::XXSM,
    Scale::XSM,
    Scale::SM,
    Scale::MD,
    Scale::LG,
    Scale::XLG,
    Scale::XXLG,
];

#[test]
fn from_text_reads_every_token_in_any_case() {
    assert_eq!(Scale::from("xxsm"), Scale::XXSM);
    assert_eq!(Scale::from("XSM"), Scale::XSM);
    assert_eq!(Scale::from("Sm"), Scale::SM);
    assert_eq!(Scale::from("md"), Scale::MD);
    assert_eq!(Scale::from("lg"), Scale::LG);
    assert_eq!(Scale::from("xLg"), Scale::XLG);
    assert_eq!(Scale::from("XXLG"), Scale::XXLG);
}

#[test]
fn from_text_defaults_to_smallest() {
    assert_eq!(Scale::from("huge"), Scale::XXSM);
    assert_eq!(Scale::from(""), Scale::XXSM);
    assert_eq!(Scale::from(None), Scale::XXSM);
    assert_eq!(Scale::from(Some(String::from("lg"))), Scale::LG);
    assert_eq!(Scale::from(String::from("MD")), Scale::MD);
    let s = String::from("xlg");
    assert_eq!(Scale::from(&s), Scale::XLG);
}

#[test]
fn scale_display_text_is_upper_case_token() {
    let tokens = ["XXSM", "XSM", "SM", "MD", "LG", "XLG", "XXLG"];
    for (sc, t) in ALL.iter().zip(tokens.iter()) {
        assert_eq!(sc.to_display_text(), *t);
    }
}

#[test]
fn scale_display_text_round_trips() {
    for sc in ALL {
        assert_eq!(Scale::parse_strict(sc.to_display_text()).unwrap(), sc);
    }
}

#[test]
fn scale_strict_parse_rejects_unknown_token() {
    let err = Scale::parse_strict("bogus").unwrap_err();
    assert_eq!(err.variant, "bogus");
    assert!(Scale::parse_strict("xxxlg").is_err());
    assert_eq!(Scale::parse_lenient("bogus"), Scale::XXSM);
}

#[test]
fn scales_are_ordered_by_tier() {
    for i in 0..ALL.len() {
        for j in 0..ALL.len() {
            assert_eq!(ALL[i] < ALL[j], i < j);
            assert_eq!(ALL[i] == ALL[j], i == j);
            assert_eq!(ALL[i].cmp(&ALL[j]), i.cmp(&j));
            assert_eq!(ALL[i].partial_cmp(&ALL[j]), Some(i.cmp(&j)));
        }
    }
    assert!(Scale::XXSM < Scale::XSM && Scale::XSM < Scale::SM && Scale::SM < Scale::MD);
    assert!(Scale::MD < Scale::LG && Scale::LG < Scale::XLG && Scale::XLG < Scale::XXLG);
    assert!(Scale::XXSM < Scale::XXLG);
    assert_eq!(ALL.iter().max(), Some(&Scale::XXLG));
    assert_eq!(ALL.iter().min(), Some(&Scale::XXSM));
}

#[test]
fn scale_positions() {
    for (i, sc) in ALL.iter().enumerate() {
        assert_eq!(sc.position() as usize, i);
    }
}

#[test]
fn scale_default_is_smallest() {
    assert_eq!(Scale::default(), Scale::XXSM);
}
