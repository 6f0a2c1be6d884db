use quiz_report::codes::{select_types, type_letters, QuestionTypeCode, TypeToggles, CODE_COUNT};

const ORDER: [QuestionTypeCode; 9] = [
    QuestionTypeCode::A,
    QuestionTypeCode::G,
    QuestionTypeCode::I,
    QuestionTypeCode::Q,
    QuestionTypeCode::R,
    QuestionTypeCode::S,
    QuestionTypeCode::X,
    QuestionTypeCode::V,
    QuestionTypeCode::M,
];

fn toggles_of(bits: u32) -> TypeToggles {
    let mut flags = [false; 9];
    for (i, flag) in flags.iter_mut().enumerate() {
        *flag = bits & (1 << i) != 0;
    }
    TypeToggles { flags }
}

#[test]
fn all_toggles_give_all_codes_in_order() {
    let codes = select_types(&TypeToggles::all());
    assert_eq!(codes, ORDER.to_vec());
    assert_eq!(type_letters(&codes), vec!['A', 'G', 'I', 'Q', 'R', 'S', 'X', 'V', 'M']);
}

#[test]
fn no_toggle_gives_no_code() {
    let codes = select_types(&TypeToggles::none());
    assert!(codes.is_empty());
    assert!(type_letters(&codes).is_empty());
}

#[test]
fn a_subset_keeps_the_fixed_order() {
    let toggles = TypeToggles {
        flags: [false, true, false, true, false, false, true, false, true],
    };
    let codes = select_types(&toggles);
    assert_eq!(
        codes,
        vec![
            QuestionTypeCode::G,
            QuestionTypeCode::Q,
            QuestionTypeCode::X,
            QuestionTypeCode::M
        ]
    );
    assert_eq!(type_letters(&codes), vec!['G', 'Q', 'X', 'M']);
}

#[test]
fn memory_verse_toggle_alone_gives_m() {
    let toggles = TypeToggles {
        flags: [false, false, false, false, false, false, false, false, true],
    };
    assert_eq!(select_types(&toggles), vec![QuestionTypeCode::M]);
}

#[test]
fn selection_does_not_depend_on_how_toggles_were_set() {
    let mut forwards = TypeToggles::none();
    for i in [0usize, 4, 7] {
        forwards.flags[i] = true;
    }
    let mut backwards = TypeToggles::none();
    for i in [7usize, 4, 0] {
        backwards.flags[i] = true;
    }
    let mut cleared = TypeToggles::all();
    for i in [1usize, 2, 3, 5, 6, 8] {
        cleared.flags[i] = false;
    }
    let expected = vec![QuestionTypeCode::A, QuestionTypeCode::R, QuestionTypeCode::V];
    assert_eq!(select_types(&forwards), expected);
    assert_eq!(select_types(&backwards), expected);
    assert_eq!(select_types(&cleared), expected);
    assert_eq!(select_types(&forwards), select_types(&forwards));
}

#[test]
fn every_subset_is_selected_exactly_and_in_order() {
    for bits in 0u32..512 {
        let toggles = toggles_of(bits);
        let codes = select_types(&toggles);
        let expected: Vec<QuestionTypeCode> = ORDER
            .iter()
            .copied()
            .filter(|code| toggles.flags[code.position()])
            .collect();
        assert_eq!(codes, expected);
        assert_eq!(codes.len(), bits.count_ones() as usize);
        for pair in codes.windows(2) {
            assert!(pair[0].position() < pair[1].position());
        }
        for code in ORDER {
            assert_eq!(toggles.is_on(code), codes.contains(&code));
        }
    }
}

#[test]
fn different_toggles_give_different_selections() {
    for one in 0u32..512 {
        let other = one ^ 0b1_0001_0000;
        assert_ne!(select_types(&toggles_of(one)), select_types(&toggles_of(other)));
    }
}

#[test]
fn positions_and_codes_correspond() {
    assert_eq!(CODE_COUNT, 9);
    for (i, code) in ORDER.iter().enumerate() {
        assert_eq!(code.position(), i);
        assert_eq!(QuestionTypeCode::from_position(i), Some(*code));
    }
    assert_eq!(QuestionTypeCode::from_position(9), None);
    assert_eq!(QuestionTypeCode::from_position(usize::MAX), None);
}

#[test]
fn symbols_are_the_code_letters() {
    let symbols: Vec<char> = ORDER.iter().map(|code| code.symbol()).collect();
    assert_eq!(symbols, vec!['A', 'G', 'I', 'Q', 'R', 'S', 'X', 'V', 'M']);
}

#[test]
fn is_on_reads_the_toggle_of_the_code() {
    let toggles = TypeToggles {
        flags: [true, false, false, false, false, false, false, true, false],
    };
    assert!(toggles.is_on(QuestionTypeCode::A));
    assert!(toggles.is_on(QuestionTypeCode::V));
    assert!(!toggles.is_on(QuestionTypeCode::M));
    assert!(!toggles.is_on(QuestionTypeCode::G));
}
